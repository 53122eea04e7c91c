[package]
name = "backend"
version = "0.1.0"
edition = "2021"

[dependencies]
rand = "0.7"
image = { version = "0.25", default-features = false, features = ["png"] }
