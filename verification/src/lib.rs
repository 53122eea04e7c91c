//! The logic of an escape-time fractal renderer: the render state, the
//! protocol of a render job, the protocol of a worker pool, and the text
//! formats of the front ends.
//!
//! The library computes on integers and text only. A scalar is a 64-bit
//! IEEE-754 value held by its bit pattern, so that every rule on scalars
//! here is a rule on integers; arithmetic on scalars is the caller's.
//! Threads, sockets and files are the caller's too: what a thread or a
//! connection does next is decided here, as a step from one state to the
//! next.

pub mod cli;
pub mod colors;
pub mod cuda;
pub mod gui;
pub mod http;
pub mod job;
pub mod math;
pub mod render;
pub mod text;
pub mod threadpool;
pub mod util;
