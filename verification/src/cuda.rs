//! The boundary to the native compute kernel: what is handed to it and
//! what its return means for the render.
//!
//! The kernel receives the grid, the record that `kernel_header` fills and
//! the ceiling of iterations; it gives back the grid, element for element
//! in place, and a status, zero for success.

use vstd::prelude::*;
use crate::render::{Pixel, Render};
use crate::text::{decimal, decimal_text};

verus! {

/// A failed render, with its message.
#[derive(Debug, Clone)]
pub struct RenderError(pub String);

/// The integers of the record that the kernel receives beside the grid.
#[derive(Clone, Copy, Debug, PartialEq, Eq, Structural)]
pub struct KernelHeader {
    /// Iterations already completed on the grid.
    pub iterations: u32,
    /// Number of pixels of the grid.
    pub num: u32,
    pub width: u32,
    pub height: u32,
}

/// The message of a kernel failure with the given status.
pub open spec fn kernel_error_text(status: u32) -> Seq<char> {
    "CUDA Error ["@ + decimal(status as nat) + "]."@
}

impl RenderError {
    /// The message.
    pub fn description(&self) -> (r: &str)
        ensures
            r@ == self.0@,
    {
        self.0.as_str()
    }

    /// The message behind the words `RenderError: `.
    pub fn to_string(&self) -> (r: String)
        ensures
            r@ == "RenderError: "@ + self.0@,
    {
        let mut r = String::from_str("RenderError: ");
        r.append(self.0.as_str());
        r
    }
}

/// The record for a run on `render`.
pub fn kernel_header(render: &Render) -> (header: KernelHeader)
    requires
        render.wf(),
    ensures
        header == (KernelHeader {
            iterations: render.iterations,
            num: render.pixels@.len() as u32,
            width: render.params.image_size.0,
            height: render.params.image_size.1,
        }),
        header.num == header.width * header.height,
{
    KernelHeader {
        iterations: render.iterations,
        num: render.pixels.len() as u32,
        width: render.params.image_size.0,
        height: render.params.image_size.1,
    }
}

/// The error of a kernel run that ended with `status`.
pub fn kernel_error(status: u32) -> (e: RenderError)
    ensures
        e.0@ == kernel_error_text(status),
{
    let mut message = String::from_str("CUDA Error [");
    let digits = decimal_text(status as u64);
    message.append(digits.as_str());
    message.append("].");
    RenderError(message)
}

/// What a kernel run on `render` means that ended with `status` and gave
/// back `pixels`: with status zero the render has run up to its ceiling
/// and holds the pixels that came back; any other status is an error and
/// the pixels are dropped.
pub fn kernel_outcome(render: Render, status: u32, pixels: Vec<Pixel>) -> (r: Result<
    Render,
    RenderError,
>)
    requires
        render.wf(),
        pixels@.len() == render.pixels@.len(),
    ensures
        match r {
            Ok(done) => {
                &&& status == 0
                &&& done.params == render.params
                &&& done.iterations == render.params.max_iter
                &&& done.pixels == pixels
                &&& done.wf()
            },
            Err(e) => status != 0 && e.0@ == kernel_error_text(status),
        },
{
    if status == 0 {
        Ok(Render { iterations: render.params.max_iter, pixels, params: render.params })
    } else {
        Err(kernel_error(status))
    }
}

} // verus!
