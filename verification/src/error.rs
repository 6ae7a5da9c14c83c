//! Why an icon could not be composed. None of these can be recovered from.

use vstd::prelude::*;

verus! {

/// A resource that composing an icon needs could not be had.
#[derive(Clone, Copy, Debug, PartialEq, Eq, Structural)]
pub enum ComposeError {
    /// No rendering surface of the background's size could be created.
    SurfaceAllocation,
    /// The pixel memory of the surface could not be read.
    PixelAccess,
    /// No image buffer of the background's format could be allocated.
    BufferAllocation,
}

impl ComposeError {
    /// A line for the diagnostic that ends the run.
    pub fn message(&self) -> (text: &'static str)
        ensures
            text@ == match *self {
                ComposeError::SurfaceAllocation => "the rendering surface could not be created"@,
                ComposeError::PixelAccess => "the pixel memory of the surface could not be read"@,
                ComposeError::BufferAllocation => "the image buffer could not be allocated"@,
            },
    {
        match self {
            ComposeError::SurfaceAllocation => "the rendering surface could not be created",
            ComposeError::PixelAccess => "the pixel memory of the surface could not be read",
            ComposeError::BufferAllocation => "the image buffer could not be allocated",
        }
    }
}

} // verus!
