//! Image geometry and sample format.

use vstd::prelude::*;

verus! {

/// The colour model of an image. Only RGB exists.
#[derive(Clone, Copy, Debug, PartialEq, Eq, Structural)]
pub enum Colorspace {
    Rgb,
}

/// The size of a bounding box, in whole pixels.
#[derive(Clone, Copy, Debug, PartialEq, Eq, Structural)]
pub struct Dimension {
    pub width: i32,
    pub height: i32,
}

impl Dimension {
    /// Neither extent is negative.
    pub open spec fn wf(&self) -> bool {
        self.width >= 0 && self.height >= 0
    }

    /// A box of the given pixel extents.
    pub fn new(width: i32, height: i32) -> (d: Dimension)
        requires
            width >= 0,
            height >= 0,
        ensures
            d == (Dimension { width, height }),
            d.wf(),
    {
        Dimension { width, height }
    }
}

/// What an image reports about itself: its pixel extents and how its samples are stored.
/// An icon is allocated with exactly the format of the background it was composed for.
#[derive(Clone, Copy, Debug, PartialEq, Eq, Structural)]
pub struct ImageFormat {
    pub width: i32,
    pub height: i32,
    pub has_alpha: bool,
    pub bits_per_sample: i32,
    pub colorspace: Colorspace,
}

impl ImageFormat {
    /// Both extents are positive: there is at least one pixel.
    pub open spec fn has_area(&self) -> bool {
        self.width > 0 && self.height > 0
    }

    /// The number of pixels.
    pub open spec fn pixel_count(&self) -> int {
        self.width * self.height
    }

    /// A pixel buffer of this format can be allocated: it has area, one byte per sample,
    /// and four bytes for each pixel fit in memory.
    pub open spec fn allocatable(&self) -> bool {
        &&& self.has_area()
        &&& self.bits_per_sample == 8
        &&& 4 * self.pixel_count() <= usize::MAX
    }

    /// The bounding box of the image.
    pub open spec fn dimension(&self) -> Dimension {
        Dimension { width: self.width, height: self.height }
    }

    /// Whether `(x, y)` names a pixel of the image.
    pub open spec fn contains(&self, x: int, y: int) -> bool {
        0 <= x < self.width && 0 <= y < self.height
    }
}

} // verus!
