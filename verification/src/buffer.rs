//! The image buffer handed to the widget toolkit: straight RGBA, one byte per channel.

use vstd::prelude::*;
use crate::color::Color;
use crate::error::ComposeError;
use crate::format::ImageFormat;
use crate::scan::index_of;

verus! {

/// What an image buffer holds: its format and the colour of each pixel in scan order.
pub struct Raster {
    pub format: ImageFormat,
    pub pixels: Seq<Color>,
}

impl Raster {
    /// There is one colour for each pixel of the format.
    pub open spec fn wf(&self) -> bool {
        self.format.allocatable() && self.pixels.len() == self.format.pixel_count()
    }

    /// The colour at column `x` of row `y`.
    pub open spec fn pixel(&self, x: int, y: int) -> Color {
        self.pixels[index_of(x, y, self.format.width as int)]
    }
}

/// A pixel buffer addressed by `(x, y)`. Each pixel is stored as four bytes in the order
/// red, green, blue, alpha; rows follow each other without padding.
#[derive(Clone, Debug, PartialEq, Eq)]
pub struct ImageBuffer {
    format: ImageFormat,
    bytes: Vec<u8>,
}

/// The colour stored in `bytes` for the pixel with scan index `i`.
pub open spec fn color_at(bytes: Seq<u8>, i: int) -> Color {
    Color { r: bytes[4 * i], g: bytes[4 * i + 1], b: bytes[4 * i + 2], a: bytes[4 * i + 3] }
}

impl View for ImageBuffer {
    type V = Raster;

    closed spec fn view(&self) -> Raster {
        Raster {
            format: self.format,
            pixels: Seq::new(
                self.format.pixel_count() as nat,
                |i: int| color_at(self.bytes@, i),
            ),
        }
    }
}

impl ImageBuffer {
    /// The buffer holds four bytes for each pixel of an allocatable format.
    pub closed spec fn wf(&self) -> bool {
        self.format.allocatable() && self.bytes@.len() == 4 * self.format.pixel_count()
    }

    /// A well-formed buffer holds one colour for each pixel of its format.
    pub proof fn lemma_view(&self)
        requires
            self.wf(),
        ensures
            self@.wf(),
    {
        assert(self.format.pixel_count() > 0) by (nonlinear_arith)
            requires
                self.format.width > 0,
                self.format.height > 0,
                self.format.pixel_count() == self.format.width * self.format.height,
        ;
    }

    /// A buffer of the given format with every byte zero.
    ///
    /// Fails with `BufferAllocation` exactly when the format is not allocatable.
    pub fn new(format: &ImageFormat) -> (r: Result<ImageBuffer, ComposeError>)
        ensures
            format.allocatable() ==> r is Ok,
            !format.allocatable() ==> r == Err::<ImageBuffer, ComposeError>(
                ComposeError::BufferAllocation,
            ),
            r matches Ok(buffer) ==> {
                &&& buffer.wf()
                &&& buffer@.format == *format
                &&& buffer@.pixels == Seq::new(
                    format.pixel_count() as nat,
                    |i: int| Color { r: 0, g: 0, b: 0, a: 0 },
                )
            },
    {
        if format.width <= 0 || format.height <= 0 || format.bits_per_sample != 8 {
            return Err(ComposeError::BufferAllocation);
        }
        let width: u64 = format.width as u64;
        let height: u64 = format.height as u64;
        assert(width * height <= 0x7fff_ffff * 0x7fff_ffff && width * height == format.pixel_count())
            by (nonlinear_arith)
            requires
                width <= 0x7fff_ffff,
                height <= 0x7fff_ffff,
                width == format.width,
                height == format.height,
                format.pixel_count() == format.width * format.height,
        ;
        let size: u64 = 4 * (width * height);
        if size > usize::MAX as u64 {
            return Err(ComposeError::BufferAllocation);
        }
        let bytes: Vec<u8> = vec![0u8; size as usize];
        let buffer = ImageBuffer { format: *format, bytes };
        assert(buffer@.pixels =~= Seq::new(
            format.pixel_count() as nat,
            |i: int| Color { r: 0, g: 0, b: 0, a: 0 },
        ));
        Ok(buffer)
    }

    /// The format the buffer was allocated with.
    pub fn format(&self) -> (format: ImageFormat)
        ensures
            format == self@.format,
    {
        self.format
    }

    /// The number of pixels in a row.
    pub fn width(&self) -> (width: i32)
        ensures
            width == self@.format.width,
    {
        self.format.width
    }

    /// The number of rows.
    pub fn height(&self) -> (height: i32)
        ensures
            height == self@.format.height,
    {
        self.format.height
    }

    /// The position in the byte storage of the first byte of pixel `(x, y)`.
    fn position(&self, x: i32, y: i32) -> (at: usize)
        requires
            self.wf(),
            self@.format.contains(x as int, y as int),
        ensures
            at == 4 * index_of(x as int, y as int, self@.format.width as int),
            0 <= index_of(x as int, y as int, self@.format.width as int)
                < self@.format.pixel_count(),
            at + 4 <= self.bytes@.len(),
    {
        let width: usize = self.format.width as usize;
        proof {
            crate::scan::lemma_coordinate_to_index(
                x as int,
                y as int,
                self.format.width as int,
                self.format.height as int,
            );
            assert(0 <= (y as int) * (width as int) <= index_of(
                x as int,
                y as int,
                self.format.width as int,
            )) by (nonlinear_arith)
                requires
                    0 <= x,
                    0 <= y,
                    0 < width,
                    width == self.format.width,
                    index_of(x as int, y as int, self.format.width as int) == y * width + x,
            ;
        }
        4 * ((y as usize) * width + (x as usize))
    }

    /// Stores the four channels at pixel `(x, y)` and leaves every other pixel as it was.
    pub fn put_pixel(&mut self, x: i32, y: i32, red: u8, green: u8, blue: u8, alpha: u8)
        requires
            old(self).wf(),
            old(self)@.format.contains(x as int, y as int),
        ensures
            final(self).wf(),
            final(self)@.format == old(self)@.format,
            final(self)@.pixels == old(self)@.pixels.update(
                index_of(x as int, y as int, old(self)@.format.width as int),
                Color { r: red, g: green, b: blue, a: alpha },
            ),
    {
        let at: usize = self.position(x, y);
        self.bytes[at] = red;
        self.bytes[at + 1] = green;
        self.bytes[at + 2] = blue;
        self.bytes[at + 3] = alpha;
        assert(self@.pixels =~= old(self)@.pixels.update(
            index_of(x as int, y as int, old(self)@.format.width as int),
            Color { r: red, g: green, b: blue, a: alpha },
        ));
    }

    /// The colour stored at pixel `(x, y)`.
    pub fn get_pixel(&self, x: i32, y: i32) -> (color: Color)
        requires
            self.wf(),
            self@.format.contains(x as int, y as int),
        ensures
            color == self@.pixel(x as int, y as int),
    {
        let at: usize = self.position(x, y);
        Color {
            r: self.bytes[at],
            g: self.bytes[at + 1],
            b: self.bytes[at + 2],
            a: self.bytes[at + 3],
        }
    }

    /// The stored bytes: for each pixel in scan order its red, green, blue and alpha.
    pub fn as_bytes(&self) -> (bytes: &Vec<u8>)
        requires
            self.wf(),
        ensures
            bytes@.len() == 4 * self@.pixels.len(),
            forall|i: int|
                0 <= i < self@.pixels.len() ==> color_at(bytes@, i) == #[trigger] self@.pixels[i],
    {
        proof {
            self.lemma_view();
        }
        &self.bytes
    }
}

} // verus!
