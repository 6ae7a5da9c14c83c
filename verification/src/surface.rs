//! A finalized rendering surface: raw 32-bit pixels, row by row, in the backend's byte order.

use vstd::prelude::*;
use crate::color::Color;
use crate::format::ImageFormat;

verus! {

/// Where each channel sits inside the four bytes of a surface pixel.
#[derive(Clone, Copy, Debug, PartialEq, Eq, Structural)]
pub struct ChannelOrder {
    pub red: usize,
    pub green: usize,
    pub blue: usize,
    pub alpha: usize,
}

impl ChannelOrder {
    /// The four offsets are a permutation of 0, 1, 2, 3.
    pub open spec fn wf(&self) -> bool {
        &&& self.red < 4 && self.green < 4 && self.blue < 4 && self.alpha < 4
        &&& self.red != self.green && self.red != self.blue && self.red != self.alpha
        &&& self.green != self.blue && self.green != self.alpha
        &&& self.blue != self.alpha
    }

    /// The order with the given offsets, if they are a permutation of 0, 1, 2, 3.
    pub fn new(red: usize, green: usize, blue: usize, alpha: usize) -> (order: Option<ChannelOrder>)
        ensures
            order == if (ChannelOrder { red, green, blue, alpha }).wf() {
                Some(ChannelOrder { red, green, blue, alpha })
            } else {
                None
            },
    {
        let order = ChannelOrder { red, green, blue, alpha };
        if order.is_valid() {
            Some(order)
        } else {
            None
        }
    }

    /// Whether the offsets are a permutation of 0, 1, 2, 3.
    pub fn is_valid(&self) -> (valid: bool)
        ensures
            valid == self.wf(),
    {
        self.red < 4 && self.green < 4 && self.blue < 4 && self.alpha < 4 && self.red != self.green
            && self.red != self.blue && self.red != self.alpha && self.green != self.blue
            && self.green != self.alpha && self.blue != self.alpha
    }

    /// A 32-bit ARGB word stored least significant byte first: blue, green, red, alpha.
    pub fn argb32_little_endian() -> (order: ChannelOrder)
        ensures
            order == (ChannelOrder { red: 2, green: 1, blue: 0, alpha: 3 }),
            order.wf(),
    {
        ChannelOrder { red: 2, green: 1, blue: 0, alpha: 3 }
    }

    /// A 32-bit ARGB word stored most significant byte first: alpha, red, green, blue.
    pub fn argb32_big_endian() -> (order: ChannelOrder)
        ensures
            order == (ChannelOrder { red: 1, green: 2, blue: 3, alpha: 0 }),
            order.wf(),
    {
        ChannelOrder { red: 1, green: 2, blue: 3, alpha: 0 }
    }
}

/// The pixel memory of a surface after all drawing has been flushed to it.
///
/// Rows start `stride` bytes apart; the first `4 * width` bytes of a row are its pixels,
/// the rest of the row is padding.
#[derive(Clone, Debug, PartialEq, Eq)]
pub struct Surface {
    pub width: i32,
    pub height: i32,
    pub stride: i32,
    pub order: ChannelOrder,
    pub data: Vec<u8>,
}

impl Surface {
    /// The position in `data` of the first byte of pixel `(x, y)`.
    pub open spec fn byte_offset(&self, x: int, y: int) -> int {
        y * self.stride + 4 * x
    }

    /// The surface has area, a known channel order, rows that do not overlap, and memory
    /// for every pixel of every row.
    pub open spec fn readable(&self) -> bool {
        &&& self.width > 0
        &&& self.height > 0
        &&& self.order.wf()
        &&& self.stride >= 4 * self.width
        &&& (self.height - 1) * self.stride + 4 * self.width <= self.data.len()
    }

    /// The surface is readable and has the pixel extents of `format`.
    pub open spec fn supplies(&self, format: ImageFormat) -> bool {
        &&& self.readable()
        &&& self.width == format.width
        &&& self.height == format.height
    }

    /// The four bytes that the surface stores for pixel `(x, y)`.
    pub open spec fn pixel_bytes(&self, x: int, y: int) -> Seq<u8> {
        self.data@.subrange(self.byte_offset(x, y), self.byte_offset(x, y) + 4)
    }

    /// The channels stored for pixel `(x, y)`, copied as they are: no blending and no
    /// change to premultiplied values.
    pub open spec fn pixel_at(&self, x: int, y: int) -> Color {
        let bytes = self.pixel_bytes(x, y);
        Color {
            r: bytes[self.order.red as int],
            g: bytes[self.order.green as int],
            b: bytes[self.order.blue as int],
            a: bytes[self.order.alpha as int],
        }
    }

    /// Every pixel stores the channels of `color`.
    pub open spec fn is_solid(&self, color: Color) -> bool {
        forall|x: int, y: int|
            0 <= x < self.width && 0 <= y < self.height ==> #[trigger] self.pixel_at(x, y)
                == color
    }

    /// A surface snapshot from what the backend reports.
    pub fn new(width: i32, height: i32, stride: i32, order: ChannelOrder, data: Vec<u8>) -> (s:
        Surface)
        ensures
            s.width == width,
            s.height == height,
            s.stride == stride,
            s.order == order,
            s.data == data,
    {
        Surface { width, height, stride, order, data }
    }

    /// The four bytes of every pixel lie inside `data`.
    pub proof fn lemma_pixel_in_bounds(&self, x: int, y: int)
        requires
            self.readable(),
            0 <= x < self.width,
            0 <= y < self.height,
        ensures
            0 <= self.byte_offset(x, y),
            self.byte_offset(x, y) + 4 <= self.data.len(),
            4 * (self.width * self.height) <= self.data.len(),
    {
        let w = self.width as int;
        let h = self.height as int;
        let s = self.stride as int;
        assert(0 <= y * s && y * s + 4 * x + 4 <= (h - 1) * s + 4 * w) by (nonlinear_arith)
            requires
                0 <= x < w,
                0 <= y < h,
                s >= 4 * w,
        ;
        assert(4 * (w * h) <= (h - 1) * s + 4 * w) by (nonlinear_arith)
            requires
                0 < w,
                0 < h,
                s >= 4 * w,
        ;
    }

    /// Whether the surface is readable.
    pub fn is_readable(&self) -> (ok: bool)
        ensures
            ok == self.readable(),
    {
        if self.width <= 0 || self.height <= 0 || !self.order.is_valid() {
            return false;
        }
        let width: u64 = self.width as u64;
        let height: u64 = self.height as u64;
        if (self.stride as i64) < 4 * (self.width as i64) {
            return false;
        }
        let stride: u64 = self.stride as u64;
        assert((height - 1) * stride <= 0x8000_0000 * 0x8000_0000) by (nonlinear_arith)
            requires
                height <= 0x8000_0000,
                stride <= 0x8000_0000,
        ;
        let needed: u64 = (height - 1) * stride + 4 * width;
        needed <= self.data.len() as u64
    }
}

} // verus!
