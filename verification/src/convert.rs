//! Conversion of a finalized surface into an image buffer, pixel by pixel.

use vstd::prelude::*;
use crate::buffer::{ImageBuffer, Raster};
use crate::color::Color;
use crate::error::ComposeError;
use crate::format::ImageFormat;
use crate::scan::{column_of, lemma_coordinate_to_index, lemma_index_to_coordinate, row_of};
use crate::surface::Surface;

verus! {

/// The raster that `surface` converts to: the pixel with scan index `i` takes the channels
/// that the surface stores for column `i % width` of row `i / width`.
pub open spec fn converted(surface: Surface, format: ImageFormat) -> Raster {
    Raster {
        format,
        pixels: Seq::new(
            format.pixel_count() as nat,
            |i: int|
                surface.pixel_at(
                    column_of(i, format.width as int),
                    row_of(i, format.width as int),
                ),
        ),
    }
}

/// What converting `surface` into a buffer of `format` comes to: a surface that cannot
/// supply the pixels is a failed pixel access, samples that are not one byte wide are a
/// failed allocation, and everything else is the converted raster.
pub open spec fn conversion_outcome(
    surface: Surface,
    format: ImageFormat,
    r: Result<ImageBuffer, ComposeError>,
) -> bool {
    if !surface.supplies(format) {
        r == Err::<ImageBuffer, ComposeError>(ComposeError::PixelAccess)
    } else if format.bits_per_sample != 8 {
        r == Err::<ImageBuffer, ComposeError>(ComposeError::BufferAllocation)
    } else {
        r matches Ok(buffer) && buffer.wf() && buffer@ == converted(surface, format)
    }
}

/// A buffer for the pixels of a readable surface always fits in memory: the surface's own
/// memory is at least as large.
pub proof fn lemma_supplied_format_fits(surface: Surface, format: ImageFormat)
    requires
        surface.supplies(format),
    ensures
        format.has_area(),
        4 * format.pixel_count() <= usize::MAX,
        format.allocatable() <==> format.bits_per_sample == 8,
{
    surface.lemma_pixel_in_bounds(0, 0);
}

/// In the converted raster the pixel at `(x, y)` holds what the surface stores at `(x, y)`,
/// which it reads at `y * stride + 4 * x`.
pub proof fn lemma_converted_pixel(surface: Surface, format: ImageFormat, x: int, y: int)
    requires
        format.contains(x, y),
    ensures
        converted(surface, format).pixel(x, y) == surface.pixel_at(x, y),
{
    lemma_coordinate_to_index(x, y, format.width as int, format.height as int);
}

/// A surface on which a single colour was painted converts to a buffer whose every pixel
/// is that colour, channel for channel.
pub proof fn lemma_solid_round_trip(surface: Surface, format: ImageFormat, color: Color)
    requires
        surface.supplies(format),
        surface.is_solid(color),
    ensures
        forall|i: int|
            0 <= i < format.pixel_count() ==> #[trigger] converted(surface, format).pixels[i]
                == color,
        forall|x: int, y: int|
            format.contains(x, y) ==> #[trigger] converted(surface, format).pixel(x, y) == color,
{
    let width = format.width as int;
    assert forall|i: int| 0 <= i < format.pixel_count() implies #[trigger] converted(
        surface,
        format,
    ).pixels[i] == color by {
        lemma_index_to_coordinate(i, width, format.height as int);
    }
    assert forall|x: int, y: int| format.contains(x, y) implies #[trigger] converted(
        surface,
        format,
    ).pixel(x, y) == color by {
        lemma_coordinate_to_index(x, y, width, format.height as int);
    }
}

/// Row padding never reaches the buffer: two surfaces that store the same four bytes for
/// every pixel convert to the same raster, whatever their strides and whatever lies
/// between their rows.
pub proof fn lemma_padding_is_skipped(a: Surface, b: Surface, format: ImageFormat)
    requires
        a.supplies(format),
        b.supplies(format),
        a.order == b.order,
        forall|x: int, y: int|
            format.contains(x, y) ==> #[trigger] a.pixel_bytes(x, y) == b.pixel_bytes(x, y),
    ensures
        converted(a, format) == converted(b, format),
{
    let width = format.width as int;
    assert forall|i: int| 0 <= i < format.pixel_count() implies #[trigger] converted(
        a,
        format,
    ).pixels[i] == converted(b, format).pixels[i] by {
        lemma_index_to_coordinate(i, width, format.height as int);
        assert(a.pixel_bytes(column_of(i, width), row_of(i, width)) == b.pixel_bytes(
            column_of(i, width),
            row_of(i, width),
        ));
    }
    assert(converted(a, format).pixels =~= converted(b, format).pixels);
}

/// Reordering loses nothing: two surfaces of one channel order that convert to the same
/// raster store the same four bytes for every pixel.
pub proof fn lemma_conversion_keeps_every_byte(a: Surface, b: Surface, format: ImageFormat)
    requires
        a.supplies(format),
        b.supplies(format),
        a.order == b.order,
        converted(a, format) == converted(b, format),
    ensures
        forall|x: int, y: int|
            format.contains(x, y) ==> #[trigger] a.pixel_bytes(x, y) == b.pixel_bytes(x, y),
{
    assert forall|x: int, y: int| format.contains(x, y) implies #[trigger] a.pixel_bytes(x, y)
        == b.pixel_bytes(x, y) by {
        lemma_converted_pixel(a, format, x, y);
        lemma_converted_pixel(b, format, x, y);
        a.lemma_pixel_in_bounds(x, y);
        b.lemma_pixel_in_bounds(x, y);
        let p = a.pixel_bytes(x, y);
        let q = b.pixel_bytes(x, y);
        assert(a.pixel_at(x, y) == b.pixel_at(x, y));
        assert forall|c: int| 0 <= c < 4 implies p[c] == q[c] by {
            assert(c == a.order.red || c == a.order.green || c == a.order.blue || c
                == a.order.alpha);
        }
        assert(p =~= q);
    }
}

/// Converts a finalized surface into a freshly allocated image buffer of `format`.
///
/// Each pixel is read at its row's stride offset, its four bytes are reordered into red,
/// green, blue, alpha and stored at the same coordinate.
///
/// Channel values are copied as they are: premultiplied colour is not divided by alpha.
/// This is a known defect in colour fidelity. The buffer is read as straight alpha, so
/// wherever a premultiplying backend painted with alpha below 255 the icon is darker than
/// what was painted.
///
/// Fails with `PixelAccess` when the surface is not readable or not of the format's size,
/// else with `BufferAllocation` when the format's samples are not one byte wide.
pub fn surface_to_buffer(surface: &Surface, format: &ImageFormat) -> (r: Result<
    ImageBuffer,
    ComposeError,
>)
    ensures
        conversion_outcome(*surface, *format, r),
        r matches Ok(buffer) ==> forall|x: int, y: int|
            format.contains(x, y) ==> #[trigger] buffer@.pixel(x, y) == surface.pixel_at(x, y),
{
    if !surface.is_readable() || surface.width != format.width || surface.height != format.height {
        return Err(ComposeError::PixelAccess);
    }
    proof {
        lemma_supplied_format_fits(*surface, *format);
    }
    let mut buffer = match ImageBuffer::new(format) {
        Ok(buffer) => buffer,
        Err(e) => {
            return Err(e);
        },
    };
    let width: usize = format.width as usize;
    let height: usize = format.height as usize;
    let stride: usize = surface.stride as usize;
    proof {
        surface.lemma_pixel_in_bounds(0, 0);
        buffer.lemma_view();
    }
    let count: usize = width * height;
    let mut i: usize = 0;
    while i < count
        invariant
            surface.supplies(*format),
            width == format.width,
            height == format.height,
            stride == surface.stride,
            count == format.pixel_count(),
            i <= count,
            buffer.wf(),
            buffer@.format == *format,
            buffer@.pixels.len() == count,
            forall|j: int|
                0 <= j < i ==> #[trigger] buffer@.pixels[j] == converted(
                    *surface,
                    *format,
                ).pixels[j],
        decreases count - i,
    {
        let x: usize = i % width;
        let y: usize = i / width;
        proof {
            lemma_index_to_coordinate(i as int, width as int, height as int);
            surface.lemma_pixel_in_bounds(x as int, y as int);
            assert(0 <= y * stride) by (nonlinear_arith)
                requires
                    0 <= y,
                    0 <= stride,
            ;
            assert(surface.byte_offset(x as int, y as int) == y * stride + 4 * x);
        }
        let at: usize = y * stride + 4 * x;
        let red: u8 = surface.data[at + surface.order.red];
        let green: u8 = surface.data[at + surface.order.green];
        let blue: u8 = surface.data[at + surface.order.blue];
        let alpha: u8 = surface.data[at + surface.order.alpha];
        buffer.put_pixel(x as i32, y as i32, red, green, blue, alpha);
        i += 1;
    }
    assert(buffer@.pixels =~= converted(*surface, *format).pixels);
    proof {
        assert forall|x: int, y: int| format.contains(x, y) implies #[trigger] buffer@.pixel(x, y)
            == surface.pixel_at(x, y) by {
            lemma_converted_pixel(*surface, *format, x, y);
        }
    }
    Ok(buffer)
}

} // verus!
