use std::cell::Cell;

use pixbuf_iconview::color::Color;
use pixbuf_iconview::compose::{custom_icon, finish_icon};
use pixbuf_iconview::error::ComposeError;
use pixbuf_iconview::format::{Colorspace, Dimension, ImageFormat};
use pixbuf_iconview::surface::{ChannelOrder, Surface};

fn background(width: i32, height: i32) -> ImageFormat {
    ImageFormat { width, height, has_alpha: true, bits_per_sample: 8, colorspace: Colorspace::Rgb }
}

/// What a backend hands back after filling a surface of the box's size with one colour.
fn solid(bounding_box: &Dimension, colour: Color) -> Result<Surface, ComposeError> {
    let stride = 4 * bounding_box.width + 4;
    let mut data = vec![0xEEu8; (stride * bounding_box.height) as usize];
    for y in 0..bounding_box.height {
        for x in 0..bounding_box.width {
            let at = (y * stride + 4 * x) as usize;
            data[at] = colour.b;
            data[at + 1] = colour.g;
            data[at + 2] = colour.r;
            data[at + 3] = colour.a;
        }
    }
    Ok(Surface::new(bounding_box.width, bounding_box.height, stride, ChannelOrder::argb32_little_endian(), data))
}

#[test]
fn icon_has_the_pixel_dimensions_of_the_background() {
    for (width, height) in [(1, 1), (64, 64), (3, 7), (100, 2)] {
        let icon = custom_icon(&background(width, height), |d| solid(d, Color::rgb(1, 2, 3))).unwrap();
        assert_eq!((icon.width(), icon.height()), (width, height));
        assert_eq!(icon.as_bytes().len(), (4 * width * height) as usize);
    }
}

#[test]
fn icon_has_the_format_of_the_background() {
    let bg = ImageFormat { width: 4, height: 4, has_alpha: false, bits_per_sample: 8, colorspace: Colorspace::Rgb };
    let icon = custom_icon(&bg, |d| solid(d, Color::rgb(1, 2, 3))).unwrap();
    assert_eq!(icon.format(), bg);
}

#[test]
fn drawing_routine_gets_the_bounding_box_of_the_background() {
    let seen = Cell::new(None);
    let _ = custom_icon(&background(64, 48), |d| {
        seen.set(Some(*d));
        solid(d, Color::rgb(0, 0, 0))
    });
    assert_eq!(seen.get(), Some(Dimension { width: 64, height: 48 }));
}

#[test]
fn drawing_routine_runs_once() {
    let runs = Cell::new(0);
    let _ = custom_icon(&background(8, 8), |d| {
        runs.set(runs.get() + 1);
        solid(d, Color::rgb(0, 0, 0))
    });
    assert_eq!(runs.get(), 1);
}

#[test]
fn solid_paint_gives_a_solid_icon() {
    let colour = Color::rgb(0x80, 0, 0x80);
    let icon = custom_icon(&background(64, 64), |d| solid(d, colour)).unwrap();
    for y in 0..64 {
        for x in 0..64 {
            assert_eq!(icon.get_pixel(x, y), colour);
        }
    }
}

#[test]
fn composing_twice_gives_identical_icons() {
    let bg = background(16, 9);
    let paint = |d: &Dimension| solid(d, Color::rgba(10, 20, 30, 40));
    let first = custom_icon(&bg, paint).unwrap();
    let second = custom_icon(&bg, paint).unwrap();
    assert_eq!(first, second);
    assert_eq!(first.as_bytes(), second.as_bytes());
}

#[test]
fn background_without_width_aborts_the_composition() {
    let runs = Cell::new(0);
    let r = custom_icon(&background(0, 64), |d| {
        runs.set(runs.get() + 1);
        solid(d, Color::rgb(0, 0, 0))
    });
    assert_eq!(r, Err(ComposeError::SurfaceAllocation));
    assert_eq!(runs.get(), 0);
}

#[test]
fn background_without_height_aborts_the_composition() {
    let r = custom_icon(&background(64, 0), |d| solid(d, Color::rgb(0, 0, 0)));
    assert_eq!(r, Err(ComposeError::SurfaceAllocation));
    let r = custom_icon(&background(0, 0), |d| solid(d, Color::rgb(0, 0, 0)));
    assert_eq!(r, Err(ComposeError::SurfaceAllocation));
}

#[test]
fn background_of_negative_size_aborts_the_composition() {
    let r = custom_icon(&background(-3, 4), |_| Err(ComposeError::PixelAccess));
    assert_eq!(r, Err(ComposeError::SurfaceAllocation));
}

#[test]
fn failure_of_the_drawing_routine_is_passed_on() {
    let bg = background(4, 4);
    assert_eq!(custom_icon(&bg, |_| Err(ComposeError::SurfaceAllocation)), Err(ComposeError::SurfaceAllocation));
    assert_eq!(custom_icon(&bg, |_| Err(ComposeError::PixelAccess)), Err(ComposeError::PixelAccess));
    assert_eq!(custom_icon(&bg, |_| Err(ComposeError::BufferAllocation)), Err(ComposeError::BufferAllocation));
}

#[test]
fn surface_of_the_wrong_size_is_a_pixel_access_failure() {
    let r = custom_icon(&background(4, 4), |_| solid(&Dimension::new(4, 5), Color::rgb(0, 0, 0)));
    assert_eq!(r, Err(ComposeError::PixelAccess));
}

#[test]
fn background_of_other_sample_depth_is_a_buffer_failure() {
    let mut bg = background(4, 4);
    bg.bits_per_sample = 16;
    let r = custom_icon(&bg, |d| solid(d, Color::rgb(0, 0, 0)));
    assert_eq!(r, Err(ComposeError::BufferAllocation));
}

#[test]
fn finish_icon_converts_a_painted_surface() {
    let bg = background(2, 2);
    let icon = finish_icon(&bg, solid(&Dimension::new(2, 2), Color::rgb(9, 8, 7))).unwrap();
    assert_eq!(icon.get_pixel(1, 1), Color::rgb(9, 8, 7));
    assert_eq!(icon.format(), bg);
}

#[test]
fn finish_icon_passes_a_failure_on() {
    let bg = background(2, 2);
    assert_eq!(finish_icon(&bg, Err(ComposeError::PixelAccess)), Err(ComposeError::PixelAccess));
    assert_eq!(finish_icon(&bg, Err(ComposeError::SurfaceAllocation)), Err(ComposeError::SurfaceAllocation));
}
