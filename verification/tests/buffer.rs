use pixbuf_iconview::buffer::ImageBuffer;
use pixbuf_iconview::color::Color;
use pixbuf_iconview::error::ComposeError;
use pixbuf_iconview::format::{Colorspace, Dimension, ImageFormat};

fn format(width: i32, height: i32) -> ImageFormat {
    ImageFormat { width, height, has_alpha: true, bits_per_sample: 8, colorspace: Colorspace::Rgb }
}

#[test]
fn dimension_keeps_its_extents() {
    let d = Dimension::new(64, 48);
    assert_eq!((d.width, d.height), (64, 48));
    assert_eq!(Dimension::new(0, 0), Dimension { width: 0, height: 0 });
}

#[test]
fn new_buffer_is_zeroed_and_has_the_format() {
    let f = format(3, 2);
    let b = ImageBuffer::new(&f).unwrap();
    assert_eq!(b.format(), f);
    assert_eq!((b.width(), b.height()), (3, 2));
    assert_eq!(b.as_bytes(), &vec![0u8; 24]);
    assert_eq!(b.get_pixel(2, 1), Color::rgba(0, 0, 0, 0));
}

#[test]
fn buffer_without_area_is_not_allocated() {
    assert_eq!(ImageBuffer::new(&format(0, 5)), Err(ComposeError::BufferAllocation));
    assert_eq!(ImageBuffer::new(&format(5, 0)), Err(ComposeError::BufferAllocation));
    assert_eq!(ImageBuffer::new(&format(-1, 5)), Err(ComposeError::BufferAllocation));
}

#[test]
fn buffer_of_other_sample_depth_is_not_allocated() {
    let mut f = format(2, 2);
    f.bits_per_sample = 16;
    assert_eq!(ImageBuffer::new(&f), Err(ComposeError::BufferAllocation));
    f.bits_per_sample = 0;
    assert_eq!(ImageBuffer::new(&f), Err(ComposeError::BufferAllocation));
}

#[test]
fn buffer_without_alpha_flag_keeps_the_flag() {
    let f = ImageFormat { width: 1, height: 1, has_alpha: false, bits_per_sample: 8, colorspace: Colorspace::Rgb };
    let b = ImageBuffer::new(&f).unwrap();
    assert!(!b.format().has_alpha);
}

#[test]
fn put_pixel_changes_one_pixel() {
    let mut b = ImageBuffer::new(&format(3, 2)).unwrap();
    b.put_pixel(1, 1, 10, 20, 30, 40);
    for y in 0..2 {
        for x in 0..3 {
            let expected = if (x, y) == (1, 1) { Color::rgba(10, 20, 30, 40) } else { Color::rgba(0, 0, 0, 0) };
            assert_eq!(b.get_pixel(x, y), expected);
        }
    }
}

#[test]
fn put_pixel_stores_red_green_blue_alpha_in_scan_order() {
    let mut b = ImageBuffer::new(&format(2, 2)).unwrap();
    b.put_pixel(0, 0, 1, 2, 3, 4);
    b.put_pixel(1, 0, 5, 6, 7, 8);
    b.put_pixel(0, 1, 9, 10, 11, 12);
    b.put_pixel(1, 1, 13, 14, 15, 16);
    assert_eq!(b.as_bytes(), &vec![1u8, 2, 3, 4, 5, 6, 7, 8, 9, 10, 11, 12, 13, 14, 15, 16]);
}

#[test]
fn put_pixel_overwrites() {
    let mut b = ImageBuffer::new(&format(1, 1)).unwrap();
    b.put_pixel(0, 0, 1, 2, 3, 4);
    b.put_pixel(0, 0, 200, 201, 202, 203);
    assert_eq!(b.get_pixel(0, 0), Color::rgba(200, 201, 202, 203));
}

#[test]
fn error_messages_name_the_resource() {
    assert_eq!(ComposeError::SurfaceAllocation.message(), "the rendering surface could not be created");
    assert_eq!(ComposeError::PixelAccess.message(), "the pixel memory of the surface could not be read");
    assert_eq!(ComposeError::BufferAllocation.message(), "the image buffer could not be allocated");
}
