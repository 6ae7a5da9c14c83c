use pixbuf_iconview::color::Color;

#[test]
fn rgba_keeps_every_channel() {
    let c = Color::rgba(1, 2, 3, 4);
    assert_eq!((c.r, c.g, c.b, c.a), (1, 2, 3, 4));
}

#[test]
fn rgb_is_opaque() {
    let c = Color::rgb(0xFF, 0xA5, 0);
    assert_eq!(c, Color::rgba(0xFF, 0xA5, 0, 255));
    assert_eq!(c.a, 255);
}

#[test]
fn rgb_of_extreme_channels() {
    assert_eq!(Color::rgb(0, 0, 0), Color { r: 0, g: 0, b: 0, a: 255 });
    assert_eq!(Color::rgb(255, 255, 255), Color { r: 255, g: 255, b: 255, a: 255 });
}

#[test]
fn colors_differ_by_alpha() {
    assert_ne!(Color::rgba(9, 9, 9, 0), Color::rgb(9, 9, 9));
}
