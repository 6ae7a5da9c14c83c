//! An 8-bit-per-channel RGBA colour.

use vstd::prelude::*;

verus! {

/// A colour with 8 bits for each of red, green, blue and alpha.
#[derive(Clone, Copy, Debug, PartialEq, Eq, Structural)]
pub struct Color {
    pub r: u8,
    pub g: u8,
    pub b: u8,
    pub a: u8,
}

impl Color {
    /// A colour with an explicit alpha channel.
    pub fn rgba(red: u8, green: u8, blue: u8, alpha: u8) -> (c: Color)
        ensures
            c == (Color { r: red, g: green, b: blue, a: alpha }),
    {
        Color { r: red, g: green, b: blue, a: alpha }
    }

    /// An opaque colour: alpha is 255.
    pub fn rgb(red: u8, green: u8, blue: u8) -> (c: Color)
        ensures
            c == (Color { r: red, g: green, b: blue, a: 255 }),
    {
        Color::rgba(red, green, blue, 255)
    }
}

} // verus!
