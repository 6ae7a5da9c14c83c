//! Tile icons: colours, surface-to-buffer pixel conversion and icon composition.
//!
//! A rendering backend paints each tile on an off-screen surface. This library converts
//! the surface's pixel memory into an image buffer in the widget toolkit's byte order,
//! and decides which glyph is drawn in which colour.

pub mod buffer;
pub mod color;
pub mod compose;
pub mod convert;
pub mod error;
pub mod format;
pub mod scan;
pub mod surface;
pub mod tiles;

pub use crate::buffer::ImageBuffer;
pub use crate::color::Color;
pub use crate::compose::custom_icon;
pub use crate::convert::surface_to_buffer;
pub use crate::error::ComposeError;
pub use crate::format::{Colorspace, Dimension, ImageFormat};
pub use crate::surface::{ChannelOrder, Surface};
pub use crate::tiles::{create_and_fill_liststore, tile_table, PaletteEntry};
