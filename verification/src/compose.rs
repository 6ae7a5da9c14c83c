//! Composition of one icon: a surface of the background's size is painted by the caller's
//! drawing routine and converted into an image buffer of the background's format.

use vstd::prelude::*;
use crate::buffer::ImageBuffer;
use crate::color::Color;
use crate::convert::{conversion_outcome, lemma_solid_round_trip, surface_to_buffer};
use crate::error::ComposeError;
use crate::format::{Dimension, ImageFormat};
use crate::surface::Surface;

verus! {

/// What an icon comes to once the drawing routine has handed back `painted`: its failure
/// is passed on, its surface is converted.
pub open spec fn icon_outcome(
    background: ImageFormat,
    painted: Result<Surface, ComposeError>,
    r: Result<ImageBuffer, ComposeError>,
) -> bool {
    match painted {
        Ok(surface) => conversion_outcome(surface, background, r),
        Err(e) => r == Err::<ImageBuffer, ComposeError>(e),
    }
}

/// What composing an icon over `background` with the drawing routine `paint` comes to.
///
/// A background without area has no surface: the routine is not run. Otherwise the
/// routine was run once on the background's bounding box, and the icon is the outcome of
/// what it handed back.
pub open spec fn composed<F: Fn(&Dimension) -> Result<Surface, ComposeError>>(
    background: ImageFormat,
    paint: F,
    r: Result<ImageBuffer, ComposeError>,
) -> bool {
    if !background.has_area() {
        r == Err::<ImageBuffer, ComposeError>(ComposeError::SurfaceAllocation)
    } else {
        exists|painted: Result<Surface, ComposeError>|
            call_ensures(paint, (&background.dimension(),), painted) && #[trigger] icon_outcome(
                background,
                painted,
                r,
            )
    }
}

/// Turns what the drawing routine handed back into the icon.
pub fn finish_icon(background: &ImageFormat, painted: Result<Surface, ComposeError>) -> (r: Result<
    ImageBuffer,
    ComposeError,
>)
    ensures
        icon_outcome(*background, painted, r),
{
    match painted {
        Ok(surface) => surface_to_buffer(&surface, background),
        Err(e) => Err(e),
    }
}

/// Two icons composed over the same background from the same painted surface do not
/// differ: they fail alike or hold the same pixels.
pub proof fn lemma_icon_is_determined(
    background: ImageFormat,
    painted: Result<Surface, ComposeError>,
    first: Result<ImageBuffer, ComposeError>,
    second: Result<ImageBuffer, ComposeError>,
)
    requires
        icon_outcome(background, painted, first),
        icon_outcome(background, painted, second),
    ensures
        first is Ok <==> second is Ok,
        first is Ok ==> first->Ok_0@ == second->Ok_0@,
        first is Err ==> first->Err_0 == second->Err_0,
{
}

/// Where the drawing routine painted one colour over the whole surface and nothing else,
/// every pixel of the icon is that colour, channel for channel.
pub proof fn lemma_solid_paint_gives_solid_icon(
    background: ImageFormat,
    surface: Surface,
    color: Color,
    r: Result<ImageBuffer, ComposeError>,
)
    requires
        icon_outcome(background, Ok::<Surface, ComposeError>(surface), r),
        surface.supplies(background),
        background.bits_per_sample == 8,
        surface.is_solid(color),
    ensures
        r is Ok,
        r->Ok_0@.format == background,
        forall|x: int, y: int|
            background.contains(x, y) ==> #[trigger] r->Ok_0@.pixel(x, y) == color,
{
    lemma_solid_round_trip(surface, background, color);
}

/// Composes an icon of the background's pixel extents and format.
///
/// `paint` stands for the rendering backend and the caller's drawing: given the bounding
/// box it creates a surface of that size, draws on it, flushes the drawing and hands back
/// the surface's pixel memory, or says which resource it could not get.
///
/// A background of zero width or height ends the composition with `SurfaceAllocation`
/// before anything is drawn; no empty icon is ever produced.
pub fn custom_icon<F>(background: &ImageFormat, paint: F) -> (r: Result<ImageBuffer, ComposeError>)
    where F: Fn(&Dimension) -> Result<Surface, ComposeError>
    requires
        background.has_area() ==> call_requires(paint, (&background.dimension(),)),
    ensures
        composed(*background, paint, r),
        !background.has_area() ==> r == Err::<ImageBuffer, ComposeError>(
            ComposeError::SurfaceAllocation,
        ),
        r matches Ok(icon) ==> {
            &&& icon.wf()
            &&& icon@.wf()
            &&& icon@.format == *background
            &&& icon@.pixels.len() == background.width * background.height
        },
{
    if background.width <= 0 || background.height <= 0 {
        return Err(ComposeError::SurfaceAllocation);
    }
    let bounding_box = Dimension::new(background.width, background.height);
    let painted = paint(&bounding_box);
    let r = finish_icon(background, painted);
    proof {
        assert(icon_outcome(*background, painted, r));
        if r is Ok {
            r->Ok_0.lemma_view();
        }
    }
    r
}

} // verus!
