//! The tile set: which glyph is drawn in which colour, and the icons composed from them.

use vstd::prelude::*;
use crate::buffer::ImageBuffer;
use crate::color::Color;
use crate::compose::{custom_icon, icon_outcome};
use crate::error::ComposeError;
use crate::format::{Dimension, ImageFormat};
use crate::surface::Surface;

verus! {

/// One tile: the glyph on its face and the colour it is drawn in.
#[derive(Clone, Copy, Debug, PartialEq, Eq, Structural)]
pub struct PaletteEntry {
    pub glyph: char,
    pub color: Color,
}

impl PaletteEntry {
    /// The tile with the given face and colour.
    pub fn new(glyph: char, color: Color) -> (entry: PaletteEntry)
        ensures
            entry == (PaletteEntry { glyph, color }),
    {
        PaletteEntry { glyph, color }
    }
}

/// The faces of the eighteen tiles, separated by spaces: six letters, six digits and six
/// symbols.
pub const TILE_FACES: &'static str =
    "a b c d e f 1 2 3 4 5 6 \u{2665} \u{2666} \u{2605} \u{2663} \u{26ab} \u{2660}";

/// The six opaque colours of the rainbow palette: red, orange, yellow, green, blue, purple.
pub fn rainbow_palette() -> (colors: Vec<Color>)
    ensures
        colors@ == seq![
            Color { r: 0xFF, g: 0, b: 0, a: 255 },
            Color { r: 0xFF, g: 0xA5, b: 0, a: 255 },
            Color { r: 0xFF, g: 0xFB, b: 0, a: 255 },
            Color { r: 0, g: 0xFF, b: 0, a: 255 },
            Color { r: 0, g: 0, b: 0xFF, a: 255 },
            Color { r: 0x80, g: 0, b: 0x80, a: 255 },
        ],
{
    let mut colors: Vec<Color> = Vec::new();
    colors.push(Color::rgb(0xFF, 0, 0));
    colors.push(Color::rgb(0xFF, 0xA5, 0));
    colors.push(Color::rgb(0xFF, 0xFB, 0));
    colors.push(Color::rgb(0, 0xFF, 0));
    colors.push(Color::rgb(0, 0, 0xFF));
    colors.push(Color::rgb(0x80, 0, 0x80));
    assert(colors@ =~= seq![
        Color { r: 0xFF, g: 0, b: 0, a: 255 },
        Color { r: 0xFF, g: 0xA5, b: 0, a: 255 },
        Color { r: 0xFF, g: 0xFB, b: 0, a: 255 },
        Color { r: 0, g: 0xFF, b: 0, a: 255 },
        Color { r: 0, g: 0, b: 0xFF, a: 255 },
        Color { r: 0x80, g: 0, b: 0x80, a: 255 },
    ]);
    colors
}

/// The glyphs of a tile string: its characters without the spaces that separate them.
pub open spec fn faces(tiles: Seq<char>) -> Seq<char>
    decreases tiles.len(),
{
    if tiles.len() == 0 {
        tiles
    } else if tiles.last() == ' ' {
        faces(tiles.drop_last())
    } else {
        faces(tiles.drop_last()).push(tiles.last())
    }
}

/// The `k`-th tile: the `k`-th glyph, in colour `k` of the palette, which starts over when
/// its end is reached.
pub open spec fn entry_at(glyphs: Seq<char>, colors: Seq<Color>, k: int) -> PaletteEntry {
    PaletteEntry { glyph: glyphs[k], color: colors[k % (colors.len() as int)] }
}

/// The table for a tile string and a palette: one tile for each glyph, in order.
pub open spec fn tile_table_of(tiles: Seq<char>, colors: Seq<Color>) -> Seq<PaletteEntry> {
    Seq::new(faces(tiles).len(), |k: int| entry_at(faces(tiles), colors, k))
}

/// The first `n` characters of a tile string hold no more glyphs than the whole string.
proof fn lemma_faces_of_prefix(tiles: Seq<char>, n: int)
    requires
        0 <= n <= tiles.len(),
    ensures
        faces(tiles.take(n)).len() <= faces(tiles).len(),
    decreases tiles.len() - n,
{
    if n == tiles.len() {
        assert(tiles.take(n) =~= tiles);
    } else {
        lemma_faces_of_prefix(tiles, n + 1);
        assert(tiles.take(n + 1).drop_last() =~= tiles.take(n));
    }
}

/// Pairs each glyph of `tiles` with a colour of the palette, cycling through the palette.
///
/// A tile string with a glyph in it needs a palette with a colour in it.
pub fn tile_table(tiles: &str, colors: &Vec<Color>) -> (table: Vec<PaletteEntry>)
    requires
        faces(tiles@).len() > 0 ==> colors.len() > 0,
    ensures
        table@ == tile_table_of(tiles@, colors@),
{
    let mut entries: Vec<PaletteEntry> = Vec::new();
    proof {
        assert(faces(tiles@.take(0)) =~= Seq::<char>::empty());
        assert(entries@ =~= tile_table_of(tiles@.take(0), colors@));
    }
    for glyph in it: tiles.chars()
        invariant
            faces(tiles@).len() > 0 ==> colors.len() > 0,
            it.seq() == tiles@,
            entries@ == tile_table_of(tiles@.take(it.index() as int), colors@),
    {
        proof {
            let seen = tiles@.take(it.index() as int);
            let now = tiles@.take(it.index() + 1);
            assert(now.drop_last() =~= seen);
            assert(now.last() == glyph);
            assert(faces(now) == if glyph == ' ' {
                faces(seen)
            } else {
                faces(seen).push(glyph)
            });
            lemma_faces_of_prefix(tiles@, it.index() + 1);
        }
        if glyph != ' ' {
            let turn: usize = entries.len() % colors.len();
            entries.push(PaletteEntry::new(glyph, colors[turn]));
        }
        proof {
            assert(entries@ =~= tile_table_of(tiles@.take(it.index() + 1), colors@));
        }
    }
    proof {
        assert(tiles@.take(tiles@.len() as int) =~= tiles@);
    }
    entries
}

/// What composing the icon of one tile over `background` comes to, where `render` draws
/// the tile's face on a surface of the background's size.
pub open spec fn tile_composed<F: Fn(&PaletteEntry, &Dimension) -> Result<Surface, ComposeError>>(
    background: ImageFormat,
    render: F,
    entry: PaletteEntry,
    r: Result<ImageBuffer, ComposeError>,
) -> bool {
    if !background.has_area() {
        r == Err::<ImageBuffer, ComposeError>(ComposeError::SurfaceAllocation)
    } else {
        exists|painted: Result<Surface, ComposeError>|
            call_ensures(render, (&entry, &background.dimension()), painted)
                && #[trigger] icon_outcome(background, painted, r)
    }
}

/// The icon of the tile was composed.
pub open spec fn tile_succeeded<F: Fn(&PaletteEntry, &Dimension) -> Result<Surface, ComposeError>>(
    background: ImageFormat,
    render: F,
    entry: PaletteEntry,
) -> bool {
    exists|icon: ImageBuffer|
        icon.wf() && #[trigger] tile_composed(
            background,
            render,
            entry,
            Ok::<ImageBuffer, ComposeError>(icon),
        )
}

/// Composes one icon for each tile of the table, in the table's order: the rows of the
/// model that the icon view shows.
///
/// `render` stands for the rendering backend: it paints the background and the tile's
/// glyph, in the tile's colour, on a fresh surface of the background's size and hands back
/// the surface's pixel memory. The first tile that cannot be composed ends the run with
/// its error.
pub fn create_and_fill_liststore<F>(
    background: &ImageFormat,
    table: &Vec<PaletteEntry>,
    render: F,
) -> (r: Result<Vec<ImageBuffer>, ComposeError>)
    where F: Fn(&PaletteEntry, &Dimension) -> Result<Surface, ComposeError>
    requires
        background.has_area() ==> forall|k: int|
            0 <= k < table.len() ==> call_requires(
                render,
                (&#[trigger] table[k], &background.dimension()),
            ),
    ensures
        match r {
            Ok(icons) => {
                &&& icons.len() == table.len()
                &&& forall|k: int|
                    0 <= k < table.len() ==> (#[trigger] icons[k]).wf() && tile_composed(
                        *background,
                        render,
                        table[k],
                        Ok::<ImageBuffer, ComposeError>(icons[k]),
                    )
            },
            Err(e) => exists|k: int|
                {
                    &&& 0 <= k < table.len()
                    &&& #[trigger] tile_composed(
                        *background,
                        render,
                        table[k],
                        Err::<ImageBuffer, ComposeError>(e),
                    )
                    &&& forall|j: int|
                        0 <= j < k ==> tile_succeeded(*background, render, #[trigger] table[j])
                },
        },
        table.len() == 0 ==> r is Ok,
        table.len() > 0 && !background.has_area() ==> r == Err::<Vec<ImageBuffer>, ComposeError>(
            ComposeError::SurfaceAllocation,
        ),
{
    let mut icons: Vec<ImageBuffer> = Vec::new();
    let mut k: usize = 0;
    while k < table.len()
        invariant
            k <= table.len(),
            icons.len() == k,
            background.has_area() ==> forall|k: int|
                0 <= k < table.len() ==> call_requires(
                    render,
                    (&#[trigger] table[k], &background.dimension()),
                ),
            forall|j: int|
                0 <= j < k ==> (#[trigger] icons[j]).wf() && tile_composed(
                    *background,
                    render,
                    table[j],
                    Ok::<ImageBuffer, ComposeError>(icons[j]),
                ),
        decreases table.len() - k,
    {
        let entry: &PaletteEntry = &table[k];
        let renderer: &F = &render;
        let paint = |bounding_box: &Dimension| -> (painted: Result<Surface, ComposeError>)
            requires
                call_requires(renderer, (entry, bounding_box)),
            ensures
                call_ensures(renderer, (entry, bounding_box), painted),
            { renderer(entry, bounding_box) };
        match custom_icon(background, paint) {
            Ok(icon) => {
                icons.push(icon);
            },
            Err(e) => {
                proof {
                    assert(tile_composed(
                        *background,
                        render,
                        table[k as int],
                        Err::<ImageBuffer, ComposeError>(e),
                    ));
                    assert forall|j: int| 0 <= j < k implies tile_succeeded(
                        *background,
                        render,
                        #[trigger] table[j],
                    ) by {
                        assert(tile_composed(
                            *background,
                            render,
                            table[j],
                            Ok::<ImageBuffer, ComposeError>(icons[j]),
                        ));
                    }
                }
                return Err(e);
            },
        }
        k += 1;
    }
    proof {
        if table.len() > 0 {
            assert(icons[0].wf() && tile_composed(
                *background,
                render,
                table[0],
                Ok::<ImageBuffer, ComposeError>(icons[0]),
            ));
        }
    }
    Ok(icons)
}

} // verus!
