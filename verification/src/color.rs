//! Owner identifiers and the fixed palette that paints them.

use vstd::prelude::*;

verus! {

/// An opaque red/green/blue colour, as handed to the drawing surface.
#[derive(Clone, Copy, Debug, PartialEq, Eq, Structural)]
pub struct Color {
    pub r: u8,
    pub g: u8,
    pub b: u8,
}

/// Owner id of a planet that nobody holds.
pub const NEUTRAL_OWNER: i32 = 0;

/// Owner id that stands for "no owner recorded"; it is no player's id.
pub const UNKNOWN_OWNER: i32 = -1;

/// Number of owner ids that have a colour of their own: the neutral owner
/// and the players `1 ..= PALETTE_SIZE - 1`.
pub const PALETTE_SIZE: i32 = 12;

/// The palette as a table: entry `i` paints owner id `i`.
pub open spec fn palette() -> Seq<Color> {
    seq![
        Color { r: 0x80, g: 0x80, b: 0x80 },
        Color { r: 0x00, g: 0xff, b: 0x00 },
        Color { r: 0x00, g: 0xff, b: 0x80 },
        Color { r: 0x00, g: 0xff, b: 0xff },
        Color { r: 0x00, g: 0x80, b: 0xff },
        Color { r: 0x00, g: 0x00, b: 0xff },
        Color { r: 0x80, g: 0x00, b: 0xff },
        Color { r: 0xff, g: 0x00, b: 0xc0 },
        Color { r: 0xff, g: 0x00, b: 0x00 },
        Color { r: 0xff, g: 0x80, b: 0x00 },
        Color { r: 0xff, g: 0xff, b: 0x00 },
        Color { r: 0x80, g: 0xff, b: 0x00 },
    ]
}

/// Colour of every owner id without a palette entry, the unknown owner
/// among them: white.
pub open spec fn fallback_color() -> Color {
    Color { r: 0xff, g: 0xff, b: 0xff }
}

/// Colour the surface is cleared to: black.
pub open spec fn background_color() -> Color {
    Color { r: 0, g: 0, b: 0 }
}

/// Display colour of an owner id: its palette entry, or the fallback where
/// it has none.
pub open spec fn color_of(owner_id: int) -> Color {
    if 0 <= owner_id < palette().len() {
        palette()[owner_id]
    } else {
        fallback_color()
    }
}

/// Maps an owner id to its display colour: a lookup in the palette,
/// within its bounds, and the fallback outside of them.
pub fn pick_color(owner_id: i32) -> (color: Color)
    ensures
        color == color_of(owner_id as int),
{
    let table: [Color; 12] = [
        Color { r: 0x80, g: 0x80, b: 0x80 },
        Color { r: 0x00, g: 0xff, b: 0x00 },
        Color { r: 0x00, g: 0xff, b: 0x80 },
        Color { r: 0x00, g: 0xff, b: 0xff },
        Color { r: 0x00, g: 0x80, b: 0xff },
        Color { r: 0x00, g: 0x00, b: 0xff },
        Color { r: 0x80, g: 0x00, b: 0xff },
        Color { r: 0xff, g: 0x00, b: 0xc0 },
        Color { r: 0xff, g: 0x00, b: 0x00 },
        Color { r: 0xff, g: 0x80, b: 0x00 },
        Color { r: 0xff, g: 0xff, b: 0x00 },
        Color { r: 0x80, g: 0xff, b: 0x00 },
    ];
    if 0 <= owner_id && owner_id < PALETTE_SIZE {
        table[owner_id as usize]
    } else {
        Color { r: 0xff, g: 0xff, b: 0xff }
    }
}

/// The colour a frame is cleared to.
pub fn background() -> (color: Color)
    ensures
        color == background_color(),
{
    Color { r: 0, g: 0, b: 0 }
}

/// The palette has one entry for each of the `PALETTE_SIZE` owner ids, no
/// two owner ids in it share a colour, and none of them is painted in the
/// fallback colour: an owner without a record can be told from every
/// palette owner.
pub proof fn lemma_palette_distinct(a: int, b: int)
    requires
        0 <= a < PALETTE_SIZE,
        0 <= b < PALETTE_SIZE,
    ensures
        palette().len() == PALETTE_SIZE,
        a != b ==> color_of(a) != color_of(b),
        color_of(a) != fallback_color(),
        color_of(UNKNOWN_OWNER as int) == fallback_color(),
{
}

} // verus!
