use vstd::prelude::*;

use crate::rng::get_rnd;

verus! {

/// One RGB pixel color, with one byte per channel.
#[derive(Clone, Copy, Debug, PartialEq, Eq, Structural)]
pub struct Color {
    pub red: u8,
    pub green: u8,
    pub blue: u8,
}

/// The fixed inventory of foreground colors that glyphs and interference
/// shapes are drawn in.
pub open spec fn spec_palette(i: int) -> Color {
    if i == 0 {
        Color { red: 214, green: 14, blue: 50 }
    } else if i == 1 {
        Color { red: 240, green: 181, blue: 41 }
    } else if i == 2 {
        Color { red: 176, green: 203, blue: 40 }
    } else if i == 3 {
        Color { red: 105, green: 137, blue: 194 }
    } else {
        Color { red: 242, green: 140, blue: 71 }
    }
}

/// The background color every canvas starts out filled with.
pub open spec fn background_color() -> Color {
    Color { red: 224, green: 238, blue: 253 }
}

/// `c` is one of the five palette colors.
pub open spec fn is_palette_color(c: Color) -> bool {
    exists|j: int| 0 <= j < 5 && c == spec_palette(j)
}

/// The byte that lane `lane` of a flat RGB buffer holds for a pixel of color
/// `c`: red at lane 0, green at lane 1, blue at lane 2.
pub open spec fn color_channel(c: Color, lane: int) -> u8 {
    if lane == 0 {
        c.red
    } else if lane == 1 {
        c.green
    } else {
        c.blue
    }
}

/// Returns the palette entry at `i`.
pub fn palette_color(i: usize) -> (c: Color)
    requires
        i < 5,
    ensures
        c == spec_palette(i as int),
{
    if i == 0 {
        Color { red: 214, green: 14, blue: 50 }
    } else if i == 1 {
        Color { red: 240, green: 181, blue: 41 }
    } else if i == 2 {
        Color { red: 176, green: 203, blue: 40 }
    } else if i == 3 {
        Color { red: 105, green: 137, blue: 194 }
    } else {
        Color { red: 242, green: 140, blue: 71 }
    }
}

/// Picks one of the five palette colors uniformly at random.
pub fn get_color() -> (c: Color)
    ensures
        is_palette_color(c),
{
    let idx = get_rnd(4);
    let c = palette_color(idx);
    proof {
        assert(c == spec_palette(idx as int));
    }
    c
}

} // verus!
