use vstd::prelude::*;

use crate::color::{get_color, is_palette_color, Color};

verus! {

/// One glyph draw call: a single-character string, its top-left position, the
/// font scale to rasterize it at, and its color.
pub struct Glyph {
    pub text: String,
    pub x: u32,
    pub y: u32,
    pub scale_x: u32,
    pub scale_y: u32,
    pub color: Color,
}

/// The horizontal slot width for `n` characters on a canvas of width `width`.
pub open spec fn slot_width(width: u32, n: int) -> int {
    (width - 10) / n
}

/// The vertical baseline shared by all characters.
pub open spec fn baseline_y(height: u32) -> int {
    height as int / 2 - 15
}

/// The horizontal font scale for a challenge of `n` characters: large for up
/// to three, medium for four or five, small beyond.
pub open spec fn scale_w(n: int) -> u32 {
    if 1 <= n <= 3 {
        53
    } else if 4 <= n <= 5 {
        45
    } else {
        38
    }
}

/// The vertical font scale, tiered like `scale_w`.
pub open spec fn scale_h(n: int) -> u32 {
    if 1 <= n <= 3 {
        50
    } else if 4 <= n <= 5 {
        42
    } else {
        35
    }
}

/// `glyphs` lays the characters of `text` out on a `width` by `height`
/// canvas: one glyph per character, left edges five pixels in and one slot
/// apart, a common baseline, the scale tier of the character count, and a
/// palette color for each glyph.
pub open spec fn glyphs_laid_out(glyphs: Seq<Glyph>, text: Seq<char>, width: u32, height: u32) -> bool {
    let n = text.len() as int;
    &&& glyphs.len() == n
    &&& forall|i: int| 0 <= i < n ==> (#[trigger] glyphs[i]).text@ == seq![text[i]]
    &&& forall|i: int| 0 <= i < n ==> (#[trigger] glyphs[i]).x == 5 + i * slot_width(width, n)
    &&& forall|i: int| 0 <= i < n ==> (#[trigger] glyphs[i]).y == baseline_y(height)
    &&& forall|i: int|
        0 <= i < n ==> (#[trigger] glyphs[i]).scale_x == scale_w(n) && glyphs[i].scale_y == scale_h(
        n)
    &&& forall|i: int| 0 <= i < n ==> is_palette_color((#[trigger] glyphs[i]).color)
}

/// Computes the glyph layout for the challenge characters `res`: the slot
/// width, the common baseline, the scale tier, and a fresh random palette
/// color per character.
pub fn character_layout(res: &Vec<String>, width: u32, height: u32) -> (glyphs: Vec<Glyph>)
    requires
        1 <= res@.len() <= u32::MAX,
        width >= 10,
        height >= 30,
        forall|i: int| 0 <= i < res@.len() ==> (#[trigger] res@[i])@.len() == 1,
    ensures
        glyphs_laid_out(glyphs@, res.deep_view().flatten(), width, height),
{
    let n = res.len();
    let c: u32 = (width - 10) / (n as u32);
    let y: u32 = height / 2 - 15;
    let (sx, sy): (u32, u32) = if n <= 3 {
        (53, 50)
    } else if n <= 5 {
        (45, 42)
    } else {
        (38, 35)
    };
    let mut glyphs: Vec<Glyph> = Vec::new();
    let mut k: usize = 0;
    proof {
        vstd::arithmetic::div_mod::lemma_fundamental_div_mod(width - 10, n as int);
    }
    while k < n
        invariant
            1 <= n <= u32::MAX,
            width >= 10,
            height >= 30,
            n == res@.len(),
            forall|i: int| 0 <= i < n ==> (#[trigger] res@[i])@.len() == 1,
            c == slot_width(width, n as int),
            (n as int) * (c as int) <= width - 10,
            y == baseline_y(height),
            sx == scale_w(n as int),
            sy == scale_h(n as int),
            k <= n,
            glyphs@.len() == k,
            forall|i: int| 0 <= i < k ==> (#[trigger] glyphs@[i]).text@ == res@[i]@,
            forall|i: int| 0 <= i < k ==> (#[trigger] glyphs@[i]).x == 5 + i * (c as int),
            forall|i: int| 0 <= i < k ==> (#[trigger] glyphs@[i]).y == y,
            forall|i: int|
                0 <= i < k ==> (#[trigger] glyphs@[i]).scale_x == sx && glyphs@[i].scale_y == sy,
            forall|i: int| 0 <= i < k ==> is_palette_color((#[trigger] glyphs@[i]).color),
        decreases n - k,
    {
        proof {
            assert((k as int) * (c as int) + (c as int) <= (n as int) * (c as int)) by (nonlinear_arith)
                requires
                    0 <= c,
                    k < n,
            ;
        }
        let x: u32 = 5 + (k as u32) * c;
        let color = get_color();
        let glyph = Glyph { text: res[k].clone(), x, y, scale_x: sx, scale_y: sy, color };
        glyphs.push(glyph);
        k = k + 1;
    }
    proof {
        let parts = res.deep_view();
        crate::text::lemma_unit_flatten_index(parts);
        let text = parts.flatten();
        assert forall|i: int| 0 <= i < text.len() implies (#[trigger] glyphs@[i]).text@ == seq![
            text[i],
        ] by {
            assert(parts[i] == res@[i]@);
            assert(glyphs@[i].text@ =~= seq![text[i]]);
        }
    }
    glyphs
}

} // verus!
