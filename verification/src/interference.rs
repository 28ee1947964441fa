use vstd::prelude::*;

use crate::canvas::{canvas_wf, Canvas};
use crate::color::{color_channel, get_color, is_palette_color, Color};
use crate::rng::get_rnd;

verus! {

/// The pixel buffer that `imageproc::drawing::draw_hollow_ellipse_mut` leaves
/// behind after drawing an outline ellipse of the given center, radius and
/// color onto `data` (clipped to the canvas).  It is a function of the
/// arguments alone.
pub uninterp spec fn hollow_ellipse(
    data: Seq<u8>,
    width: u32,
    height: u32,
    cx: int,
    cy: int,
    radius: int,
    red: u8,
    green: u8,
    blue: u8,
) -> Seq<u8>;

/// `b` is what lane `lane` of some palette color holds.
pub open spec fn palette_lane(b: u8, lane: int) -> bool {
    exists|c: Color| is_palette_color(c) && b == color_channel(c, lane)
}

/// One recorded interference draw: its center, radius and color.
pub ghost struct EllipseDraw {
    pub cx: int,
    pub cy: int,
    pub radius: int,
    pub color: Color,
}

/// `d` is a draw the interference stage can make on a `width` by `height`
/// canvas: a radius between 10 and 15, a center within
/// `[0, width - 25] x [0, height - 15]`, and a palette color.
pub open spec fn valid_ellipse_draw(d: EllipseDraw, width: u32, height: u32) -> bool {
    10 <= d.radius <= 15 && 0 <= d.cx <= width - 25 && 0 <= d.cy <= height - 15
        && is_palette_color(d.color)
}

/// The buffer that drawing `draws` onto `from`, one after the other, leaves
/// behind.
pub open spec fn overlays_apply(
    from: Seq<u8>,
    draws: Seq<EllipseDraw>,
    width: u32,
    height: u32,
) -> Seq<u8>
    decreases draws.len(),
{
    if draws.len() == 0 {
        from
    } else {
        hollow_ellipse(
            overlays_apply(from, draws.drop_last(), width, height),
            width,
            height,
            draws.last().cx,
            draws.last().cy,
            draws.last().radius,
            draws.last().color.red,
            draws.last().color.green,
            draws.last().color.blue,
        )
    }
}

/// `to` is `from` with `num` valid interference overlays drawn on it.
pub open spec fn ellipse_overlays(
    from: Seq<u8>,
    to: Seq<u8>,
    width: u32,
    height: u32,
    num: nat,
) -> bool {
    exists|draws: Seq<EllipseDraw>|
        #![trigger overlays_apply(from, draws, width, height)]
        draws.len() == num && (forall|i: int|
            0 <= i < draws.len() ==> valid_ellipse_draw(#[trigger] draws[i], width, height)) && to
            == overlays_apply(from, draws, width, height)
}

/// Drawing the concatenation of two draw sequences is drawing the first and
/// then the second.
pub proof fn lemma_overlays_apply_concat(
    from: Seq<u8>,
    d1: Seq<EllipseDraw>,
    d2: Seq<EllipseDraw>,
    width: u32,
    height: u32,
)
    ensures
        overlays_apply(from, d1 + d2, width, height) == overlays_apply(
            overlays_apply(from, d1, width, height),
            d2,
            width,
            height,
        ),
    decreases d2.len(),
{
    if d2.len() == 0 {
        assert(d1 + d2 =~= d1);
    } else {
        lemma_overlays_apply_concat(from, d1, d2.drop_last(), width, height);
        assert((d1 + d2).drop_last() =~= d1 + d2.drop_last());
        assert((d1 + d2).last() == d2.last());
    }
}

/// Overlay counts add up: `n1` overlays followed by `n2` overlays are
/// `n1 + n2` overlays.
pub proof fn lemma_overlays_trans(
    a: Seq<u8>,
    b: Seq<u8>,
    c: Seq<u8>,
    width: u32,
    height: u32,
    n1: nat,
    n2: nat,
)
    requires
        ellipse_overlays(a, b, width, height, n1),
        ellipse_overlays(b, c, width, height, n2),
    ensures
        ellipse_overlays(a, c, width, height, n1 + n2),
{
    let d1 = choose|draws: Seq<EllipseDraw>|
        #![trigger overlays_apply(a, draws, width, height)]
        draws.len() == n1 && (forall|i: int|
            0 <= i < draws.len() ==> valid_ellipse_draw(#[trigger] draws[i], width, height)) && b
            == overlays_apply(a, draws, width, height);
    let d2 = choose|draws: Seq<EllipseDraw>|
        #![trigger overlays_apply(b, draws, width, height)]
        draws.len() == n2 && (forall|i: int|
            0 <= i < draws.len() ==> valid_ellipse_draw(#[trigger] draws[i], width, height)) && c
            == overlays_apply(b, draws, width, height);
    lemma_overlays_apply_concat(a, d1, d2, width, height);
    assert forall|i: int| 0 <= i < (d1 + d2).len() implies valid_ellipse_draw(
        #[trigger] (d1 + d2)[i],
        width,
        height,
    ) by {
        if i < d1.len() {
            assert((d1 + d2)[i] == d1[i]);
        } else {
            assert((d1 + d2)[i] == d2[i - d1.len()]);
        }
    }
    assert(c == overlays_apply(a, d1 + d2, width, height));
}

/// Relies on `imageproc::drawing::draw_hollow_ellipse_mut`: it mutates pixels
/// in place through `put_pixel`, clipping every out-of-bounds point, so the
/// buffer's length and the dimensions cannot change, every byte either keeps
/// its value or takes the matching channel of the draw color, and the outcome
/// depends only on the buffer and the draw arguments.  The center must stay
/// `radius` away from the `i32` bounds and the radius itself well below them,
/// since the midpoint algorithm offsets the center by up to `radius` and
/// doubles loop counters in plain `i32` arithmetic.
#[verifier::external_body]
fn draw_ellipse_call(canvas: &mut Canvas, cx: i32, cy: i32, radius: i32, color: Color)
    requires
        canvas_wf(old(canvas)@),
        0 <= radius <= 0x3FFF_FFFF,
        i32::MIN + radius <= cx <= i32::MAX - radius,
        i32::MIN + radius <= cy <= i32::MAX - radius,
    ensures
        final(canvas)@.width == old(canvas)@.width,
        final(canvas)@.height == old(canvas)@.height,
        final(canvas)@.data.len() == old(canvas)@.data.len(),
        final(canvas)@.data == hollow_ellipse(
            old(canvas)@.data,
            old(canvas)@.width,
            old(canvas)@.height,
            cx as int,
            cy as int,
            radius as int,
            color.red,
            color.green,
            color.blue,
        ),
        forall|i: int|
            0 <= i < old(canvas)@.data.len() ==> (#[trigger] final(canvas)@.data[i]) == old(
                canvas,
            )@.data[i] || final(canvas)@.data[i] == color_channel(color, i % 3),
{
    let data = std::mem::take(&mut canvas.data);
    let mut img = image::ImageBuffer::<image::Rgb<u8>, Vec<u8>>::from_raw(
        canvas.width,
        canvas.height,
        data,
    ).unwrap();
    imageproc::drawing::draw_hollow_ellipse_mut(
        &mut img,
        (cx, cy),
        radius,
        radius,
        image::Rgb([color.red, color.green, color.blue]),
    );
    canvas.data = img.into_raw();
}

/// Draws `num` interference ellipses, each with an independently random
/// radius between 10 and 15, a random in-bounds center, and a random palette
/// color: the final buffer is the old one with `num` valid overlays, and
/// every byte either keeps its value or takes a palette channel.  With
/// `num == 0` the canvas is left untouched, bit for bit, on any well-formed
/// canvas.
pub fn draw_interference_ellipse(num: usize, canvas: &mut Canvas)
    requires
        canvas_wf(old(canvas)@),
        num > 0 ==> 25 <= old(canvas)@.width <= i32::MAX,
        num > 0 ==> 15 <= old(canvas)@.height <= i32::MAX,
    ensures
        canvas_wf(final(canvas)@),
        final(canvas)@.width == old(canvas)@.width,
        final(canvas)@.height == old(canvas)@.height,
        ellipse_overlays(
            old(canvas)@.data,
            final(canvas)@.data,
            old(canvas)@.width,
            old(canvas)@.height,
            num as nat,
        ),
        forall|i: int|
            0 <= i < old(canvas)@.data.len() ==> (#[trigger] final(canvas)@.data[i]) == old(
                canvas,
            )@.data[i] || palette_lane(final(canvas)@.data[i], i % 3),
        num == 0 ==> final(canvas)@.data == old(canvas)@.data,
{
    let ghost mut draws: Seq<EllipseDraw> = Seq::empty();
    let mut k: usize = 0;
    while k < num
        invariant
            canvas_wf(canvas@),
            canvas@.width == old(canvas)@.width,
            canvas@.height == old(canvas)@.height,
            canvas@.data.len() == old(canvas)@.data.len(),
            num > 0 ==> 25 <= canvas@.width <= i32::MAX,
            num > 0 ==> 15 <= canvas@.height <= i32::MAX,
            k <= num,
            draws.len() == k,
            forall|i: int|
                0 <= i < draws.len() ==> valid_ellipse_draw(
                    #[trigger] draws[i],
                    old(canvas)@.width,
                    old(canvas)@.height,
                ),
            canvas@.data == overlays_apply(
                old(canvas)@.data,
                draws,
                old(canvas)@.width,
                old(canvas)@.height,
            ),
            forall|i: int|
                0 <= i < old(canvas)@.data.len() ==> (#[trigger] canvas@.data[i]) == old(
                    canvas,
                )@.data[i] || palette_lane(canvas@.data[i], i % 3),
        decreases num - k,
    {
        let ghost pre = canvas@.data;
        let w = 10 + get_rnd(5);
        let x = get_rnd((canvas.width() - 25) as usize);
        let y = get_rnd((canvas.height() - 15) as usize);
        let color = get_color();
        draw_ellipse_call(canvas, x as i32, y as i32, w as i32, color);
        proof {
            assert(pre.len() == old(canvas)@.data.len());
            let d = EllipseDraw { cx: x as int, cy: y as int, radius: w as int, color };
            let grown = draws.push(d);
            assert(grown.drop_last() =~= draws);
            assert(grown.last() == d);
            assert(canvas@.data == overlays_apply(
                old(canvas)@.data,
                grown,
                old(canvas)@.width,
                old(canvas)@.height,
            ));
            draws = grown;
            assert forall|i: int| 0 <= i < old(canvas)@.data.len() implies (
            #[trigger] canvas@.data[i]) == old(canvas)@.data[i] || palette_lane(
                canvas@.data[i],
                i % 3,
            ) by {
                if canvas@.data[i] != pre[i] {
                    assert(canvas@.data[i] == color_channel(color, i % 3));
                    assert(palette_lane(canvas@.data[i], i % 3));
                }
            }
        }
        k = k + 1;
    }
}

} // verus!
