use vstd::prelude::*;

mod canvas;
mod color;
mod encode;
mod interference;
mod layout;
mod noise;
mod rng;
mod text;

pub use canvas::{bg_channel, canvas_wf, get_image, is_background, Canvas, CanvasView};
pub use color::{background_color, get_color, is_palette_color, palette_color, spec_palette, Color};
pub use encode::{
    base64_chars, jpeg_bytes, mime_prefix, package_data_uri, to_base64_str, EncodeError,
};
pub use interference::{
    draw_interference_ellipse, ellipse_overlays, hollow_ellipse, lemma_overlays_apply_concat,
    lemma_overlays_trans, overlays_apply, palette_lane, valid_ellipse_draw, EllipseDraw,
};
pub use layout::{
    baseline_y, character_layout, glyphs_laid_out, scale_h, scale_w, slot_width, Glyph,
};
pub use noise::{noise_params, spec_noise_params, NoiseParams};
pub use rng::get_rnd;
pub use text::{
    decimal_string, digit_char, get_captcha, is_challenge, is_decimal_le, join_strings,
    lemma_unit_flatten_index, spec_decimal, split_chars,
};

use vstd::string::StrSliceExecFns;

verus! {

/// A finished captcha: the challenge string, the synthesized image, and the
/// JPEG quality its exports use.
pub struct Captcha {
    pub text: String,
    pub image: Canvas,
    pub compression: u8,
}

impl Captcha {
    /// Exports the captcha image as a `data:image/jpeg;base64,` URI at the
    /// stored quality; fails exactly when a dimension exceeds what JPEG can
    /// hold.  The result is a function of the stored pixels, dimensions and
    /// quality, so repeated exports return the same string without
    /// re-running synthesis.
    pub fn to_base64(&self) -> (r: Result<String, EncodeError>)
        requires
            canvas_wf(self.image@),
        ensures
            r is Ok <==> (self.image@.width <= 65535 && self.image@.height <= 65535),
            r matches Ok(s) ==> s@ == mime_prefix() + base64_chars(
                jpeg_bytes(self.image@.data, self.image@.width, self.image@.height, self.compression),
            ),
            r matches Ok(s) ==> s@.subrange(0, mime_prefix().len() as int) == mime_prefix(),
    {
        to_base64_str(&self.image, self.compression)
    }
}

/// The mathematical model of a builder: each option as configured so far.
pub ghost struct BuilderView {
    pub text: Option<Seq<char>>,
    pub width: Option<u32>,
    pub height: Option<u32>,
    pub complexity: Option<u32>,
    pub compression: Option<u8>,
}

/// A complexity level clamped into `[1, 10]`.
pub open spec fn spec_clamp_complexity(level: u32) -> u32 {
    if level > 10 {
        10
    } else if level < 1 {
        1
    } else {
        level
    }
}

/// The canvas width a builder resolves to at build time.
pub open spec fn resolved_width(b: BuilderView) -> u32 {
    match b.width {
        Some(w) => w,
        None => 130,
    }
}

/// The canvas height a builder resolves to at build time.
pub open spec fn resolved_height(b: BuilderView) -> u32 {
    match b.height {
        Some(h) => h,
        None => 40,
    }
}

/// The complexity level a builder resolves to at build time.  The builder
/// only ever stores clamped levels, so the clamp here is the identity on
/// every reachable state.
pub open spec fn resolved_complexity(b: BuilderView) -> u32 {
    spec_clamp_complexity(
        match b.complexity {
            Some(c) => c,
            None => 1,
        },
    )
}

/// The configurations a captcha can be synthesized from: a canvas that is at
/// least 25 by 30 pixels (so the baseline and the interference ellipses stay
/// representable), whose buffer fits in memory, with a nonempty challenge
/// string when one was given.
pub open spec fn buildable(b: BuilderView) -> bool {
    &&& 25 <= resolved_width(b) <= i32::MAX
    &&& 30 <= resolved_height(b) <= i32::MAX
    &&& 3 * (resolved_width(b) as int) * (resolved_height(b) as int) <= usize::MAX
    &&& (b.text matches Some(t) ==> 1 <= t.len() <= u32::MAX)
}

/// The staged configuration of a captcha: options accumulate through the
/// fluent setters and defaults are applied only when the captcha is prepared.
pub struct CaptchaBuilder {
    text: Option<String>,
    width: Option<u32>,
    height: Option<u32>,
    complexity: Option<u32>,
    compression: Option<u8>,
}

impl View for CaptchaBuilder {
    type V = BuilderView;

    closed spec fn view(&self) -> BuilderView {
        BuilderView {
            text: match self.text {
                Some(t) => Some(t@),
                None => None,
            },
            width: self.width,
            height: self.height,
            complexity: self.complexity,
            compression: self.compression,
        }
    }
}

impl CaptchaBuilder {
    /// A fresh builder: nothing configured but the default export quality.
    pub fn new() -> (r: CaptchaBuilder)
        ensures
            r@.text is None,
            r@.width is None,
            r@.height is None,
            r@.complexity is None,
            r@.compression == Some(40u8),
    {
        CaptchaBuilder { text: None, width: None, height: None, complexity: None, compression: Some(40) }
    }

    /// Sets the challenge string outright, overriding any earlier `text` or
    /// `length` call.
    pub fn text(self, text: String) -> (r: CaptchaBuilder)
        ensures
            r@.text == Some(text@),
            r@.width == self@.width,
            r@.height == self@.height,
            r@.complexity == self@.complexity,
            r@.compression == self@.compression,
    {
        CaptchaBuilder { text: Some(text), ..self }
    }

    /// Generates a random challenge of `length` components, each the decimal
    /// form of a value drawn from `[0, length]`, overriding any earlier
    /// `text` or `length` call.
    pub fn length(self, length: usize) -> (r: CaptchaBuilder)
        ensures
            r@.text matches Some(t) && is_challenge(t, length as nat),
            length <= 9 ==> (r@.text matches Some(t) && t.len() == length),
            r@.width == self@.width,
            r@.height == self@.height,
            r@.complexity == self@.complexity,
            r@.compression == self@.compression,
    {
        let parts = get_captcha(length);
        let joined = join_strings(&parts);
        proof {
            let ps = parts.deep_view();
            assert(ps.len() == length);
            assert(forall|i: int| 0 <= i < length ==> is_decimal_le(#[trigger] ps[i], length as nat));
            assert(is_challenge(joined@, length as nat));
            if length <= 9 {
                lemma_unit_flatten_index(ps);
            }
        }
        CaptchaBuilder { text: Some(joined), ..self }
    }

    /// Sets the canvas width in pixels.
    pub fn width(self, width: u32) -> (r: CaptchaBuilder)
        ensures
            r@.width == Some(width),
            r@.text == self@.text,
            r@.height == self@.height,
            r@.complexity == self@.complexity,
            r@.compression == self@.compression,
    {
        CaptchaBuilder { width: Some(width), ..self }
    }

    /// Sets the canvas height in pixels.
    pub fn height(self, height: u32) -> (r: CaptchaBuilder)
        ensures
            r@.height == Some(height),
            r@.text == self@.text,
            r@.width == self@.width,
            r@.complexity == self@.complexity,
            r@.compression == self@.compression,
    {
        CaptchaBuilder { height: Some(height), ..self }
    }

    /// Sets the noise complexity level, silently clamped into `[1, 10]`.
    pub fn complexity(self, complexity: u32) -> (r: CaptchaBuilder)
        ensures
            r@.complexity == Some(spec_clamp_complexity(complexity)),
            1 <= spec_clamp_complexity(complexity) <= 10,
            1 <= complexity <= 10 ==> r@.complexity == Some(complexity),
            complexity < 1 ==> r@.complexity == Some(1u32),
            complexity > 10 ==> r@.complexity == Some(10u32),
            r@.text == self@.text,
            r@.width == self@.width,
            r@.height == self@.height,
            r@.compression == self@.compression,
    {
        let clamped = if complexity > 10 {
            10
        } else if complexity < 1 {
            1
        } else {
            complexity
        };
        CaptchaBuilder { complexity: Some(clamped), ..self }
    }

    /// Sets the export quality, accepted without clamping.
    pub fn compression(self, compression: u8) -> (r: CaptchaBuilder)
        ensures
            r@.compression == Some(compression),
            r@.text == self@.text,
            r@.width == self@.width,
            r@.height == self@.height,
            r@.complexity == self@.complexity,
    {
        CaptchaBuilder { compression: Some(compression), ..self }
    }

    /// Whether this configuration can be prepared.
    pub fn is_buildable(&self) -> (b: bool)
        ensures
            b == buildable(self@),
    {
        let w: u32 = match self.width {
            Some(w) => w,
            None => 130,
        };
        let h: u32 = match self.height {
            Some(h) => h,
            None => 40,
        };
        if !(25 <= w && w <= i32::MAX as u32 && 30 <= h && h <= i32::MAX as u32) {
            return false;
        }
        proof {
            assert((w as int) * (h as int) * 3 == 3 * (w as int) * (h as int)) by (nonlinear_arith);
            assert(0 <= (w as int) * (h as int) <= 3 * (w as int) * (h as int))
                by (nonlinear_arith);
        }
        let fits = match (w as usize).checked_mul(h as usize) {
            Some(wh) => wh.checked_mul(3).is_some(),
            None => false,
        };
        if !fits {
            return false;
        }
        match &self.text {
            Some(t) => {
                let n = t.as_str().unicode_len();
                1 <= n && n <= u32::MAX as usize
            },
            None => true,
        }
    }

    /// Resolves the configuration and runs every synthesis stage the library
    /// computes itself: the default or generated challenge string, the
    /// background canvas, the glyph layout with its random colors, and the
    /// noise parameters.  The host then rasterizes the glyphs, adds the
    /// interference ellipses through [`Prepared::add_interference`], applies
    /// the noise passes when [`Prepared::noise`] asks for them, and packages
    /// the result with [`Prepared::finish`].
    pub fn prepare(self) -> (r: Prepared)
        requires
            buildable(self@),
        ensures
            prepared_wf(r@),
            r@.canvas.width == resolved_width(self@),
            r@.canvas.height == resolved_height(self@),
            canvas_wf(r@.canvas),
            is_background(r@.canvas),
            self@.text matches Some(t) ==> r@.text == t,
            self@.text is None ==> is_challenge(r@.text, 5) && r@.text.len() == 5,
            1 <= r@.text.len() <= u32::MAX,
            glyphs_laid_out(r@.glyphs, r@.text, resolved_width(self@), resolved_height(self@)),
            r@.noise == spec_noise_params(resolved_complexity(self@)),
            resolved_complexity(self@) == 1 <==> r@.noise is None,
    {
        let width: u32 = match self.width {
            Some(w) => w,
            None => 130,
        };
        let height: u32 = match self.height {
            Some(h) => h,
            None => 40,
        };
        let level: u32 = match self.complexity {
            Some(c) => c,
            None => 1,
        };
        let level = if level > 10 {
            10
        } else if level < 1 {
            1
        } else {
            level
        };
        let text: String = match self.text {
            Some(t) => t,
            None => {
                let parts = get_captcha(5);
                let joined = join_strings(&parts);
                proof {
                    let ps = parts.deep_view();
                    assert(is_challenge(joined@, 5));
                    lemma_unit_flatten_index(ps);
                }
                joined
            },
        };
        let canvas = get_image(width, height);
        let chars = split_chars(&text);
        let glyphs = character_layout(&chars, width, height);
        let noise = noise_params(level);
        proof {
            let ps = chars.deep_view();
            assert(ps.len() == text@.len());
            assert forall|i: int| 0 <= i < ps.len() implies (#[trigger] ps[i]) == seq![
                text@[i],
            ] by {
                assert(ps[i] == chars@[i]@);
            }
            lemma_unit_flatten_index(ps);
            assert(ps.flatten().len() == text@.len());
            assert forall|i: int| 0 <= i < ps.len() implies ps.flatten()[i] == text@[i] by {
                assert(ps.flatten()[i] == ps[i][0]);
                assert(ps[i] == seq![text@[i]]);
                assert(seq![text@[i]][0] == text@[i]);
            }
            assert(ps.flatten() =~= text@);
        }
        Prepared { text, canvas, glyphs, noise }
    }
}

/// The mathematical model of a prepared captcha.
pub ghost struct PreparedView {
    pub text: Seq<char>,
    pub canvas: CanvasView,
    pub glyphs: Seq<Glyph>,
    pub noise: Option<NoiseParams>,
}

/// A prepared captcha stays drawable: its canvas is well formed and large
/// enough for every remaining stage.
pub open spec fn prepared_wf(p: PreparedView) -> bool {
    &&& canvas_wf(p.canvas)
    &&& 25 <= p.canvas.width <= i32::MAX
    &&& 15 <= p.canvas.height <= i32::MAX
}

/// A captcha in mid-synthesis: the resolved challenge string, the canvas,
/// the glyph draw calls still owed to it, and the noise parameters of the
/// final passes (none at complexity one).
pub struct Prepared {
    text: String,
    canvas: Canvas,
    glyphs: Vec<Glyph>,
    noise: Option<NoiseParams>,
}

impl View for Prepared {
    type V = PreparedView;

    closed spec fn view(&self) -> PreparedView {
        PreparedView {
            text: self.text@,
            canvas: self.canvas@,
            glyphs: self.glyphs@,
            noise: self.noise,
        }
    }
}

impl Prepared {
    /// The resolved challenge string.
    pub fn text(&self) -> (t: &String)
        ensures
            t@ == self@.text,
    {
        &self.text
    }

    /// The glyph draw calls the host still has to rasterize.
    pub fn glyphs(&self) -> (g: &Vec<Glyph>)
        ensures
            g@ == self@.glyphs,
    {
        &self.glyphs
    }

    /// The canvas in its current state.
    pub fn canvas(&self) -> (c: &Canvas)
        ensures
            c@ == self@.canvas,
    {
        &self.canvas
    }

    /// The noise parameters, or none when complexity one asked for no noise.
    pub fn noise(&self) -> (n: Option<NoiseParams>)
        ensures
            n == self@.noise,
    {
        self.noise
    }

    /// Whether the canvas is still well formed and large enough to draw on.
    pub fn is_ready(&self) -> (b: bool)
        ensures
            b == prepared_wf(self@),
    {
        self.canvas.is_well_formed() && 25 <= self.canvas.width() && self.canvas.width()
            <= i32::MAX as u32 && 15 <= self.canvas.height() && self.canvas.height()
            <= i32::MAX as u32
    }

    /// Swaps in the pixel buffer an outside drawing pass handed back, which
    /// must have kept its length; refuses (leaving the canvas unchanged)
    /// otherwise.
    pub fn replace_pixels(&mut self, data: Vec<u8>) -> (ok: bool)
        requires
            prepared_wf(old(self)@),
        ensures
            prepared_wf(final(self)@),
            final(self)@.text == old(self)@.text,
            final(self)@.glyphs == old(self)@.glyphs,
            final(self)@.noise == old(self)@.noise,
            final(self)@.canvas.width == old(self)@.canvas.width,
            final(self)@.canvas.height == old(self)@.canvas.height,
            ok == (data@.len() == old(self)@.canvas.data.len()),
            ok ==> final(self)@.canvas.data == data@,
            !ok ==> final(self)@.canvas.data == old(self)@.canvas.data,
    {
        self.canvas.replace_pixels(data)
    }

    /// Draws the four interference ellipses, in the original's two passes of
    /// two: the canvas ends up as the old buffer with four valid overlays,
    /// and every byte either keeps its value or takes a palette channel.
    pub fn add_interference(&mut self)
        requires
            prepared_wf(old(self)@),
        ensures
            prepared_wf(final(self)@),
            final(self)@.text == old(self)@.text,
            final(self)@.glyphs == old(self)@.glyphs,
            final(self)@.noise == old(self)@.noise,
            final(self)@.canvas.width == old(self)@.canvas.width,
            final(self)@.canvas.height == old(self)@.canvas.height,
            ellipse_overlays(
                old(self)@.canvas.data,
                final(self)@.canvas.data,
                old(self)@.canvas.width,
                old(self)@.canvas.height,
                4,
            ),
            forall|i: int|
                0 <= i < old(self)@.canvas.data.len() ==> (
                #[trigger] final(self)@.canvas.data[i]) == old(self)@.canvas.data[i]
                    || palette_lane(final(self)@.canvas.data[i], i % 3),
    {
        let ghost start = self.canvas@.data;
        draw_interference_ellipse(2, &mut self.canvas);
        let ghost middle = self.canvas@.data;
        draw_interference_ellipse(2, &mut self.canvas);
        proof {
            lemma_overlays_trans(
                start,
                middle,
                self.canvas@.data,
                old(self)@.canvas.width,
                old(self)@.canvas.height,
                2,
                2,
            );
            assert forall|i: int| 0 <= i < old(self)@.canvas.data.len() implies (
            #[trigger] self.canvas@.data[i]) == start[i] || palette_lane(
                self.canvas@.data[i],
                i % 3,
            ) by {
                if self.canvas@.data[i] != middle[i] {
                } else if middle[i] != start[i] {
                    assert(palette_lane(middle[i], i % 3));
                }
            }
        }
    }

    /// Packages the finished canvas as the final artifact.  The stored
    /// export quality is always 40, whatever `compression` was configured:
    /// the original pipeline discards the configured value here, and that
    /// observable behavior is kept.
    pub fn finish(self) -> (c: Captcha)
        ensures
            c.text@ == self@.text,
            c.image@ == self@.canvas,
            c.compression == 40,
    {
        Captcha { text: self.text, image: self.canvas, compression: 40 }
    }
}

} // verus!
