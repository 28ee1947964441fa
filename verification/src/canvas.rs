use vstd::prelude::*;

verus! {

/// The mathematical model of a canvas: fixed dimensions and a flat, row-major
/// RGB byte buffer, three bytes per pixel.
pub ghost struct CanvasView {
    pub width: u32,
    pub height: u32,
    pub data: Seq<u8>,
}

/// A canvas is well formed when its buffer holds exactly three bytes for each
/// of its `width * height` pixels.
pub open spec fn canvas_wf(v: CanvasView) -> bool {
    v.data.len() == 3 * (v.width as int) * (v.height as int)
}

/// The byte that channel `i % 3` of a background pixel holds.
pub open spec fn bg_channel(i: int) -> u8 {
    if i % 3 == 0 {
        224
    } else if i % 3 == 1 {
        238
    } else {
        253
    }
}

/// Every pixel of `v` still holds the background color.
pub open spec fn is_background(v: CanvasView) -> bool {
    forall|i: int| 0 <= i < v.data.len() ==> v.data[i] == bg_channel(i)
}

/// A width-by-height grid of RGB pixels, owned by the synthesis pipeline and
/// mutated in place by the drawing stages.
pub struct Canvas {
    pub(crate) width: u32,
    pub(crate) height: u32,
    pub(crate) data: Vec<u8>,
}

impl View for Canvas {
    type V = CanvasView;

    closed spec fn view(&self) -> CanvasView {
        CanvasView { width: self.width, height: self.height, data: self.data@ }
    }
}

impl Canvas {
    /// The canvas width in pixels.
    pub fn width(&self) -> (w: u32)
        ensures
            w == self@.width,
    {
        self.width
    }

    /// The canvas height in pixels.
    pub fn height(&self) -> (h: u32)
        ensures
            h == self@.height,
    {
        self.height
    }

    /// The raw pixel buffer, row-major, three bytes per pixel.
    pub fn pixels(&self) -> (p: &Vec<u8>)
        ensures
            p@ == self@.data,
    {
        &self.data
    }

    /// Whether the buffer length matches the dimensions.
    pub fn is_well_formed(&self) -> (b: bool)
        ensures
            b == canvas_wf(self@),
    {
        let len = self.data.len();
        let w = self.width as usize;
        let h = self.height as usize;
        proof {
            assert((w as int) * (h as int) * 3 == 3 * (w as int) * (h as int)) by (nonlinear_arith);
            assert(0 <= (w as int) * (h as int) <= 3 * (w as int) * (h as int))
                by (nonlinear_arith);
        }
        match w.checked_mul(h) {
            Some(wh) => match wh.checked_mul(3) {
                Some(total) => len == total,
                None => false,
            },
            None => false,
        }
    }

    /// Swaps in a new pixel buffer of the same length, as handed back by an
    /// outside drawing pass; refuses (and leaves the canvas unchanged) when
    /// the length does not match the dimensions.
    pub fn replace_pixels(&mut self, data: Vec<u8>) -> (ok: bool)
        requires
            canvas_wf(old(self)@),
        ensures
            final(self)@.width == old(self)@.width,
            final(self)@.height == old(self)@.height,
            canvas_wf(final(self)@),
            ok == (data@.len() == old(self)@.data.len()),
            ok ==> final(self)@.data == data@,
            !ok ==> final(self)@.data == old(self)@.data,
    {
        if data.len() == self.data.len() {
            self.data = data;
            true
        } else {
            false
        }
    }
}

/// Builds the background canvas: `width * height` pixels, each filled with
/// the background color.
pub fn get_image(width: u32, height: u32) -> (c: Canvas)
    requires
        3 * (width as int) * (height as int) <= usize::MAX,
    ensures
        c@.width == width,
        c@.height == height,
        canvas_wf(c@),
        is_background(c@),
{
    let w = width as usize;
    let h = height as usize;
    proof {
        assert((w as int) * (h as int) <= 3 * (w as int) * (h as int) && (w as int) * (h as int) * 3
            == 3 * (w as int) * (h as int)) by (nonlinear_arith);
    }
    let total: usize = w * h * 3;
    let mut data: Vec<u8> = Vec::new();
    let mut i: usize = 0;
    while i < total
        invariant
            total == 3 * (width as int) * (height as int),
            i <= total,
            data@.len() == i,
            forall|j: int| 0 <= j < i ==> data@[j] == bg_channel(j),
        decreases total - i,
    {
        let m = i % 3;
        if m == 0 {
            data.push(224);
        } else if m == 1 {
            data.push(238);
        } else {
            data.push(253);
        }
        i = i + 1;
    }
    Canvas { width, height, data }
}

} // verus!
