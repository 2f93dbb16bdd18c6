//! The hue gradient: one fully saturated, fully bright colour for each whole
//! degree of hue.

use crate::pixel::Pixel;
use vstd::prelude::*;

verus! {

/// Number of entries in the gradient, one per degree of hue.
pub const HUES: usize = 360;

/// `n / 60` rounded to the nearest integer, a half going up.
pub open spec fn round_sixtieths(n: int) -> int {
    (2 * n + 60) / 120
}

/// Sixty times the secondary component of hue `h` at full saturation and
/// value: `60 * (1 - |((h / 60) mod 2) - 1|)`. It climbs from 0 to 60 over one
/// sector of sixty degrees and falls back over the next.
pub open spec fn ramp(h: int) -> int {
    let t = h % 120;
    if t <= 60 {
        t
    } else {
        120 - t
    }
}

/// The secondary component of hue `h` as a channel value.
pub open spec fn ramp_level(h: int) -> u8 {
    round_sixtieths(ramp(h) * 255) as u8
}

/// The colour of hue `h`, for `0 <= h < 360`: the primary channel of the
/// sector at 255, the secondary at `ramp_level(h)`, the third at 0.
pub open spec fn hue_color(h: int) -> Pixel {
    let x = ramp_level(h);
    if h < 60 {
        Pixel { r: 255, g: x, b: 0 }
    } else if h < 120 {
        Pixel { r: x, g: 255, b: 0 }
    } else if h < 180 {
        Pixel { r: 0, g: 255, b: x }
    } else if h < 240 {
        Pixel { r: 0, g: x, b: 255 }
    } else if h < 300 {
        Pixel { r: x, g: 0, b: 255 }
    } else {
        Pixel { r: 255, g: 0, b: x }
    }
}

/// The colour that any index stands for: the index is taken modulo 360, with
/// the remainder never negative.
pub open spec fn color_at(index: int) -> Pixel {
    hue_color(index % 360)
}

/// The colour of hue `h`, computed.
fn hue_pixel(h: usize) -> (p: Pixel)
    requires
        h < HUES,
    ensures
        p == hue_color(h as int),
{
    let t: usize = h % 120;
    let up: usize = if t <= 60 {
        t
    } else {
        120 - t
    };
    let x: u8 = ((2 * (up * 255) + 60) / 120) as u8;
    if h < 60 {
        Pixel { r: 255, g: x, b: 0 }
    } else if h < 120 {
        Pixel { r: x, g: 255, b: 0 }
    } else if h < 180 {
        Pixel { r: 0, g: 255, b: x }
    } else if h < 240 {
        Pixel { r: 0, g: x, b: 255 }
    } else if h < 300 {
        Pixel { r: x, g: 0, b: 255 }
    } else {
        Pixel { r: 255, g: 0, b: x }
    }
}

/// The gradient, built once and never changed afterwards.
pub struct ColorTable {
    entries: Vec<Pixel>,
}

impl View for ColorTable {
    type V = Seq<Pixel>;

    closed spec fn view(&self) -> Seq<Pixel> {
        self.entries@
    }
}

impl ColorTable {
    #[verifier::type_invariant]
    spec fn complete(&self) -> bool {
        &&& self.entries@.len() == HUES
        &&& forall|h: int| 0 <= h < HUES ==> self.entries@[h] == hue_color(h)
    }

    /// Builds the 360 entries.
    pub fn new() -> (table: ColorTable)
        ensures
            table@.len() == HUES,
            forall|h: int| 0 <= h < HUES ==> table@[h] == hue_color(h),
    {
        let mut entries: Vec<Pixel> = Vec::with_capacity(HUES);
        let mut h: usize = 0;
        while h < HUES
            invariant
                h <= HUES,
                entries@.len() == h,
                forall|k: int| 0 <= k < h ==> entries@[k] == hue_color(k),
            decreases HUES - h,
        {
            entries.push(hue_pixel(h));
            h += 1;
        }
        ColorTable { entries }
    }

    /// The entry for `index`, which may be any number: the table is read at
    /// `index mod 360`.
    pub fn lookup(&self, index: usize) -> (p: Pixel)
        ensures
            p == color_at(index as int),
            p == self@[index as int % 360],
    {
        proof {
            use_type_invariant(self);
        }
        self.entries[index % HUES]
    }
}

/// The gradient wraps: an index and the index 360 further on stand for the
/// same colour.
pub proof fn lemma_hue_wraps(index: int)
    ensures
        color_at(index) == color_at(index + 360),
{
    vstd::arithmetic::div_mod::lemma_mod_add_multiples_vanish(index, 360);
}

/// In every entry one channel is at 255 and another at 0.
pub proof fn lemma_hue_saturated(h: int)
    requires
        0 <= h < 360,
    ensures
        ({
            let p = hue_color(h);
            (p.r == 255 || p.g == 255 || p.b == 255) && (p.r == 0 || p.g == 0 || p.b == 0)
        }),
{
}

} // verus!
