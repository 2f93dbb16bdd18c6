//! Colouring of escape results: from the count of iterations a point took to
//! leave the bailout circle, and the renormalisation term that smooths the
//! count, to a colour of the gradient.

use crate::fixed::{floor_of, fract_of, Fixed, ONE};
use crate::palette::{color_at, ColorTable};
use crate::pixel::Pixel;
use vstd::prelude::*;

verus! {

/// The iteration cap. A point that has not escaped after this many iterations
/// counts as a member of the set.
pub const MAX_ITERATIONS: u32 = 1000;

/// The squared magnitude at which the iteration `z -> z^2 + c` stops: the
/// point has escaped once `|z|^2` reaches it.
pub const BAILOUT: u32 = 65536;

/// What iterating one point gave.
///
/// `iterations` is the number `n` of steps taken, ending with the first `z_n`
/// outside the bailout circle or at the cap. `nu` is the renormalisation term
/// `log2(log2 |z_n|)` of an escaped point; for a point at the cap it is not
/// read.
#[derive(Clone, Copy, Debug, PartialEq, Eq, Structural)]
pub struct Orbit {
    pub iterations: u32,
    pub nu: Fixed,
}

/// The continuous escape count `n + 1 - nu`, as a raw fixed-point value.
pub open spec fn smoothed(orbit: Orbit) -> int {
    (orbit.iterations + 1) * ONE - orbit.nu.raw
}

/// The colour of an orbit. At the cap: opaque black. Otherwise, with `s` the
/// continuous escape count: the blend of the gradient's entries `floor(s)` and
/// `floor(s) + 1`, both taken modulo 360, at the fraction `s - floor(s)`.
pub open spec fn shade_of(orbit: Orbit) -> Pixel {
    if orbit.iterations >= MAX_ITERATIONS {
        Pixel::black()
    } else {
        let s = smoothed(orbit);
        color_at(floor_of(s)).blend(color_at(floor_of(s) + 1), fract_of(s))
    }
}

/// Splits the continuous escape count of an orbit below the cap into the
/// gradient index of its floor and its fraction.
fn split_count(orbit: Orbit) -> (parts: (usize, Fixed))
    requires
        orbit.iterations < MAX_ITERATIONS,
    ensures
        parts.0 == floor_of(smoothed(orbit)) % 360,
        parts.1.raw == fract_of(smoothed(orbit)),
{
    let count: i128 = orbit.iterations as i128 + 1;
    // 2^52 is the raw value of one.
    let s: i128 = count * 0x10_0000_0000_0000 - (orbit.nu.raw as i128);
    let whole: i128 = match s.checked_div_euclid(0x10_0000_0000_0000) {
        Some(q) => q,
        None => 0,
    };
    let frac: i128 = match s.checked_rem_euclid(0x10_0000_0000_0000) {
        Some(r) => r,
        None => 0,
    };
    let base: i128 = match whole.checked_rem_euclid(360) {
        Some(r) => r,
        None => 0,
    };
    (base as usize, Fixed { raw: frac as i64 })
}

impl ColorTable {
    /// Colours one orbit.
    pub fn shade(&self, orbit: Orbit) -> (p: Pixel)
        ensures
            p == shade_of(orbit),
    {
        if orbit.iterations >= MAX_ITERATIONS {
            return Pixel::default();
        }
        let (base, frac) = split_count(orbit);
        let low = self.lookup(base);
        let high = self.lookup(base + 1);
        proof {
            let whole = floor_of(smoothed(orbit));
            assert(base as int % 360 == whole % 360);
            assert((base + 1) % 360 == (whole + 1) % 360);
        }
        low.interpolate(high, frac)
    }
}

/// A point that reaches the cap is black, whatever else the orbit holds.
pub proof fn lemma_capped_is_black(orbit: Orbit)
    requires
        orbit.iterations >= MAX_ITERATIONS,
    ensures
        shade_of(orbit) == Pixel::black(),
{
}

/// An escape count that is a whole number picks its gradient entry unblended.
pub proof fn lemma_whole_count_is_entry(orbit: Orbit)
    requires
        orbit.iterations < MAX_ITERATIONS,
        fract_of(smoothed(orbit)) == 0,
    ensures
        shade_of(orbit) == color_at(floor_of(smoothed(orbit))),
{
    crate::pixel::lemma_blend_zero(
        color_at(floor_of(smoothed(orbit))),
        color_at(floor_of(smoothed(orbit)) + 1),
    );
}

} // verus!
