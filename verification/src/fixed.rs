//! Fixed-point numbers: the exact form in which fractional quantities reach
//! the colouring code.

use vstd::prelude::*;

verus! {

/// The raw value that stands for the number one: two to the power 52.
pub const ONE: i64 = 0x10_0000_0000_0000;

/// A real number kept with 52 binary fraction digits: the value is
/// `raw / 2^52`.
///
/// Double-precision numbers whose magnitude lies between 1 and 2048 are all of
/// this form, so a caller that computes in double precision can hand such a
/// number over without rounding it.
#[derive(Clone, Copy, Debug, PartialEq, Eq, Structural)]
pub struct Fixed {
    pub raw: i64,
}

/// The largest integer that is not above `raw / 2^52`.
pub open spec fn floor_of(raw: int) -> int {
    raw / (ONE as int)
}

/// The distance of `raw / 2^52` from its floor, as a raw value in `[0, ONE)`.
pub open spec fn fract_of(raw: int) -> int {
    raw % (ONE as int)
}

} // verus!
