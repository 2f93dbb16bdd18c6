//! Pixels: opaque colours of three 8-bit channels, their blending and their
//! four-byte form.

use crate::fixed::{Fixed, ONE};
use vstd::prelude::*;

verus! {

/// The alpha byte of every packed pixel: fully opaque.
pub const OPAQUE: u8 = 255;

/// Number of bytes in a packed pixel.
pub const BYTES_PER_PIXEL: usize = 4;

/// An opaque colour. The alpha channel is not stored: it is `OPAQUE` for every
/// pixel and appears only in the packed form.
#[derive(Clone, Copy, Debug, PartialEq, Eq, Structural)]
pub struct Pixel {
    pub r: u8,
    pub g: u8,
    pub b: u8,
}

/// The channel value nearest to `v` within `[0, 255]`.
pub open spec fn clamp_channel(v: int) -> u8 {
    if v < 0 {
        0u8
    } else if v > 255 {
        255u8
    } else {
        v as u8
    }
}

/// The channel at `c1 + frac * (c2 - c1)`, clamped to `[0, 255]` and cut down
/// to a whole number. `frac` is the raw value of a fixed-point number.
#[verifier::opaque]
pub open spec fn blend_channel(c1: u8, c2: u8, frac: int) -> u8 {
    clamp_channel((c1 as int * ONE as int + frac * (c2 as int - c1 as int)) / (ONE as int))
}

/// The packed form of a pixel: alpha, red, green, blue, in that order in
/// memory.
pub open spec fn packed(p: Pixel) -> Seq<u8> {
    seq![OPAQUE, p.r, p.g, p.b]
}

fn interpolate_channel(c1: u8, c2: u8, frac: Fixed) -> (c: u8)
    ensures
        c == blend_channel(c1, c2, frac.raw as int),
{
    reveal(blend_channel);
    let diff: i128 = c2 as i128 - c1 as i128;
    assert(-0x8000_0000_0000_0000 * 255 <= frac.raw * diff <= 0x8000_0000_0000_0000 * 255)
        by (nonlinear_arith)
        requires
            -255 <= diff <= 255,
            -0x8000_0000_0000_0000 <= frac.raw < 0x8000_0000_0000_0000,
    ;
    let num: i128 = (c1 as i128) * (ONE as i128) + (frac.raw as i128) * diff;
    if num < 0 {
        0
    } else {
        let whole: i128 = num / (ONE as i128);
        if whole > 255 {
            255
        } else {
            whole as u8
        }
    }
}

impl Pixel {
    /// Opaque black, the colour of points that never escape.
    pub open spec fn black() -> Pixel {
        Pixel { r: 0, g: 0, b: 0 }
    }

    /// The colour a fraction `frac` of the way from `self` to `other`, channel
    /// by channel.
    pub open spec fn blend(self, other: Pixel, frac: int) -> Pixel {
        Pixel {
            r: blend_channel(self.r, other.r, frac),
            g: blend_channel(self.g, other.g, frac),
            b: blend_channel(self.b, other.b, frac),
        }
    }

    /// The opaque colour with the given channels.
    pub fn new(r: u8, g: u8, b: u8) -> (p: Pixel)
        ensures
            p == (Pixel { r, g, b }),
    {
        Pixel { r, g, b }
    }

    /// Linear interpolation between two colours.
    ///
    /// Each channel is `self + frac * (other - self)`, clamped to `[0, 255]`;
    /// what lies beyond the decimal point is dropped. A `frac` outside `[0, 1]`
    /// extrapolates and is caught by the clamp.
    pub fn interpolate(self, other: Pixel, frac: Fixed) -> (p: Pixel)
        ensures
            p == self.blend(other, frac.raw as int),
    {
        Pixel {
            r: interpolate_channel(self.r, other.r, frac),
            g: interpolate_channel(self.g, other.g, frac),
            b: interpolate_channel(self.b, other.b, frac),
        }
    }

    /// The four bytes of the pixel as the display expects them.
    pub fn to_bytes(self) -> (bytes: [u8; 4])
        ensures
            bytes@ == packed(self),
    {
        let bytes: [u8; 4] = [OPAQUE, self.r, self.g, self.b];
        assert(bytes@ =~= packed(self));
        bytes
    }

    /// Reads a pixel back from its packed form. Only opaque pixels exist, so
    /// any other alpha byte is refused.
    pub fn from_bytes(bytes: [u8; 4]) -> (p: Option<Pixel>)
        ensures
            p is Some <==> bytes[0] == OPAQUE,
            p matches Some(q) ==> packed(q) == bytes@,
    {
        if bytes[0] == OPAQUE {
            let q = Pixel { r: bytes[1], g: bytes[2], b: bytes[3] };
            assert(packed(q) =~= bytes@);
            Some(q)
        } else {
            None
        }
    }
}

impl Default for Pixel {
    fn default() -> (p: Pixel)
        ensures
            p == Pixel::black(),
    {
        Pixel { r: 0, g: 0, b: 0 }
    }
}

/// Blending a colour with itself gives that colour, whatever the fraction.
pub proof fn lemma_blend_same(a: Pixel, frac: int)
    ensures
        a.blend(a, frac) == a,
{
    lemma_blend_channel_same(a.r, frac);
    lemma_blend_channel_same(a.g, frac);
    lemma_blend_channel_same(a.b, frac);
}

/// At fraction zero the blend is the first colour.
pub proof fn lemma_blend_zero(a: Pixel, b: Pixel)
    ensures
        a.blend(b, 0) == a,
{
    lemma_blend_channel_same(a.r, 0);
    lemma_blend_channel_same(a.g, 0);
    lemma_blend_channel_same(a.b, 0);
}

/// At fraction one the blend is the second colour.
pub proof fn lemma_blend_one(a: Pixel, b: Pixel)
    ensures
        a.blend(b, ONE as int) == b,
{
    lemma_blend_channel_one(a.r, b.r);
    lemma_blend_channel_one(a.g, b.g);
    lemma_blend_channel_one(a.b, b.b);
}

proof fn lemma_blend_channel_same(c: u8, frac: int)
    ensures
        blend_channel(c, c, frac) == c,
        forall|d: u8| blend_channel(c, d, 0) == c,
{
    reveal(blend_channel);
    assert(frac * 0 == 0);
    assert forall|d: u8| blend_channel(c, d, 0) == c by {
        assert(0 * (d as int - c as int) == 0);
        vstd::arithmetic::div_mod::lemma_div_by_multiple(c as int, ONE as int);
    }
    vstd::arithmetic::div_mod::lemma_div_by_multiple(c as int, ONE as int);
}

proof fn lemma_blend_channel_one(c1: u8, c2: u8)
    ensures
        blend_channel(c1, c2, ONE as int) == c2,
{
    reveal(blend_channel);
    assert(c1 as int * ONE as int + ONE as int * (c2 as int - c1 as int) == c2 as int * ONE as int)
        by (nonlinear_arith);
    vstd::arithmetic::div_mod::lemma_div_by_multiple(c2 as int, ONE as int);
}

} // verus!
