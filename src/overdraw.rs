use vstd::prelude::*;

use crate::color::{Grey8, Rgb8, Rgba8};
use crate::convert::luminance;

verus! {

/// Integer division of `n` by a positive `d`, rounded toward zero.
pub open spec fn div_toward_zero(n: int, d: int) -> int {
    if n >= 0 {
        n / d
    } else {
        -((-n) / d)
    }
}

/// The destination channel moved toward the source channel by
/// `weight / 255` of the distance between them:
/// `dst + (src - dst) * weight / 255`, the division rounded toward zero.
pub open spec fn blend_exact(src: u8, dst: u8, weight: u8) -> int {
    dst + div_toward_zero((src - dst) * weight, 255)
}

/// `blend_exact` as a channel value; it always lies between `dst` and `src`.
pub open spec fn blend(src: u8, dst: u8, weight: u8) -> u8 {
    blend_exact(src, dst, weight) as u8
}

/// The doubled opacity, saturating at 255.
pub open spec fn doubled_alpha(a: u8) -> u8 {
    if a + a > 255 {
        255
    } else {
        (a + a) as u8
    }
}

/// A step of `n * weight / 255` never passes `n`.
proof fn lemma_scaled_step(n: int, weight: int)
    requires
        0 <= n <= 255,
        0 <= weight <= 255,
    ensures
        0 <= n * weight / 255 <= n,
        n * weight <= 255 * 255,
{
    assert(0 <= n * weight <= n * 255) by (nonlinear_arith)
        requires
            0 <= n <= 255,
            0 <= weight <= 255,
    ;
    assert(n * 255 / 255 == n) by (nonlinear_arith);
    assert(n * weight / 255 <= n * 255 / 255) by (nonlinear_arith)
        requires
            n * weight <= n * 255,
    ;
    assert(n * weight <= 255 * 255) by (nonlinear_arith)
        requires
            0 <= n <= 255,
            0 <= weight <= 255,
    ;
}

/// A blended channel lies between the destination and the source, so it
/// is a channel value and the cast in `blend` loses nothing.
pub proof fn lemma_blend_between(src: u8, dst: u8, weight: u8)
    ensures
        src <= dst ==> src <= blend_exact(src, dst, weight) <= dst,
        dst <= src ==> dst <= blend_exact(src, dst, weight) <= src,
        blend(src, dst, weight) as int == blend_exact(src, dst, weight),
{
    if src >= dst {
        lemma_scaled_step(src - dst, weight as int);
    } else {
        lemma_scaled_step(dst - src, weight as int);
        assert((src - dst) * weight == -((dst - src) * weight)) by (nonlinear_arith);
    }
}

/// Blends one channel: `dst + (src - dst) * weight / 255`, the division
/// rounded toward zero.
pub fn blend_channel(src: u8, dst: u8, weight: u8) -> (c: u8)
    ensures
        c == blend(src, dst, weight),
        c as int == blend_exact(src, dst, weight),
{
    proof { lemma_blend_between(src, dst, weight); }
    if src >= dst {
        let diff: u8 = src - dst;
        proof { lemma_scaled_step(diff as int, weight as int); }
        let step: u32 = diff as u32 * weight as u32 / 255;
        dst + step as u8
    } else {
        let diff: u8 = dst - src;
        proof {
            lemma_scaled_step(diff as int, weight as int);
            assert((src - dst) * weight == -(diff * weight)) by (nonlinear_arith)
                requires
                    diff == dst - src,
            ;
        }
        let step: u32 = diff as u32 * weight as u32 / 255;
        dst - step as u8
    }
}

/// Source-over compositing of a pixel onto a destination pixel of type
/// `Another`, in place. Pixel types without an opacity channel are opaque.
pub trait Overdraw<Another>: Sized {
    /// The destination after this pixel has been drawn over `dst`.
    spec fn overdrawn(&self, dst: Another) -> Another;

    fn overdraw_on(&self, rhs: &mut Another)
        ensures
            *final(rhs) == self.overdrawn(*old(rhs)),
    ;
}

impl Overdraw<Rgb8> for Rgb8 {
    /// An opaque source replaces the destination.
    open spec fn overdrawn(&self, dst: Rgb8) -> Rgb8 {
        *self
    }

    fn overdraw_on(&self, rhs: &mut Rgb8) {
        *rhs = *self;
    }
}

impl Overdraw<Rgba8> for Rgb8 {
    /// An opaque source replaces the colour and makes the destination opaque.
    open spec fn overdrawn(&self, dst: Rgba8) -> Rgba8 {
        Rgba8 { r: self.r, g: self.g, b: self.b, a: 255 }
    }

    fn overdraw_on(&self, rhs: &mut Rgba8) {
        *rhs = Rgba8::from(*self);
    }
}

impl Overdraw<Grey8> for Rgb8 {
    /// An opaque source replaces the destination with its luminance.
    open spec fn overdrawn(&self, dst: Grey8) -> Grey8 {
        Grey8(luminance(self.r, self.g, self.b))
    }

    fn overdraw_on(&self, rhs: &mut Grey8) {
        *rhs = Grey8::from(*self);
    }
}

impl Overdraw<Rgb8> for Rgba8 {
    /// Each colour channel is blended with the source opacity as weight.
    open spec fn overdrawn(&self, dst: Rgb8) -> Rgb8 {
        Rgb8 {
            r: blend(self.r, dst.r, self.a),
            g: blend(self.g, dst.g, self.a),
            b: blend(self.b, dst.b, self.a),
        }
    }

    fn overdraw_on(&self, rhs: &mut Rgb8) {
        rhs.r = blend_channel(self.r, rhs.r, self.a);
        rhs.g = blend_channel(self.g, rhs.g, self.a);
        rhs.b = blend_channel(self.b, rhs.b, self.a);
    }
}

impl Overdraw<Rgba8> for Rgba8 {
    /// Each colour channel is blended with the source opacity as weight;
    /// the destination opacity becomes twice the source opacity, saturating
    /// at 255.
    open spec fn overdrawn(&self, dst: Rgba8) -> Rgba8 {
        Rgba8 {
            r: blend(self.r, dst.r, self.a),
            g: blend(self.g, dst.g, self.a),
            b: blend(self.b, dst.b, self.a),
            a: doubled_alpha(self.a),
        }
    }

    fn overdraw_on(&self, rhs: &mut Rgba8) {
        rhs.r = blend_channel(self.r, rhs.r, self.a);
        rhs.g = blend_channel(self.g, rhs.g, self.a);
        rhs.b = blend_channel(self.b, rhs.b, self.a);
        rhs.a = self.a.checked_add(self.a).unwrap_or(u8::MAX);
    }
}

impl Overdraw<Grey8> for Rgba8 {
    /// The luminance of the source colour is blended with the source
    /// opacity as weight.
    open spec fn overdrawn(&self, dst: Grey8) -> Grey8 {
        Grey8(blend(luminance(self.r, self.g, self.b), dst.0, self.a))
    }

    fn overdraw_on(&self, rhs: &mut Grey8) {
        let grey: Grey8 = Grey8::from(*self);
        rhs.0 = blend_channel(grey.0, rhs.0, self.a);
    }
}

impl Overdraw<Rgb8> for Grey8 {
    /// An opaque source spreads its luminance over the colour channels.
    open spec fn overdrawn(&self, dst: Rgb8) -> Rgb8 {
        Rgb8 { r: self.0, g: self.0, b: self.0 }
    }

    fn overdraw_on(&self, rhs: &mut Rgb8) {
        rhs.r = self.0;
        rhs.g = self.0;
        rhs.b = self.0;
    }
}

impl Overdraw<Rgba8> for Grey8 {
    /// An opaque source spreads its luminance over the colour channels and
    /// makes the destination opaque.
    open spec fn overdrawn(&self, dst: Rgba8) -> Rgba8 {
        Rgba8 { r: self.0, g: self.0, b: self.0, a: 255 }
    }

    fn overdraw_on(&self, rhs: &mut Rgba8) {
        rhs.r = self.0;
        rhs.g = self.0;
        rhs.b = self.0;
        rhs.a = 255;
    }
}

impl Overdraw<Grey8> for Grey8 {
    /// An opaque source replaces the destination.
    open spec fn overdrawn(&self, dst: Grey8) -> Grey8 {
        *self
    }

    fn overdraw_on(&self, rhs: &mut Grey8) {
        rhs.0 = self.0;
    }
}

} // verus!
