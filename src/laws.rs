use vstd::prelude::*;

use crate::color::{Grey8, Rgb8, Rgba8};
use crate::overdraw::{Overdraw, blend, blend_exact, doubled_alpha};
use vstd::std_specs::convert::FromSpec;

verus! {

/// Converting an RGB pixel to RGBA and back gives the pixel unchanged.
pub proof fn lemma_rgb_rgba_round_trip(c: Rgb8)
    ensures
        Rgb8::from_spec(Rgba8::from_spec(c)) == c,
{
}

/// Drawing an opaque RGB pixel twice over any destination gives the same
/// destination as drawing it once.
pub proof fn lemma_rgb_overdraw_idempotent(src: Rgb8, rgb: Rgb8, rgba: Rgba8, grey: Grey8)
    ensures
        src.overdrawn(src.overdrawn(rgb)) == src.overdrawn(rgb),
        src.overdrawn(src.overdrawn(rgba)) == src.overdrawn(rgba),
        src.overdrawn(src.overdrawn(grey)) == src.overdrawn(grey),
{
}

/// Drawing an opaque grayscale pixel twice over any destination gives the
/// same destination as drawing it once.
pub proof fn lemma_grey_overdraw_idempotent(src: Grey8, rgb: Rgb8, rgba: Rgba8, grey: Grey8)
    ensures
        src.overdrawn(src.overdrawn(rgb)) == src.overdrawn(rgb),
        src.overdrawn(src.overdrawn(rgba)) == src.overdrawn(rgba),
        src.overdrawn(src.overdrawn(grey)) == src.overdrawn(grey),
{
}

/// With weight 0 a blend leaves the destination channel as it is.
pub proof fn lemma_blend_zero_weight(src: u8, dst: u8)
    ensures
        blend(src, dst, 0) == dst,
{
    assert((src - dst) * 0 == 0) by (nonlinear_arith);
}

/// With weight 255 a blend gives the source channel.
pub proof fn lemma_blend_full_weight(src: u8, dst: u8)
    ensures
        blend(src, dst, 255) == src,
{
    let n: int = src - dst;
    if n >= 0 {
        assert(n * 255 / 255 == n) by (nonlinear_arith);
    } else {
        assert((-n) * 255 / 255 == -n) by (nonlinear_arith);
        assert(n * 255 == -((-n) * 255)) by (nonlinear_arith);
    }
    assert(blend_exact(src, dst, 255) == src);
}

/// A fully transparent RGBA pixel drawn over an RGB pixel leaves it
/// unchanged; drawn over an RGBA pixel it leaves the colour channels
/// unchanged and sets the opacity to 0.
pub proof fn lemma_transparent_overdraw(r: u8, g: u8, b: u8, rgb: Rgb8, rgba: Rgba8)
    ensures
        (Rgba8 { r, g, b, a: 0 }).overdrawn(rgb) == rgb,
        (Rgba8 { r, g, b, a: 0 }).overdrawn(rgba) == (Rgba8 { r: rgba.r, g: rgba.g, b: rgba.b, a: 0 }),
{
    lemma_blend_zero_weight(r, rgb.r);
    lemma_blend_zero_weight(g, rgb.g);
    lemma_blend_zero_weight(b, rgb.b);
    lemma_blend_zero_weight(r, rgba.r);
    lemma_blend_zero_weight(g, rgba.g);
    lemma_blend_zero_weight(b, rgba.b);
    assert(doubled_alpha(0) == 0);
}

/// A fully opaque RGBA pixel drawn over an RGBA pixel replaces its colour
/// channels and makes it fully opaque.
pub proof fn lemma_opaque_rgba_overdraw(r: u8, g: u8, b: u8, rgba: Rgba8)
    ensures
        (Rgba8 { r, g, b, a: 255 }).overdrawn(rgba) == (Rgba8 { r, g, b, a: 255 }),
{
    lemma_blend_full_weight(r, rgba.r);
    lemma_blend_full_weight(g, rgba.g);
    lemma_blend_full_weight(b, rgba.b);
    assert(doubled_alpha(255) == 255);
}

} // verus!
