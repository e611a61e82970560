use vstd::prelude::*;

use crate::color::{Grey8, Rgb8, Rgba8};

verus! {

/// The unweighted mean of three channels, rounded down.
pub open spec fn luminance(r: u8, g: u8, b: u8) -> u8 {
    ((r + g + b) / 3) as u8
}

/// Drops the opacity; the colour channels are kept as they are.
impl From<Rgba8> for Rgb8 {
    fn from(value: Rgba8) -> (c: Rgb8) {
        Rgb8::new(value.r, value.g, value.b)
    }
}

impl vstd::std_specs::convert::FromSpecImpl<Rgba8> for Rgb8 {
    open spec fn obeys_from_spec() -> bool {
        true
    }

    open spec fn from_spec(v: Rgba8) -> Rgb8 {
        Rgb8 { r: v.r, g: v.g, b: v.b }
    }
}

/// Spreads the luminance over the three colour channels.
impl From<Grey8> for Rgb8 {
    fn from(value: Grey8) -> (c: Rgb8) {
        Rgb8::new(value.0, value.0, value.0)
    }
}

impl vstd::std_specs::convert::FromSpecImpl<Grey8> for Rgb8 {
    open spec fn obeys_from_spec() -> bool {
        true
    }

    open spec fn from_spec(v: Grey8) -> Rgb8 {
        Rgb8 { r: v.0, g: v.0, b: v.0 }
    }
}

/// Keeps the colour channels and makes the pixel fully opaque.
impl From<Rgb8> for Rgba8 {
    fn from(value: Rgb8) -> (c: Rgba8) {
        Rgba8::new(value.r, value.g, value.b, 255)
    }
}

impl vstd::std_specs::convert::FromSpecImpl<Rgb8> for Rgba8 {
    open spec fn obeys_from_spec() -> bool {
        true
    }

    open spec fn from_spec(v: Rgb8) -> Rgba8 {
        Rgba8 { r: v.r, g: v.g, b: v.b, a: 255 }
    }
}

/// Spreads the luminance over the colour channels, fully opaque.
impl From<Grey8> for Rgba8 {
    fn from(value: Grey8) -> (c: Rgba8) {
        Rgba8::new(value.0, value.0, value.0, 255)
    }
}

impl vstd::std_specs::convert::FromSpecImpl<Grey8> for Rgba8 {
    open spec fn obeys_from_spec() -> bool {
        true
    }

    open spec fn from_spec(v: Grey8) -> Rgba8 {
        Rgba8 { r: v.0, g: v.0, b: v.0, a: 255 }
    }
}

/// The unweighted mean of the three channels, rounded down.
impl From<Rgb8> for Grey8 {
    fn from(value: Rgb8) -> (c: Grey8) {
        let sum: u16 = value.r as u16 + value.g as u16 + value.b as u16;
        Grey8::new((sum / 3) as u8)
    }
}

impl vstd::std_specs::convert::FromSpecImpl<Rgb8> for Grey8 {
    open spec fn obeys_from_spec() -> bool {
        true
    }

    open spec fn from_spec(v: Rgb8) -> Grey8 {
        Grey8(luminance(v.r, v.g, v.b))
    }
}

/// Drops the opacity, then takes the luminance of the colour channels.
impl From<Rgba8> for Grey8 {
    fn from(value: Rgba8) -> (c: Grey8) {
        let rgb: Rgb8 = Rgb8::from(value);
        Grey8::from(rgb)
    }
}

impl vstd::std_specs::convert::FromSpecImpl<Rgba8> for Grey8 {
    open spec fn obeys_from_spec() -> bool {
        true
    }

    open spec fn from_spec(v: Rgba8) -> Grey8 {
        Grey8(luminance(v.r, v.g, v.b))
    }
}

} // verus!
