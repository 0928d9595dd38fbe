//! Colors with eight bits per channel.

use vstd::prelude::*;

verus! {

/// A color as red, green, blue and alpha, eight bits each.
#[derive(Copy, Clone, Debug, PartialEq, Eq, Hash)]
pub struct RGBAColor {
    pub r: u8,
    pub g: u8,
    pub b: u8,
    pub a: u8,
}

impl RGBAColor {
    /// The opaque color of the given channels.
    pub fn new(r: u8, g: u8, b: u8) -> (c: RGBAColor)
        ensures
            c == (RGBAColor { r, g, b, a: 255 }),
    {
        RGBAColor { r, g, b, a: 255 }
    }

    /// The color of the given channels and opacity.
    pub fn new_with_alpha(r: u8, g: u8, b: u8, a: u8) -> (c: RGBAColor)
        ensures
            c == (RGBAColor { r, g, b, a }),
    {
        RGBAColor { r, g, b, a }
    }

    /// The opaque color of the given channels.
    pub open spec fn rgb(c: (u8, u8, u8)) -> RGBAColor {
        RGBAColor { r: c.0, g: c.1, b: c.2, a: 255 }
    }
}

impl From<(u8, u8, u8)> for RGBAColor {
    fn from(c: (u8, u8, u8)) -> (r: RGBAColor) {
        RGBAColor { r: c.0, g: c.1, b: c.2, a: 255 }
    }
}

impl vstd::std_specs::convert::FromSpecImpl<(u8, u8, u8)> for RGBAColor {
    open spec fn obeys_from_spec() -> bool {
        true
    }

    open spec fn from_spec(c: (u8, u8, u8)) -> RGBAColor {
        RGBAColor::rgb(c)
    }
}

} // verus!
