use vstd::prelude::*;

verus! {

/// An RGBA color with one byte per channel.
#[derive(Clone, Copy, Debug, PartialEq, Eq, Structural)]
pub struct Rgba {
    pub r: u8,
    pub g: u8,
    pub b: u8,
    pub a: u8,
}

/// Fully opaque alpha.
pub const OPAQUE: u8 = 255;

impl Rgba {
    /// The color of an unlit slot: every channel zero.
    pub open spec fn black_spec() -> Rgba {
        Rgba { r: 0, g: 0, b: 0, a: 0 }
    }

    /// An opaque color from its three channels.
    pub open spec fn opaque_spec(r: u8, g: u8, b: u8) -> Rgba {
        Rgba { r, g, b, a: OPAQUE }
    }

    pub fn black() -> (c: Rgba)
        ensures
            c == Rgba::black_spec(),
    {
        Rgba { r: 0, g: 0, b: 0, a: 0 }
    }

    pub fn opaque(r: u8, g: u8, b: u8) -> (c: Rgba)
        ensures
            c == Rgba::opaque_spec(r, g, b),
    {
        Rgba { r, g, b, a: OPAQUE }
    }
}

} // verus!
