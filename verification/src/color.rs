use vstd::prelude::*;

verus! {

/// Alpha value of a fully opaque colour.
pub const OPAQUE: u8 = 255;

/// A colour with eight bits per channel.
#[derive(Clone, Copy, Debug, PartialEq, Eq, Structural)]
pub struct Color {
    pub r: u8,
    pub g: u8,
    pub b: u8,
    pub a: u8,
}

impl Color {
    /// Opaque black, the colour of points that never escape.
    pub open spec fn spec_black() -> Color {
        Color { r: 0, g: 0, b: 0, a: 255 }
    }

    /// A colour from its four channels.
    pub fn rgba(r: u8, g: u8, b: u8, a: u8) -> (c: Color)
        ensures
            c == (Color { r, g, b, a }),
    {
        Color { r, g, b, a }
    }

    /// A fully opaque colour from its three colour channels.
    pub fn rgb(r: u8, g: u8, b: u8) -> (c: Color)
        ensures
            c == (Color { r, g, b, a: 255 }),
    {
        Color { r, g, b, a: OPAQUE }
    }

    /// Opaque black.
    pub fn black() -> (c: Color)
        ensures
            c == Color::spec_black(),
    {
        Color::rgb(0, 0, 0)
    }
}

} // verus!
