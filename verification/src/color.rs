//! The 3-channel color value in the LED family's wire order.

use vstd::prelude::*;

verus! {

/// A color as the LED expects it on the wire: Green, Red, Blue.
///
/// Note the order is GRB, not RGB; the first channel shifted out is green.
#[derive(Clone, Copy, Debug, PartialEq, Eq, Structural)]
pub struct Color {
    /// Green channel, the first byte on the wire.
    pub g: u8,
    /// Red channel, the second byte on the wire.
    pub r: u8,
    /// Blue channel, the third byte on the wire.
    pub b: u8,
}

impl Color {
    /// Builds a color from its channels, given in wire order.
    pub fn new(g: u8, r: u8, b: u8) -> (c: Color)
        ensures
            c.g == g,
            c.r == r,
            c.b == b,
    {
        Color { g, r, b }
    }
}

} // verus!
