//! Clear colours.
//!
//! A colour has four double-precision channels. The channels are only ever
//! carried from the caller to the render pass, never computed with, so each
//! one is held by its IEEE-754 binary64 bit pattern.

use vstd::prelude::*;

verus! {

/// Bit pattern of the double `0.0`.
pub const CHANNEL_ZERO: u64 = 0;

/// Bit pattern of the double `1.0`.
pub const CHANNEL_ONE: u64 = 0x3FF0_0000_0000_0000;

/// An RGBA colour; every field is the bit pattern of a binary64 value.
#[derive(Clone, Copy, Debug, PartialEq, Eq, Structural)]
pub struct Color {
    pub r: u64,
    pub g: u64,
    pub b: u64,
    pub a: u64,
}

impl Color {
    /// Opaque black: red, green and blue `0.0`, alpha `1.0`.
    pub open spec fn black() -> Color {
        Color { r: CHANNEL_ZERO, g: CHANNEL_ZERO, b: CHANNEL_ZERO, a: CHANNEL_ONE }
    }

    /// The colour with the given channel bit patterns.
    pub fn from_bits(r: u64, g: u64, b: u64, a: u64) -> (c: Color)
        ensures
            c == (Color { r, g, b, a }),
    {
        Color { r, g, b, a }
    }

    /// Opaque black, the background of every triangle frame.
    pub fn opaque_black() -> (c: Color)
        ensures
            c == Color::black(),
    {
        Color { r: CHANNEL_ZERO, g: CHANNEL_ZERO, b: CHANNEL_ZERO, a: CHANNEL_ONE }
    }
}

} // verus!
