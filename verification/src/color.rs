//! Tile colors.
//!
//! A channel is kept as the 32-bit pattern of an IEEE-754 single-precision
//! number, so a color is four integers and the level of a channel can be read
//! without any rounding.

use vstd::prelude::*;

verus! {

/// The pattern of positive zero.
pub const POSITIVE_ZERO: u32 = 0;

/// The pattern of negative zero, which compares equal to positive zero.
pub const NEGATIVE_ZERO: u32 = 0x8000_0000;

/// The pattern of one, the full level of a channel.
pub const ONE: u32 = 0x3f80_0000;

/// Whether a channel's pattern is one of the two zeros.
pub open spec fn is_zero_level(bits: u32) -> bool {
    bits == POSITIVE_ZERO || bits == NEGATIVE_ZERO
}

/// A color with red, green, blue and alpha channels.
#[derive(Copy, Clone, PartialEq, Eq, Debug)]
pub struct Color {
    /// The red channel.
    pub red: u32,
    /// The green channel.
    pub green: u32,
    /// The blue channel.
    pub blue: u32,
    /// The alpha channel: zero is fully transparent, one fully opaque.
    pub alpha: u32,
}

impl Color {
    /// A color is transparent when its alpha channel is zero.
    pub open spec fn is_transparent(self) -> bool {
        is_zero_level(self.alpha)
    }

    /// This color with its alpha channel set to positive zero.
    pub open spec fn faded(self) -> Color {
        Color { alpha: POSITIVE_ZERO, ..self }
    }

    /// Opaque white.
    pub open spec fn spec_white() -> Color {
        Color { red: ONE, green: ONE, blue: ONE, alpha: ONE }
    }

    /// Transparent black: every channel at positive zero.
    pub open spec fn spec_transparent() -> Color {
        Color { red: POSITIVE_ZERO, green: POSITIVE_ZERO, blue: POSITIVE_ZERO, alpha: POSITIVE_ZERO }
    }

    /// A color from the patterns of its four channels.
    pub fn rgba(red: u32, green: u32, blue: u32, alpha: u32) -> (color: Color)
        ensures
            color == (Color { red, green, blue, alpha }),
    {
        Color { red, green, blue, alpha }
    }

    /// Opaque white.
    #[verifier::when_used_as_spec(spec_white)]
    pub fn white() -> (color: Color)
        ensures
            color == Color::spec_white(),
    {
        Color { red: ONE, green: ONE, blue: ONE, alpha: ONE }
    }

    /// Transparent black, the color of a cell that holds nothing.
    #[verifier::when_used_as_spec(spec_transparent)]
    pub fn transparent() -> (color: Color)
        ensures
            color == Color::spec_transparent(),
    {
        Color { red: POSITIVE_ZERO, green: POSITIVE_ZERO, blue: POSITIVE_ZERO, alpha: POSITIVE_ZERO }
    }

    /// The pattern of the alpha channel.
    pub fn a(&self) -> (alpha: u32)
        ensures
            alpha == self.alpha,
    {
        self.alpha
    }

    /// Replaces the alpha channel and leaves the other three as they are.
    pub fn set_a(&mut self, alpha: u32)
        ensures
            *final(self) == (Color { alpha, ..*old(self) }),
    {
        self.alpha = alpha;
    }

    /// Whether the alpha channel is zero, of either sign.
    pub fn alpha_is_zero(&self) -> (zero: bool)
        ensures
            zero == self.is_transparent(),
    {
        self.alpha == POSITIVE_ZERO || self.alpha == NEGATIVE_ZERO
    }
}

} // verus!
