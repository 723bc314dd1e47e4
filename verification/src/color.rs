//! Colours held as four 8-bit channel levels, and their decoding from packed
//! integers.
//!
//! A channel's intensity is its level divided by 255: level 0 is no
//! intensity, level 255 is full intensity.

use vstd::prelude::*;

verus! {

/// A colour of four channels, each held as its 8-bit level.
///
/// Every combination of levels is a colour: the type has no invariant.
#[derive(Clone, Copy, Debug, PartialEq, Eq, Structural)]
pub struct Color {
    pub r: u8,
    pub g: u8,
    pub b: u8,
    pub a: u8,
}

impl Color {
    /// The colour that `hex` packs as `0xRRGGBBAA`: red is the highest byte,
    /// alpha the lowest.
    pub open spec fn rgba(hex: u32) -> Color {
        Color {
            r: (hex / 0x100_0000) as u8,
            g: (hex / 0x1_0000 % 0x100) as u8,
            b: (hex / 0x100 % 0x100) as u8,
            a: (hex % 0x100) as u8,
        }
    }

    /// The colour that `hex` packs as `0xRRGGBB`: red is the third byte,
    /// blue the lowest. The highest byte of `hex` plays no part, and the
    /// colour is fully opaque.
    pub open spec fn rgb(hex: u32) -> Color {
        Color {
            r: (hex / 0x1_0000 % 0x100) as u8,
            g: (hex / 0x100 % 0x100) as u8,
            b: (hex % 0x100) as u8,
            a: 0xFF,
        }
    }

    /// The number whose base-256 digits, highest first, are the levels of
    /// red, green, blue and alpha.
    pub open spec fn rgba_word(self) -> int {
        self.r * 0x100_0000 + self.g * 0x1_0000 + self.b * 0x100 + self.a
    }

    /// Decodes a colour packed as `0xRRGGBBAA`.
    pub fn from_hex_rgba(hex: u32) -> (c: Color)
        ensures
            c == Color::rgba(hex),
    {
        let r: u8 = #[verifier::truncate] ((hex >> 24) as u8);
        let g: u8 = #[verifier::truncate] ((hex >> 16) as u8);
        let b: u8 = #[verifier::truncate] ((hex >> 8) as u8);
        let a: u8 = #[verifier::truncate] (hex as u8);
        assert(((hex >> 24) as u8) == hex / 0x100_0000) by (bit_vector);
        assert(((hex >> 16) as u8) == hex / 0x1_0000 % 0x100) by (bit_vector);
        assert(((hex >> 8) as u8) == hex / 0x100 % 0x100) by (bit_vector);
        assert((hex as u8) == hex % 0x100) by (bit_vector);
        Color { r, g, b, a }
    }

    /// Decodes a colour packed as `0xRRGGBB`, with full alpha.
    pub fn from_hex_rgb(hex: u32) -> (c: Color)
        ensures
            c == Color::rgb(hex),
    {
        let r: u8 = #[verifier::truncate] ((hex >> 16) as u8);
        let g: u8 = #[verifier::truncate] ((hex >> 8) as u8);
        let b: u8 = #[verifier::truncate] (hex as u8);
        assert(((hex >> 16) as u8) == hex / 0x1_0000 % 0x100) by (bit_vector);
        assert(((hex >> 8) as u8) == hex / 0x100 % 0x100) by (bit_vector);
        assert((hex as u8) == hex % 0x100) by (bit_vector);
        Color { r, g, b, a: 0xFF }
    }
}

/// Packing undoes decoding: the levels of the colour decoded from `hex`, read
/// as base-256 digits, give `hex` back.
pub proof fn lemma_rgba_word_of_rgba(hex: u32)
    ensures
        Color::rgba(hex).rgba_word() == hex,
{
}

/// Decoding undoes packing: every colour is what `0xRRGGBBAA` decoding yields
/// for the word made of its levels, so no two words decode to one colour and
/// no colour is missed.
pub proof fn lemma_rgba_of_rgba_word(c: Color)
    ensures
        0 <= c.rgba_word() <= u32::MAX,
        Color::rgba(c.rgba_word() as u32) == c,
{
    let (r, g, b, a) = (c.r, c.g, c.b, c.a);
    let w: u32 = (r * 0x100_0000 + g * 0x1_0000 + b * 0x100 + a) as u32;
    assert(w == r * 0x100_0000 + g * 0x1_0000 + b * 0x100 + a ==> {
        &&& w / 0x100_0000 == r
        &&& w / 0x1_0000 % 0x100 == g
        &&& w / 0x100 % 0x100 == b
        &&& w % 0x100 == a
    }) by (bit_vector);
}

/// `0xRRGGBB` decoding reads the low three bytes alone: two words that differ
/// only in their highest byte decode to one colour.
pub proof fn lemma_rgb_ignores_high_byte(hex: u32, other: u32)
    requires
        hex % 0x100_0000 == other % 0x100_0000,
    ensures
        Color::rgb(hex) == Color::rgb(other),
{
    assert(hex % 0x100_0000 == other % 0x100_0000 ==> {
        &&& hex / 0x1_0000 % 0x100 == other / 0x1_0000 % 0x100
        &&& hex / 0x100 % 0x100 == other / 0x100 % 0x100
        &&& hex % 0x100 == other % 0x100
    }) by (bit_vector);
}

/// `0xRRGGBB` decoding is `0xRRGGBBAA` decoding of the low three bytes with a
/// full alpha byte put below them.
pub proof fn lemma_rgb_is_opaque_rgba(hex: u32)
    ensures
        0 <= (hex % 0x100_0000) * 0x100 + 0xFF <= u32::MAX,
        Color::rgb(hex) == Color::rgba(((hex % 0x100_0000) * 0x100 + 0xFF) as u32),
{
    let w: u32 = ((hex % 0x100_0000) * 0x100 + 0xFF) as u32;
    assert(w == (hex % 0x100_0000) * 0x100 + 0xFF ==> {
        &&& w / 0x100_0000 == hex / 0x1_0000 % 0x100
        &&& w / 0x1_0000 % 0x100 == hex / 0x100 % 0x100
        &&& w / 0x100 % 0x100 == hex % 0x100
        &&& w % 0x100 == 0xFF
    }) by (bit_vector);
}

} // verus!
