//! RGB color value type and its 24-bit packed form.
//!
//! A color is three independent 8-bit channels. The host's palette table
//! stores each color packed into one 32-bit word with the channel order
//! red (bits 16-23), green (bits 8-15), blue (bits 0-7); only the low 24
//! bits are meaningful, so the round trip through the packed form is
//! lossless.

use vstd::prelude::*;

verus! {

/// One RGB color, 8 bits per channel. Every bit pattern is a valid color.
#[derive(Clone, Copy, Debug, PartialEq, Eq, Structural)]
pub struct Color {
    pub red: u8,
    pub green: u8,
    pub blue: u8,
}

impl Color {
    /// The 24-bit packed form of this color: red in bits 16-23, green in
    /// bits 8-15, blue in bits 0-7.
    pub open spec fn packed(self) -> u32 {
        ((self.red as u32) << 16) | ((self.green as u32) << 8) | (self.blue as u32)
    }

    /// The color whose channels are the low 24 bits of `value`.
    pub open spec fn spec_unpack(value: u32) -> Color {
        Color {
            red: ((value >> 16) & 0xff) as u8,
            green: ((value >> 8) & 0xff) as u8,
            blue: (value & 0xff) as u8,
        }
    }

    pub fn new(red: u8, green: u8, blue: u8) -> (c: Color)
        ensures
            c == (Color { red, green, blue }),
    {
        Color { red, green, blue }
    }

    /// Builds the color stored in the low 24 bits of a packed word; any
    /// higher bits are ignored.
    pub fn from(value: u32) -> (c: Color)
        ensures
            c == Color::spec_unpack(value),
    {
        let red = ((value >> 16) & 0xff) as u8;
        let green = ((value >> 8) & 0xff) as u8;
        let blue = (value & 0xff) as u8;
        Color { red, green, blue }
    }

    /// Packs the three channels into one 24-bit word.
    pub fn to_packed(&self) -> (r: u32)
        ensures
            r == self.packed(),
    {
        ((self.red as u32) << 16) | ((self.green as u32) << 8) | (self.blue as u32)
    }
}

/// Unpacking the packed form of a color gives the color back: the packed
/// form loses nothing.
pub proof fn lemma_color_round_trip(c: Color)
    ensures
        Color::spec_unpack(c.packed()) == c,
{
    let r = c.red;
    let g = c.green;
    let b = c.blue;
    let w = c.packed();
    assert((((((r as u32) << 16) | ((g as u32) << 8) | (b as u32)) >> 16) & 0xff) as u8 == r)
        by (bit_vector);
    assert((((((r as u32) << 16) | ((g as u32) << 8) | (b as u32)) >> 8) & 0xff) as u8 == g)
        by (bit_vector);
    assert(((((r as u32) << 16) | ((g as u32) << 8) | (b as u32)) & 0xff) as u8 == b)
        by (bit_vector);
}

/// A packed word whose high byte is clear is reproduced exactly by
/// unpacking it and packing the result: only 24 bits are meaningful.
pub proof fn lemma_packed_round_trip(value: u32)
    ensures
        Color::spec_unpack(value).packed() == value & 0xffffff,
{
    assert(((((value >> 16) & 0xff) as u8 as u32) << 16) | ((((value >> 8) & 0xff) as u8 as u32)
        << 8) | ((value & 0xff) as u8 as u32) == value & 0xffffff) by (bit_vector);
}

} // verus!
