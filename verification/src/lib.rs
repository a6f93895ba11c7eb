//! Hardware-abstraction layer for a fixed-function game console.
//!
//! The library covers three concerns:
//! - per-controller input edge detection, deriving press/hold/release
//!   semantics from a raw button bitmask sampled once per frame;
//! - a register codec layer that packs validated parameter objects
//!   (draw-color selections, palette colors, audio frequency, envelope,
//!   volume and channel flags) into the fixed-width integer layouts the
//!   host hardware expects, and unpacks them again;
//! - small integer geometry value types shared by the rest of the API.
//!
//! The host's memory-mapped registers themselves are read and written by
//! the surrounding runtime; every function here works on plain values, so
//! each packing, unpacking and edge-detection rule is stated in a contract
//! and verified.

use vstd::prelude::*;

pub mod application;
pub mod audio;
pub mod color;
pub mod framebuffer;
pub mod gamepad;
pub mod geometry;
pub mod inputs;
pub mod sound;
pub mod sprite;

use crate::color::Color;
use crate::framebuffer::Palette;

verus! {

/// Raised when a validated parameter object (for example a volume
/// percentage) is constructed outside its documented numeric range.
/// The failure happens before any register write, so malformed state can
/// never reach the hardware.
#[derive(Clone, Copy, Debug, PartialEq, Eq, Structural)]
pub struct ConstructionRangeError;

/// Raised when a register field read back from the host does not
/// correspond to any known enumerated value. Defensive: this layer is
/// normally the sole writer of the registers it decodes.
#[derive(Clone, Copy, Debug, PartialEq, Eq, Structural)]
pub struct DecodeError;

/// Width in pixels of one character of the built-in font.
pub fn get_char_width() -> (r: u32)
    ensures
        r == 8,
{
    8
}

/// Height in pixels of one character of the built-in font.
pub fn get_char_height() -> (r: u32)
    ensures
        r == 8,
{
    8
}

/// The console's default four-color palette.
pub fn palette_default() -> (p: Palette)
    ensures
        p@ =~= seq![
            Color { red: 0xe0, green: 0xf8, blue: 0xcf },
            Color { red: 0x86, green: 0xc0, blue: 0x6c },
            Color { red: 0x30, green: 0x68, blue: 0x50 },
            Color { red: 0x07, green: 0x18, blue: 0x21 },
        ],
{
    proof {
        assert((0xe0f8cfu32 >> 16) & 0xff == 0xe0 && (0xe0f8cfu32 >> 8) & 0xff == 0xf8
            && 0xe0f8cfu32 & 0xff == 0xcf) by (bit_vector);
        assert((0x86c06cu32 >> 16) & 0xff == 0x86 && (0x86c06cu32 >> 8) & 0xff == 0xc0
            && 0x86c06cu32 & 0xff == 0x6c) by (bit_vector);
        assert((0x306850u32 >> 16) & 0xff == 0x30 && (0x306850u32 >> 8) & 0xff == 0x68
            && 0x306850u32 & 0xff == 0x50) by (bit_vector);
        assert((0x071821u32 >> 16) & 0xff == 0x07 && (0x071821u32 >> 8) & 0xff == 0x18
            && 0x071821u32 & 0xff == 0x21) by (bit_vector);
    }
    [
        Color::from(0xe0f8cf),
        Color::from(0x86c06c),
        Color::from(0x306850),
        Color::from(0x071821),
    ]
}

} // verus!
