//! Sprite descriptors for the host's blit call.

use vstd::prelude::*;

verus! {

/// How the host interprets and transforms a sprite's pixel data.
#[allow(non_camel_case_types)]
#[derive(Clone, Copy, Debug, PartialEq, Eq, Structural)]
pub enum Flags {
    /// One bit per pixel
    BLIT_1BPP,
    /// Two bits per pixel
    BLIT_2BPP,
    /// Mirror horizontally
    BLIT_FLIP_X,
    /// Mirror vertically
    BLIT_FLIP_Y,
    /// Rotate a quarter turn counter-clockwise
    BLIT_ROTATE,
}

impl Flags {
    /// The bit value of this flag in the host's blit flags word.
    pub open spec fn spec_bits(self) -> u32 {
        match self {
            Flags::BLIT_1BPP => 0,
            Flags::BLIT_2BPP => 1,
            Flags::BLIT_FLIP_X => 2,
            Flags::BLIT_FLIP_Y => 4,
            Flags::BLIT_ROTATE => 8,
        }
    }

    pub fn bits(self) -> (r: u32)
        ensures
            r == self.spec_bits(),
    {
        match self {
            Flags::BLIT_1BPP => 0,
            Flags::BLIT_2BPP => 1,
            Flags::BLIT_FLIP_X => 2,
            Flags::BLIT_FLIP_Y => 4,
            Flags::BLIT_ROTATE => 8,
        }
    }
}

/// A sprite: its pixel data as the host's blit call expects it, its
/// extent, and the flags describing the data's format.
pub struct Sprite {
    pub width: u32,
    pub height: u32,
    pub flags: Flags,
    pub bytes: &'static [u8],
}

impl Default for Sprite {
    /// An empty sprite with no pixel data.
    fn default() -> (r: Sprite)
        ensures
            r.width == 0,
            r.height == 0,
            r.flags == Flags::BLIT_1BPP,
            r.bytes@.len() == 0,
    {
        Sprite { width: 0, height: 0, flags: Flags::BLIT_1BPP, bytes: &[] }
    }
}

} // verus!
