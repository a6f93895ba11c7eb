//! Draw-color register codec and palette table codec.
//!
//! The host exposes one 16-bit draw-color register holding four 4-bit
//! fields, one per logical drawing role, each selecting a palette slot
//! (0 = transparent, 1-4 = one of the four palette colors), and a palette
//! table of four 24-bit colors. The functions here translate between
//! those packed register values and structured, validated values; the
//! register reads and writes themselves are the host runtime's concern.
//!
//! Writing a selection for only some roles is read-modify-write: a role
//! passed as `None` keeps the bits the register already had at that
//! position, it is never forced to zero.

use vstd::prelude::*;

use crate::color::Color;
use crate::DecodeError;

verus! {

/// The console's palette: exactly four colors.
pub type Palette = [Color; 4];

/// One of the four logical drawing roles packed into the draw-color
/// register.
#[derive(Clone, Copy, Debug, PartialEq, Eq, Structural)]
pub enum DrawColorIndex {
    /// Foreground, fill
    Index1,
    /// Outline, background
    Index2,
    /// Additional color
    Index3,
    /// Another additional color
    Index4,
}

/// A palette slot selection: transparent, or one of the four palette
/// colors.
#[derive(Clone, Copy, Debug, PartialEq, Eq, Structural)]
pub enum PaletteIndex {
    Transparent,
    Palette1,
    Palette2,
    Palette3,
    Palette4,
}

impl DrawColorIndex {
    /// Bit offset of this role's 4-bit field in the draw-color register.
    pub open spec fn spec_offset(self) -> u16 {
        match self {
            DrawColorIndex::Index1 => 0,
            DrawColorIndex::Index2 => 4,
            DrawColorIndex::Index3 => 8,
            DrawColorIndex::Index4 => 12,
        }
    }

    pub fn offset(self) -> (r: u16)
        ensures
            r == self.spec_offset(),
    {
        match self {
            DrawColorIndex::Index1 => 0,
            DrawColorIndex::Index2 => 4,
            DrawColorIndex::Index3 => 8,
            DrawColorIndex::Index4 => 12,
        }
    }
}

impl PaletteIndex {
    /// The 4-bit field value that stands for this selection.
    pub open spec fn spec_value(self) -> u16 {
        match self {
            PaletteIndex::Transparent => 0,
            PaletteIndex::Palette1 => 1,
            PaletteIndex::Palette2 => 2,
            PaletteIndex::Palette3 => 3,
            PaletteIndex::Palette4 => 4,
        }
    }

    /// The selection a 4-bit field value stands for; values above 4 name
    /// no palette slot and fail to decode.
    pub open spec fn spec_from_value(value: u16) -> Result<PaletteIndex, DecodeError> {
        if value == 0 {
            Ok(PaletteIndex::Transparent)
        } else if value == 1 {
            Ok(PaletteIndex::Palette1)
        } else if value == 2 {
            Ok(PaletteIndex::Palette2)
        } else if value == 3 {
            Ok(PaletteIndex::Palette3)
        } else if value == 4 {
            Ok(PaletteIndex::Palette4)
        } else {
            Err(DecodeError)
        }
    }

    pub fn value(self) -> (r: u16)
        ensures
            r == self.spec_value(),
    {
        match self {
            PaletteIndex::Transparent => 0,
            PaletteIndex::Palette1 => 1,
            PaletteIndex::Palette2 => 2,
            PaletteIndex::Palette3 => 3,
            PaletteIndex::Palette4 => 4,
        }
    }

    pub fn try_from_value(value: u16) -> (r: Result<PaletteIndex, DecodeError>)
        ensures
            r == PaletteIndex::spec_from_value(value),
    {
        match value {
            0 => Ok(PaletteIndex::Transparent),
            1 => Ok(PaletteIndex::Palette1),
            2 => Ok(PaletteIndex::Palette2),
            3 => Ok(PaletteIndex::Palette3),
            4 => Ok(PaletteIndex::Palette4),
            _ => Err(DecodeError),
        }
    }
}

/// The 4-bit field of `reg` that starts at bit `off`.
pub open spec fn nibble(reg: u16, off: u16) -> u16 {
    (reg >> off) & 0xf
}

/// `reg` with the 4-bit field at bit `off` replaced by `value`, all other
/// bits untouched.
pub open spec fn spec_set_nibble(reg: u16, off: u16, value: u16) -> u16 {
    (reg & !(0xfu16 << off)) | (value << off)
}

/// The register value after writing `palette` into the field of one role.
pub open spec fn spec_set_draw_color(reg: u16, index: DrawColorIndex, palette: PaletteIndex) -> u16 {
    spec_set_nibble(reg, index.spec_offset(), palette.spec_value())
}

/// One role of a bulk draw-color write: `Some` replaces the field at
/// `off`, `None` leaves the register as it is.
pub open spec fn apply_role(reg: u16, selection: Option<PaletteIndex>, off: u16) -> u16 {
    match selection {
        Some(palette) => spec_set_nibble(reg, off, palette.spec_value()),
        None => reg,
    }
}

/// The register value after a bulk draw-color write of up to four roles.
pub open spec fn spec_set_draw_colors(reg: u16, palettes: [Option<PaletteIndex>; 4]) -> u16 {
    apply_role(
        apply_role(apply_role(apply_role(reg, palettes@[0], 0), palettes@[1], 4), palettes@[2], 8),
        palettes@[3],
        12,
    )
}

/// Whether every 4-bit field of the register names a palette slot.
pub open spec fn draw_colors_decodable(reg: u16) -> bool {
    nibble(reg, 0) <= 4 && nibble(reg, 4) <= 4 && nibble(reg, 8) <= 4 && nibble(reg, 12) <= 4
}

/// What one role's field must look like after a bulk write: the selected
/// value where a selection was given, the old field bits where none was.
pub open spec fn role_written(
    old_reg: u16,
    new_reg: u16,
    selection: Option<PaletteIndex>,
    off: u16,
) -> bool {
    match selection {
        Some(palette) => nibble(new_reg, off) == palette.spec_value(),
        None => nibble(new_reg, off) == nibble(old_reg, off),
    }
}

/// Codec for the host's drawing registers. The struct carries no state:
/// every method takes the register value read by the caller and returns
/// the value to write back.
pub struct Framebuffer {}

impl Framebuffer {
    pub fn new() -> Framebuffer {
        Framebuffer {  }
    }

    /// Width of the screen in pixels.
    pub fn get_screen_width(&self) -> (r: u32)
        ensures
            r == 160,
    {
        160
    }

    /// Height of the screen in pixels.
    pub fn get_screen_height(&self) -> (r: u32)
        ensures
            r == 160,
    {
        160
    }

    /// Writes one role's palette selection into its own 4-bit field of
    /// the draw-color register value, leaving the other three fields
    /// bit-identical.
    pub fn set_draw_color(
        &self,
        draw_colors: u16,
        index: DrawColorIndex,
        palette: PaletteIndex,
    ) -> (r: u16)
        ensures
            r == spec_set_draw_color(draw_colors, index, palette),
            nibble(r, index.spec_offset()) == palette.spec_value(),
            forall|other: DrawColorIndex|
                other != index ==> nibble(r, #[trigger] other.spec_offset()) == nibble(
                    draw_colors,
                    other.spec_offset(),
                ),
    {
        let off = index.offset();
        let r = (draw_colors & !(0xfu16 << off)) | (palette.value() << off);
        proof {
            lemma_set_nibble_target(draw_colors, index, palette);
            assert forall|other: DrawColorIndex| other != index implies nibble(
                r,
                #[trigger] other.spec_offset(),
            ) == nibble(draw_colors, other.spec_offset()) by {
                lemma_set_nibble_preserves_others(draw_colors, index, palette, other);
            }
        }
        r
    }

    /// Bulk draw-color write: each role given as `Some` gets its 4-bit
    /// field replaced, each role given as `None` keeps the bits the
    /// register already had (read-modify-write, absence never zeroes).
    pub fn set_draw_colors(&self, draw_colors: u16, palettes: [Option<PaletteIndex>; 4]) -> (r: u16)
        ensures
            r == spec_set_draw_colors(draw_colors, palettes),
            role_written(draw_colors, r, palettes@[0], 0),
            role_written(draw_colors, r, palettes@[1], 4),
            role_written(draw_colors, r, palettes@[2], 8),
            role_written(draw_colors, r, palettes@[3], 12),
    {
        let mut reg = draw_colors;
        if let Some(palette) = palettes[0] {
            reg = (reg & !(0xfu16 << 0u16)) | (palette.value() << 0u16);
        }
        let reg0 = reg;
        if let Some(palette) = palettes[1] {
            reg = (reg & !(0xfu16 << 4u16)) | (palette.value() << 4u16);
        }
        let reg1 = reg;
        if let Some(palette) = palettes[2] {
            reg = (reg & !(0xfu16 << 8u16)) | (palette.value() << 8u16);
        }
        let reg2 = reg;
        if let Some(palette) = palettes[3] {
            reg = (reg & !(0xfu16 << 12u16)) | (palette.value() << 12u16);
        }
        proof {
            lemma_bulk_write_fields(draw_colors, reg0, reg1, reg2, reg, palettes);
        }
        reg
    }

    /// Reads the four palette selections out of a draw-color register
    /// value; fails if any 4-bit field holds a value no palette slot has.
    pub fn get_draw_colors(&self, draw_colors: u16) -> (r: Result<[PaletteIndex; 4], DecodeError>)
        ensures
            r is Ok <==> draw_colors_decodable(draw_colors),
            r matches Ok(selections) ==> {
                &&& selections@[0].spec_value() == nibble(draw_colors, 0)
                &&& selections@[1].spec_value() == nibble(draw_colors, 4)
                &&& selections@[2].spec_value() == nibble(draw_colors, 8)
                &&& selections@[3].spec_value() == nibble(draw_colors, 12)
            },
    {
        proof {
            assert(draw_colors >> 0u16 == draw_colors) by (bit_vector);
        }
        let s0 = PaletteIndex::try_from_value(draw_colors & 0xf);
        let s1 = PaletteIndex::try_from_value((draw_colors >> 4) & 0xf);
        let s2 = PaletteIndex::try_from_value((draw_colors >> 8) & 0xf);
        let s3 = PaletteIndex::try_from_value((draw_colors >> 12) & 0xf);
        match (s0, s1, s2, s3) {
            (Ok(p0), Ok(p1), Ok(p2), Ok(p3)) => Ok([p0, p1, p2, p3]),
            _ => Err(DecodeError),
        }
    }

    /// Packs the palette into the four 24-bit words the host's palette
    /// table stores.
    pub fn set_palette(&self, palette: Palette) -> (r: [u32; 4])
        ensures
            r@[0] == palette@[0].packed(),
            r@[1] == palette@[1].packed(),
            r@[2] == palette@[2].packed(),
            r@[3] == palette@[3].packed(),
    {
        [
            palette[0].to_packed(),
            palette[1].to_packed(),
            palette[2].to_packed(),
            palette[3].to_packed(),
        ]
    }

    /// Unpacks the four words of the host's palette table; bits above the
    /// low 24 of each word are ignored.
    pub fn get_palette(&self, raw: [u32; 4]) -> (p: Palette)
        ensures
            p@[0] == Color::spec_unpack(raw@[0]),
            p@[1] == Color::spec_unpack(raw@[1]),
            p@[2] == Color::spec_unpack(raw@[2]),
            p@[3] == Color::spec_unpack(raw@[3]),
    {
        [Color::from(raw[0]), Color::from(raw[1]), Color::from(raw[2]), Color::from(raw[3])]
    }
}

/// After a single-role write, the written role's field holds exactly the
/// selected value.
pub proof fn lemma_set_nibble_target(reg: u16, index: DrawColorIndex, palette: PaletteIndex)
    ensures
        nibble(spec_set_draw_color(reg, index, palette), index.spec_offset())
            == palette.spec_value(),
{
    let off = index.spec_offset();
    let v = palette.spec_value();
    assert(off == 0 || off == 4 || off == 8 || off == 12);
    assert(v <= 4);
    assert((((reg & !(0xfu16 << off)) | (v << off)) >> off) & 0xf == v) by (bit_vector)
        requires
            off == 0 || off == 4 || off == 8 || off == 12,
            v <= 4,
    ;
}

/// A single-role draw-color write changes only its own 4-bit field: every
/// other role's field is bit-identical before and after.
pub proof fn lemma_set_nibble_preserves_others(
    reg: u16,
    index: DrawColorIndex,
    palette: PaletteIndex,
    other: DrawColorIndex,
)
    requires
        other != index,
    ensures
        nibble(spec_set_draw_color(reg, index, palette), other.spec_offset())
            == nibble(reg, other.spec_offset()),
{
    let off = index.spec_offset();
    let o = other.spec_offset();
    let v = palette.spec_value();
    assert(off == 0 || off == 4 || off == 8 || off == 12);
    assert(o == 0 || o == 4 || o == 8 || o == 12);
    assert(o != off);
    assert((((reg & !(0xfu16 << off)) | (v << off)) >> o) & 0xf == (reg >> o) & 0xf)
        by (bit_vector)
        requires
            off == 0 || off == 4 || off == 8 || off == 12,
            o == 0 || o == 4 || o == 8 || o == 12,
            o != off,
            v <= 4,
    ;
}

/// Writing a selection's field value and reading it back gives the same
/// selection: the 4-bit encoding of a palette slot is lossless.
pub proof fn lemma_palette_index_round_trip(palette: PaletteIndex)
    ensures
        PaletteIndex::spec_from_value(palette.spec_value()) == Ok::<PaletteIndex, DecodeError>(
            palette,
        ),
{
}

/// A bulk write with a selection for all four roles produces a register
/// that decodes, and it decodes to exactly the written selections.
pub proof fn lemma_draw_colors_round_trip(reg: u16, palettes: [Option<PaletteIndex>; 4])
    requires
        palettes@[0] is Some,
        palettes@[1] is Some,
        palettes@[2] is Some,
        palettes@[3] is Some,
    ensures
        ({
            let w = spec_set_draw_colors(reg, palettes);
            &&& draw_colors_decodable(w)
            &&& PaletteIndex::spec_from_value(nibble(w, 0)) == Ok::<PaletteIndex, DecodeError>(
                palettes@[0]->Some_0,
            )
            &&& PaletteIndex::spec_from_value(nibble(w, 4)) == Ok::<PaletteIndex, DecodeError>(
                palettes@[1]->Some_0,
            )
            &&& PaletteIndex::spec_from_value(nibble(w, 8)) == Ok::<PaletteIndex, DecodeError>(
                palettes@[2]->Some_0,
            )
            &&& PaletteIndex::spec_from_value(nibble(w, 12)) == Ok::<PaletteIndex, DecodeError>(
                palettes@[3]->Some_0,
            )
        }),
{
    let p0 = palettes@[0]->Some_0;
    let p1 = palettes@[1]->Some_0;
    let p2 = palettes@[2]->Some_0;
    let p3 = palettes@[3]->Some_0;
    let v0 = p0.spec_value();
    let v1 = p1.spec_value();
    let v2 = p2.spec_value();
    let v3 = p3.spec_value();
    let w = spec_set_draw_colors(reg, palettes);
    assert(w == spec_set_nibble(
        spec_set_nibble(spec_set_nibble(spec_set_nibble(reg, 0, v0), 4, v1), 8, v2),
        12,
        v3,
    ));
    lemma_all_roles_written(reg, v0, v1, v2, v3);
    lemma_palette_index_round_trip(p0);
    lemma_palette_index_round_trip(p1);
    lemma_palette_index_round_trip(p2);
    lemma_palette_index_round_trip(p3);
}

/// Writing all four fields in role order leaves each field holding its
/// own written value.
proof fn lemma_all_roles_written(reg: u16, v0: u16, v1: u16, v2: u16, v3: u16)
    requires
        v0 <= 4,
        v1 <= 4,
        v2 <= 4,
        v3 <= 4,
    ensures
        ({
            let w = spec_set_nibble(
                spec_set_nibble(spec_set_nibble(spec_set_nibble(reg, 0, v0), 4, v1), 8, v2),
                12,
                v3,
            );
            nibble(w, 0) == v0 && nibble(w, 4) == v1 && nibble(w, 8) == v2 && nibble(w, 12) == v3
        }),
{
    let w0 = spec_set_nibble(reg, 0, v0);
    let w1 = spec_set_nibble(w0, 4, v1);
    let w2 = spec_set_nibble(w1, 8, v2);
    let w3 = spec_set_nibble(w2, 12, v3);
    assert({
        let a = (reg & !(0xfu16 << 0u16)) | (v0 << 0u16);
        let b = (a & !(0xfu16 << 4u16)) | (v1 << 4u16);
        let c = (b & !(0xfu16 << 8u16)) | (v2 << 8u16);
        let d = (c & !(0xfu16 << 12u16)) | (v3 << 12u16);
        ((d >> 0u16) & 0xf == v0) && ((d >> 4u16) & 0xf == v1) && ((d >> 8u16) & 0xf == v2) && ((d
            >> 12u16) & 0xf == v3)
    }) by (bit_vector)
        requires
            v0 <= 4,
            v1 <= 4,
            v2 <= 4,
            v3 <= 4,
    ;
}

/// The fields of the register handed back by a bulk write, stepped one
/// role at a time.
proof fn lemma_bulk_write_fields(
    start: u16,
    reg0: u16,
    reg1: u16,
    reg2: u16,
    reg3: u16,
    palettes: [Option<PaletteIndex>; 4],
)
    requires
        reg0 == apply_role(start, palettes@[0], 0),
        reg1 == apply_role(reg0, palettes@[1], 4),
        reg2 == apply_role(reg1, palettes@[2], 8),
        reg3 == apply_role(reg2, palettes@[3], 12),
    ensures
        reg3 == spec_set_draw_colors(start, palettes),
        role_written(start, reg3, palettes@[0], 0),
        role_written(start, reg3, palettes@[1], 4),
        role_written(start, reg3, palettes@[2], 8),
        role_written(start, reg3, palettes@[3], 12),
{
    lemma_apply_role_fields(start, palettes@[0], 0, reg0);
    lemma_apply_role_fields(reg0, palettes@[1], 4, reg1);
    lemma_apply_role_fields(reg1, palettes@[2], 8, reg2);
    lemma_apply_role_fields(reg2, palettes@[3], 12, reg3);
}

/// One step of a bulk write: the addressed field is written (or kept, for
/// `None`) and every other aligned field keeps its bits.
proof fn lemma_apply_role_fields(reg: u16, selection: Option<PaletteIndex>, off: u16, out: u16)
    requires
        off == 0 || off == 4 || off == 8 || off == 12,
        out == apply_role(reg, selection, off),
    ensures
        role_written(reg, out, selection, off),
        forall|o: u16|
            (o == 0 || o == 4 || o == 8 || o == 12) && o != off ==> #[trigger] nibble(out, o)
                == nibble(reg, o),
{
    match selection {
        Some(palette) => {
            let v = palette.spec_value();
            assert(v <= 4);
            assert((((reg & !(0xfu16 << off)) | (v << off)) >> off) & 0xf == v) by (bit_vector)
                requires
                    off == 0 || off == 4 || off == 8 || off == 12,
                    v <= 4,
            ;
            assert forall|o: u16| (o == 0 || o == 4 || o == 8 || o == 12) && o != off implies #[trigger] nibble(
                out,
                o,
            ) == nibble(reg, o) by {
                assert((((reg & !(0xfu16 << off)) | (v << off)) >> o) & 0xf == (reg >> o) & 0xf)
                    by (bit_vector)
                    requires
                        off == 0 || off == 4 || off == 8 || off == 12,
                        o == 0 || o == 4 || o == 8 || o == 12,
                        o != off,
                        v <= 4,
                ;
            }
        },
        None => {},
    }
}

} // verus!
