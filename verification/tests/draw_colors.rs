use console_hal::framebuffer::{DrawColorIndex, Framebuffer, PaletteIndex};

#[test]
fn single_role_write_changes_only_its_own_field() {
    let fb = Framebuffer::new();
    for initial in [0x0000u16, 0x1234, 0xffff, 0x4321, 0x00f0] {
        let written = fb.set_draw_color(initial, DrawColorIndex::Index2, PaletteIndex::Palette3);
        assert_eq!((written >> 4) & 0xf, 3);
        assert_eq!(written & 0xf, initial & 0xf);
        assert_eq!((written >> 8) & 0xf, (initial >> 8) & 0xf);
        assert_eq!((written >> 12) & 0xf, (initial >> 12) & 0xf);
    }
}

#[test]
fn bulk_write_replaces_given_roles_and_keeps_the_rest() {
    let fb = Framebuffer::new();
    let initial = 0x4321u16;
    let written = fb.set_draw_colors(
        initial,
        [Some(PaletteIndex::Palette2), None, Some(PaletteIndex::Transparent), None],
    );
    assert_eq!(written & 0xf, 2); // written
    assert_eq!((written >> 4) & 0xf, 2); // kept from 0x4321
    assert_eq!((written >> 8) & 0xf, 0); // written
    assert_eq!((written >> 12) & 0xf, 4); // kept from 0x4321
}

#[test]
fn absence_means_leave_untouched_not_zero() {
    let fb = Framebuffer::new();
    let written = fb.set_draw_colors(0x4321, [None, None, None, None]);
    assert_eq!(written, 0x4321);
}

#[test]
fn draw_colors_round_trip() {
    let fb = Framebuffer::new();
    let selections = [
        Some(PaletteIndex::Palette4),
        Some(PaletteIndex::Transparent),
        Some(PaletteIndex::Palette1),
        Some(PaletteIndex::Palette3),
    ];
    let written = fb.set_draw_colors(0xffff, selections);
    let read = fb.get_draw_colors(written).unwrap();
    assert_eq!(
        read,
        [
            PaletteIndex::Palette4,
            PaletteIndex::Transparent,
            PaletteIndex::Palette1,
            PaletteIndex::Palette3,
        ]
    );
}

#[test]
fn field_value_above_four_is_a_decode_error() {
    let fb = Framebuffer::new();
    assert!(fb.get_draw_colors(0x0005).is_err());
    assert!(fb.get_draw_colors(0x5000).is_err());
    assert!(fb.get_draw_colors(0x00f0).is_err());
    assert!(fb.get_draw_colors(0x4444).is_ok());
    assert!(fb.get_draw_colors(0x0000).is_ok());
}

#[test]
fn palette_index_values_and_offsets() {
    assert_eq!(PaletteIndex::Transparent.value(), 0);
    assert_eq!(PaletteIndex::Palette1.value(), 1);
    assert_eq!(PaletteIndex::Palette4.value(), 4);
    assert_eq!(DrawColorIndex::Index1.offset(), 0);
    assert_eq!(DrawColorIndex::Index2.offset(), 4);
    assert_eq!(DrawColorIndex::Index3.offset(), 8);
    assert_eq!(DrawColorIndex::Index4.offset(), 12);
    assert_eq!(PaletteIndex::try_from_value(2), Ok(PaletteIndex::Palette2));
    assert!(PaletteIndex::try_from_value(5).is_err());
}

#[test]
fn screen_dimensions() {
    let fb = Framebuffer::new();
    assert_eq!(fb.get_screen_width(), 160);
    assert_eq!(fb.get_screen_height(), 160);
}
