use console_hal::color::Color;
use console_hal::framebuffer::Framebuffer;
use console_hal::palette_default;

#[test]
fn unpacking_reads_red_high_green_middle_blue_low() {
    let c = Color::from(0xe0f8cf);
    assert_eq!(c, Color::new(0xe0, 0xf8, 0xcf));
    let c = Color::from(0x123456);
    assert_eq!(c, Color::new(0x12, 0x34, 0x56));
}

#[test]
fn bits_above_the_low_24_are_ignored() {
    assert_eq!(Color::from(0xff_123456), Color::from(0x123456));
}

#[test]
fn color_round_trip() {
    for c in [
        Color::new(0, 0, 0),
        Color::new(255, 255, 255),
        Color::new(0x12, 0x34, 0x56),
        Color::new(0xe0, 0xf8, 0xcf),
    ] {
        assert_eq!(Color::from(c.to_packed()), c);
    }
}

#[test]
fn packed_round_trip_keeps_all_24_bits() {
    for w in [0u32, 0xffffff, 0x123456, 0x00ff00] {
        assert_eq!(Color::from(w).to_packed(), w);
    }
}

#[test]
fn palette_codec_round_trip() {
    let fb = Framebuffer::new();
    let palette = [
        Color::new(1, 2, 3),
        Color::new(255, 0, 255),
        Color::new(0, 0, 0),
        Color::new(0x30, 0x68, 0x50),
    ];
    let raw = fb.set_palette(palette);
    assert_eq!(raw, [0x010203, 0xff00ff, 0x000000, 0x306850]);
    assert_eq!(fb.get_palette(raw), palette);
}

#[test]
fn default_palette_colors() {
    let p = palette_default();
    assert_eq!(p[0], Color::new(0xe0, 0xf8, 0xcf));
    assert_eq!(p[1], Color::new(0x86, 0xc0, 0x6c));
    assert_eq!(p[2], Color::new(0x30, 0x68, 0x50));
    assert_eq!(p[3], Color::new(0x07, 0x18, 0x21));
}
