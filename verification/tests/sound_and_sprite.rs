use console_hal::sound;
use console_hal::sound::Duration;
use console_hal::sprite::{Flags, Sprite};
use console_hal::{get_char_height, get_char_width};

#[test]
fn duration_from_frames_and_from_millis() {
    assert_eq!(Duration::from_frames(60).frames, 60);
    // Milliseconds truncate to whole 16 ms frames.
    assert_eq!(Duration::from_millis(33).frames, 2);
    assert_eq!(Duration::from_millis(15).frames, 0);
    assert_eq!(Duration::from_millis(255).frames, 15);
}

#[test]
fn typed_envelope_packs_like_the_frame_counted_one() {
    let e = sound::ADSRDuration::new(
        Duration::from_frames(10),
        Duration::from_frames(5),
        Duration::from_frames(3),
        Duration::from_frames(2),
    );
    assert_eq!(e.encode(), 0x0A05_0203);
    assert_eq!(sound::ADSRDuration::constant(Duration::from_frames(60)).encode(), 60);
}

#[test]
fn typed_frequency_and_flags_pack_the_same_layouts() {
    assert_eq!(sound::Frequency::constant(440).encode(), 440);
    assert_eq!(sound::Frequency::linear(100, 200).encode(), 100 | (200 << 16));
    assert_eq!(
        sound::Flags::new(sound::Channel::Triangle, sound::DutyCycle::OneQuarter, sound::Pan::Left)
            .encode(),
        2 | (1 << 2) | (1 << 4)
    );
}

#[test]
fn typed_volume_validates_like_the_other() {
    assert!(sound::Volume::constant(101).is_err());
    assert!(sound::Volume::new(101, 50).is_err());
    assert_eq!(sound::Volume::constant(100).unwrap().encode(), 0x6464);
    assert_eq!(sound::Volume::new(75, 20).unwrap().encode(), 20 | (75 << 8));
}

#[test]
fn sprite_flag_bits() {
    assert_eq!(Flags::BLIT_1BPP.bits(), 0);
    assert_eq!(Flags::BLIT_2BPP.bits(), 1);
    assert_eq!(Flags::BLIT_FLIP_X.bits(), 2);
    assert_eq!(Flags::BLIT_FLIP_Y.bits(), 4);
    assert_eq!(Flags::BLIT_ROTATE.bits(), 8);
}

#[test]
fn default_sprite_is_empty() {
    let s = Sprite::default();
    assert_eq!(s.width, 0);
    assert_eq!(s.height, 0);
    assert_eq!(s.flags, Flags::BLIT_1BPP);
    assert!(s.bytes.is_empty());
}

#[test]
fn font_character_dimensions() {
    assert_eq!(get_char_width(), 8);
    assert_eq!(get_char_height(), 8);
}
