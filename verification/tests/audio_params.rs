use console_hal::audio::{ADSRDuration, Channel, DutyCycle, Flags, Frequency, Pan, Volume};

#[test]
fn constant_frequency_encodes_to_its_hertz() {
    assert_eq!(Frequency::constant(440).encode(), 440);
    assert_eq!(Frequency::constant(0).encode(), 0);
    assert_eq!(Frequency::constant(65535).encode(), 0x0000_ffff);
}

#[test]
fn linear_frequency_packs_start_low_end_high() {
    assert_eq!(Frequency::linear(100, 200).encode(), 100 | (200 << 16));
    assert_eq!(Frequency::linear(0xabcd, 0x1234).encode(), 0x1234_abcd);
    // A constant frequency is the slide whose end half is zero.
    assert_eq!(Frequency::linear(440, 0).encode(), Frequency::constant(440).encode());
}

#[test]
fn frequency_round_trip() {
    for f in [
        Frequency::constant(0),
        Frequency::constant(440),
        Frequency::linear(123, 45678),
        Frequency::linear(65535, 65535),
    ] {
        assert_eq!(Frequency::decode(f.encode()), f);
    }
}

#[test]
fn envelope_packs_attack_decay_release_sustain_from_the_top() {
    // attack in bits 24-31, decay in 16-23, release in 8-15, sustain in 0-7.
    assert_eq!(ADSRDuration::new(10, 5, 3, 2).encode(), 0x0A05_0203);
    assert_eq!(ADSRDuration::new(0xff, 0, 0, 0).encode(), 0xff00_0000);
    assert_eq!(ADSRDuration::new(0, 0, 0xff, 0).encode(), 0x0000_00ff);
}

#[test]
fn constant_envelope_sets_sustain_only() {
    assert_eq!(ADSRDuration::constant(60).encode(), 60);
    assert_eq!(ADSRDuration::constant(60), ADSRDuration::new(0, 0, 60, 0));
}

#[test]
fn envelope_round_trip() {
    for d in [
        ADSRDuration::constant(0),
        ADSRDuration::constant(255),
        ADSRDuration::new(10, 5, 3, 2),
        ADSRDuration::new(255, 1, 128, 64),
    ] {
        assert_eq!(ADSRDuration::decode(d.encode()), d);
    }
}

#[test]
fn volume_above_one_hundred_is_rejected() {
    assert!(Volume::constant(101).is_err());
    assert!(Volume::new(101, 50).is_err());
    assert!(Volume::new(50, 101).is_err());
    assert!(Volume::new(255, 255).is_err());
}

#[test]
fn full_constant_volume_encodes_peak_and_sustain_equal() {
    let v = Volume::constant(100).unwrap();
    assert_eq!(v.peak(), 100);
    assert_eq!(v.sustain(), 100);
    assert_eq!(v.encode(), 0x6464);
    assert_eq!(Volume::constant(0).unwrap().encode(), 0);
}

#[test]
fn volume_packs_sustain_low_peak_above() {
    let v = Volume::new(75, 20).unwrap();
    assert_eq!(v.encode(), 20 | (75 << 8));
}

#[test]
fn default_volume_is_full() {
    let v = Volume::default();
    assert_eq!(v.peak(), 100);
    assert_eq!(v.sustain(), 100);
}

#[test]
fn volume_round_trip_and_decode_errors() {
    for v in [
        Volume::constant(0).unwrap(),
        Volume::constant(100).unwrap(),
        Volume::new(75, 20).unwrap(),
    ] {
        assert_eq!(Volume::decode(v.encode()), Ok(v));
    }
    // A percentage above 100 in either byte, or any higher bit, fails.
    assert!(Volume::decode(101).is_err());
    assert!(Volume::decode(101 << 8).is_err());
    assert!(Volume::decode(0x0001_0000).is_err());
}

#[test]
fn flags_pack_channel_duty_pan_two_bits_each() {
    assert_eq!(Flags::new(Channel::Pulse1, DutyCycle::OneEighth, Pan::Center).encode(), 0);
    assert_eq!(
        Flags::new(Channel::Noise, DutyCycle::OneHalf, Pan::Right).encode(),
        3 | (2 << 2) | (2 << 4)
    );
    assert_eq!(
        Flags::new(Channel::Pulse2, DutyCycle::ThreeQuarters, Pan::Left).encode(),
        1 | (3 << 2) | (1 << 4)
    );
}

#[test]
fn flags_round_trip() {
    let channels = [Channel::Pulse1, Channel::Pulse2, Channel::Triangle, Channel::Noise];
    let duties = [
        DutyCycle::OneEighth,
        DutyCycle::OneQuarter,
        DutyCycle::OneHalf,
        DutyCycle::ThreeQuarters,
    ];
    let pans = [Pan::Center, Pan::Left, Pan::Right];
    for channel in channels {
        for duty in duties {
            for pan in pans {
                let f = Flags::new(channel, duty, pan);
                assert_eq!(Flags::decode(f.encode()), Ok(f));
            }
        }
    }
}

#[test]
fn flags_decode_rejects_unknown_pan_and_high_bits() {
    assert!(Flags::decode(3 << 4).is_err());
    assert!(Flags::decode(1 << 6).is_err());
    assert!(Flags::decode(0xffff_ffff).is_err());
}

#[test]
fn default_pan_is_center() {
    assert_eq!(Pan::default(), Pan::Center);
}
