//! Audio parameter objects and their packed 32-bit register layouts.
//!
//! The host's audio trigger takes four 32-bit words: frequency, envelope
//! duration, volume and channel flags. Each word has a fixed bit layout;
//! the types here hold the parameters as validated plain values, pack
//! them with `encode`, and unpack register words again with `decode`.
//! Validation happens at construction time, so encoding itself is total
//! and never fails.

use vstd::prelude::*;

use crate::ConstructionRangeError;
use crate::DecodeError;

verus! {

/// Handle for the host's audio unit. It carries no state; the tone
/// trigger itself is a host call made by the surrounding runtime from the
/// four encoded words.
pub struct Audio;

impl Audio {
    pub fn shared() -> Audio {
        Audio
    }
}

/// Duration of a tone in frames.
pub type ToneDuration = u8;

/// Wave frequency: one constant value, or a linear slide from a start to
/// an end frequency. Packed layout: start (or the constant) in bits 0-15,
/// end in bits 16-31, zero when constant.
#[derive(Clone, Copy, Debug, PartialEq, Eq, Structural)]
pub struct Frequency {
    pub start: u16,
    pub end: u16,
}

impl Frequency {
    /// The packed 32-bit form: start in the low half, end in the high
    /// half.
    pub open spec fn encoding(self) -> u32 {
        (self.start as u32) | ((self.end as u32) << 16)
    }

    /// The frequency a packed word stands for.
    pub open spec fn spec_decode(word: u32) -> Frequency {
        Frequency { start: (word & 0xffff) as u16, end: ((word >> 16) & 0xffff) as u16 }
    }

    /// * `hertz` - Wave frequency in hertz
    pub fn constant(hertz: u16) -> (r: Frequency)
        ensures
            r == (Frequency { start: hertz, end: 0 }),
    {
        Frequency { start: hertz, end: 0 }
    }

    /// * `start` - Start wave frequency in hertz
    /// * `end` - End wave frequency in hertz
    pub fn linear(start: u16, end: u16) -> (r: Frequency)
        ensures
            r == (Frequency { start, end }),
    {
        Frequency { start, end }
    }

    pub fn encode(&self) -> (r: u32)
        ensures
            r == self.encoding(),
    {
        (self.start as u32) | ((self.end as u32) << 16)
    }

    /// Every 32-bit word decodes: both halves are taken as they stand.
    pub fn decode(word: u32) -> (r: Frequency)
        ensures
            r == Frequency::spec_decode(word),
    {
        Frequency { start: (word & 0xffff) as u16, end: ((word >> 16) & 0xffff) as u16 }
    }
}

/// Decoding the packed form of a frequency gives the frequency back.
pub proof fn lemma_frequency_round_trip(f: Frequency)
    ensures
        Frequency::spec_decode(f.encoding()) == f,
{
    let s = f.start;
    let e = f.end;
    assert(((((s as u32) | ((e as u32) << 16)) & 0xffff) as u16 == s) && (((((s as u32) | ((
    e as u32) << 16)) >> 16) & 0xffff) as u16 == e)) by (bit_vector);
}

/// Envelope of a tone's duration: four independent frame counts. Packed
/// layout: sustain in bits 0-7, release in bits 8-15, decay in bits
/// 16-23, attack in bits 24-31.
#[derive(Clone, Copy, Debug, PartialEq, Eq, Structural)]
pub struct ADSRDuration {
    pub attack: ToneDuration,
    pub decay: ToneDuration,
    pub sustain: ToneDuration,
    pub release: ToneDuration,
}

impl ADSRDuration {
    /// The packed 32-bit form, byte order sustain, release, decay, attack
    /// from the low byte up.
    pub open spec fn encoding(self) -> u32 {
        (self.sustain as u32) | ((self.release as u32) << 8) | ((self.decay as u32) << 16) | ((
        self.attack as u32) << 24)
    }

    /// The envelope a packed word stands for.
    pub open spec fn spec_decode(word: u32) -> ADSRDuration {
        ADSRDuration {
            attack: ((word >> 24) & 0xff) as u8,
            decay: ((word >> 16) & 0xff) as u8,
            sustain: (word & 0xff) as u8,
            release: ((word >> 8) & 0xff) as u8,
        }
    }

    /// * `duration` - Constant duration of the tone: the tone holds
    ///   steady for that many frames, with no ramping up or down.
    pub fn constant(duration: ToneDuration) -> (r: ADSRDuration)
        ensures
            r == (ADSRDuration { attack: 0, decay: 0, sustain: duration, release: 0 }),
    {
        ADSRDuration { attack: 0, decay: 0, sustain: duration, release: 0 }
    }

    /// * `attack` - The time it takes to initially ramp up from 0 volume to peak volume.
    /// * `decay` - The time taken to ramp down from peak volume to the sustain volume.
    /// * `sustain` - The time to hold the tone steady at the sustain volume.
    /// * `release` - The time to ramp back down to 0 volume.
    pub fn new(
        attack: ToneDuration,
        decay: ToneDuration,
        sustain: ToneDuration,
        release: ToneDuration,
    ) -> (r: ADSRDuration)
        ensures
            r == (ADSRDuration { attack, decay, sustain, release }),
    {
        ADSRDuration { attack, decay, sustain, release }
    }

    pub fn encode(&self) -> (r: u32)
        ensures
            r == self.encoding(),
    {
        (self.sustain as u32) | ((self.release as u32) << 8) | ((self.decay as u32) << 16) | ((
        self.attack as u32) << 24)
    }

    /// Every 32-bit word decodes: each byte is one frame count.
    pub fn decode(word: u32) -> (r: ADSRDuration)
        ensures
            r == ADSRDuration::spec_decode(word),
    {
        ADSRDuration {
            attack: ((word >> 24) & 0xff) as u8,
            decay: ((word >> 16) & 0xff) as u8,
            sustain: (word & 0xff) as u8,
            release: ((word >> 8) & 0xff) as u8,
        }
    }
}

/// Decoding the packed form of an envelope gives the envelope back.
pub proof fn lemma_adsr_round_trip(d: ADSRDuration)
    ensures
        ADSRDuration::spec_decode(d.encoding()) == d,
{
    let a = d.attack;
    let dc = d.decay;
    let s = d.sustain;
    let r = d.release;
    assert({
        let w = (s as u32) | ((r as u32) << 8) | ((dc as u32) << 16) | ((a as u32) << 24);
        (((w >> 24) & 0xff) as u8 == a) && (((w >> 16) & 0xff) as u8 == dc) && ((w & 0xff) as u8
            == s) && (((w >> 8) & 0xff) as u8 == r)
    }) by (bit_vector);
}

/// Volume of a tone: two percentages, each between 0 and 100 inclusive,
/// validated at construction. Packed layout: sustain volume in bits 0-7,
/// peak volume in bits 8-15.
#[derive(Clone, Copy, Debug, PartialEq, Eq, Structural)]
pub struct Volume {
    peak: u8,
    sustain: u8,
}

impl Volume {
    /// The peak volume percentage, reached at the end of the attack ramp.
    pub closed spec fn spec_peak(self) -> u8 {
        self.peak
    }

    /// The sustain volume percentage, held for the sustain duration.
    pub closed spec fn spec_sustain(self) -> u8 {
        self.sustain
    }

    /// Both percentages within their documented range. Construction
    /// admits no other value.
    pub open spec fn valid(self) -> bool {
        self.spec_peak() <= 100 && self.spec_sustain() <= 100
    }

    /// The packed 32-bit form: sustain in the low byte, peak in the byte
    /// above it.
    pub open spec fn encoding(self) -> u32 {
        (self.spec_sustain() as u32) | ((self.spec_peak() as u32) << 8)
    }

    /// The volume a packed word stands for, if both fields are in range
    /// and no higher bit is set.
    pub closed spec fn spec_decode(word: u32) -> Result<Volume, DecodeError> {
        if word >> 16 == 0 && word & 0xff <= 100 && (word >> 8) & 0xff <= 100 {
            Ok(Volume { peak: ((word >> 8) & 0xff) as u8, sustain: (word & 0xff) as u8 })
        } else {
            Err(DecodeError)
        }
    }

    /// * `volume` - Volume between 0 and 100; peak and sustain are both
    ///   set to it. Values above 100 are rejected.
    pub fn constant(volume: u8) -> (r: Result<Volume, ConstructionRangeError>)
        ensures
            r is Ok <==> volume <= 100,
            r matches Ok(v) ==> v.spec_peak() == volume && v.spec_sustain() == volume,
            r is Ok ==> r->Ok_0.valid(),
    {
        if volume <= 100 {
            Ok(Volume { peak: volume, sustain: volume })
        } else {
            Err(ConstructionRangeError)
        }
    }

    /// * `peak` - The peak volume reached by the attack duration
    /// * `sustain` - The main volume used for the sustain duration
    ///
    /// Either percentage above 100 is rejected.
    pub fn new(peak: u8, sustain: u8) -> (r: Result<Volume, ConstructionRangeError>)
        ensures
            r is Ok <==> peak <= 100 && sustain <= 100,
            r matches Ok(v) ==> v.spec_peak() == peak && v.spec_sustain() == sustain,
            r is Ok ==> r->Ok_0.valid(),
    {
        if peak <= 100 && sustain <= 100 {
            Ok(Volume { peak, sustain })
        } else {
            Err(ConstructionRangeError)
        }
    }

    pub fn peak(&self) -> (r: u8)
        ensures
            r == self.spec_peak(),
    {
        self.peak
    }

    pub fn sustain(&self) -> (r: u8)
        ensures
            r == self.spec_sustain(),
    {
        self.sustain
    }

    pub fn encode(&self) -> (r: u32)
        ensures
            r == self.encoding(),
    {
        (self.sustain as u32) | ((self.peak as u32) << 8)
    }

    /// Unpacks a volume word; fails if either percentage is above 100 or
    /// any bit above the two fields is set.
    pub fn decode(word: u32) -> (r: Result<Volume, DecodeError>)
        ensures
            r == Volume::spec_decode(word),
            r is Ok <==> word >> 16 == 0 && word & 0xff <= 100 && (word >> 8) & 0xff <= 100,
            r matches Ok(v) ==> v.spec_sustain() == word & 0xff && v.spec_peak() == (word >> 8)
                & 0xff,
    {
        if word >> 16 == 0 && word & 0xff <= 100 && (word >> 8) & 0xff <= 100 {
            Ok(Volume { peak: ((word >> 8) & 0xff) as u8, sustain: (word & 0xff) as u8 })
        } else {
            Err(DecodeError)
        }
    }
}

impl Default for Volume {
    /// Full volume: peak and sustain both 100.
    fn default() -> (r: Volume)
        ensures
            r.spec_peak() == 100 && r.spec_sustain() == 100,
    {
        Volume { peak: 100, sustain: 100 }
    }
}

/// Decoding the packed form of a validly constructed volume gives the
/// volume back.
pub proof fn lemma_volume_round_trip(v: Volume)
    requires
        v.valid(),
    ensures
        Volume::spec_decode(v.encoding()) == Ok::<Volume, DecodeError>(v),
{
    let p = v.spec_peak();
    let s = v.spec_sustain();
    assert({
        let w = (s as u32) | ((p as u32) << 8);
        (w >> 16 == 0) && (w & 0xff == s) && ((w >> 8) & 0xff == p)
    }) by (bit_vector);
}

/// The console's sound system has four independent channels, each
/// dedicated to a different type of audio waveform.
#[derive(Clone, Copy, Debug, PartialEq, Eq, Structural)]
pub enum Channel {
    /// Classic chiptune sound, square wave
    Pulse1,
    /// Classic chiptune sound, square wave
    Pulse2,
    /// A softer sound, great for bass
    Triangle,
    /// A harsh sound, for percussion and effects
    Noise,
}

/// For pulse channels, the pulse wave duty cycle.
#[derive(Clone, Copy, Debug, PartialEq, Eq, Structural)]
pub enum DutyCycle {
    /// 1/8, 12.5%
    OneEighth,
    /// 1/4, 25%
    OneQuarter,
    /// 1/2, 50%
    OneHalf,
    /// 3/4, 75%
    ThreeQuarters,
}

/// The pan: whether the sound comes from the left speaker, the right
/// speaker or both.
#[derive(Clone, Copy, Debug, PartialEq, Eq, Structural)]
pub enum Pan {
    Center,
    Left,
    Right,
}

impl Channel {
    /// The 2-bit selector value of this channel.
    pub open spec fn spec_bits(self) -> u32 {
        match self {
            Channel::Pulse1 => 0,
            Channel::Pulse2 => 1,
            Channel::Triangle => 2,
            Channel::Noise => 3,
        }
    }

    pub fn bits(self) -> (r: u32)
        ensures
            r == self.spec_bits(),
    {
        match self {
            Channel::Pulse1 => 0,
            Channel::Pulse2 => 1,
            Channel::Triangle => 2,
            Channel::Noise => 3,
        }
    }

    /// The channel each 2-bit selector value names; all four values are
    /// meaningful.
    pub open spec fn spec_from_bits(bits: u32) -> Channel {
        if bits == 0 {
            Channel::Pulse1
        } else if bits == 1 {
            Channel::Pulse2
        } else if bits == 2 {
            Channel::Triangle
        } else {
            Channel::Noise
        }
    }
}

impl DutyCycle {
    /// The 2-bit selector value of this duty cycle.
    pub open spec fn spec_bits(self) -> u32 {
        match self {
            DutyCycle::OneEighth => 0,
            DutyCycle::OneQuarter => 1,
            DutyCycle::OneHalf => 2,
            DutyCycle::ThreeQuarters => 3,
        }
    }

    pub fn bits(self) -> (r: u32)
        ensures
            r == self.spec_bits(),
    {
        match self {
            DutyCycle::OneEighth => 0,
            DutyCycle::OneQuarter => 1,
            DutyCycle::OneHalf => 2,
            DutyCycle::ThreeQuarters => 3,
        }
    }

    /// The duty cycle each 2-bit selector value names; all four values
    /// are meaningful.
    pub open spec fn spec_from_bits(bits: u32) -> DutyCycle {
        if bits == 0 {
            DutyCycle::OneEighth
        } else if bits == 1 {
            DutyCycle::OneQuarter
        } else if bits == 2 {
            DutyCycle::OneHalf
        } else {
            DutyCycle::ThreeQuarters
        }
    }
}

impl Pan {
    /// The 2-bit selector value of this pan; only three of the four
    /// values are meaningful.
    pub open spec fn spec_bits(self) -> u32 {
        match self {
            Pan::Center => 0,
            Pan::Left => 1,
            Pan::Right => 2,
        }
    }

    pub fn bits(self) -> (r: u32)
        ensures
            r == self.spec_bits(),
    {
        match self {
            Pan::Center => 0,
            Pan::Left => 1,
            Pan::Right => 2,
        }
    }

    /// The pan a 2-bit selector value names; the fourth value names none.
    pub open spec fn spec_from_bits(bits: u32) -> Result<Pan, DecodeError> {
        if bits == 0 {
            Ok(Pan::Center)
        } else if bits == 1 {
            Ok(Pan::Left)
        } else if bits == 2 {
            Ok(Pan::Right)
        } else {
            Err(DecodeError)
        }
    }
}

impl Default for Pan {
    fn default() -> (r: Pan)
        ensures
            r == Pan::Center,
    {
        Pan::Center
    }
}

/// Channel flags of a tone: which channel plays it, the duty cycle of the
/// wave (meaningful for the two pulse channels), and the pan. Packed
/// layout: channel in bits 0-1, duty cycle in bits 2-3, pan in bits 4-5.
#[derive(Clone, Copy, Debug, PartialEq, Eq, Structural)]
pub struct Flags {
    pub channel: Channel,
    pub duty_cycle: DutyCycle,
    pub pan: Pan,
}

impl Flags {
    /// The packed 32-bit form: channel, duty cycle and pan as three 2-bit
    /// fields from the low bit up.
    pub open spec fn encoding(self) -> u32 {
        self.channel.spec_bits() | (self.duty_cycle.spec_bits() << 2) | (self.pan.spec_bits() << 4)
    }

    /// The flags a packed word stands for, if no bit above the three
    /// fields is set and the pan field names a pan.
    pub open spec fn spec_decode(word: u32) -> Result<Flags, DecodeError> {
        if word >> 6 == 0 && (word >> 4) & 0x3 != 3 {
            match Pan::spec_from_bits((word >> 4) & 0x3) {
                Ok(pan) => Ok(
                    Flags {
                        channel: Channel::spec_from_bits(word & 0x3),
                        duty_cycle: DutyCycle::spec_from_bits((word >> 2) & 0x3),
                        pan,
                    },
                ),
                Err(e) => Err(e),
            }
        } else {
            Err(DecodeError)
        }
    }

    pub fn new(channel: Channel, mode: DutyCycle, pan: Pan) -> (r: Flags)
        ensures
            r == (Flags { channel, duty_cycle: mode, pan }),
    {
        Flags { channel, duty_cycle: mode, pan }
    }

    pub fn encode(&self) -> (r: u32)
        ensures
            r == self.encoding(),
    {
        self.channel.bits() | (self.duty_cycle.bits() << 2) | (self.pan.bits() << 4)
    }

    /// Unpacks a flags word; fails if a bit above the three fields is set
    /// or the pan field holds the value that names no pan.
    pub fn decode(word: u32) -> (r: Result<Flags, DecodeError>)
        ensures
            r == Flags::spec_decode(word),
    {
        proof {
            assert(word & 0x3 <= 3 && (word >> 2) & 0x3 <= 3 && (word >> 4) & 0x3 <= 3)
                by (bit_vector);
        }
        if word >> 6 == 0 && (word >> 4) & 0x3 != 3 {
            let channel = match word & 0x3 {
                0 => Channel::Pulse1,
                1 => Channel::Pulse2,
                2 => Channel::Triangle,
                _ => Channel::Noise,
            };
            let duty_cycle = match (word >> 2) & 0x3 {
                0 => DutyCycle::OneEighth,
                1 => DutyCycle::OneQuarter,
                2 => DutyCycle::OneHalf,
                _ => DutyCycle::ThreeQuarters,
            };
            let pan = match (word >> 4) & 0x3 {
                0 => Pan::Center,
                1 => Pan::Left,
                _ => Pan::Right,
            };
            Ok(Flags { channel, duty_cycle, pan })
        } else {
            Err(DecodeError)
        }
    }
}

/// Decoding the packed form of any flags value gives the flags back:
/// every combination of channel, duty cycle and pan is valid.
pub proof fn lemma_flags_round_trip(f: Flags)
    ensures
        Flags::spec_decode(f.encoding()) == Ok::<Flags, DecodeError>(f),
{
    let c = f.channel.spec_bits();
    let d = f.duty_cycle.spec_bits();
    let p = f.pan.spec_bits();
    assert(c <= 3 && d <= 3 && p <= 2);
    assert({
        let w = c | (d << 2) | (p << 4);
        (w >> 6 == 0) && (w & 0x3 == c) && ((w >> 2) & 0x3 == d) && ((w >> 4) & 0x3 == p)
    }) by (bit_vector)
        requires
            c <= 3,
            d <= 3,
            p <= 2,
    ;
}

} // verus!
