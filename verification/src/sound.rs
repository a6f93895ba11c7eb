//! Variant of the audio parameter API with typed tone durations.
//!
//! Same packed register layouts as [`crate::audio`], but durations are a
//! value type of their own, constructible from frames or from
//! milliseconds, instead of a bare frame count.

use vstd::prelude::*;

use crate::ConstructionRangeError;

verus! {

/// Handle for the host's audio unit. It carries no state; the tone
/// trigger itself is a host call made by the surrounding runtime from the
/// four encoded words.
pub struct Audio;

impl Audio {
    pub fn shared() -> Audio {
        Audio
    }
}

/// Duration of a tone, counted in frames.
#[derive(Clone, Copy, Debug, PartialEq, Eq, Structural)]
pub struct Duration {
    pub frames: u8,
}

impl Duration {
    /// * `value` - Duration of the tone in frames, one frame is 1/60 of a second
    pub fn from_frames(value: u8) -> (r: Duration)
        ensures
            r.frames == value,
    {
        Duration { frames: value }
    }

    /// * `value` - Duration of the tone in milliseconds; truncated to
    ///   whole frames at 16 ms per frame.
    pub fn from_millis(value: u8) -> (r: Duration)
        ensures
            r.frames == value / 16,
    {
        Duration { frames: value / 16 }
    }
}

/// Wave frequency: one constant value, or a linear slide from a start to
/// an end frequency. Packed layout: start (or the constant) in bits 0-15,
/// end in bits 16-31, zero when constant.
#[derive(Clone, Copy, Debug, PartialEq, Eq, Structural)]
pub struct Frequency {
    pub start: u16,
    pub end: u16,
}

impl Frequency {
    /// The packed 32-bit form: start in the low half, end in the high
    /// half.
    pub open spec fn encoding(self) -> u32 {
        (self.start as u32) | ((self.end as u32) << 16)
    }

    /// * `hertz` - Wave frequency in hertz
    pub fn constant(hertz: u16) -> (r: Frequency)
        ensures
            r == (Frequency { start: hertz, end: 0 }),
    {
        Frequency { start: hertz, end: 0 }
    }

    /// * `start` - Start wave frequency in hertz
    /// * `end` - End wave frequency in hertz
    pub fn linear(start: u16, end: u16) -> (r: Frequency)
        ensures
            r == (Frequency { start, end }),
    {
        Frequency { start, end }
    }

    pub fn encode(&self) -> (r: u32)
        ensures
            r == self.encoding(),
    {
        (self.start as u32) | ((self.end as u32) << 16)
    }
}

/// Envelope of a tone's duration: four typed durations. Packed layout:
/// sustain in bits 0-7, release in bits 8-15, decay in bits 16-23,
/// attack in bits 24-31, each as its frame count.
#[derive(Clone, Copy, Debug, PartialEq, Eq, Structural)]
pub struct ADSRDuration {
    pub attack: Duration,
    pub decay: Duration,
    pub sustain: Duration,
    pub release: Duration,
}

impl ADSRDuration {
    /// The packed 32-bit form, byte order sustain, release, decay, attack
    /// from the low byte up.
    pub open spec fn encoding(self) -> u32 {
        (self.sustain.frames as u32) | ((self.release.frames as u32) << 8) | ((
        self.decay.frames as u32) << 16) | ((self.attack.frames as u32) << 24)
    }

    /// * `duration` - Constant duration of the tone: the tone holds
    ///   steady for that duration, with no ramping up or down.
    pub fn constant(duration: Duration) -> (r: ADSRDuration)
        ensures
            r.sustain == duration,
            r.attack.frames == 0,
            r.decay.frames == 0,
            r.release.frames == 0,
    {
        ADSRDuration {
            attack: Duration { frames: 0 },
            decay: Duration { frames: 0 },
            sustain: duration,
            release: Duration { frames: 0 },
        }
    }

    /// * `attack` - The time it takes to initially ramp up from 0 volume to peak volume.
    /// * `decay` - The time taken to ramp down from peak volume to the sustain volume.
    /// * `sustain` - The time to hold the tone steady at the sustain volume.
    /// * `release` - The time to ramp back down to 0 volume.
    pub fn new(attack: Duration, decay: Duration, sustain: Duration, release: Duration) -> (r:
        ADSRDuration)
        ensures
            r == (ADSRDuration { attack, decay, sustain, release }),
    {
        ADSRDuration { attack, decay, sustain, release }
    }

    pub fn encode(&self) -> (r: u32)
        ensures
            r == self.encoding(),
    {
        (self.sustain.frames as u32) | ((self.release.frames as u32) << 8) | ((
        self.decay.frames as u32) << 16) | ((self.attack.frames as u32) << 24)
    }
}

/// Volume of a tone: two percentages, each between 0 and 100 inclusive,
/// validated at construction. Packed layout: sustain volume in bits 0-7,
/// peak volume in bits 8-15.
#[derive(Clone, Copy, Debug, PartialEq, Eq, Structural)]
pub struct Volume {
    peak: u8,
    sustain: u8,
}

impl Volume {
    /// The peak volume percentage, reached at the end of the attack ramp.
    pub closed spec fn spec_peak(self) -> u8 {
        self.peak
    }

    /// The sustain volume percentage, held for the sustain duration.
    pub closed spec fn spec_sustain(self) -> u8 {
        self.sustain
    }

    /// The packed 32-bit form: sustain in the low byte, peak in the byte
    /// above it.
    pub open spec fn encoding(self) -> u32 {
        (self.spec_sustain() as u32) | ((self.spec_peak() as u32) << 8)
    }

    /// * `volume` - Volume between 0 and 100; peak and sustain are both
    ///   set to it. Values above 100 are rejected.
    pub fn constant(volume: u8) -> (r: Result<Volume, ConstructionRangeError>)
        ensures
            r is Ok <==> volume <= 100,
            r matches Ok(v) ==> v.spec_peak() == volume && v.spec_sustain() == volume,
    {
        if volume <= 100 {
            Ok(Volume { peak: volume, sustain: volume })
        } else {
            Err(ConstructionRangeError)
        }
    }

    /// * `peak` - The peak volume reached by the attack duration
    /// * `sustain` - The main volume used for the sustain duration
    ///
    /// Either percentage above 100 is rejected.
    pub fn new(peak: u8, sustain: u8) -> (r: Result<Volume, ConstructionRangeError>)
        ensures
            r is Ok <==> peak <= 100 && sustain <= 100,
            r matches Ok(v) ==> v.spec_peak() == peak && v.spec_sustain() == sustain,
    {
        if peak <= 100 && sustain <= 100 {
            Ok(Volume { peak, sustain })
        } else {
            Err(ConstructionRangeError)
        }
    }

    pub fn encode(&self) -> (r: u32)
        ensures
            r == self.encoding(),
    {
        (self.sustain as u32) | ((self.peak as u32) << 8)
    }
}

/// The console's sound system has four independent channels, each
/// dedicated to a different type of audio waveform.
#[derive(Clone, Copy, Debug, PartialEq, Eq, Structural)]
pub enum Channel {
    Pulse1,
    Pulse2,
    Triangle,
    Noise,
}

/// For pulse channels, the pulse wave duty cycle.
#[derive(Clone, Copy, Debug, PartialEq, Eq, Structural)]
pub enum DutyCycle {
    /// 1/8, 12.5%
    OneEighth,
    /// 1/4, 25%
    OneQuarter,
    /// 1/2, 50%
    OneHalf,
    /// 3/4, 75%
    ThreeQuarters,
}

/// The pan: whether the sound comes from the left speaker, the right
/// speaker or both.
#[derive(Clone, Copy, Debug, PartialEq, Eq, Structural)]
pub enum Pan {
    Center,
    Left,
    Right,
}

impl Channel {
    /// The 2-bit selector value of this channel.
    pub open spec fn spec_bits(self) -> u32 {
        match self {
            Channel::Pulse1 => 0,
            Channel::Pulse2 => 1,
            Channel::Triangle => 2,
            Channel::Noise => 3,
        }
    }

    pub fn bits(self) -> (r: u32)
        ensures
            r == self.spec_bits(),
    {
        match self {
            Channel::Pulse1 => 0,
            Channel::Pulse2 => 1,
            Channel::Triangle => 2,
            Channel::Noise => 3,
        }
    }
}

impl DutyCycle {
    /// The 2-bit selector value of this duty cycle.
    pub open spec fn spec_bits(self) -> u32 {
        match self {
            DutyCycle::OneEighth => 0,
            DutyCycle::OneQuarter => 1,
            DutyCycle::OneHalf => 2,
            DutyCycle::ThreeQuarters => 3,
        }
    }

    pub fn bits(self) -> (r: u32)
        ensures
            r == self.spec_bits(),
    {
        match self {
            DutyCycle::OneEighth => 0,
            DutyCycle::OneQuarter => 1,
            DutyCycle::OneHalf => 2,
            DutyCycle::ThreeQuarters => 3,
        }
    }
}

impl Pan {
    /// The 2-bit selector value of this pan; only three of the four
    /// values are meaningful.
    pub open spec fn spec_bits(self) -> u32 {
        match self {
            Pan::Center => 0,
            Pan::Left => 1,
            Pan::Right => 2,
        }
    }

    pub fn bits(self) -> (r: u32)
        ensures
            r == self.spec_bits(),
    {
        match self {
            Pan::Center => 0,
            Pan::Left => 1,
            Pan::Right => 2,
        }
    }
}

/// Channel flags of a tone: which channel plays it, the duty cycle of the
/// wave (meaningful for the two pulse channels), and the pan. Packed
/// layout: channel in bits 0-1, duty cycle in bits 2-3, pan in bits 4-5.
#[derive(Clone, Copy, Debug, PartialEq, Eq, Structural)]
pub struct Flags {
    pub channel: Channel,
    pub duty_cycle: DutyCycle,
    pub pan: Pan,
}

impl Flags {
    /// The packed 32-bit form: channel, duty cycle and pan as three 2-bit
    /// fields from the low bit up.
    pub open spec fn encoding(self) -> u32 {
        self.channel.spec_bits() | (self.duty_cycle.spec_bits() << 2) | (self.pan.spec_bits() << 4)
    }

    pub fn new(channel: Channel, mode: DutyCycle, pan: Pan) -> (r: Flags)
        ensures
            r == (Flags { channel, duty_cycle: mode, pan }),
    {
        Flags { channel, duty_cycle: mode, pan }
    }

    pub fn encode(&self) -> (r: u32)
        ensures
            r == self.encoding(),
    {
        self.channel.bits() | (self.duty_cycle.bits() << 2) | (self.pan.bits() << 4)
    }
}

} // verus!
