//! A channel that plays the samples held in wave RAM.

use crate::apu::effect::Length;
use crate::apu::{MAX_PERIOD, TICKS_IN_SAMPLE_RATE};
use crate::apu::square::Controls;
use crate::bitflags::{bit_of, pow2_8, BitFlags8};
use std::ops::RangeInclusive;
use vstd::prelude::*;
use vstd::std_specs::convert::FromSpecImpl;

verus! {

/// Samples that wave RAM holds, of four bits each.
pub const WAVE_SAMPLES: u8 = 32;

/// How loud the samples are played.
#[derive(Clone, Copy, Debug, PartialEq, Eq, Structural)]
pub enum Volume {
    /// Muted.
    Pattern0,
    /// As they are.
    Pattern1,
    /// At half their value.
    Pattern2,
    /// At a quarter of their value.
    Pattern3,
}

impl Volume {
    pub open spec fn shift(self) -> int {
        match self {
            Volume::Pattern0 => 4,
            Volume::Pattern1 => 0,
            Volume::Pattern2 => 1,
            Volume::Pattern3 => 2,
        }
    }

    pub open spec fn code_spec(self) -> u8 {
        match self {
            Volume::Pattern0 => 0,
            Volume::Pattern1 => 1,
            Volume::Pattern2 => 2,
            Volume::Pattern3 => 3,
        }
    }

    pub open spec fn of_code(value: int) -> Volume {
        if value % 4 == 0 {
            Volume::Pattern0
        } else if value % 4 == 1 {
            Volume::Pattern1
        } else if value % 4 == 2 {
            Volume::Pattern2
        } else {
            Volume::Pattern3
        }
    }

    /// Determines the amount of bits the samples are shifted.
    pub fn shift_amount(&self) -> (r: u8)
        ensures
            r == self.shift(),
    {
        match self {
            Volume::Pattern0 => 4,
            Volume::Pattern1 => 0,
            Volume::Pattern2 => 1,
            Volume::Pattern3 => 2,
        }
    }

    pub fn from_code(value: u8) -> (r: Self)
        ensures
            r == Self::of_code(value as int),
            value < 4 ==> r.code_spec() == value,
    {
        match value % 4 {
            0 => Volume::Pattern0,
            1 => Volume::Pattern1,
            2 => Volume::Pattern2,
            _ => Volume::Pattern3,
        }
    }

    pub fn code(self) -> (r: u8)
        ensures
            r == self.code_spec(),
            r < 4,
    {
        match self {
            Volume::Pattern0 => 0,
            Volume::Pattern1 => 1,
            Volume::Pattern2 => 2,
            Volume::Pattern3 => 3,
        }
    }
}

/// Plays audio samples stored in memory.
pub struct WaveChannel {
    pub enabled: bool,
    /// The raw period of the sound wave, of eleven bits.
    pub raw_period: u16,
    pub volume: Volume,
    pub length: Length<256>,
    /// Memory area containing 32 samples of 4 bits each.
    pub wave_ram: [u8; 16],
    /// The sample that is being played.
    pub position: u8,
    /// Master ticks spent on the current sample.
    pub subtick: u32,
}

impl WaveChannel {
    pub open spec fn wf(self) -> bool {
        &&& self.raw_period <= MAX_PERIOD
        &&& self.length.wf()
        &&& self.position < WAVE_SAMPLES
        &&& self.subtick <= 4096
    }

    /// The frequency of the wave, in Hz, rounded down.
    pub open spec fn frequency_spec(self) -> int {
        65536int / (2048 - self.raw_period)
    }

    /// Master ticks that one sample takes: a thirty-second of those of one
    /// wave, which are 64 * (2048 - period).
    pub open spec fn step_ticks(self) -> int {
        2 * (2048 - self.raw_period)
    }

    /// The sample at `position`: the high half of its byte comes first.
    pub open spec fn sample_at(self, position: int) -> int {
        let byte = self.wave_ram[position / 2];
        if position % 2 == 0 {
            byte as int / 16
        } else {
            byte as int % 16
        }
    }

    pub open spec fn output(self) -> int {
        self.sample_at(self.position as int) / pow2_8(self.volume.shift())
    }

    /// The channel one sample later, and what it puts out then.
    pub open spec fn sampled(self) -> (Self, u8) {
        if !self.enabled {
            (self, 0)
        } else {
            let length = self.length.advanced(TICKS_IN_SAMPLE_RATE as int);
            if !length.alive() {
                (WaveChannel { length, enabled: false, ..self }, 0)
            } else {
                let total = self.subtick + TICKS_IN_SAMPLE_RATE;
                let next = WaveChannel {
                    length,
                    subtick: (total % self.step_ticks()) as u32,
                    position: ((self.position + total / self.step_ticks()) % 32) as u8,
                    ..self
                };
                (next, next.output() as u8)
            }
        }
    }

    /// The channel after a trigger: it is on and plays from the first
    /// sample, and a length timer that had run out starts again.
    pub open spec fn triggered(self) -> Self {
        WaveChannel { enabled: true, position: 0, subtick: 0, length: self.length.rearmed(), ..self }
    }

    pub open spec fn with_length(self, val: u8) -> Self {
        WaveChannel {
            length: Length { timer: (256 - val) as u16, initial: val, ..self.length },
            ..self
        }
    }

    pub open spec fn with_period_low(self, val: u8) -> Self {
        WaveChannel { raw_period: ((self.raw_period / 256) * 256 + val) as u16, ..self }
    }

    /// The channel after software wrote the control byte: the three high
    /// bits of the period, whether the length timer runs, and the trigger.
    pub open spec fn with_control(self, val: u8) -> Self {
        let set = WaveChannel {
            raw_period: (self.raw_period % 256 + (val % 8) * 256) as u16,
            length: Length { enabled: bit_of(val, 6), ..self.length },
            ..self
        };
        if bit_of(val, 7) {
            set.triggered()
        } else {
            set
        }
    }

    /// What software reads of the control byte.
    pub open spec fn control(self) -> int {
        (if self.length.enabled { 64 } else { 0int }) + self.raw_period / 256
    }

    /// Whether the channel is as it is at power-on: off, muted, wave RAM
    /// all zero.
    pub open spec fn is_initial(self) -> bool {
        &&& !self.enabled
        &&& self.raw_period == 0
        &&& self.volume == Volume::Pattern0
        &&& self.length == Length::<256>::initial_state()
        &&& forall|i: int| 0 <= i < 16 ==> self.wave_ram[i] == 0
        &&& self.position == 0
        &&& self.subtick == 0
    }

    pub fn new() -> (r: Self)
        ensures
            r.wf(),
            r.is_initial(),
    {
        WaveChannel {
            enabled: false,
            raw_period: 0,
            volume: Volume::Pattern0,
            length: Length::new(),
            wave_ram: [0u8; 16],
            position: 0,
            subtick: 0,
        }
    }

    pub fn sample(&mut self) -> (r: (u8, u8))
        requires
            old(self).wf(),
        ensures
            final(self).wf(),
            (*final(self), r.0) == old(self).sampled(),
            r.1 == r.0,
            r.0 <= 0xF,
    {
        if !self.enabled {
            return (0, 0);
        }
        if !self.length.tick(TICKS_IN_SAMPLE_RATE) {
            self.enabled = false;
            return (0, 0);
        }
        let step: u64 = 2 * (2048 - self.raw_period as u64);
        let total: u64 = self.subtick as u64 + TICKS_IN_SAMPLE_RATE as u64;
        self.subtick = (total % step) as u32;
        self.position = ((self.position as u64 + total / step) % 32) as u8;
        let byte = self.wave_ram[(self.position / 2) as usize];
        let sample: u8 = if self.position % 2 == 0 { byte / 16 } else { byte % 16 };
        let out: u8 = match self.volume.shift_amount() {
            0 => sample,
            1 => sample / 2,
            2 => sample / 4,
            _ => sample / 16,
        };
        (out, out)
    }

    /// Returns the frequency, in Hz, computed from the raw period.
    pub fn frequency(&self) -> (r: u32)
        requires
            self.raw_period <= MAX_PERIOD,
        ensures
            r == self.frequency_spec(),
    {
        65536 / (2048 - self.raw_period as u32)
    }

    pub fn write_period_low(&mut self, val: u8)
        requires
            old(self).wf(),
        ensures
            final(self).wf(),
            *final(self) == old(self).with_period_low(val),
    {
        self.raw_period = (self.raw_period / 256) * 256 + val as u16;
    }

    pub fn write_control(&mut self, val: u8)
        requires
            old(self).wf(),
        ensures
            final(self).wf(),
            *final(self) == old(self).with_control(val),
    {
        let controls = Controls(BitFlags8(val));
        self.length.enabled = controls.is_length_timer_enabled();
        let high: u8 = controls.0.get_range(RangeInclusive::new(0, 2));
        self.raw_period = self.raw_period % 256 + (high as u16) * 256;
        if controls.is_triggered() {
            self.trigger();
        }
    }

    pub fn read_control(&self) -> (r: u8)
        requires
            self.wf(),
        ensures
            r == self.control(),
    {
        let enabled: u8 = if self.length.enabled { 64 } else { 0 };
        enabled + (self.raw_period / 256) as u8
    }

    pub fn trigger(&mut self)
        requires
            old(self).wf(),
        ensures
            final(self).wf(),
            *final(self) == old(self).triggered(),
            final(self).enabled,
            final(self).length == old(self).length.rearmed(),
    {
        self.enabled = true;
        self.position = 0;
        self.subtick = 0;
        self.length.rearm();
    }
}

impl From<u8> for Volume {
    fn from(value: u8) -> (r: Self) {
        Volume::from_code(value)
    }
}

impl FromSpecImpl<u8> for Volume {
    open spec fn obeys_from_spec() -> bool {
        true
    }

    open spec fn from_spec(v: u8) -> Self {
        Volume::of_code(v as int)
    }
}

impl From<Volume> for u8 {
    fn from(value: Volume) -> (r: Self) {
        value.code()
    }
}

impl FromSpecImpl<Volume> for u8 {
    open spec fn obeys_from_spec() -> bool {
        true
    }

    open spec fn from_spec(v: Volume) -> Self {
        v.code_spec()
    }
}


} // verus!
