//! A channel that plays a square wave.

use crate::apu::effect::{ChannelSweeped, Length, Sweep, Volume};
use crate::apu::{MAX_PERIOD, TICKS_IN_SAMPLE_RATE};
use crate::bitflags::{bit_of, BitFlags8};
use std::ops::RangeInclusive;
use vstd::prelude::*;

verus! {

/// Steps that a duty cycle pattern has.
pub const DUTY_CYCLE_RESOLUTION: u8 = 8;

/// Whether the wave of duty cycle `pattern` is high at `position`. The four
/// patterns are high for one, two, four and six of their eight steps.
pub open spec fn duty_high(pattern: u8, position: u8) -> bool {
    if pattern == 0 {
        position == 7
    } else if pattern == 1 {
        position >= 6
    } else if pattern == 2 {
        position >= 4
    } else {
        position < 6
    }
}

/// The control bits that the last register of a channel carries.
#[derive(Clone, Copy, Debug, PartialEq, Eq, Structural)]
pub struct Controls(pub BitFlags8);

impl Controls {
    pub fn is_triggered(&self) -> (r: bool)
        ensures
            r == bit_of(self.0.0, 7),
    {
        self.0.get(7)
    }

    pub fn is_length_timer_enabled(&self) -> (r: bool)
        ensures
            r == bit_of(self.0.0, 6),
    {
        self.0.get(6)
    }
}

#[derive(Clone, Copy, Debug)]
pub struct SquareChannel {
    /// The raw period of the sound wave, of eleven bits. The channel works
    /// with periods, not with frequencies.
    pub raw_period: u16,
    /// Sets the duty cycle pattern.
    pub duty_cycle_pattern: u8,
    /// The step of the pattern that the wave is at.
    pub duty_cycle_position: u8,
    pub volume: Volume,
    pub sweep: Sweep,
    /// A timer that, when it runs out, turns the channel off.
    pub length: Length<64>,
    /// Master ticks spent in the current step of the pattern.
    pub subtick: u32,
    pub enabled: bool,
}

impl SquareChannel {
    pub open spec fn wf(self) -> bool {
        &&& self.raw_period <= MAX_PERIOD
        &&& self.duty_cycle_pattern < 4
        &&& self.duty_cycle_position < DUTY_CYCLE_RESOLUTION
        &&& self.volume.wf()
        &&& self.sweep.wf()
        &&& self.length.wf()
        &&& self.subtick <= 8192
    }

    pub open spec fn initial() -> Self {
        SquareChannel {
            raw_period: 0,
            duty_cycle_pattern: 0,
            duty_cycle_position: 0,
            volume: Volume::initial(),
            sweep: Sweep::disabled(),
            length: Length::<64>::initial_state(),
            subtick: 0,
            enabled: false,
        }
    }

    /// The frequency of the wave, in Hz, rounded down.
    pub open spec fn frequency_spec(self) -> int {
        131072int / (2048 - self.raw_period)
    }

    /// Master ticks that one step of the pattern takes at period `period`:
    /// an eighth of the master ticks of one wave, which are
    /// 32 * (2048 - period).
    pub open spec fn step_ticks(period: int) -> int {
        4 * (2048 - period)
    }

    /// The channel with the wave `ticks` master ticks further.
    pub open spec fn wave_followed(self, ticks: int) -> Self {
        let total = self.subtick + ticks;
        let step = Self::step_ticks(self.raw_period as int);
        SquareChannel {
            subtick: (total % step) as u32,
            duty_cycle_position: ((self.duty_cycle_position + total / step) % 8) as u8,
            ..self
        }
    }

    /// What the channel puts out now: the volume while the wave is high.
    pub open spec fn output(self) -> u8 {
        if duty_high(self.duty_cycle_pattern, self.duty_cycle_position) {
            self.volume.volume
        } else {
            0
        }
    }

    /// The channel one sample later, and what it puts out then. A channel
    /// that is off stays as it is and is silent.
    pub open spec fn sampled(self) -> (Self, u8) {
        if !self.enabled {
            (self, 0)
        } else {
            let length = self.length.advanced(TICKS_IN_SAMPLE_RATE as int);
            if !length.alive() {
                (SquareChannel { length, enabled: false, ..self }, 0)
            } else {
                let (sweep, swept) = self.sweep.advanced(
                    TICKS_IN_SAMPLE_RATE as int,
                    self.raw_period,
                );
                match swept {
                    ChannelSweeped::Disabled => (
                        SquareChannel { length, sweep, enabled: false, ..self },
                        0,
                    ),
                    ChannelSweeped::NewPeriod(period) => {
                        let next = (SquareChannel {
                            length,
                            sweep,
                            raw_period: period,
                            volume: self.volume.advanced(TICKS_IN_SAMPLE_RATE as int),
                            ..self
                        }).wave_followed(TICKS_IN_SAMPLE_RATE as int);
                        (next, next.output())
                    },
                }
            }
        }
    }

    /// The channel after a trigger: it is on, its wave starts a step anew,
    /// and a length timer that had run out starts again.
    pub open spec fn triggered(self) -> Self {
        SquareChannel { enabled: true, subtick: 0, length: self.length.rearmed(), ..self }
    }

    /// The channel after software wrote the duty cycle and the length.
    pub open spec fn with_duty_length(self, val: u8) -> Self {
        SquareChannel {
            duty_cycle_pattern: val / 64,
            length: Length { timer: (64 - val % 64) as u16, initial: val % 64, ..self.length },
            ..self
        }
    }

    /// The channel after software wrote the low byte of the period.
    pub open spec fn with_period_low(self, val: u8) -> Self {
        SquareChannel { raw_period: ((self.raw_period / 256) * 256 + val) as u16, ..self }
    }

    /// The channel after software wrote the control byte: the three high
    /// bits of the period, whether the length timer runs, and the trigger.
    pub open spec fn with_control(self, val: u8) -> Self {
        let set = SquareChannel {
            raw_period: (self.raw_period % 256 + (val % 8) * 256) as u16,
            length: Length { enabled: bit_of(val, 6), ..self.length },
            ..self
        };
        if bit_of(val, 7) {
            set.triggered()
        } else {
            set
        }
    }

    /// What software reads of the control byte.
    pub open spec fn control(self) -> int {
        (if self.length.enabled { 64 } else { 0int }) + self.raw_period / 256
    }

    pub fn new() -> (r: Self)
        ensures
            r == Self::initial(),
            r.wf(),
    {
        SquareChannel {
            raw_period: 0,
            duty_cycle_pattern: 0,
            duty_cycle_position: 0,
            volume: Volume::new(),
            sweep: Sweep::new_disabled(),
            length: Length::new(),
            subtick: 0,
            enabled: false,
        }
    }

    #[verifier::rlimit(30)]
    pub fn sample(&mut self) -> (r: (u8, u8))
        requires
            old(self).wf(),
        ensures
            final(self).wf(),
            (*final(self), r.0) == old(self).sampled(),
            r.1 == r.0,
            r.0 <= 0xF,
    {
        if !self.enabled {
            return (0, 0);
        }
        if !self.length.tick(TICKS_IN_SAMPLE_RATE) {
            self.enabled = false;
            return (0, 0);
        }
        match self.sweep.tick(TICKS_IN_SAMPLE_RATE, self.raw_period) {
            ChannelSweeped::Disabled => {
                self.enabled = false;
                return (0, 0);
            },
            ChannelSweeped::NewPeriod(period) => {
                self.raw_period = period;
            },
        }
        self.volume.tick(TICKS_IN_SAMPLE_RATE);
        self.follow_wave();
        let out: u8 = if self.wave_amplitude() == 1 { self.volume.volume } else { 0 };
        (out, out)
    }

    /// Returns the frequency, in Hz, computed from the raw period.
    pub fn frequency(&self) -> (r: u32)
        requires
            self.raw_period <= MAX_PERIOD,
        ensures
            r == self.frequency_spec(),
    {
        131072 / (2048 - self.raw_period as u32)
    }

    /// Whether the square wave, at this instant, is high (returns 1) or low
    /// (returns 0).
    pub fn wave_amplitude(&self) -> (r: u8)
        ensures
            r == if duty_high(self.duty_cycle_pattern, self.duty_cycle_position) { 1u8 } else { 0u8 },
    {
        let position = self.duty_cycle_position;
        let high = match self.duty_cycle_pattern {
            0 => position == 7,
            1 => position >= 6,
            2 => position >= 4,
            _ => position < 6,
        };
        if high {
            1
        } else {
            0
        }
    }

    /// Moves the wave on by the ticks of one sample.
    pub fn follow_wave(&mut self)
        requires
            old(self).raw_period <= MAX_PERIOD,
            old(self).duty_cycle_position < DUTY_CYCLE_RESOLUTION,
        ensures
            *final(self) == old(self).wave_followed(TICKS_IN_SAMPLE_RATE as int),
            final(self).subtick < 8192,
            final(self).duty_cycle_position < DUTY_CYCLE_RESOLUTION,
    {
        let step: u64 = 4 * (2048 - self.raw_period as u64);
        let total: u64 = self.subtick as u64 + TICKS_IN_SAMPLE_RATE as u64;
        self.subtick = (total % step) as u32;
        self.duty_cycle_position = ((self.duty_cycle_position as u64 + total / step) % 8) as u8;
    }

    pub fn write_duty_length(&mut self, val: u8)
        requires
            old(self).wf(),
        ensures
            final(self).wf(),
            *final(self) == old(self).with_duty_length(val),
    {
        let register = BitFlags8(val);
        self.duty_cycle_pattern = register.get_range(RangeInclusive::new(6, 7));
        self.length.set_timer(register.get_range(RangeInclusive::new(0, 5)));
    }

    pub fn write_period_low(&mut self, val: u8)
        requires
            old(self).wf(),
        ensures
            final(self).wf(),
            *final(self) == old(self).with_period_low(val),
    {
        self.raw_period = (self.raw_period / 256) * 256 + val as u16;
    }

    pub fn write_control(&mut self, val: u8)
        requires
            old(self).wf(),
        ensures
            final(self).wf(),
            *final(self) == old(self).with_control(val),
    {
        let controls = Controls(BitFlags8(val));
        self.length.enabled = controls.is_length_timer_enabled();
        let high: u8 = controls.0.get_range(RangeInclusive::new(0, 2));
        self.raw_period = self.raw_period % 256 + (high as u16) * 256;
        if controls.is_triggered() {
            self.trigger();
        }
    }

    pub fn read_control(&self) -> (r: u8)
        requires
            self.wf(),
        ensures
            r == self.control(),
    {
        let enabled: u8 = if self.length.enabled { 64 } else { 0 };
        enabled + (self.raw_period / 256) as u8
    }

    pub fn trigger(&mut self)
        requires
            old(self).wf(),
        ensures
            final(self).wf(),
            *final(self) == old(self).triggered(),
            final(self).enabled,
            final(self).length == old(self).length.rearmed(),
    {
        self.enabled = true;
        self.subtick = 0;
        self.length.rearm();
    }
}

} // verus!
