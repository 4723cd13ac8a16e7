//! The effects that shape a channel over time: volume envelope, period
//! sweep and length timer. Each runs off its own division of the master
//! clock.

use crate::apu::{MASTER_CLOCK, MAX_PERIOD};
use crate::bitflags::{pow2_8, with_field, BitFlags8};
use std::ops::RangeInclusive;
use vstd::prelude::*;

verus! {

/// Master ticks between two ticks of the envelope, which runs at 64 Hz.
pub const ENVELOPE_CLOCK: u32 = MASTER_CLOCK / 64;

/// Master ticks between two ticks of the sweep, which runs at 128 Hz.
pub const SWEEP_CLOCK: u32 = MASTER_CLOCK / 128;

/// Master ticks between two ticks of the length timer, which runs at 256 Hz.
pub const LENGTH_CLOCK: u32 = MASTER_CLOCK / 256;

#[derive(Clone, Copy, Debug, PartialEq, Eq, Structural)]
pub enum Direction {
    Decrease,
    Increase,
}

/// Determines the volume of a channel.
#[derive(Clone, Copy, Debug, PartialEq, Eq, Structural)]
pub struct Volume {
    /// The volume now, from 0x0 to 0xF. If `pace` is not zero it rises or
    /// falls step by step, else it stays.
    pub volume: u8,
    /// Determines if the volume will increase or decrease gradually.
    pub direction: Direction,
    /// How many ticks of the envelope clock one step of the volume takes.
    /// Zero makes the volume constant.
    pub pace: u8,
    pub clock_ticks: u32,
    pub pace_ticks: u8,
}

impl Volume {
    pub open spec fn wf(self) -> bool {
        &&& self.volume <= 0xF
        &&& self.pace <= 7
        &&& self.clock_ticks < ENVELOPE_CLOCK
        &&& self.pace_ticks <= self.pace
        &&& self.pace > 0 ==> self.pace_ticks < self.pace
    }

    pub open spec fn initial() -> Volume {
        Volume { volume: 7, direction: Direction::Decrease, pace: 0, clock_ticks: 0, pace_ticks: 0 }
    }

    /// The volume one step further in its direction, held at both ends.
    pub open spec fn moved(self) -> u8 {
        if self.direction is Increase && self.volume < 0xF {
            (self.volume + 1) as u8
        } else if self.direction is Decrease && self.volume > 0 {
            (self.volume - 1) as u8
        } else {
            self.volume
        }
    }

    /// The envelope one tick of its clock later.
    pub open spec fn stepped(self) -> Volume {
        if self.pace_ticks + 1 == self.pace {
            Volume { pace_ticks: 0, volume: self.moved(), ..self }
        } else {
            Volume { pace_ticks: (self.pace_ticks + 1) as u8, ..self }
        }
    }

    /// The envelope `steps` ticks of its clock later.
    pub open spec fn stepped_by(self, steps: nat) -> Volume
        decreases steps,
    {
        if steps == 0 {
            self
        } else {
            self.stepped_by((steps - 1) as nat).stepped()
        }
    }

    /// The envelope `ticks` master ticks later.
    pub open spec fn advanced(self, ticks: int) -> Volume {
        if self.pace == 0 {
            self
        } else {
            let total = self.clock_ticks + ticks;
            Volume {
                clock_ticks: (total % (ENVELOPE_CLOCK as int)) as u32,
                ..self.stepped_by((total / (ENVELOPE_CLOCK as int)) as nat)
            }
        }
    }

    /// The register that software reads: volume, direction, pace.
    pub open spec fn register(self) -> int {
        self.volume * 16 + (if self.direction is Increase { 8 } else { 0int }) + self.pace
    }

    /// The envelope that a register value sets up.
    pub open spec fn of_register(self, register: u8) -> Volume {
        Volume {
            volume: register / 16,
            direction: if (register / 8) % 2 == 1 { Direction::Increase } else { Direction::Decrease },
            pace: register % 8,
            pace_ticks: 0,
            ..self
        }
    }

    pub fn new() -> (r: Self)
        ensures
            r == Self::initial(),
            r.wf(),
    {
        Volume { volume: 7, direction: Direction::Decrease, pace: 0, clock_ticks: 0, pace_ticks: 0 }
    }

    /// Advances the envelope by `ticks` master ticks and returns the volume.
    pub fn tick(&mut self, ticks: u32) -> (r: u8)
        requires
            old(self).wf(),
        ensures
            final(self).wf(),
            *final(self) == old(self).advanced(ticks as int),
            r == final(self).volume,
            r <= 0xF,
    {
        if self.pace == 0 {
            return self.volume;
        }
        let total: u64 = self.clock_ticks as u64 + ticks as u64;
        let envelope_ticks: u64 = total / (ENVELOPE_CLOCK as u64);
        let ghost before = *self;
        let mut done: u64 = 0;
        while done < envelope_ticks
            invariant
                done <= envelope_ticks,
                self.wf(),
                self.pace > 0,
                *self == before.stepped_by(done as nat),
            decreases envelope_ticks - done,
        {
            self.pace_ticks = self.pace_ticks + 1;
            if self.pace_ticks == self.pace {
                self.pace_ticks = 0;
                match self.direction {
                    Direction::Increase => if self.volume < 0xF {
                        self.volume = self.volume + 1;
                    },
                    Direction::Decrease => if self.volume > 0 {
                        self.volume = self.volume - 1;
                    },
                }
            }
            done = done + 1;
        }
        self.clock_ticks = (total % (ENVELOPE_CLOCK as u64)) as u32;
        self.volume
    }

    pub fn as_register(&self) -> (r: u8)
        requires
            self.wf(),
        ensures
            r == self.register(),
    {
        let direction: u8 = match self.direction {
            Direction::Increase => 1,
            Direction::Decrease => 0,
        };
        proof {
            lemma_packed(self.volume, direction, self.pace);
        }
        let mut register = BitFlags8(0);
        register.set_range(RangeInclusive::new(4, 7), self.volume);
        register.set_range(RangeInclusive::new(3, 3), direction);
        register.set_range(RangeInclusive::new(0, 2), self.pace);
        register.0
    }

    pub fn set_from_register(&mut self, register: u8)
        requires
            old(self).wf(),
        ensures
            final(self).wf(),
            *final(self) == old(self).of_register(register),
            final(self).register() == register,
    {
        let register = BitFlags8(register);
        self.volume = register.get_range(RangeInclusive::new(4, 7));
        self.direction = if register.get(3) {
            Direction::Increase
        } else {
            Direction::Decrease
        };
        self.pace = register.get_range(RangeInclusive::new(0, 2));
        self.pace_ticks = 0;
    }
}

impl Default for Volume {
    fn default() -> (r: Self)
        ensures
            r == Volume::initial(),
    {
        Volume::new()
    }
}

/// A register put together field by field, as a number.
proof fn lemma_packed(high: u8, middle: u8, low: u8)
    by (bit_vector)
    requires
        high <= 15,
        middle <= 1,
        low <= 7,
    ensures
        with_field(with_field(with_field(0u8, 4, 7, high) as u8, 3, 3, middle) as u8, 0, 2, low)
            == high * 16 + middle * 8 + low,
        high <= 7 ==> with_field(
            with_field(with_field(0u8, 4, 6, high) as u8, 3, 3, middle) as u8,
            0,
            2,
            low,
        ) == high * 16 + middle * 8 + low,
        with_field(0u8, 4, 7, high) < 256,
        with_field(with_field(0u8, 4, 7, high) as u8, 3, 3, middle) < 256,
        high <= 7 ==> with_field(0u8, 4, 6, high) < 256 && with_field(
            with_field(0u8, 4, 6, high) as u8,
            3,
            3,
            middle,
        ) < 256,
{
}

/// Possible outcomes of the sweep effect.
#[derive(Clone, Copy, Debug, PartialEq, Eq, Structural)]
pub enum ChannelSweeped {
    /// A new period is calculated for the channel. This may be identical to
    /// the old period.
    NewPeriod(u16),
    /// The channel must be disabled immediately.
    Disabled,
}

#[derive(Clone, Copy, Debug, PartialEq, Eq, Structural)]
pub struct Sweep {
    /// The magnitude of the change of the period when the sweep takes a
    /// step: the period is shifted right by it. Zero makes the step change
    /// nothing.
    pub step: u8,
    /// Determines if the period will increase or decrease gradually.
    pub direction: Direction,
    /// How many ticks of the sweep clock one step takes. Zero switches the
    /// sweep off.
    pub pace: u8,
    pub clock_ticks: u32,
    pub pace_ticks: u8,
}

impl Sweep {
    pub open spec fn wf(self) -> bool {
        &&& self.step <= 7
        &&& self.pace <= 7
        &&& self.clock_ticks < SWEEP_CLOCK
        &&& self.pace_ticks <= self.pace
        &&& self.pace > 0 ==> self.pace_ticks < self.pace
    }

    pub open spec fn disabled() -> Sweep {
        Sweep { step: 0, direction: Direction::Increase, pace: 0, clock_ticks: 0, pace_ticks: 0 }
    }

    /// The period one step of the sweep away from `period`.
    pub open spec fn shifted(self, period: int) -> int {
        if self.direction is Increase {
            period + period / pow2_8(self.step as int)
        } else {
            period - period / pow2_8(self.step as int)
        }
    }

    /// What one step of the sweep makes of `period`: beyond the largest
    /// period the channel goes off, and so it does if one step more would
    /// go beyond it.
    pub open spec fn next_period(self, period: u16) -> ChannelSweeped {
        let first = self.shifted(period as int);
        if first > MAX_PERIOD || self.shifted(first) > MAX_PERIOD {
            ChannelSweeped::Disabled
        } else {
            ChannelSweeped::NewPeriod(first as u16)
        }
    }

    /// Sweep and channel one tick of the sweep clock later.
    pub open spec fn stepped(self, state: ChannelSweeped) -> (Sweep, ChannelSweeped) {
        match state {
            ChannelSweeped::Disabled => (self, state),
            ChannelSweeped::NewPeriod(period) => if self.pace_ticks + 1 == self.pace {
                (Sweep { pace_ticks: 0, ..self }, self.next_period(period))
            } else {
                (Sweep { pace_ticks: (self.pace_ticks + 1) as u8, ..self }, state)
            },
        }
    }

    /// Sweep and channel `steps` ticks of the sweep clock later.
    pub open spec fn stepped_by(self, state: ChannelSweeped, steps: nat) -> (Sweep, ChannelSweeped)
        decreases steps,
    {
        if steps == 0 {
            (self, state)
        } else {
            let (sweep, state) = self.stepped_by(state, (steps - 1) as nat);
            sweep.stepped(state)
        }
    }

    /// Sweep and channel `ticks` master ticks later.
    pub open spec fn advanced(self, ticks: int, period: u16) -> (Sweep, ChannelSweeped) {
        if self.pace == 0 || self.step == 0 {
            (self, ChannelSweeped::NewPeriod(period))
        } else {
            let total = self.clock_ticks + ticks;
            let (sweep, state) = self.stepped_by(
                ChannelSweeped::NewPeriod(period),
                (total / (SWEEP_CLOCK as int)) as nat,
            );
            (Sweep { clock_ticks: (total % (SWEEP_CLOCK as int)) as u32, ..sweep }, state)
        }
    }

    /// The register that software reads: pace, direction, step.
    pub open spec fn register(self) -> int {
        self.pace * 16 + (if self.direction is Increase { 0 } else { 8int }) + self.step
    }

    pub open spec fn of_register(self, register: u8) -> Sweep {
        Sweep {
            pace: (register / 16) % 8,
            direction: if (register / 8) % 2 == 0 { Direction::Increase } else { Direction::Decrease },
            step: register % 8,
            pace_ticks: 0,
            ..self
        }
    }

    pub fn new_disabled() -> (r: Self)
        ensures
            r == Self::disabled(),
            r.wf(),
    {
        Sweep { step: 0, direction: Direction::Increase, pace: 0, clock_ticks: 0, pace_ticks: 0 }
    }

    /// Computes the new channel period, given the old period and the
    /// internal state of the sweep effect, after `ticks` master ticks.
    pub fn tick(&mut self, ticks: u32, old_period: u16) -> (r: ChannelSweeped)
        requires
            old(self).wf(),
            old_period <= MAX_PERIOD,
        ensures
            final(self).wf(),
            (*final(self), r) == old(self).advanced(ticks as int, old_period),
            r matches ChannelSweeped::NewPeriod(p) ==> p <= MAX_PERIOD,
    {
        let mut result = ChannelSweeped::NewPeriod(old_period);
        if self.pace == 0 || self.step == 0 {
            return result;
        }
        let total: u64 = self.clock_ticks as u64 + ticks as u64;
        let sweep_ticks: u64 = total / (SWEEP_CLOCK as u64);
        let ghost before = *self;
        let mut done: u64 = 0;
        while done < sweep_ticks
            invariant
                done <= sweep_ticks,
                self.wf(),
                self.pace > 0,
                (*self, result) == before.stepped_by(
                    ChannelSweeped::NewPeriod(old_period),
                    done as nat,
                ),
                result matches ChannelSweeped::NewPeriod(p) ==> p <= MAX_PERIOD,
            decreases sweep_ticks - done,
        {
            if let ChannelSweeped::NewPeriod(period) = result {
                self.pace_ticks = self.pace_ticks + 1;
                if self.pace_ticks == self.pace {
                    self.pace_ticks = 0;
                    result = self.compute_new_period(period);
                }
            }
            done = done + 1;
        }
        self.clock_ticks = (total % (SWEEP_CLOCK as u64)) as u32;
        result
    }

    pub fn as_register(&self) -> (r: u8)
        requires
            self.wf(),
        ensures
            r == self.register(),
    {
        let direction: u8 = match self.direction {
            Direction::Increase => 0,
            Direction::Decrease => 1,
        };
        proof {
            lemma_packed(self.pace, direction, self.step);
        }
        let mut register = BitFlags8(0);
        register.set_range(RangeInclusive::new(4, 6), self.pace);
        register.set_range(RangeInclusive::new(3, 3), direction);
        register.set_range(RangeInclusive::new(0, 2), self.step);
        register.0
    }

    pub fn set_from_register(&mut self, register: u8)
        requires
            old(self).wf(),
        ensures
            final(self).wf(),
            *final(self) == old(self).of_register(register),
            final(self).register() == register % 128,
    {
        assert(((register / 16) % 8) * 16 + (if (register / 8) % 2 == 0 { 0u8 } else { 8u8 })
            + register % 8 == register % 128) by (bit_vector);
        let bits = BitFlags8(register);
        self.pace = bits.get_range(RangeInclusive::new(4, 6));
        self.direction = if bits.get(3) {
            Direction::Decrease
        } else {
            Direction::Increase
        };
        self.step = bits.get_range(RangeInclusive::new(0, 2));
        self.pace_ticks = 0;
    }

    fn divisor(&self) -> (r: u16)
        requires
            self.step <= 7,
        ensures
            r == pow2_8(self.step as int),
    {
        match self.step {
            0 => 1,
            1 => 2,
            2 => 4,
            3 => 8,
            4 => 16,
            5 => 32,
            6 => 64,
            _ => 128,
        }
    }

    /// One step of the sweep from `old_period`. The period is computed a
    /// second time from the new one, only to see whether it would go beyond
    /// the largest period.
    pub fn compute_new_period(&self, old_period: u16) -> (r: ChannelSweeped)
        requires
            self.step <= 7,
            old_period <= MAX_PERIOD,
        ensures
            r == self.next_period(old_period),
            r matches ChannelSweeped::NewPeriod(p) ==> p <= MAX_PERIOD,
    {
        let divisor = self.divisor();
        let first: u16 = match self.direction {
            Direction::Decrease => old_period - old_period / divisor,
            Direction::Increase => old_period + old_period / divisor,
        };
        if first > MAX_PERIOD {
            return ChannelSweeped::Disabled;
        }
        let second: u16 = match self.direction {
            Direction::Decrease => first - first / divisor,
            Direction::Increase => first + first / divisor,
        };
        if second > MAX_PERIOD {
            ChannelSweeped::Disabled
        } else {
            ChannelSweeped::NewPeriod(first)
        }
    }
}

impl Default for Sweep {
    fn default() -> (r: Self)
        ensures
            r == Sweep::disabled(),
    {
        Sweep::new_disabled()
    }
}

/// A timer that turns off the channel if enabled.
#[derive(Clone, Copy, Debug)]
pub struct Length<const MAX_TIMER: u16> {
    pub enabled: bool,
    /// Ticks of the length clock that the channel has left.
    pub timer: u16,
    /// What software last wrote to the length register.
    pub initial: u8,
    pub clock_ticks: u32,
}

impl<const MAX_TIMER: u16> Length<MAX_TIMER> {
    pub open spec fn wf(self) -> bool {
        &&& self.timer <= MAX_TIMER
        &&& self.initial <= MAX_TIMER
        &&& self.clock_ticks < LENGTH_CLOCK
    }

    pub open spec fn initial_state() -> Self {
        Length { enabled: false, timer: 0, initial: 0, clock_ticks: 0 }
    }

    /// The timer `ticks` master ticks later.
    pub open spec fn advanced(self, ticks: int) -> Self {
        if !self.enabled {
            self
        } else {
            let total = self.clock_ticks + ticks;
            let steps = total / (LENGTH_CLOCK as int);
            Length {
                timer: if steps >= self.timer { 0 } else { (self.timer - steps) as u16 },
                clock_ticks: (total % (LENGTH_CLOCK as int)) as u32,
                ..self
            }
        }
    }

    /// Whether the timer lets the channel sound on.
    pub open spec fn alive(self) -> bool {
        !self.enabled || self.timer != 0
    }

    /// The timer after a trigger: one that has run out starts again from
    /// what the length register holds.
    pub open spec fn rearmed(self) -> Self {
        if self.timer == 0 {
            Length { timer: (MAX_TIMER - self.initial) as u16, ..self }
        } else {
            self
        }
    }

    pub fn new() -> (r: Self)
        ensures
            r == Self::initial_state(),
            r.wf(),
    {
        Length { enabled: false, timer: 0, initial: 0, clock_ticks: 0 }
    }

    /// Advances the length timer, if enabled. `true` is returned if the
    /// channel is still enabled, `false` otherwise.
    pub fn tick(&mut self, ticks: u32) -> (r: bool)
        requires
            old(self).wf(),
        ensures
            final(self).wf(),
            *final(self) == old(self).advanced(ticks as int),
            r == final(self).alive(),
    {
        if !self.enabled {
            return true;
        }
        let total: u64 = self.clock_ticks as u64 + ticks as u64;
        let length_ticks: u64 = total / (LENGTH_CLOCK as u64);
        if length_ticks >= self.timer as u64 {
            self.timer = 0;
        } else {
            self.timer = self.timer - length_ticks as u16;
        }
        self.clock_ticks = (total % (LENGTH_CLOCK as u64)) as u32;
        self.timer != 0
    }

    pub fn set_timer(&mut self, timer: u8)
        requires
            timer <= MAX_TIMER,
            old(self).wf(),
        ensures
            final(self).wf(),
            *final(self) == (Length { timer: (MAX_TIMER - timer) as u16, initial: timer, ..*old(self) }),
    {
        self.timer = MAX_TIMER - timer as u16;
        self.initial = timer;
    }

    /// Starts a timer that has run out again, as a trigger does.
    pub fn rearm(&mut self)
        requires
            old(self).wf(),
        ensures
            final(self).wf(),
            *final(self) == old(self).rearmed(),
    {
        if self.timer == 0 {
            self.timer = MAX_TIMER - self.initial as u16;
        }
    }
}

} // verus!
