//! A channel that plays noise out of a shift register.

use crate::apu::effect::{Length, Volume};
use crate::apu::TICKS_IN_SAMPLE_RATE;
use crate::apu::square::Controls;
use crate::bitflags::{bit_of, pow2_8, BitFlags8};
use std::ops::RangeInclusive;
use vstd::prelude::*;

verus! {

/// Two to the power `n`, for the shifts the clock of the channel can take.
pub open spec fn pow2_16(n: int) -> int {
    if n < 8 {
        pow2_8(n)
    } else {
        256 * pow2_8(n - 8)
    }
}

/// The shift register one step later: the two low bits decide the bit that
/// comes in at the top, which is set when they are equal; in short mode
/// that bit is put at the top of the low seven bits as well.
pub open spec fn lfsr_next(lfsr: u16, short_mode: bool) -> int {
    let incoming: int = if lfsr % 2 == (lfsr / 2) % 2 { 1 } else { 0 };
    let shifted = (lfsr as int / 2) % 0x4000;
    let long = shifted + incoming * 0x4000;
    if short_mode {
        long - ((long / 64) % 2) * 64 + incoming * 64
    } else {
        long
    }
}

/// The shift register `steps` steps later.
pub open spec fn lfsr_after(lfsr: u16, short_mode: bool, steps: nat) -> u16
    decreases steps,
{
    if steps == 0 {
        lfsr
    } else {
        lfsr_next(lfsr_after(lfsr, short_mode, (steps - 1) as nat), short_mode) as u16
    }
}

#[derive(Clone, Copy, Debug)]
pub struct NoiseChannel {
    pub clock_shift: u8,
    /// Whether the shift register works on 7 bits instead of its 15.
    pub short_mode: bool,
    pub clock_divider: u8,
    pub volume: Volume,
    pub length: Length<64>,
    /// The linear-feedback shift register that the noise comes from.
    pub lfsr: u16,
    /// Master ticks since the last step of the shift register.
    pub ticks: u32,
    pub enabled: bool,
}

impl NoiseChannel {
    pub open spec fn wf(self) -> bool {
        &&& self.clock_shift <= 15
        &&& self.clock_divider <= 7
        &&& self.volume.wf()
        &&& self.length.wf()
        &&& self.lfsr < 0x8000
        &&& self.ticks <= 0x40_0000
    }

    pub open spec fn initial() -> Self {
        NoiseChannel {
            clock_shift: 0,
            short_mode: false,
            clock_divider: 0,
            volume: Volume::initial(),
            length: Length::<64>::initial_state(),
            lfsr: 0,
            ticks: 0,
            enabled: false,
        }
    }

    /// Master ticks between two steps of the shift register. It steps
    /// 262144 / (divider * 2^shift) times a second, a divider of zero
    /// counting as a half.
    pub open spec fn step_ticks(self) -> int {
        if self.clock_divider == 0 {
            8 * pow2_16(self.clock_shift as int)
        } else {
            16 * self.clock_divider * pow2_16(self.clock_shift as int)
        }
    }

    /// How many times a second the shift register steps, rounded down.
    pub open spec fn frequency_spec(self) -> int {
        0x40_0000int / self.step_ticks()
    }

    pub open spec fn output(self) -> u8 {
        if self.lfsr % 2 == 1 {
            self.volume.volume
        } else {
            0
        }
    }

    /// The channel one sample later, and what it puts out then.
    pub open spec fn sampled(self) -> (Self, u8) {
        if !self.enabled {
            (self, 0)
        } else {
            let length = self.length.advanced(TICKS_IN_SAMPLE_RATE as int);
            if !length.alive() {
                (NoiseChannel { length, enabled: false, ..self }, 0)
            } else {
                let total = self.ticks + TICKS_IN_SAMPLE_RATE;
                let next = NoiseChannel {
                    length,
                    volume: self.volume.advanced(TICKS_IN_SAMPLE_RATE as int),
                    lfsr: lfsr_after(self.lfsr, self.short_mode, (total / self.step_ticks()) as nat),
                    ticks: (total % self.step_ticks()) as u32,
                    ..self
                };
                (next, next.output())
            }
        }
    }

    /// The channel after a trigger: it is on, its shift register is empty,
    /// and a length timer that had run out starts again.
    pub open spec fn triggered(self) -> Self {
        NoiseChannel { enabled: true, lfsr: 0, length: self.length.rearmed(), ..self }
    }

    pub open spec fn with_length(self, val: u8) -> Self {
        NoiseChannel {
            length: Length { timer: (64 - val % 64) as u16, initial: val % 64, ..self.length },
            ..self
        }
    }

    /// The channel after software wrote the clock of the shift register:
    /// shift, width, divider.
    pub open spec fn with_clock(self, val: u8) -> Self {
        NoiseChannel {
            clock_shift: val / 16,
            short_mode: bit_of(val, 3),
            clock_divider: val % 8,
            ..self
        }
    }

    /// What software reads of the clock of the shift register.
    pub open spec fn clock(self) -> int {
        self.clock_shift * 16 + (if self.short_mode { 8 } else { 0int }) + self.clock_divider
    }

    /// The channel after software wrote the control byte: whether the
    /// length timer runs, and the trigger.
    pub open spec fn with_control(self, val: u8) -> Self {
        let set = NoiseChannel { length: Length { enabled: bit_of(val, 6), ..self.length }, ..self };
        if bit_of(val, 7) {
            set.triggered()
        } else {
            set
        }
    }

    pub fn new() -> (r: Self)
        ensures
            r == Self::initial(),
            r.wf(),
    {
        NoiseChannel {
            clock_shift: 0,
            short_mode: false,
            clock_divider: 0,
            volume: Volume::new(),
            length: Length::new(),
            lfsr: 0,
            ticks: 0,
            enabled: false,
        }
    }

    fn ticks_to_activate(&self) -> (r: u32)
        requires
            self.clock_shift <= 15,
            self.clock_divider <= 7,
        ensures
            r == self.step_ticks(),
            8 <= r <= 0x40_0000,
    {
        let low: u32 = match self.clock_shift % 8 {
            0 => 1,
            1 => 2,
            2 => 4,
            3 => 8,
            4 => 16,
            5 => 32,
            6 => 64,
            _ => 128,
        };
        let power: u32 = if self.clock_shift < 8 { low } else { 256 * low };
        let base: u32 = if self.clock_divider == 0 { 8 } else { 16 * self.clock_divider as u32 };
        assert(8 <= base * power <= 112 * 32768) by (nonlinear_arith)
            requires
                8 <= base <= 112,
                1 <= power <= 32768,
        ;
        base * power
    }

    #[verifier::rlimit(30)]
    pub fn sample(&mut self) -> (r: (u8, u8))
        requires
            old(self).wf(),
        ensures
            final(self).wf(),
            (*final(self), r.0) == old(self).sampled(),
            r.1 == r.0,
            r.0 <= 0xF,
    {
        if !self.enabled {
            return (0, 0);
        }
        if !self.length.tick(TICKS_IN_SAMPLE_RATE) {
            self.enabled = false;
            return (0, 0);
        }
        let volume = self.volume.tick(TICKS_IN_SAMPLE_RATE);
        let ticks_to_activate = self.ticks_to_activate();
        let total: u32 = self.ticks + TICKS_IN_SAMPLE_RATE;
        let activations: u32 = total / ticks_to_activate;
        let ghost start = self.lfsr;
        let mut done: u32 = 0;
        while done < activations
            invariant
                done <= activations,
                self.lfsr < 0x8000,
                self.lfsr == lfsr_after(start, self.short_mode, done as nat),
                self.short_mode == old(self).short_mode,
                self.clock_shift == old(self).clock_shift,
                self.clock_divider == old(self).clock_divider,
                self.ticks == old(self).ticks,
                self.volume == old(self).volume.advanced(TICKS_IN_SAMPLE_RATE as int),
                self.length == old(self).length.advanced(TICKS_IN_SAMPLE_RATE as int),
                self.enabled,
            decreases activations - done,
        {
            self.move_lfsr();
            done = done + 1;
        }
        self.ticks = total % ticks_to_activate;
        let out: u8 = if self.lfsr % 2 == 1 { volume } else { 0 };
        (out, out)
    }

    pub fn write_clock(&mut self, val: u8)
        requires
            old(self).wf(),
        ensures
            final(self).wf(),
            *final(self) == old(self).with_clock(val),
            final(self).clock() == val,
    {
        let clock = BitFlags8(val);
        self.clock_shift = clock.get_range(RangeInclusive::new(4, 7));
        self.short_mode = clock.get(3);
        self.clock_divider = clock.get_range(RangeInclusive::new(0, 2));
    }

    pub fn read_clock(&self) -> (r: u8)
        requires
            self.wf(),
        ensures
            r == self.clock(),
    {
        let short: u8 = if self.short_mode { 8 } else { 0 };
        self.clock_shift * 16 + short + self.clock_divider
    }

    pub fn write_control(&mut self, val: u8)
        requires
            old(self).wf(),
        ensures
            final(self).wf(),
            *final(self) == old(self).with_control(val),
    {
        let controls = Controls(BitFlags8(val));
        self.length.enabled = controls.is_length_timer_enabled();
        if controls.is_triggered() {
            self.trigger();
        }
    }

    pub fn trigger(&mut self)
        requires
            old(self).wf(),
        ensures
            final(self).wf(),
            *final(self) == old(self).triggered(),
            final(self).enabled,
            final(self).length == old(self).length.rearmed(),
    {
        self.enabled = true;
        self.lfsr = 0;
        self.length.rearm();
    }

    /// How many times a second the shift register steps.
    pub fn frequency(&self) -> (r: u32)
        requires
            self.clock_shift <= 15,
            self.clock_divider <= 7,
        ensures
            r == self.frequency_spec(),
    {
        0x40_0000 / self.ticks_to_activate()
    }

    /// Computes the next shift of the linear-feedback shift register.
    pub fn move_lfsr(&mut self)
        requires
            old(self).lfsr < 0x8000,
        ensures
            *final(self) == (NoiseChannel {
                lfsr: lfsr_next(old(self).lfsr, old(self).short_mode) as u16,
                ..*old(self)
            }),
            final(self).lfsr < 0x8000,
    {
        let lfsr = self.lfsr;
        // The two least significant bits are the taps.
        let tap1: u16 = (lfsr >> 1) & 1;
        let tap0: u16 = lfsr & 1;
        let xnor: u16 = (!(tap1 ^ tap0)) & 1;
        // The tap output goes to bit 15, and to bit 7 as well in short mode,
        // and the shift brings it to bit 14 and bit 6.
        let mut next: u16 = (lfsr & 0x7FFF) | (xnor << 15);
        if self.short_mode {
            next = (next & 0xFF7F) | (xnor << 7);
        }
        next = next >> 1;
        proof {
            lemma_lfsr_step(lfsr);
        }
        self.lfsr = next;
    }
}

/// One step of the shift register, in terms of numbers.
proof fn lemma_lfsr_step(lfsr: u16)
    by (bit_vector)
    requires
        lfsr < 0x8000,
    ensures
        ({
            let xnor = (!(((lfsr >> 1) & 1) ^ (lfsr & 1))) & 1;
            let long = ((lfsr & 0x7FFF) | (xnor << 15)) >> 1;
            let short = ((((lfsr & 0x7FFF) | (xnor << 15)) & 0xFF7F) | (xnor << 7)) >> 1;
            &&& long == lfsr_next(lfsr, false)
            &&& short == lfsr_next(lfsr, true)
            &&& long < 0x8000
            &&& short < 0x8000
        }),
{
}

} // verus!
