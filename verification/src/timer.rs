//! The divider and the programmable counter.

use crate::bitflags::BitFlags8;
use crate::interrupt::Interruptible;
use std::ops::RangeInclusive;
use vstd::prelude::*;

verus! {

/// How many master ticks pass between two increments of the counter, for each
/// value of the control byte's low two bits.
pub open spec fn rate_of(clock_select: u8) -> int {
    if clock_select == 1 {
        16
    } else if clock_select == 2 {
        64
    } else if clock_select == 3 {
        256
    } else {
        1024
    }
}

/// The counter after `steps` increments, each overflow reloading it from
/// `modulo`.
pub open spec fn counter_after(counter: u8, modulo: u8, steps: nat) -> u8
    decreases steps,
{
    if steps == 0 {
        counter
    } else if counter == 255 {
        counter_after(modulo, modulo, (steps - 1) as nat)
    } else {
        counter_after((counter + 1) as u8, modulo, (steps - 1) as nat)
    }
}

/// Whether the counter overflows within `steps` increments.
pub open spec fn overflows_within(counter: u8, modulo: u8, steps: nat) -> bool
    decreases steps,
{
    if steps == 0 {
        false
    } else if counter == 255 {
        true
    } else {
        overflows_within((counter + 1) as u8, modulo, (steps - 1) as nat)
    }
}

#[derive(Clone, Copy, Debug, PartialEq, Eq, Structural)]
pub struct Timer {
    /// The master counter. Its high byte is what software reads.
    pub divider: u16,
    /// The programmable counter.
    pub counter: u8,
    /// Master ticks counted towards the next increment of `counter`.
    pub counter_ticks: u16,
    /// The value `counter` restarts from when it overflows.
    pub modulo: u8,
    /// The low two bits of the control byte.
    pub clock_select: u8,
    pub enabled: bool,
    pub interrupt: bool,
}

impl Timer {
    pub open spec fn wf(self) -> bool {
        &&& self.clock_select < 4
        &&& self.counter_ticks < rate_of(self.clock_select)
    }

    pub open spec fn initial() -> Timer {
        Timer {
            divider: 0,
            counter: 0,
            counter_ticks: 0,
            modulo: 0,
            clock_select: 0,
            enabled: false,
            interrupt: false,
        }
    }

    /// The timer after `ticks` master ticks.
    pub open spec fn advanced(self, ticks: int) -> Timer {
        let divider = ((self.divider + ticks) % 0x1_0000) as u16;
        if !self.enabled {
            Timer { divider, ..self }
        } else {
            let total = self.counter_ticks + ticks;
            let steps = (total / rate_of(self.clock_select)) as nat;
            Timer {
                divider,
                counter: counter_after(self.counter, self.modulo, steps),
                counter_ticks: (total % rate_of(self.clock_select)) as u16,
                interrupt: self.interrupt || overflows_within(self.counter, self.modulo, steps),
                ..self
            }
        }
    }

    /// What software reads at register `idx`.
    pub open spec fn register(self, idx: int) -> int {
        if idx == 0 {
            self.divider as int / 256
        } else if idx == 1 {
            self.counter as int
        } else if idx == 2 {
            self.modulo as int
        } else {
            (if self.enabled { 4 } else { 0int }) + self.clock_select
        }
    }

    /// The timer after software wrote `val` to register `idx`. A write to
    /// the divider clears it whatever is written, and with it the ticks
    /// counted towards the next increment of the counter; so does a change
    /// of the rate of the counter.
    pub open spec fn written(self, idx: int, val: u8) -> Timer {
        if idx == 0 {
            Timer { divider: 0, counter_ticks: 0, ..self }
        } else if idx == 1 {
            Timer { counter: val, ..self }
        } else if idx == 2 {
            Timer { modulo: val, ..self }
        } else {
            let clock_select = val % 4;
            Timer {
                enabled: (val / 4) % 2 == 1,
                clock_select,
                counter_ticks: if clock_select == self.clock_select {
                    self.counter_ticks
                } else {
                    0
                },
                ..self
            }
        }
    }

    pub fn new() -> (r: Self)
        ensures
            r == Self::initial(),
            r.wf(),
    {
        Timer {
            divider: 0,
            counter: 0,
            counter_ticks: 0,
            modulo: 0,
            clock_select: 0,
            enabled: false,
            interrupt: false,
        }
    }

    fn rate(&self) -> (r: u16)
        requires
            self.wf(),
        ensures
            r == rate_of(self.clock_select),
    {
        match self.clock_select {
            1 => 16,
            2 => 64,
            3 => 256,
            _ => 1024,
        }
    }

    /// Advances the timer by `ticks` master ticks.
    pub fn step(&mut self, ticks: u16)
        requires
            old(self).wf(),
        ensures
            final(self).wf(),
            *final(self) == old(self).advanced(ticks as int),
    {
        let ghost before = *self;
        self.divider = self.divider.wrapping_add(ticks);
        if !self.enabled {
            return ;
        }
        let rate: u32 = self.rate() as u32;
        let total: u32 = self.counter_ticks as u32 + ticks as u32;
        let steps: u32 = total / rate;
        self.counter_ticks = (total % rate) as u16;
        let mut done: u32 = 0;
        while done < steps
            invariant
                done <= steps,
                self.modulo == before.modulo,
                self.enabled == before.enabled,
                self.clock_select == before.clock_select,
                self.divider == ((before.divider + ticks) % 0x1_0000) as u16,
                self.counter_ticks == (total % rate) as u16,
                counter_after(self.counter, self.modulo, (steps - done) as nat) == counter_after(
                    before.counter,
                    before.modulo,
                    steps as nat,
                ),
                (self.interrupt || overflows_within(
                    self.counter,
                    self.modulo,
                    (steps - done) as nat,
                )) == (before.interrupt || overflows_within(
                    before.counter,
                    before.modulo,
                    steps as nat,
                )),
            decreases steps - done,
        {
            if self.counter == 255 {
                self.counter = self.modulo;
                self.interrupt = true;
            } else {
                self.counter = self.counter + 1;
            }
            done = done + 1;
        }
    }

    /// Advances the timer by the ticks of one instruction.
    pub fn tick(&mut self, ticks: u8)
        requires
            old(self).wf(),
        ensures
            final(self).wf(),
            *final(self) == old(self).advanced(ticks as int),
    {
        self.step(ticks as u16)
    }

    pub fn set_enabled(&mut self, enabled: bool)
        ensures
            *final(self) == (Timer { enabled, ..*old(self) }),
            old(self).wf() ==> final(self).wf(),
    {
        self.enabled = enabled;
    }

    pub fn read_register(&self, idx: usize) -> (r: u8)
        requires
            idx < 4,
            self.wf(),
        ensures
            r == self.register(idx as int),
    {
        match idx {
            0 => (self.divider / 256) as u8,
            1 => self.counter,
            2 => self.modulo,
            _ => if self.enabled {
                4 + self.clock_select
            } else {
                self.clock_select
            },
        }
    }

    pub fn write_register(&mut self, idx: usize, val: u8)
        requires
            idx < 4,
            old(self).wf(),
        ensures
            final(self).wf(),
            *final(self) == old(self).written(idx as int, val),
    {
        match idx {
            0 => {
                self.divider = 0;
                self.counter_ticks = 0;
            },
            1 => self.counter = val,
            2 => self.modulo = val,
            _ => {
                let control = BitFlags8(val);
                let clock_select: u8 = control.get_range(RangeInclusive::new(0, 1));
                self.enabled = control.get(2);
                if clock_select != self.clock_select {
                    self.counter_ticks = 0;
                }
                self.clock_select = clock_select;
            },
        }
    }

    /// Takes back the interrupt request, as the processor does when it serves it.
    pub fn set_interrupt(&mut self, pending: bool)
        ensures
            *final(self) == (Timer { interrupt: pending, ..*old(self) }),
            old(self).wf() ==> final(self).wf(),
    {
        self.interrupt = pending;
    }
}

impl Interruptible for Timer {
    open spec fn interrupt_pending(&self) -> bool {
        self.interrupt
    }

    fn has_interrupt(&self) -> (r: bool) {
        self.interrupt
    }
}

impl Default for Timer {
    fn default() -> (r: Self)
        ensures
            r == Timer::initial(),
    {
        Timer::new()
    }
}

/// A write to the divider register clears the whole divider, not only the
/// high byte that software reads, whatever is written.
pub proof fn lemma_divider_write_clears_all(timer: Timer, val: u8)
    ensures
        timer.written(0, val).divider == 0,
        timer.written(0, val).register(0) == 0,
{
}

/// When the counter overflows it restarts from what the modulo register
/// holds then: a modulo written before the overflow is the one that counts,
/// whatever the register held before the write.
pub proof fn lemma_reload_uses_current_modulo(timer: Timer, modulo: u8, ticks: u8)
    requires
        timer.wf(),
        timer.enabled,
        timer.counter == 255,
        timer.counter_ticks + ticks >= rate_of(timer.clock_select),
        timer.counter_ticks + ticks < 2 * rate_of(timer.clock_select),
    ensures
        timer.written(2, modulo).advanced(ticks as int).counter == modulo,
        timer.written(2, modulo).advanced(ticks as int).interrupt,
{
    let set = timer.written(2, modulo);
    let total = set.counter_ticks + ticks;
    let rate = rate_of(set.clock_select);
    assert(rate == 16 || rate == 64 || rate == 256 || rate == 1024);
    assert(total / rate == 1) by (nonlinear_arith)
        requires
            rate <= total < 2 * rate,
            rate > 0,
    ;
    reveal_with_fuel(counter_after, 2);
    reveal_with_fuel(overflows_within, 2);
}

/// The counter and the modulo read back as written, and the control byte
/// in its three low bits.
pub proof fn lemma_registers_read_back(timer: Timer, idx: int, val: u8)
    requires
        1 <= idx <= 3,
    ensures
        idx != 3 ==> timer.written(idx, val).register(idx) == val,
        idx == 3 ==> timer.written(idx, val).register(idx) == val % 8,
{
    assert((if (val / 4) % 2 == 1 { 4u8 } else { 0u8 }) + val % 4 == val % 8) by (bit_vector);
}

} // verus!
