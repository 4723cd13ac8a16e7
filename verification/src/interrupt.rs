//! The five interrupt sources and the bytes that publish them.

use vstd::prelude::*;

verus! {

/// The interrupt sources, in the fixed order in which the processor serves them.
#[derive(Clone, Copy, Debug, PartialEq, Eq, Structural)]
pub enum Interrupt {
    VBlank,
    LcdStat,
    Timer,
    Serial,
    Keypad,
}

impl Interrupt {
    /// The bit that stands for this source in the pending and enable bytes.
    pub open spec fn bit(self) -> int {
        match self {
            Interrupt::VBlank => 0,
            Interrupt::LcdStat => 1,
            Interrupt::Timer => 2,
            Interrupt::Serial => 3,
            Interrupt::Keypad => 4,
        }
    }

    /// The value of this source's bit in a byte.
    pub open spec fn mask(self) -> u8 {
        match self {
            Interrupt::VBlank => 1,
            Interrupt::LcdStat => 2,
            Interrupt::Timer => 4,
            Interrupt::Serial => 8,
            Interrupt::Keypad => 16,
        }
    }

    /// The address the processor jumps to when it serves this source.
    pub open spec fn vector_spec(self) -> u16 {
        match self {
            Interrupt::VBlank => 0x40,
            Interrupt::LcdStat => 0x48,
            Interrupt::Timer => 0x50,
            Interrupt::Serial => 0x58,
            Interrupt::Keypad => 0x60,
        }
    }

    pub fn index(self) -> (r: usize)
        ensures
            r == self.bit(),
    {
        match self {
            Interrupt::VBlank => 0,
            Interrupt::LcdStat => 1,
            Interrupt::Timer => 2,
            Interrupt::Serial => 3,
            Interrupt::Keypad => 4,
        }
    }

    pub fn vector(self) -> (r: u16)
        ensures
            r == self.vector_spec(),
            r == 0x40 + 8 * self.bit(),
    {
        match self {
            Interrupt::VBlank => 0x40,
            Interrupt::LcdStat => 0x48,
            Interrupt::Timer => 0x50,
            Interrupt::Serial => 0x58,
            Interrupt::Keypad => 0x60,
        }
    }
}

/// A peripheral that can ask for the processor's attention.
pub trait Interruptible {
    /// Whether the peripheral's request is pending.
    spec fn interrupt_pending(&self) -> bool;

    fn has_interrupt(&self) -> (r: bool)
        ensures
            r == self.interrupt_pending(),
    ;
}

/// The value of a flag as a bit at `shift`.
pub open spec fn flag_value(flag: Option<bool>, weight: int) -> int {
    if flag == Some(true) {
        weight
    } else {
        0
    }
}

/// One optional pending flag per source. A source that no peripheral stands
/// behind reads as not pending.
#[derive(Clone, Copy, Debug, PartialEq, Eq, Structural)]
pub struct Interrupts {
    pub vblank: Option<bool>,
    pub lcd_stat: Option<bool>,
    pub timer: Option<bool>,
    pub serial: Option<bool>,
    pub keypad: Option<bool>,
}

impl Interrupts {
    pub open spec fn empty() -> Interrupts {
        Interrupts { vblank: None, lcd_stat: None, timer: None, serial: None, keypad: None }
    }

    pub open spec fn flag(self, source: Interrupt) -> Option<bool> {
        match source {
            Interrupt::VBlank => self.vblank,
            Interrupt::LcdStat => self.lcd_stat,
            Interrupt::Timer => self.timer,
            Interrupt::Serial => self.serial,
            Interrupt::Keypad => self.keypad,
        }
    }

    pub open spec fn with_flag(self, source: Interrupt, pending: bool) -> Interrupts {
        match source {
            Interrupt::VBlank => Interrupts { vblank: Some(pending), ..self },
            Interrupt::LcdStat => Interrupts { lcd_stat: Some(pending), ..self },
            Interrupt::Timer => Interrupts { timer: Some(pending), ..self },
            Interrupt::Serial => Interrupts { serial: Some(pending), ..self },
            Interrupt::Keypad => Interrupts { keypad: Some(pending), ..self },
        }
    }

    /// The byte that the flags make up: bit `i` is set exactly when source `i`
    /// is registered and pending.
    pub open spec fn byte(self) -> int {
        flag_value(self.vblank, 1) + flag_value(self.lcd_stat, 2) + flag_value(self.timer, 4)
            + flag_value(self.serial, 8) + flag_value(self.keypad, 16)
    }

    pub fn new() -> (r: Self)
        ensures
            r == Self::empty(),
            r.byte() == 0,
    {
        Interrupts { vblank: None, lcd_stat: None, timer: None, serial: None, keypad: None }
    }

    /// Records the state of one source.
    pub fn register(&mut self, idx: Interrupt, pending: bool)
        ensures
            *final(self) == old(self).with_flag(idx, pending),
            forall|other: Interrupt| other != idx ==> final(self).flag(other) == old(self).flag(other),
            final(self).flag(idx) == Some(pending),
    {
        match idx {
            Interrupt::VBlank => self.vblank = Some(pending),
            Interrupt::LcdStat => self.lcd_stat = Some(pending),
            Interrupt::Timer => self.timer = Some(pending),
            Interrupt::Serial => self.serial = Some(pending),
            Interrupt::Keypad => self.keypad = Some(pending),
        }
    }

    /// Packs the flags into the byte that software reads.
    pub fn as_byte(&self) -> (r: u8)
        ensures
            r == self.byte(),
            r < 32,
    {
        let mut byte: u8 = 0;
        if let Some(true) = self.vblank {
            byte = byte + 1;
        }
        if let Some(true) = self.lcd_stat {
            byte = byte + 2;
        }
        if let Some(true) = self.timer {
            byte = byte + 4;
        }
        if let Some(true) = self.serial {
            byte = byte + 8;
        }
        if let Some(true) = self.keypad {
            byte = byte + 16;
        }
        byte
    }
}

} // verus!
