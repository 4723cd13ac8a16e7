//! The LCD status byte and the mode of the pixel processor that it carries.

use crate::bitflags::{bit_of, field_of, with_field, BitFlags8};
use std::ops::RangeInclusive;
use vstd::prelude::*;
use vstd::std_specs::convert::FromSpecImpl;

verus! {

/// Possible modes the PPU may be in. Their order is that of their numbers.
#[derive(Clone, Copy, Debug, PartialEq, Eq, Structural)]
pub enum PpuMode {
    /// Horizontal blank.
    Mode0,
    /// Vertical blank.
    Mode1,
    /// Searching the object attributes.
    Mode2,
    /// Drawing pixels.
    Mode3,
}

impl PpuMode {
    pub open spec fn number(self) -> u8 {
        match self {
            PpuMode::Mode0 => 0,
            PpuMode::Mode1 => 1,
            PpuMode::Mode2 => 2,
            PpuMode::Mode3 => 3,
        }
    }

    pub open spec fn of_number(value: int) -> PpuMode {
        if value % 4 == 0 {
            PpuMode::Mode0
        } else if value % 4 == 1 {
            PpuMode::Mode1
        } else if value % 4 == 2 {
            PpuMode::Mode2
        } else {
            PpuMode::Mode3
        }
    }

    /// Whether video RAM is out of the bus's reach in this mode.
    pub open spec fn blocks_vram(self) -> bool {
        self.number() >= 3
    }

    /// Whether the object attributes are out of the bus's reach in this mode.
    pub open spec fn blocks_oam(self) -> bool {
        self.number() >= 2
    }

    pub fn as_number(self) -> (r: u8)
        ensures
            r == self.number(),
    {
        match self {
            PpuMode::Mode0 => 0,
            PpuMode::Mode1 => 1,
            PpuMode::Mode2 => 2,
            PpuMode::Mode3 => 3,
        }
    }

    pub fn from_number(value: u8) -> (r: Self)
        ensures
            r == Self::of_number(value as int),
    {
        match value % 4 {
            0 => PpuMode::Mode0,
            1 => PpuMode::Mode1,
            2 => PpuMode::Mode2,
            _ => PpuMode::Mode3,
        }
    }
}

#[derive(Clone, Copy, Debug, PartialEq, Eq, Structural)]
pub struct LcdStatus(pub BitFlags8);

impl LcdStatus {
    pub open spec fn mode(self) -> PpuMode {
        PpuMode::of_number(field_of(self.0.0, 0, 1))
    }

    pub open spec fn with_mode(self, mode: PpuMode) -> LcdStatus {
        LcdStatus(BitFlags8(with_field(self.0.0, 0, 1, mode.number()) as u8))
    }

    pub open spec fn with_coincidence(self, equal: bool) -> LcdStatus {
        LcdStatus(BitFlags8(with_field(self.0.0, 2, 2, if equal { 1 } else { 0 }) as u8))
    }

    /// The status after software wrote `val`: the mode stays, the rest is
    /// taken from `val`.
    pub open spec fn written(self, val: u8) -> LcdStatus {
        LcdStatus(BitFlags8(with_field(val, 0, 1, field_of(self.0.0, 0, 1) as u8) as u8))
    }

    /// Returns whether the STAT interrupt is fired when the LYC register is
    /// equal to the LY register.
    pub fn interrupt_if_lyc_equals_ly(&self) -> (r: bool)
        ensures
            r == bit_of(self.0.0, 6),
    {
        self.0.get(6)
    }

    /// Returns whether the STAT interrupt is fired when the PPU enters mode 2.
    pub fn interrupt_if_mode2(&self) -> (r: bool)
        ensures
            r == bit_of(self.0.0, 5),
    {
        self.0.get(5)
    }

    /// Returns whether the STAT interrupt is fired when the PPU enters mode 1.
    pub fn interrupt_if_mode1(&self) -> (r: bool)
        ensures
            r == bit_of(self.0.0, 4),
    {
        self.0.get(4)
    }

    /// Returns whether the STAT interrupt is fired when the PPU enters mode 0.
    pub fn interrupt_if_mode0(&self) -> (r: bool)
        ensures
            r == bit_of(self.0.0, 3),
    {
        self.0.get(3)
    }

    /// Returns whether the LYC register is currently equal to the LY register.
    pub fn lyc_equals_ly(&self) -> (r: bool)
        ensures
            r == bit_of(self.0.0, 2),
    {
        self.0.get(2)
    }

    /// Returns the current PPU mode.
    pub fn ppu_mode(&self) -> (r: PpuMode)
        ensures
            r == self.mode(),
    {
        PpuMode::from_number(self.0.get_range(RangeInclusive::new(0, 1)))
    }

    pub fn set_ppu_mode(&mut self, mode: PpuMode)
        ensures
            *final(self) == old(self).with_mode(mode),
            final(self).mode() == mode,
            forall|i: int| 2 <= i < 8 ==> bit_of(final(self).0.0, i) == bit_of(old(self).0.0, i),
    {
        self.0.set_range(RangeInclusive::new(0, 1), mode.as_number());
    }

    pub fn set_lyc_equals_ly(&mut self, equal: bool)
        ensures
            *final(self) == old(self).with_coincidence(equal),
            bit_of(final(self).0.0, 2) == equal,
            final(self).mode() == old(self).mode(),
            forall|i: int|
                0 <= i < 8 && i != 2 ==> bit_of(final(self).0.0, i) == bit_of(old(self).0.0, i),
    {
        self.0.set_range(RangeInclusive::new(2, 2), if equal { 1 } else { 0 });
    }

    /// Takes what software wrote. The two low bits are read-only.
    pub fn write(&mut self, val: u8)
        ensures
            *final(self) == old(self).written(val),
            final(self).mode() == old(self).mode(),
            forall|i: int| 2 <= i < 8 ==> bit_of(final(self).0.0, i) == bit_of(val, i),
    {
        let mode = self.0.get_range(RangeInclusive::new(0, 1));
        let mut flags = BitFlags8(val);
        flags.set_range(RangeInclusive::new(0, 1), mode);
        self.0 = flags;
    }
}

impl From<u8> for LcdStatus {
    fn from(value: u8) -> (r: Self) {
        LcdStatus(BitFlags8(value))
    }
}

impl FromSpecImpl<u8> for LcdStatus {
    open spec fn obeys_from_spec() -> bool {
        true
    }

    open spec fn from_spec(v: u8) -> Self {
        LcdStatus(BitFlags8(v))
    }
}

impl From<LcdStatus> for u8 {
    fn from(value: LcdStatus) -> (r: Self) {
        value.0.0
    }
}

impl FromSpecImpl<LcdStatus> for u8 {
    open spec fn obeys_from_spec() -> bool {
        true
    }

    open spec fn from_spec(v: LcdStatus) -> Self {
        v.0.0
    }
}

impl From<u8> for PpuMode {
    fn from(value: u8) -> (r: Self) {
        PpuMode::from_number(value)
    }
}

impl FromSpecImpl<u8> for PpuMode {
    open spec fn obeys_from_spec() -> bool {
        true
    }

    open spec fn from_spec(v: u8) -> Self {
        PpuMode::of_number(v as int)
    }
}


} // verus!
