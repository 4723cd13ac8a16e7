//! The palette registers: four two-bit shades packed in a byte.

use crate::bitflags::{bit_of, BitFlags8};
use vstd::prelude::*;
use vstd::std_specs::convert::FromSpecImpl;

verus! {

#[derive(Clone, Copy, Debug, PartialEq, Eq, Structural)]
pub enum Palette {
    /// The white color, or transparent in the case of objects.
    White,
    LightGray,
    DarkGray,
    Black,
}

impl Palette {
    pub open spec fn of_bits(high: bool, low: bool) -> Palette {
        if high {
            if low { Palette::Black } else { Palette::DarkGray }
        } else {
            if low { Palette::LightGray } else { Palette::White }
        }
    }

    pub open spec fn of_number(value: int) -> Palette {
        Self::of_bits((value / 2) % 2 == 1, value % 2 == 1)
    }

    pub fn from_number(value: u8) -> (r: Self)
        ensures
            r == Self::of_number(value as int),
    {
        match value % 4 {
            0 => Palette::White,
            1 => Palette::LightGray,
            2 => Palette::DarkGray,
            _ => Palette::Black,
        }
    }
}

#[derive(Clone, Copy, Debug, PartialEq, Eq, Structural)]
pub struct PaletteIds(pub BitFlags8);

impl PaletteIds {
    /// The shade that color number `id` is shown in.
    pub open spec fn shade(self, id: int) -> Palette {
        Palette::of_bits(bit_of(self.0.0, 2 * id + 1), bit_of(self.0.0, 2 * id))
    }

    pub fn id3(&self) -> (r: Palette)
        ensures
            r == self.shade(3),
    {
        self.palette_from_bits(7, 6)
    }

    pub fn id2(&self) -> (r: Palette)
        ensures
            r == self.shade(2),
    {
        self.palette_from_bits(5, 4)
    }

    pub fn id1(&self) -> (r: Palette)
        ensures
            r == self.shade(1),
    {
        self.palette_from_bits(3, 2)
    }

    pub fn id0(&self) -> (r: Palette)
        ensures
            r == self.shade(0),
    {
        self.palette_from_bits(1, 0)
    }

    pub fn palette_from_bits(&self, bit1: usize, bit2: usize) -> (r: Palette)
        requires
            bit1 < 8,
            bit2 < 8,
        ensures
            r == Palette::of_bits(bit_of(self.0.0, bit1 as int), bit_of(self.0.0, bit2 as int)),
    {
        let high: u8 = if self.0.get(bit1) { 2 } else { 0 };
        let low: u8 = if self.0.get(bit2) { 1 } else { 0 };
        Palette::from_number(high + low)
    }
}

impl From<u8> for PaletteIds {
    fn from(value: u8) -> (r: Self) {
        PaletteIds(BitFlags8(value))
    }
}

impl FromSpecImpl<u8> for PaletteIds {
    open spec fn obeys_from_spec() -> bool {
        true
    }

    open spec fn from_spec(v: u8) -> Self {
        PaletteIds(BitFlags8(v))
    }
}

impl From<PaletteIds> for u8 {
    fn from(value: PaletteIds) -> (r: Self) {
        value.0.0
    }
}

impl FromSpecImpl<PaletteIds> for u8 {
    open spec fn obeys_from_spec() -> bool {
        true
    }

    open spec fn from_spec(v: PaletteIds) -> Self {
        v.0.0
    }
}

impl From<u8> for Palette {
    fn from(value: u8) -> (r: Self) {
        Palette::from_number(value)
    }
}

impl FromSpecImpl<u8> for Palette {
    open spec fn obeys_from_spec() -> bool {
        true
    }

    open spec fn from_spec(v: u8) -> Self {
        Palette::of_number(v as int)
    }
}


} // verus!
