//! The LCD control byte.

use crate::bitflags::{bit_of, BitFlags8};
use vstd::prelude::*;
use vstd::std_specs::convert::FromSpecImpl;

verus! {

/// Which tile map is used for rendering.
#[derive(Clone, Copy, Debug, PartialEq, Eq, Structural)]
pub enum Tilemap {
    /// The map at 0x9800.
    First,
    /// The map at 0x9C00.
    Second,
}

impl Tilemap {
    pub open spec fn base_spec(self) -> u16 {
        match self {
            Tilemap::First => 0x9800,
            Tilemap::Second => 0x9C00,
        }
    }

    /// The bus address of the map's first byte.
    pub fn base(&self) -> (r: u16)
        ensures
            r == self.base_spec(),
    {
        match self {
            Tilemap::First => 0x9800,
            Tilemap::Second => 0x9C00,
        }
    }
}

/// How the indexes held in a tile map are turned into addresses of tile data.
#[derive(Clone, Copy, Debug, PartialEq, Eq, Structural)]
pub enum AddressingMode {
    /// The index is unsigned and counts tiles from 0x8000.
    Unsigned,
    /// The index is signed and counts tiles from 0x9000.
    Signed,
}

/// Size, in bytes, of a single tile: 8 by 8 pixels of 2 bits.
pub const TILE_SIZE: u16 = 16;

impl AddressingMode {
    /// The bus address of the first byte of tile `index`.
    pub open spec fn tile_address(self, index: u8) -> int {
        match self {
            AddressingMode::Unsigned => 0x8000 + index * 16,
            AddressingMode::Signed => if index < 128 {
                0x9000 + index * 16
            } else {
                0x9000 + (index - 256) * 16
            },
        }
    }

    pub fn compute_address(&self, index: u8) -> (r: u16)
        ensures
            r == self.tile_address(index),
            0x8000 <= r <= 0x97F0,
    {
        match self {
            AddressingMode::Unsigned => 0x8000 + index as u16 * TILE_SIZE,
            AddressingMode::Signed => if index < 128 {
                0x9000 + index as u16 * TILE_SIZE
            } else {
                0x8800 + (index - 128) as u16 * TILE_SIZE
            },
        }
    }
}

/// Object size in use.
#[derive(Clone, Copy, Debug, PartialEq, Eq, Structural)]
pub enum ObjectSize {
    /// Objects are one tile big.
    Small,
    /// Objects are two tiles big, stacked vertically.
    Big,
}

impl ObjectSize {
    /// Width and height of an object, in pixels.
    pub fn pixels(&self) -> (r: (u8, u8))
        ensures
            r == match *self {
                ObjectSize::Small => (8u8, 8u8),
                ObjectSize::Big => (8u8, 16u8),
            },
    {
        match self {
            ObjectSize::Small => (8, 8),
            ObjectSize::Big => (8, 16),
        }
    }
}

#[derive(Clone, Copy, Debug, PartialEq, Eq, Structural)]
pub struct LcdControl(pub BitFlags8);

impl LcdControl {
    pub open spec fn enabled_spec(self) -> bool {
        bit_of(self.0.0, 7)
    }

    /// Returns whether the LCD is enabled. If not, the screen is blank.
    pub fn lcd_enabled(&self) -> (r: bool)
        ensures
            r == bit_of(self.0.0, 7),
    {
        self.0.get(7)
    }

    /// Returns which tile map is currently used to render the window.
    pub fn window_tilemap(&self) -> (r: Tilemap)
        ensures
            r == if bit_of(self.0.0, 6) { Tilemap::Second } else { Tilemap::First },
    {
        if self.0.get(6) {
            Tilemap::Second
        } else {
            Tilemap::First
        }
    }

    /// Returns whether the window shall be displayed or not.
    pub fn window_enabled(&self) -> (r: bool)
        ensures
            r == bit_of(self.0.0, 5),
    {
        self.0.get(5)
    }

    /// Returns which addressing mode is currently in use.
    pub fn addressing_mode(&self) -> (r: AddressingMode)
        ensures
            r == if bit_of(self.0.0, 4) { AddressingMode::Unsigned } else { AddressingMode::Signed },
    {
        if self.0.get(4) {
            AddressingMode::Unsigned
        } else {
            AddressingMode::Signed
        }
    }

    /// Returns which tile map is currently used to render the background.
    pub fn background_tilemap(&self) -> (r: Tilemap)
        ensures
            r == if bit_of(self.0.0, 3) { Tilemap::Second } else { Tilemap::First },
    {
        if self.0.get(3) {
            Tilemap::Second
        } else {
            Tilemap::First
        }
    }

    /// Returns the object size.
    pub fn object_size(&self) -> (r: ObjectSize)
        ensures
            r == if bit_of(self.0.0, 2) { ObjectSize::Big } else { ObjectSize::Small },
    {
        if self.0.get(2) {
            ObjectSize::Big
        } else {
            ObjectSize::Small
        }
    }

    /// Returns whether objects are rendered.
    pub fn objects_enabled(&self) -> (r: bool)
        ensures
            r == bit_of(self.0.0, 1),
    {
        self.0.get(1)
    }

    /// Returns whether only objects are rendered. When so, window and
    /// background are white.
    pub fn objects_only(&self) -> (r: bool)
        ensures
            r == !bit_of(self.0.0, 0),
    {
        !self.0.get(0)
    }
}

impl From<u8> for LcdControl {
    fn from(value: u8) -> (r: Self) {
        LcdControl(BitFlags8(value))
    }
}

impl FromSpecImpl<u8> for LcdControl {
    open spec fn obeys_from_spec() -> bool {
        true
    }

    open spec fn from_spec(v: u8) -> Self {
        LcdControl(BitFlags8(v))
    }
}

impl From<LcdControl> for u8 {
    fn from(value: LcdControl) -> (r: Self) {
        value.0.0
    }
}

impl FromSpecImpl<LcdControl> for u8 {
    open spec fn obeys_from_spec() -> bool {
        true
    }

    open spec fn from_spec(v: LcdControl) -> Self {
        v.0.0
    }
}


} // verus!
