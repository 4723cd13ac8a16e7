//! The attributes of an object, as the object attribute memory holds them.

use crate::bitflags::bit_of;
use crate::bitmap::bitmap_get;
use vstd::prelude::*;

verus! {

/// Size, in bytes, of the attributes of one object.
pub const ATTR_SIZE: usize = 4;

/// The palette register an object takes its shades from.
#[derive(Clone, Copy, Debug, PartialEq, Eq, Structural)]
pub enum ObjectPalette {
    Obp0,
    Obp1,
}

#[derive(Clone, Copy, Debug, PartialEq, Eq, Structural)]
pub struct ObjFlags(pub u8);

impl ObjFlags {
    /// Whether the object is drawn over the background. The bit is zero when
    /// it is.
    pub fn priority(&self) -> (r: bool)
        ensures
            r == !bit_of(self.0, 7),
    {
        !bitmap_get(self.0, 7)
    }

    pub fn y_mirror(&self) -> (r: bool)
        ensures
            r == bit_of(self.0, 6),
    {
        bitmap_get(self.0, 6)
    }

    pub fn x_mirror(&self) -> (r: bool)
        ensures
            r == bit_of(self.0, 5),
    {
        bitmap_get(self.0, 5)
    }

    pub fn palette(&self) -> (r: ObjectPalette)
        ensures
            r == if bit_of(self.0, 4) { ObjectPalette::Obp1 } else { ObjectPalette::Obp0 },
    {
        if bitmap_get(self.0, 4) {
            ObjectPalette::Obp1
        } else {
            ObjectPalette::Obp0
        }
    }
}

/// Attributes of a sprite, which is either an 8x8 or 8x16 tile.
#[derive(Clone, Copy, Debug, PartialEq, Eq, Structural)]
pub struct ObjAttr {
    pub y_position: u8,
    pub x_position: u8,
    pub tile_index: u8,
    pub flags: ObjFlags,
}

impl ObjAttr {
    /// The attributes that four bytes of the memory stand for.
    pub open spec fn of_bytes(y: u8, x: u8, tile: u8, flags: u8) -> ObjAttr {
        ObjAttr { y_position: y, x_position: x, tile_index: tile, flags: ObjFlags(flags) }
    }

    /// The byte of the attributes at `index`.
    pub open spec fn byte(self, index: int) -> u8 {
        if index == 0 {
            self.y_position
        } else if index == 1 {
            self.x_position
        } else if index == 2 {
            self.tile_index
        } else {
            self.flags.0
        }
    }

    pub fn index(&self, index: usize) -> (r: u8)
        requires
            index < ATTR_SIZE,
        ensures
            r == self.byte(index as int),
    {
        match index {
            0 => self.y_position,
            1 => self.x_position,
            2 => self.tile_index,
            _ => self.flags.0,
        }
    }

    /// The line of the screen on which the object starts: the position held
    /// in memory is 16 lines further down.
    pub fn real_y_position(&self) -> (r: i16)
        ensures
            r == self.y_position - 16,
    {
        self.y_position as i16 - 16
    }

    /// The column of the screen at which the object starts: the position held
    /// in memory is 8 columns further right.
    pub fn real_x_position(&self) -> (r: i16)
        ensures
            r == self.x_position - 8,
    {
        self.x_position as i16 - 8
    }
}

} // verus!
