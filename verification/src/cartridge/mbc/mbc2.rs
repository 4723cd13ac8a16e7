//! The second controller family: a four-bit ROM bank register and 512 bytes
//! of RAM inside the controller, mirrored over the whole RAM window.

use crate::cartridge::{in_window, Banks, Ram};
use crate::bitflags::BitFlags8;
use std::ops::RangeInclusive;
use vstd::prelude::*;

verus! {

/// Size, in bytes, of the RAM inside the controller.
pub const INTERNAL_RAM_SIZE: u16 = 0x200;

pub open spec fn byte_at(hw: Banks, addr: u16) -> u8 {
    if addr < 0x4000 {
        hw.rom.byte_at(addr as int)
    } else if addr < 0x8000 {
        hw.rom.bank_byte(addr - 0x4000)
    } else {
        hw.ram.byte_at((addr - 0xA000) % 0x200)
    }
}

pub open spec fn written(hw: Banks, addr: u16, val: u8) -> Banks {
    if addr < 0x4000 {
        if (addr / 256) % 2 == 0 {
            Banks { ram: Ram { enabled: val % 16 == 0x0A, ..hw.ram }, ..hw }
        } else {
            Banks { rom: hw.rom.with_bank((val % 16) as int), ..hw }
        }
    } else if addr < 0x8000 {
        hw
    } else {
        Banks { ram: hw.ram.written((addr - 0xA000) % 0x200, val), ..hw }
    }
}

pub fn read(hw: &Banks, addr: u16) -> (r: u8)
    requires
        hw.wf(),
        in_window(addr),
    ensures
        r == byte_at(*hw, addr),
{
    if addr < 0x4000 {
        hw.rom.at(addr as usize)
    } else if addr < 0x8000 {
        hw.rom.at_current_bank(addr - 0x4000)
    } else {
        // Past its 512 bytes the RAM shows again, over and over.
        hw.ram.read(((addr - 0xA000) % INTERNAL_RAM_SIZE) as usize)
    }
}

pub fn write(hw: &mut Banks, addr: u16, val: u8)
    requires
        old(hw).wf(),
        in_window(addr),
    ensures
        final(hw).wf(),
        *final(hw) == written(*old(hw), addr, val),
{
    if addr < 0x4000 {
        // Bit 8 of the address tells whether the RAM switch or the ROM bank is
        // meant.
        let low = BitFlags8(val).get_range(RangeInclusive::new(0, 3));
        if !BitFlags8((addr / 256) as u8).get(0) {
            hw.ram.enabled = low == 0x0A;
        } else {
            hw.rom.set_bank(low);
        }
    } else if addr < 0x8000 {
    } else {
        hw.ram.write(((addr - 0xA000) % INTERNAL_RAM_SIZE) as usize, val);
    }
}

} // verus!
