//! A cartridge without a controller: the ROM as it is, and no register.

use crate::cartridge::{in_window, Banks};
use vstd::prelude::*;

verus! {

pub open spec fn byte_at(hw: Banks, addr: u16) -> u8 {
    if addr < 0x4000 {
        hw.rom.byte_at(addr as int)
    } else if addr < 0x8000 {
        hw.rom.bank_byte(addr - 0x4000)
    } else {
        hw.ram.bank_byte(addr - 0xA000)
    }
}

pub fn read(hw: &Banks, addr: u16) -> (r: u8)
    requires
        hw.wf(),
        in_window(addr),
    ensures
        r == byte_at(*hw, addr),
{
    if addr < 0x4000 {
        hw.rom.at(addr as usize)
    } else if addr < 0x8000 {
        hw.rom.at_current_bank(addr - 0x4000)
    } else {
        hw.ram.read_current_bank(addr - 0xA000)
    }
}

} // verus!
