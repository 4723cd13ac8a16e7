//! The third controller family: a seven-bit ROM bank register, up to eight
//! RAM banks and a clock whose registers show in the RAM window.

use crate::cartridge::{in_window, Banks, Ram, Rtc};
use crate::bitflags::BitFlags8;
use std::ops::RangeInclusive;
use vstd::prelude::*;

verus! {

/// What the RAM window shows.
#[derive(Clone, Copy, Debug, PartialEq, Eq, Structural)]
pub enum SourceSelection {
    Ram,
    Rtc,
}

#[derive(Clone, Copy, Debug, PartialEq, Eq, Structural)]
pub struct Status {
    pub data_source: SourceSelection,
}

impl Status {
    pub open spec fn initial() -> Status {
        Status { data_source: SourceSelection::Ram }
    }

    pub fn new() -> (r: Self)
        ensures
            r == Self::initial(),
    {
        Status { data_source: SourceSelection::Ram }
    }
}

pub open spec fn byte_at(status: Status, hw: Banks, addr: u16) -> u8 {
    if addr < 0x4000 {
        hw.rom.byte_at(addr as int)
    } else if addr < 0x8000 {
        hw.rom.bank_byte(addr - 0x4000)
    } else if status.data_source is Rtc {
        hw.rtc.current()
    } else {
        hw.ram.bank_byte(addr - 0xA000)
    }
}

pub open spec fn written(status: Status, hw: Banks, addr: u16, val: u8) -> (Status, Banks) {
    if addr < 0x2000 {
        let enabled = val % 16 == 0x0A;
        (status, Banks { ram: Ram { enabled, ..hw.ram }, rtc: Rtc { enabled, ..hw.rtc }, ..hw })
    } else if addr < 0x4000 {
        (status, Banks { rom: hw.rom.with_bank((val % 128) as int), ..hw })
    } else if addr < 0x6000 {
        if val < 0x08 {
            (
                Status { data_source: SourceSelection::Ram },
                Banks { ram: Ram { curr_bank: val, ..hw.ram }, ..hw },
            )
        } else if val <= 0x0C {
            (
                Status { data_source: SourceSelection::Rtc },
                Banks { rtc: Rtc { curr_register: (val - 0x08) as u8, ..hw.rtc }, ..hw },
            )
        } else {
            (status, hw)
        }
    } else if addr < 0x8000 {
        (status, Banks { rtc: hw.rtc.with_latch(val != 0), ..hw })
    } else if status.data_source is Rtc {
        (status, Banks { rtc: hw.rtc.current_written(val), ..hw })
    } else {
        (status, Banks { ram: hw.ram.bank_written(addr - 0xA000, val), ..hw })
    }
}

pub fn read(status: Status, hw: &Banks, addr: u16) -> (r: u8)
    requires
        hw.wf(),
        in_window(addr),
    ensures
        r == byte_at(status, *hw, addr),
{
    if addr < 0x4000 {
        hw.rom.at(addr as usize)
    } else if addr < 0x8000 {
        hw.rom.at_current_bank(addr - 0x4000)
    } else {
        match status.data_source {
            SourceSelection::Ram => hw.ram.read_current_bank(addr - 0xA000),
            SourceSelection::Rtc => hw.rtc.read_current_register(),
        }
    }
}

pub fn write(status: &mut Status, hw: &mut Banks, addr: u16, val: u8)
    requires
        old(hw).wf(),
        in_window(addr),
    ensures
        final(hw).wf(),
        (*final(status), *final(hw)) == written(*old(status), *old(hw), addr, val),
{
    if addr < 0x2000 {
        hw.ram.enabled = BitFlags8(val).get_range(RangeInclusive::new(0, 3)) == 0x0A;
        hw.rtc.enabled = hw.ram.enabled;
    } else if addr < 0x4000 {
        hw.rom.set_bank(BitFlags8(val).get_range(RangeInclusive::new(0, 6)));
    } else if addr < 0x6000 {
        if val < 0x08 {
            status.data_source = SourceSelection::Ram;
            hw.ram.set_current_bank(val);
        } else if val <= 0x0C {
            status.data_source = SourceSelection::Rtc;
            hw.rtc.set_current_register(val - 0x08);
        }
    } else if addr < 0x8000 {
        hw.rtc.set_latched(val != 0);
    } else {
        match status.data_source {
            SourceSelection::Ram => hw.ram.write_current_bank(addr - 0xA000, val),
            SourceSelection::Rtc => hw.rtc.write_current_register(val),
        }
    }
}

} // verus!
