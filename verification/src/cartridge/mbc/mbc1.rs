//! The first controller family: a five-bit ROM bank register, a two-bit
//! register that extends it or picks the RAM bank, and a mode that says which.

use crate::cartridge::{bank_modulus, in_window, BankingMode, Banks, Ram};
use crate::bitflags::BitFlags8;
use std::ops::RangeInclusive;
use vstd::prelude::*;

verus! {

pub open spec fn byte_at(hw: Banks, addr: u16) -> u8 {
    if addr < 0x4000 {
        hw.rom.byte_at(addr as int)
    } else if addr < 0x8000 {
        hw.rom.bank_byte(addr - 0x4000)
    } else {
        hw.ram.bank_byte(addr - 0xA000)
    }
}

/// The bank number that a write of `val` to the ROM bank register asks for:
/// the two upper bits stay, the five lower bits are those of `val`, one if
/// they are all zero.
pub open spec fn requested_bank(curr_bank: u8, val: u8) -> int {
    (curr_bank / 32) * 32 + (if val % 32 == 0 { 1 } else { (val % 32) as int })
}

pub open spec fn written(hw: Banks, addr: u16, val: u8) -> Banks {
    if addr < 0x2000 {
        Banks { ram: Ram { enabled: val % 16 == 0x0A, ..hw.ram }, ..hw }
    } else if addr < 0x4000 {
        Banks { rom: hw.rom.with_bank(requested_bank(hw.rom.curr_bank, val)), ..hw }
    } else if addr < 0x6000 {
        if hw.small() {
            hw
        } else if hw.banking_mode is Rom {
            Banks { rom: hw.rom.with_bank_extended(val), ..hw }
        } else {
            Banks { ram: Ram { curr_bank: val % 4, ..hw.ram }, ..hw }
        }
    } else if addr < 0x8000 {
        let new_mode = if val == 0 { BankingMode::Rom } else { BankingMode::Ram };
        if hw.small() || hw.banking_mode == new_mode {
            hw
        } else if new_mode is Rom {
            Banks {
                rom: hw.rom.with_bank_extended(hw.ram.curr_bank),
                ram: Ram { curr_bank: 0, ..hw.ram },
                banking_mode: new_mode,
                ..hw
            }
        } else {
            Banks {
                rom: hw.rom.with_bank_extended(0),
                ram: Ram { curr_bank: (hw.rom.curr_bank / 32) % 4, ..hw.ram },
                banking_mode: new_mode,
                ..hw
            }
        }
    } else {
        Banks { ram: hw.ram.bank_written(addr - 0xA000, val), ..hw }
    }
}

pub fn read(hw: &Banks, addr: u16) -> (r: u8)
    requires
        hw.wf(),
        in_window(addr),
    ensures
        r == byte_at(*hw, addr),
{
    if addr < 0x4000 {
        hw.rom.at(addr as usize)
    } else if addr < 0x8000 {
        hw.rom.at_current_bank(addr - 0x4000)
    } else {
        hw.ram.read_current_bank(addr - 0xA000)
    }
}

#[verifier::rlimit(30)]
pub fn write(hw: &mut Banks, addr: u16, val: u8)
    requires
        old(hw).wf(),
        in_window(addr),
    ensures
        final(hw).wf(),
        *final(hw) == written(*old(hw), addr, val),
{
    if addr < 0x2000 {
        // Any value with 0xA in the lower 4 bits enables the RAM.
        hw.ram.enabled = BitFlags8(val).get_range(RangeInclusive::new(0, 3)) == 0x0A;
    } else if addr < 0x4000 {
        // The bank is addressed by 5 bits only.
        let requested: u8 = BitFlags8(val).get_range(RangeInclusive::new(0, 4));
        let low: u8 = if requested == 0 { 1 } else { requested };
        hw.rom.set_bank((hw.rom.curr_bank / 32) * 32 + low);
    } else if addr < 0x6000 {
        if hw.is_small() {
            // This cartridge is too small for bank selection to be meaningful.
            return ;
        }
        match hw.banking_mode {
            BankingMode::Rom => hw.rom.set_bank_extended(val),
            BankingMode::Ram => hw.ram.set_current_bank(
                BitFlags8(val).get_range(RangeInclusive::new(0, 1)),
            ),
        }
    } else if addr < 0x8000 {
        if hw.is_small() {
            // This cartridge is too small for banking mode to be meaningful.
            return ;
        }
        let new_mode = if val == 0 { BankingMode::Rom } else { BankingMode::Ram };
        match (hw.banking_mode, new_mode) {
            (BankingMode::Ram, BankingMode::Rom) => {
                hw.rom.set_bank_extended(hw.ram.curr_bank);
                hw.ram.set_current_bank(0);
                hw.banking_mode = new_mode;
            },
            (BankingMode::Rom, BankingMode::Ram) => {
                hw.ram.set_current_bank(
                    BitFlags8(hw.rom.curr_bank).get_range(RangeInclusive::new(5, 6)),
                );
                hw.rom.set_bank_extended(0);
                hw.banking_mode = new_mode;
            },
            _ => {},
        }
    } else {
        hw.ram.write_current_bank(addr - 0xA000, val);
    }
}

/// On a cartridge with at most 32 ROM banks and at most one RAM bank, a write
/// to the banking-mode register changes nothing, and the mode it holds
/// changes neither what is read nor what any write does to the memories and
/// the selected banks.
#[verifier::rlimit(40)]
pub proof fn lemma_small_cartridge_ignores_banking_mode(
    hw: Banks,
    mode_addr: u16,
    mode_val: u8,
    mode: BankingMode,
    addr: u16,
    val: u8,
)
    requires
        hw.small(),
        0x6000 <= mode_addr < 0x8000,
        in_window(addr),
    ensures
        written(hw, mode_addr, mode_val) == hw,
        byte_at(Banks { banking_mode: mode, ..hw }, addr) == byte_at(hw, addr),
        written(Banks { banking_mode: mode, ..hw }, addr, val) == (Banks {
            banking_mode: mode,
            ..written(hw, addr, val)
        }),
{
}

/// A write to the ROM bank register whose five low bits are zero selects the
/// bank after the one asked for: 0x00 gives bank 0x01, and with the upper bits
/// at one, two or three, 0x20, 0x40 and 0x60 give 0x21, 0x41 and 0x61, as far
/// as the image has that many banks.
pub proof fn lemma_zero_bank_selects_next(hw: Banks, addr: u16, val: u8)
    requires
        0x2000 <= addr < 0x4000,
        val % 32 == 0,
        hw.rom.curr_bank < 128,
    ensures
        written(hw, addr, val).rom.curr_bank == ((hw.rom.curr_bank / 32) * 32 + 1) % bank_modulus(
            hw.rom.banks as int,
        ),
        hw.rom.banks > 64 ==> written(hw, addr, val).rom.curr_bank == (hw.rom.curr_bank / 32) * 32
            + 1,
        hw.rom.banks > 1 && hw.rom.curr_bank < 32 ==> written(hw, addr, val).rom.curr_bank == 1,
{
}

} // verus!
