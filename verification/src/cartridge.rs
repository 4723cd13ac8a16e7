//! The cartridge: a ROM image, an external RAM and, on some cartridges, a
//! clock, all reached through a memory bank controller.

pub mod header;
pub mod mbc;

use crate::bitflags::{bit_of, clear_bit, set_bit, BitFlags8};
use crate::cartridge::header::{battery_of, mbc_of, ram_banks_of, rom_banks_of};
use crate::cartridge::mbc::Mbc;
use crate::error::Error;
use crate::bitmap::{bitmap_get, bitmap_set};
use std::ops::RangeInclusive;
use vstd::prelude::*;

verus! {

/// Size, in bytes, of each ROM bank.
pub const ROM_BANK_SIZE: usize = 0x4000;

/// Size, in bytes, of each RAM bank.
pub const RAM_BANK_SIZE: usize = 0x2000;

/// Size, in bytes, of the largest external RAM a header can announce.
pub const RAM_CAPACITY: usize = 0x20000;

/// Size, in bytes, of the header and of what lies before it.
pub const HEADER_END: usize = 0x150;

/// Whether `addr` lies in one of the two windows of the cartridge.
pub open spec fn in_window(addr: u16) -> bool {
    addr < 0x8000 || 0xA000 <= addr < 0xC000
}

/// The smallest power of two that is not below `banks`: one more than the
/// mask that a bank number is cut to.
pub open spec fn bank_modulus(banks: int) -> int {
    if banks <= 1 {
        1
    } else if banks <= 2 {
        2
    } else if banks <= 4 {
        4
    } else if banks <= 8 {
        8
    } else if banks <= 16 {
        16
    } else if banks <= 32 {
        32
    } else if banks <= 64 {
        64
    } else if banks <= 128 {
        128
    } else {
        256
    }
}

/// The ROM bank that a request for `bank` selects: zero stands for one, and
/// the bits that the image has no banks for are dropped.
pub open spec fn selected_bank(banks: int, bank: int) -> int {
    (if bank == 0 { 1 } else { bank }) % bank_modulus(banks)
}

pub struct Rom {
    pub data: Vec<u8>,
    /// Number of banks composing the ROM.
    pub banks: u16,
    /// The bank that the upper window shows.
    pub curr_bank: u8,
}

impl Rom {
    /// The byte at an offset into the image. Past the image's end nothing
    /// answers, and the bus reads all ones.
    pub open spec fn byte_at(self, addr: int) -> u8 {
        if 0 <= addr < self.data@.len() {
            self.data@[addr]
        } else {
            0xFF
        }
    }

    /// The byte at an offset into the selected bank.
    pub open spec fn bank_byte(self, offset: int) -> u8 {
        self.byte_at(self.curr_bank * ROM_BANK_SIZE + offset)
    }

    pub open spec fn with_bank(self, bank: int) -> Rom {
        Rom { curr_bank: selected_bank(self.banks as int, bank) as u8, ..self }
    }

    /// The ROM after the two upper bits of the bank number were set to the low
    /// two bits of `ext`.
    pub open spec fn with_bank_extended(self, ext: u8) -> Rom {
        Rom {
            curr_bank: ((self.curr_bank % 32 + (ext % 4) * 32) % bank_modulus(
                self.banks as int,
            )) as u8,
            ..self
        }
    }

    pub fn new(data: Vec<u8>, banks: u16) -> (r: Self)
        ensures
            r.data == data,
            r.banks == banks,
            r.curr_bank == 1,
    {
        Rom { data, banks, curr_bank: 1 }
    }

    fn modulus(&self) -> (r: u16)
        ensures
            r == bank_modulus(self.banks as int),
    {
        let banks = self.banks;
        if banks <= 1 {
            1
        } else if banks <= 2 {
            2
        } else if banks <= 4 {
            4
        } else if banks <= 8 {
            8
        } else if banks <= 16 {
            16
        } else if banks <= 32 {
            32
        } else if banks <= 64 {
            64
        } else if banks <= 128 {
            128
        } else {
            256
        }
    }

    /// Reads data at an absolute address.
    pub fn at(&self, addr: usize) -> (r: u8)
        ensures
            r == self.byte_at(addr as int),
    {
        if addr < self.data.len() {
            self.data[addr]
        } else {
            0xFF
        }
    }

    /// Reads data relative to the currently selected bank.
    pub fn at_current_bank(&self, addr: u16) -> (r: u8)
        ensures
            r == self.bank_byte(addr as int),
    {
        self.at(self.curr_bank as usize * ROM_BANK_SIZE + addr as usize)
    }

    pub fn set_bank(&mut self, bank: u8)
        ensures
            *final(self) == old(self).with_bank(bank as int),
    {
        let bank: u16 = if bank == 0 { 1 } else { bank as u16 };
        self.curr_bank = (bank % self.modulus()) as u8;
    }

    /// Sets the upper two bits of the current bank selection.
    pub fn set_bank_extended(&mut self, ext: u8)
        ensures
            *final(self) == old(self).with_bank_extended(ext),
    {
        let low = BitFlags8(self.curr_bank).get_range(RangeInclusive::new(0, 4));
        let high = BitFlags8(ext).get_range(RangeInclusive::new(0, 1));
        let bank: u16 = low as u16 + (high as u16) * 32;
        self.curr_bank = (bank % self.modulus()) as u8;
    }
}

pub struct Ram {
    pub data: Box<[u8; 0x20000]>,
    /// Number of banks that the cartridge really has.
    pub banks: u8,
    pub curr_bank: u8,
    pub enabled: bool,
}

impl Ram {
    pub open spec fn wf(self) -> bool {
        self.banks <= 16 && self.curr_bank < 16
    }

    /// Whether a byte at `addr` exists and may be touched now.
    pub open spec fn reachable(self, addr: int) -> bool {
        self.enabled && 0 <= addr < self.banks * RAM_BANK_SIZE
    }

    pub open spec fn byte_at(self, addr: int) -> u8 {
        if self.reachable(addr) {
            self.data[addr]
        } else {
            0xFF
        }
    }

    pub open spec fn bank_byte(self, offset: int) -> u8 {
        self.byte_at(self.curr_bank * RAM_BANK_SIZE + offset)
    }

    pub open spec fn written(self, addr: int, val: u8) -> Ram {
        if self.reachable(addr) {
            Ram { data: Box::new(vstd::array::spec_array_update(*self.data, addr, val)), ..self }
        } else {
            self
        }
    }

    pub open spec fn bank_written(self, offset: int, val: u8) -> Ram {
        self.written(self.curr_bank * RAM_BANK_SIZE + offset, val)
    }

    pub fn new(banks: u8) -> (r: Self)
        requires
            banks <= 16,
        ensures
            r.wf(),
            r.banks == banks,
            r.curr_bank == 0,
            !r.enabled,
            forall|i: int| 0 <= i < RAM_CAPACITY ==> r.data[i] == 0,
    {
        Ram { data: Box::new([0u8; 0x20000]), banks, curr_bank: 0, enabled: false }
    }

    /// Reads data at an absolute address.
    pub fn read(&self, addr: usize) -> (r: u8)
        requires
            self.wf(),
        ensures
            r == self.byte_at(addr as int),
    {
        if self.enabled && addr < self.banks as usize * RAM_BANK_SIZE {
            self.data[addr]
        } else {
            0xFF
        }
    }

    /// Reads data relative to the currently selected bank.
    pub fn read_current_bank(&self, addr: u16) -> (r: u8)
        requires
            self.wf(),
        ensures
            r == self.bank_byte(addr as int),
    {
        self.read(self.curr_bank as usize * RAM_BANK_SIZE + addr as usize)
    }

    /// Writes data at an absolute address.
    pub fn write(&mut self, addr: usize, val: u8)
        requires
            old(self).wf(),
        ensures
            *final(self) == old(self).written(addr as int, val),
            final(self).wf(),
    {
        if self.enabled && addr < self.banks as usize * RAM_BANK_SIZE {
            self.data[addr] = val;
        }
    }

    /// Writes data relative to the currently selected bank.
    pub fn write_current_bank(&mut self, addr: u16, val: u8)
        requires
            old(self).wf(),
        ensures
            *final(self) == old(self).bank_written(addr as int, val),
            final(self).wf(),
    {
        self.write(self.curr_bank as usize * RAM_BANK_SIZE + addr as usize, val)
    }

    /// Selects a bank by the four low bits of `bank`.
    pub fn set_current_bank(&mut self, bank: u8)
        ensures
            *final(self) == (Ram { curr_bank: bank % 16, ..*old(self) }),
            old(self).wf() ==> final(self).wf(),
    {
        self.curr_bank = bank % 16;
    }
}

/// The flags of the clock: the ninth bit of the day counter, whether the
/// clock is stopped, whether the day counter has overflowed.
#[derive(Clone, Copy, Debug, PartialEq, Eq, Structural)]
pub struct RtcBoolRegisters(pub u8);

impl RtcBoolRegisters {
    pub fn days_upper(&self) -> (r: bool)
        ensures
            r == bit_of(self.0, 0),
    {
        bitmap_get(self.0, 0)
    }

    pub fn enabled(&self) -> (r: bool)
        ensures
            r == bit_of(self.0, 6),
    {
        bitmap_get(self.0, 6)
    }

    pub fn days_overflowed(&self) -> (r: bool)
        ensures
            r == bit_of(self.0, 7),
    {
        bitmap_get(self.0, 7)
    }

    pub fn set_days_upper(&mut self, val: bool)
        ensures
            final(self).0 == if val { set_bit(old(self).0, 0) } else { clear_bit(old(self).0, 0) },
    {
        self.0 = bitmap_set(self.0, 0, val);
    }

    pub fn set_enabled(&mut self, val: bool)
        ensures
            final(self).0 == if val { set_bit(old(self).0, 6) } else { clear_bit(old(self).0, 6) },
    {
        self.0 = bitmap_set(self.0, 6, val);
    }

    pub fn set_days_overflowed(&mut self, val: bool)
        ensures
            final(self).0 == if val { set_bit(old(self).0, 7) } else { clear_bit(old(self).0, 7) },
    {
        self.0 = bitmap_set(self.0, 7, val);
    }
}

#[derive(Clone, Copy, Debug, PartialEq, Eq, Structural)]
pub struct RtcRegisters {
    pub seconds: u8,
    pub minutes: u8,
    pub hours: u8,
    /// Lower bits of the day counter. The ninth bit is in `bools`.
    pub days_lower: u8,
    pub bools: RtcBoolRegisters,
}

impl RtcRegisters {
    pub open spec fn register(self, idx: int) -> u8 {
        if idx == 0 {
            self.seconds
        } else if idx == 1 {
            self.minutes
        } else if idx == 2 {
            self.hours
        } else if idx == 3 {
            self.days_lower
        } else {
            self.bools.0
        }
    }

    pub open spec fn written(self, idx: int, val: u8) -> RtcRegisters {
        if idx == 0 {
            RtcRegisters { seconds: val, ..self }
        } else if idx == 1 {
            RtcRegisters { minutes: val, ..self }
        } else if idx == 2 {
            RtcRegisters { hours: val, ..self }
        } else if idx == 3 {
            RtcRegisters { days_lower: val, ..self }
        } else {
            RtcRegisters { bools: RtcBoolRegisters(val), ..self }
        }
    }
}

/// The clock of a cartridge. Software writes the running registers and reads
/// the copy that the last latch took of them.
#[derive(Clone, Copy, Debug, PartialEq, Eq, Structural)]
pub struct Rtc {
    pub registers: RtcRegisters,
    pub exposed: RtcRegisters,
    pub curr_register: u8,
    pub latched: bool,
    pub enabled: bool,
}

impl Rtc {
    pub open spec fn wf(self) -> bool {
        self.curr_register < 5
    }

    pub open spec fn initial() -> Rtc {
        let zero = RtcRegisters {
            seconds: 0,
            minutes: 0,
            hours: 0,
            days_lower: 0,
            bools: RtcBoolRegisters(0),
        };
        Rtc { registers: zero, exposed: zero, curr_register: 0, latched: false, enabled: true }
    }

    /// What software reads of the selected register.
    pub open spec fn current(self) -> u8 {
        if self.enabled {
            self.exposed.register(self.curr_register as int)
        } else {
            0xFF
        }
    }

    pub open spec fn current_written(self, val: u8) -> Rtc {
        if self.enabled {
            Rtc { registers: self.registers.written(self.curr_register as int, val), ..self }
        } else {
            self
        }
    }

    /// The clock after the latch line was driven: a rise copies the running
    /// registers to the exposed ones.
    pub open spec fn with_latch(self, latched: bool) -> Rtc {
        Rtc {
            exposed: if !self.latched && latched { self.registers } else { self.exposed },
            latched,
            ..self
        }
    }

    pub fn new() -> (r: Self)
        ensures
            r == Self::initial(),
            r.wf(),
    {
        let zero = RtcRegisters {
            seconds: 0,
            minutes: 0,
            hours: 0,
            days_lower: 0,
            bools: RtcBoolRegisters(0),
        };
        Rtc { registers: zero, exposed: zero, curr_register: 0, latched: false, enabled: true }
    }

    pub fn read_register(&self, idx: usize) -> (r: u8)
        requires
            idx < 5,
        ensures
            r == self.exposed.register(idx as int),
    {
        match idx {
            0 => self.exposed.seconds,
            1 => self.exposed.minutes,
            2 => self.exposed.hours,
            3 => self.exposed.days_lower,
            _ => self.exposed.bools.0,
        }
    }

    pub fn write_register(&mut self, idx: usize, val: u8)
        requires
            idx < 5,
        ensures
            *final(self) == (Rtc { registers: old(self).registers.written(idx as int, val), ..*old(self) }),
    {
        match idx {
            0 => self.registers.seconds = val,
            1 => self.registers.minutes = val,
            2 => self.registers.hours = val,
            3 => self.registers.days_lower = val,
            _ => self.registers.bools = RtcBoolRegisters(val),
        }
    }

    pub fn read_current_register(&self) -> (r: u8)
        requires
            self.wf(),
        ensures
            r == self.current(),
    {
        if !self.enabled {
            return 0xFF;
        }
        self.read_register(self.curr_register as usize)
    }

    pub fn write_current_register(&mut self, val: u8)
        requires
            old(self).wf(),
        ensures
            *final(self) == old(self).current_written(val),
    {
        if !self.enabled {
            return ;
        }
        self.write_register(self.curr_register as usize, val)
    }

    pub fn set_current_register(&mut self, reg: u8)
        requires
            reg < 5,
        ensures
            *final(self) == (Rtc { curr_register: reg, ..*old(self) }),
    {
        self.curr_register = reg;
    }

    /// Drives the latch line. The running registers are copied to the exposed
    /// ones only when the line rises.
    pub fn set_latched(&mut self, latched: bool)
        ensures
            *final(self) == old(self).with_latch(latched),
    {
        if !self.latched && latched {
            self.exposed = self.registers;
        }
        self.latched = latched;
    }
}

/// What the 0x4000 register of the first controller family selects.
#[derive(Clone, Copy, Debug, PartialEq, Eq, Structural)]
pub enum BankingMode {
    /// The register holds the two upper bits of the ROM bank.
    Rom,
    /// The register holds the RAM bank.
    Ram,
}

/// The memories of a cartridge and what its controller has selected in them.
pub struct Banks {
    pub rom: Rom,
    pub ram: Ram,
    pub rtc: Rtc,
    pub banking_mode: BankingMode,
}

impl Banks {
    pub open spec fn wf(self) -> bool {
        self.ram.wf() && self.rtc.wf()
    }

    /// Whether the cartridge is too small for the 0x4000 register and the
    /// banking mode to mean anything.
    pub open spec fn small(self) -> bool {
        self.rom.banks <= 32 && self.ram.banks <= 1
    }

    pub fn new(data: Vec<u8>, rom_banks: u16, ram_banks: u8) -> (r: Self)
        requires
            ram_banks <= 16,
        ensures
            r.wf(),
            r.rom.data == data,
            r.rom.banks == rom_banks,
            r.rom.curr_bank == 1,
            r.ram.banks == ram_banks,
            r.ram.curr_bank == 0,
            !r.ram.enabled,
            forall|i: int| 0 <= i < RAM_CAPACITY ==> r.ram.data[i] == 0,
            r.rtc == Rtc::initial(),
            r.banking_mode == BankingMode::Rom,
    {
        Banks {
            rom: Rom::new(data, rom_banks),
            ram: Ram::new(ram_banks),
            rtc: Rtc::new(),
            banking_mode: BankingMode::Rom,
        }
    }

    pub fn is_small(&self) -> (r: bool)
        ensures
            r == self.small(),
    {
        self.rom.banks <= 32 && self.ram.banks <= 1
    }
}

/// What the header of an image announces.
pub struct HeaderFields {
    pub cartridge_type: u8,
    pub mbc: Mbc,
    pub has_battery: bool,
    pub rom_banks: int,
    pub ram_banks: int,
}

/// What the header of `image` announces, or what is wrong with it. The
/// first fault found decides: a header cut short, the type, the ROM size,
/// the RAM size, an image shorter than its ROM banks.
pub open spec fn parse_header(image: Seq<u8>) -> Result<HeaderFields, Error> {
    if image.len() < HEADER_END {
        Err(Error::TruncatedImage)
    } else {
        let type_code = image[0x147];
        let rom_code = image[0x148];
        let ram_code = image[0x149];
        if mbc_of(type_code) is None {
            Err(Error::UnsupportedCartridgeType(type_code))
        } else if rom_banks_of(rom_code) is None {
            Err(Error::UnsupportedRomSize(rom_code))
        } else if ram_banks_of(ram_code, type_code) is None {
            Err(Error::UnsupportedRamSize(ram_code))
        } else if image.len() < rom_banks_of(rom_code).unwrap() * ROM_BANK_SIZE {
            Err(Error::TruncatedImage)
        } else {
            Ok(
                HeaderFields {
                    cartridge_type: type_code,
                    mbc: mbc_of(type_code).unwrap(),
                    has_battery: battery_of(type_code),
                    rom_banks: rom_banks_of(rom_code).unwrap(),
                    ram_banks: ram_banks_of(ram_code, type_code).unwrap(),
                },
            )
        }
    }
}

pub struct Cartridge {
    pub hw: Banks,
    /// Whether the cartridge keeps its RAM and clock alive with a battery.
    pub has_battery: bool,
    pub mbc: Mbc,
}

impl Cartridge {
    pub open spec fn wf(self) -> bool {
        self.hw.wf()
    }

    /// What the bus reads from the cartridge at `addr`.
    pub open spec fn byte_at(self, addr: u16) -> u8 {
        self.mbc.read_spec(self.hw, addr)
    }

    /// The cartridge after the bus wrote `val` to `addr`.
    pub open spec fn written(self, addr: u16, val: u8) -> Cartridge {
        let (mbc, hw) = self.mbc.write_spec(self.hw, addr, val);
        Cartridge { hw, mbc, ..self }
    }

    /// Builds a cartridge according to the header that its image holds.
    pub fn new_from_header(data: Vec<u8>) -> (r: Result<Self, Error>)
        ensures
            match parse_header(data@) {
                Ok(fields) => {
                    &&& r is Ok
                    &&& r->Ok_0.wf()
                    &&& r->Ok_0.mbc == fields.mbc
                    &&& r->Ok_0.has_battery == fields.has_battery
                    &&& r->Ok_0.hw.rom.data == data
                    &&& r->Ok_0.hw.rom.banks == fields.rom_banks
                    &&& r->Ok_0.hw.rom.curr_bank == 1
                    &&& r->Ok_0.hw.ram.banks == fields.ram_banks
                    &&& r->Ok_0.hw.ram.curr_bank == 0
                    &&& !r->Ok_0.hw.ram.enabled
                    &&& forall|i: int| 0 <= i < RAM_CAPACITY ==> r->Ok_0.hw.ram.data[i] == 0
                    &&& r->Ok_0.hw.rtc == Rtc::initial()
                    &&& r->Ok_0.hw.banking_mode == BankingMode::Rom
                },
                Err(e) => r is Err && r->Err_0 == e,
            },
    {
        if data.len() < HEADER_END {
            return Err(Error::TruncatedImage);
        }
        let cartridge_type = match header::cartridge_type(data.as_slice()) {
            Ok(t) => t,
            Err(e) => {
                return Err(e);
            },
        };
        let mbc = match cartridge_type.mbc() {
            Ok(m) => m,
            Err(e) => {
                return Err(e);
            },
        };
        let rom_banks = match header::rom_banks(data.as_slice()) {
            Ok(b) => b,
            Err(e) => {
                return Err(e);
            },
        };
        let ram_banks = match header::ram_banks(data.as_slice(), cartridge_type) {
            Ok(b) => b,
            Err(e) => {
                return Err(e);
            },
        };
        if data.len() < rom_banks as usize * ROM_BANK_SIZE {
            return Err(Error::TruncatedImage);
        }
        Ok(
            Cartridge {
                hw: Banks::new(data, rom_banks, ram_banks),
                has_battery: cartridge_type.has_battery(),
                mbc,
            },
        )
    }

    pub fn read(&self, addr: u16) -> (r: u8)
        requires
            self.wf(),
            in_window(addr),
        ensures
            r == self.byte_at(addr),
    {
        self.mbc.read(&self.hw, addr)
    }

    pub fn write(&mut self, addr: u16, val: u8)
        requires
            old(self).wf(),
            in_window(addr),
        ensures
            final(self).wf(),
            *final(self) == old(self).written(addr, val),
    {
        self.mbc.write(&mut self.hw, addr, val)
    }
}

} // verus!
