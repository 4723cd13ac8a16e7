//! The memory bank controllers: how a cartridge routes the two windows that
//! the bus gives it to its ROM, its RAM and its clock.

pub mod mbc0;
pub mod mbc1;
pub mod mbc2;
pub mod mbc3;

use crate::cartridge::mbc::mbc3::Status;
use crate::cartridge::{in_window, Banks};
use vstd::prelude::*;

verus! {

/// The logic that a cartridge follows according to its hardware.
#[derive(Clone, Copy, Debug, PartialEq, Eq, Structural)]
pub enum Mbc {
    Mbc0,
    Mbc1,
    Mbc2,
    Mbc3(Status),
}

impl Mbc {
    pub open spec fn read_spec(self, mem: Banks, addr: u16) -> u8 {
        match self {
            Mbc::Mbc0 => mbc0::byte_at(mem, addr),
            Mbc::Mbc1 => mbc1::byte_at(mem, addr),
            Mbc::Mbc2 => mbc2::byte_at(mem, addr),
            Mbc::Mbc3(status) => mbc3::byte_at(status, mem, addr),
        }
    }

    pub open spec fn write_spec(self, mem: Banks, addr: u16, val: u8) -> (Mbc, Banks) {
        match self {
            Mbc::Mbc0 => (self, mem),
            Mbc::Mbc1 => (self, mbc1::written(mem, addr, val)),
            Mbc::Mbc2 => (self, mbc2::written(mem, addr, val)),
            Mbc::Mbc3(status) => {
                let (status, mem) = mbc3::written(status, mem, addr, val);
                (Mbc::Mbc3(status), mem)
            },
        }
    }

    pub fn read(&self, mem: &Banks, addr: u16) -> (r: u8)
        requires
            mem.wf(),
            in_window(addr),
        ensures
            r == self.read_spec(*mem, addr),
            addr < 0x4000 ==> r == mem.rom.byte_at(addr as int),
    {
        match self {
            Mbc::Mbc0 => mbc0::read(mem, addr),
            Mbc::Mbc1 => mbc1::read(mem, addr),
            Mbc::Mbc2 => mbc2::read(mem, addr),
            Mbc::Mbc3(status) => mbc3::read(*status, mem, addr),
        }
    }

    pub fn write(&mut self, mem: &mut Banks, addr: u16, val: u8)
        requires
            old(mem).wf(),
            in_window(addr),
        ensures
            final(mem).wf(),
            (*final(self), *final(mem)) == old(self).write_spec(*old(mem), addr, val),
    {
        match self {
            Mbc::Mbc0 => (),
            Mbc::Mbc1 => mbc1::write(mem, addr, val),
            Mbc::Mbc2 => mbc2::write(mem, addr, val),
            Mbc::Mbc3(status) => mbc3::write(status, mem, addr, val),
        }
    }
}

/// Whatever the controller and whatever was written to it, the lower ROM
/// window shows the first bank of the image.
pub proof fn lemma_low_window_is_first_bank(mbc: Mbc, mem: Banks, addr: u16, at: u16, val: u8)
    requires
        addr < 0x4000,
        in_window(at),
    ensures
        mbc.read_spec(mem, addr) == mem.rom.byte_at(addr as int),
        ({
            let (next, after) = mbc.write_spec(mem, at, val);
            next.read_spec(after, addr) == mbc.read_spec(mem, addr)
        }),
{
}

} // verus!
