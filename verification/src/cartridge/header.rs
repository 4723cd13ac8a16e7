//! The fields of the cartridge header that decide how the cartridge is
//! emulated: memory controller, ROM and RAM size, battery.

use crate::cartridge::mbc::mbc3::Status;
use crate::cartridge::mbc::Mbc;
use crate::error::Error;
use vstd::prelude::*;

verus! {

/// Where the header keeps the cartridge type.
pub const TYPE_OFFSET: usize = 0x147;

/// Where the header keeps the ROM size code.
pub const ROM_SIZE_OFFSET: usize = 0x148;

/// Where the header keeps the RAM size code.
pub const RAM_SIZE_OFFSET: usize = 0x149;

/// The family of memory controllers a cartridge type code belongs to.
pub open spec fn mbc_of(code: u8) -> Option<Mbc> {
    if code == 0x00 || code == 0x08 || code == 0x09 {
        Some(Mbc::Mbc0)
    } else if 0x01 <= code <= 0x03 {
        Some(Mbc::Mbc1)
    } else if 0x05 <= code <= 0x06 {
        Some(Mbc::Mbc2)
    } else if 0x0F <= code <= 0x13 {
        Some(Mbc::Mbc3(Status::initial()))
    } else {
        None
    }
}

/// Whether a cartridge type code announces a battery.
pub open spec fn battery_of(code: u8) -> bool {
    code == 0x03 || code == 0x06 || code == 0x09 || code == 0x0D || code == 0x0F || code == 0x10
        || code == 0x13 || code == 0x1B || code == 0x1E || code == 0x22
}

/// Two to the power `n`, for the exponents a size code can hold.
pub open spec fn pow2(n: nat) -> int
    decreases n,
{
    if n == 0 {
        1
    } else {
        2 * pow2((n - 1) as nat)
    }
}

/// The number of ROM banks a size code stands for.
pub open spec fn rom_banks_of(code: u8) -> Option<int> {
    if code <= 0x08 {
        Some(pow2(code as nat) + 1)
    } else if code == 0x52 {
        Some(72)
    } else if code == 0x53 {
        Some(80)
    } else if code == 0x54 {
        Some(96)
    } else {
        None
    }
}

/// The number of RAM banks a size code stands for, on a cartridge of the
/// given type.
pub open spec fn ram_banks_of(code: u8, cartridge_type: u8) -> Option<int> {
    if code == 0x00 {
        if 0x05 <= cartridge_type <= 0x06 {
            Some(1)
        } else {
            Some(0)
        }
    } else if code == 0x02 {
        Some(1)
    } else if code == 0x03 {
        Some(4)
    } else if code == 0x04 {
        Some(16)
    } else if code == 0x05 {
        Some(8)
    } else {
        None
    }
}

#[derive(Clone, Copy, Debug, PartialEq, Eq, Structural)]
pub struct CartridgeType(pub u8);

impl CartridgeType {
    pub fn mbc(&self) -> (r: Result<Mbc, Error>)
        ensures
            r == match mbc_of(self.0) {
                Some(mbc) => Ok::<Mbc, Error>(mbc),
                None => Err(Error::UnsupportedCartridgeType(self.0)),
            },
    {
        let code = self.0;
        if code == 0x00 || code == 0x08 || code == 0x09 {
            Ok(Mbc::Mbc0)
        } else if 0x01 <= code && code <= 0x03 {
            Ok(Mbc::Mbc1)
        } else if 0x05 <= code && code <= 0x06 {
            Ok(Mbc::Mbc2)
        } else if 0x0F <= code && code <= 0x13 {
            Ok(Mbc::Mbc3(Status::new()))
        } else {
            Err(Error::UnsupportedCartridgeType(code))
        }
    }

    pub fn has_battery(&self) -> (r: bool)
        ensures
            r == battery_of(self.0),
    {
        let code = self.0;
        code == 0x03 || code == 0x06 || code == 0x09 || code == 0x0D || code == 0x0F || code == 0x10
            || code == 0x13 || code == 0x1B || code == 0x1E || code == 0x22
    }
}

/// Reads the cartridge type out of an image.
pub fn cartridge_type(data: &[u8]) -> (r: Result<CartridgeType, Error>)
    ensures
        r == if data@.len() > TYPE_OFFSET {
            Ok::<CartridgeType, Error>(CartridgeType(data@[TYPE_OFFSET as int]))
        } else {
            Err(Error::TruncatedImage)
        },
{
    if data.len() > TYPE_OFFSET {
        Ok(CartridgeType(data[TYPE_OFFSET]))
    } else {
        Err(Error::TruncatedImage)
    }
}

/// Reads the number of ROM banks out of an image.
pub fn rom_banks(data: &[u8]) -> (r: Result<u16, Error>)
    ensures
        data@.len() <= ROM_SIZE_OFFSET ==> r == Err::<u16, Error>(Error::TruncatedImage),
        data@.len() > ROM_SIZE_OFFSET ==> match rom_banks_of(data@[ROM_SIZE_OFFSET as int]) {
            Some(banks) => r is Ok && r->Ok_0 == banks,
            None => r == Err::<u16, Error>(Error::UnsupportedRomSize(data@[ROM_SIZE_OFFSET as int])),
        },
{
    if data.len() <= ROM_SIZE_OFFSET {
        return Err(Error::TruncatedImage);
    }
    let code = data[ROM_SIZE_OFFSET];
    if code <= 0x08 {
        let mut banks: u16 = 1;
        let mut i: u8 = 0;
        while i < code
            invariant
                i <= code <= 8,
                banks == pow2(i as nat),
                banks <= 256,
            decreases code - i,
        {
            assert(pow2(8) == 256) by {
                reveal_with_fuel(pow2, 9);
            }
            assert(pow2(i as nat) <= 128) by {
                lemma_pow2_monotonic(i as nat, 7);
                reveal_with_fuel(pow2, 8);
            }
            banks = banks * 2;
            i = i + 1;
        }
        Ok(banks + 1)
    } else if code == 0x52 {
        Ok(72)
    } else if code == 0x53 {
        Ok(80)
    } else if code == 0x54 {
        Ok(96)
    } else {
        Err(Error::UnsupportedRomSize(code))
    }
}

/// Reads the number of RAM banks out of an image.
pub fn ram_banks(data: &[u8], cartridge_type: CartridgeType) -> (r: Result<u8, Error>)
    ensures
        data@.len() <= RAM_SIZE_OFFSET ==> r == Err::<u8, Error>(Error::TruncatedImage),
        data@.len() > RAM_SIZE_OFFSET ==> match ram_banks_of(
            data@[RAM_SIZE_OFFSET as int],
            cartridge_type.0,
        ) {
            Some(banks) => r is Ok && r->Ok_0 == banks,
            None => r == Err::<u8, Error>(Error::UnsupportedRamSize(data@[RAM_SIZE_OFFSET as int])),
        },
{
    if data.len() <= RAM_SIZE_OFFSET {
        return Err(Error::TruncatedImage);
    }
    let code = data[RAM_SIZE_OFFSET];
    if code == 0x00 {
        if 0x05 <= cartridge_type.0 && cartridge_type.0 <= 0x06 {
            Ok(1)
        } else {
            Ok(0)
        }
    } else if code == 0x02 {
        Ok(1)
    } else if code == 0x03 {
        Ok(4)
    } else if code == 0x04 {
        Ok(16)
    } else if code == 0x05 {
        Ok(8)
    } else {
        Err(Error::UnsupportedRamSize(code))
    }
}

/// A larger exponent gives a power at least as large.
proof fn lemma_pow2_monotonic(a: nat, b: nat)
    requires
        a <= b,
    ensures
        pow2(a) <= pow2(b),
        pow2(a) >= 1,
    decreases b,
{
    if a < b {
        lemma_pow2_monotonic(a, (b - 1) as nat);
    } else if a > 0 {
        lemma_pow2_monotonic((a - 1) as nat, (b - 1) as nat);
    }
}

} // verus!
