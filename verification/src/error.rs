//! What can be wrong with a cartridge image.

use vstd::prelude::*;

verus! {

/// A fault found in a cartridge image before it is run.
#[derive(Clone, Copy, Debug, PartialEq, Eq, Structural)]
pub enum Error {
    /// The image ends before its header does, or holds fewer banks than the
    /// header announces.
    TruncatedImage,
    /// The header names a memory controller that is not emulated.
    UnsupportedCartridgeType(u8),
    /// The header's ROM size code is not a known one.
    UnsupportedRomSize(u8),
    /// The header's RAM size code is not a known one.
    UnsupportedRamSize(u8),
}

impl Error {
    /// The header byte that was refused, if one was.
    pub fn code(&self) -> (r: Option<u8>)
        ensures
            r == match *self {
                Error::TruncatedImage => None,
                Error::UnsupportedCartridgeType(c) => Some(c),
                Error::UnsupportedRomSize(c) => Some(c),
                Error::UnsupportedRamSize(c) => Some(c),
            },
    {
        match *self {
            Error::TruncatedImage => None,
            Error::UnsupportedCartridgeType(c) => Some(c),
            Error::UnsupportedRomSize(c) => Some(c),
            Error::UnsupportedRamSize(c) => Some(c),
        }
    }
}

} // verus!
