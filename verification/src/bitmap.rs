//! Single bits of a byte, read and written through the `bitmaps` crate.

use crate::bitflags::{bit_of, clear_bit, set_bit};
use bitmaps::Bitmap;
use vstd::prelude::*;

verus! {

/// Not proved, but read off the source of `bitmaps`: a bitmap of eight bits
/// made with `Bitmap::from_value` holds `value` as it is, and `Bitmap::get`
/// tells whether the bit at `index` of it is set. The crate asserts that the
/// index is below the width of the bitmap, so it must be below eight.
#[verifier::external_body]
pub(crate) fn bitmap_get(value: u8, index: usize) -> (r: bool)
    requires
        index < 8,
    ensures
        r == bit_of(value, index as int),
{
    Bitmap::<8>::from_value(value).get(index)
}

/// Not proved, but read off the source of `bitmaps`: `Bitmap::set` sets or
/// clears the bit at `index` of the byte that the bitmap was made from with
/// `Bitmap::from_value` and leaves the other bits as they are, and
/// `Bitmap::into_value` hands the byte back. The index must be below eight,
/// as for `bitmap_get`.
#[verifier::external_body]
pub(crate) fn bitmap_set(value: u8, index: usize, bit: bool) -> (r: u8)
    requires
        index < 8,
    ensures
        r == if bit { set_bit(value, index as int) } else { clear_bit(value, index as int) },
{
    let mut bitmap = Bitmap::<8>::from_value(value);
    bitmap.set(index, bit);
    bitmap.into_value()
}

} // verus!
