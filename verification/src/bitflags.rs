//! Typed access to single bits and inclusive bit ranges of a byte.

use std::ops::RangeInclusive;
use vstd::prelude::*;
use vstd::std_specs::convert::FromSpecImpl;

verus! {

/// Not proved, but taken from the documentation of the standard library:
/// `RangeInclusive::start` hands out the lower bound that the range was
/// made with.
pub assume_specification<Idx>[ RangeInclusive::<Idx>::start ](r: &RangeInclusive<Idx>) -> (ret: &Idx)
    ensures
        *ret == r@.start,
;

/// Not proved, but taken from the documentation of the standard library:
/// `RangeInclusive::end` hands out the upper bound that the range was made
/// with.
pub assume_specification<Idx>[ RangeInclusive::<Idx>::end ](r: &RangeInclusive<Idx>) -> (ret: &Idx)
    ensures
        *ret == r@.end,
;

/// Whether bit `index` of `byte` is set.
pub open spec fn bit_of(byte: u8, index: int) -> bool {
    (byte as int / pow2_8(index)) % 2 == 1
}

/// Two to the power `n`, for the exponents a byte can use.
pub open spec fn pow2_8(n: int) -> int {
    if n <= 0 {
        1
    } else if n == 1 {
        2
    } else if n == 2 {
        4
    } else if n == 3 {
        8
    } else if n == 4 {
        16
    } else if n == 5 {
        32
    } else if n == 6 {
        64
    } else if n == 7 {
        128
    } else {
        256
    }
}

/// The bits `lo..=hi` of `byte`, right-aligned.
pub open spec fn field_of(byte: u8, lo: int, hi: int) -> int {
    (byte as int / pow2_8(lo)) % pow2_8(hi - lo + 1)
}

/// `byte` with the bits `lo..=hi` replaced by the low bits of `value`.
pub open spec fn with_field(byte: u8, lo: int, hi: int, value: u8) -> int {
    byte as int - field_of(byte, lo, hi) * pow2_8(lo)
        + (value as int % pow2_8(hi - lo + 1)) * pow2_8(lo)
}

/// `byte` with bit `index` set.
pub open spec fn set_bit(byte: u8, index: int) -> u8 {
    if bit_of(byte, index) {
        byte
    } else {
        (byte + pow2_8(index)) as u8
    }
}

/// `byte` with bit `index` cleared.
pub open spec fn clear_bit(byte: u8, index: int) -> u8 {
    if bit_of(byte, index) {
        (byte - pow2_8(index)) as u8
    } else {
        byte
    }
}

#[derive(Clone, Copy, Debug, PartialEq, Eq, Structural)]
pub struct BitFlags8(pub u8);

impl BitFlags8 {
    pub fn get(&self, index: usize) -> (r: bool)
        requires
            index < 8,
        ensures
            r == bit_of(self.0, index as int),
    {
        let mask: u8 = 1u8 << index;
        proof {
            let b = self.0;
            let i = index;
            assert(i < 8 ==> (((b & (1u8 << i)) != 0) <==> ((b as int / pow2_8(i as int)) % 2 == 1)))
                by (bit_vector);
        }
        self.0 & mask != 0
    }

    pub fn get_range(&self, range: RangeInclusive<usize>) -> (r: u8)
        requires
            range@.start <= range@.end < 8,
        ensures
            r == field_of(self.0, range@.start as int, range@.end as int),
    {
        let lo: usize = *range.start();
        let hi: usize = *range.end();
        let width: usize = hi - lo + 1;
        let byte: u8 = self.0;
        proof {
            assert(lo < 8 && 1 <= width <= 8 - lo ==> (1u16 << width) >= 1 && (((byte >> lo) as u16)
                & (((1u16 << width) - 1) as u16)) == (byte as int / pow2_8(lo as int)) % pow2_8(
                width as int,
            )) by (bit_vector);
        }
        let mask: u16 = (1u16 << width) - 1;
        (((byte >> lo) as u16) & mask) as u8
    }

    pub fn set_range(&mut self, range: RangeInclusive<usize>, value: u8)
        requires
            range@.start <= range@.end < 8,
        ensures
            final(self).0 == with_field(old(self).0, range@.start as int, range@.end as int, value),
            field_of(final(self).0, range@.start as int, range@.end as int) == value as int
                % pow2_8(range@.end - range@.start + 1),
            forall|i: int|
                0 <= i < 8 && !(range@.start <= i <= range@.end) ==> bit_of(final(self).0, i)
                    == bit_of(old(self).0, i),
    {
        let lo: usize = *range.start();
        let hi: usize = *range.end();
        let width: usize = hi - lo + 1;
        let byte: u8 = self.0;
        proof {
            assert(lo < 8 && 1 <= width <= 8 - lo ==> (1u16 << width) >= 1) by (bit_vector);
        }
        let mask: u16 = (1u16 << width) - 1;
        let cleared: u16 = (byte as u16) & !(mask << lo);
        let placed: u16 = ((value as u16) & mask) << lo;
        let merged: u16 = cleared | placed;
        proof {
            lemma_set_range(byte, lo, width, value);
            assert forall|i: int| 0 <= i < 8 && !(lo <= i <= hi) implies bit_of(merged as u8, i)
                == bit_of(byte, i) by {
                let j = i as u8;
                assert(bit_of(merged as u8, j as int) == bit_of(byte, j as int));
            }
        }
        self.0 = merged as u8;
    }
}

/// What masking, shifting and merging do to a byte, in terms of its bits.
proof fn lemma_set_range(byte: u8, lo: usize, width: usize, value: u8)
    by (bit_vector)
    requires
        lo < 8,
        1 <= width <= 8 - lo,
    ensures
        ({
            let mask = ((1u16 << width) - 1) as u16;
            let merged = ((byte as u16) & !(mask << lo)) | (((value as u16) & mask) << lo);
            &&& merged < 256
            &&& merged == with_field(byte, lo as int, lo + width - 1, value)
            &&& field_of(merged as u8, lo as int, lo + width - 1) == value as int % pow2_8(
                width as int,
            )
            &&& forall|i: u8|
                i < 8 && !(lo <= i <= lo + width - 1) ==> bit_of(merged as u8, i as int) == bit_of(
                    byte,
                    i as int,
                )
        }),
{
}

impl From<u8> for BitFlags8 {
    fn from(value: u8) -> (r: Self) {
        BitFlags8(value)
    }
}

impl FromSpecImpl<u8> for BitFlags8 {
    open spec fn obeys_from_spec() -> bool {
        true
    }

    open spec fn from_spec(v: u8) -> Self {
        BitFlags8(v)
    }
}

impl From<BitFlags8> for u8 {
    fn from(value: BitFlags8) -> (r: Self) {
        value.0
    }
}

impl FromSpecImpl<BitFlags8> for u8 {
    open spec fn obeys_from_spec() -> bool {
        true
    }

    open spec fn from_spec(v: BitFlags8) -> Self {
        v.0
    }
}

impl Default for BitFlags8 {
    fn default() -> (r: Self)
        ensures
            r.0 == 0,
    {
        BitFlags8(0)
    }
}

} // verus!
