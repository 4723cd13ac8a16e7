//! The arithmetic and logic of the processor, on plain values: what each
//! operation makes of its operands and of the flags.

use crate::bitflags::{bit_of, clear_bit, set_bit};
use crate::cpu::Flags;
use vstd::prelude::*;

verus! {

/// A byte and the flags that an operation left.
#[derive(Clone, Copy, Debug, PartialEq, Eq, Structural)]
pub struct AluResult {
    pub value: u8,
    pub flags: Flags,
}

/// A word and the flags that an operation left.
#[derive(Clone, Copy, Debug, PartialEq, Eq, Structural)]
pub struct WideResult {
    pub value: u16,
    pub flags: Flags,
}

/// The number that a carry flag adds.
pub open spec fn carry_value(carry: bool) -> int {
    if carry {
        1
    } else {
        0
    }
}

/// The number that a byte stands for when it is read as signed.
pub open spec fn signed(value: u8) -> int {
    if value < 128 {
        value as int
    } else {
        value - 256
    }
}

/// `a + v + carry`: zero on a zero result, half-carry on a carry out of bit
/// 3, carry on a carry out of bit 7.
#[verifier::opaque]
pub open spec fn added(a: u8, v: u8, carry_in: bool) -> AluResult {
    let sum = a + v + carry_value(carry_in);
    AluResult {
        value: (sum % 256) as u8,
        flags: Flags {
            zero: sum % 256 == 0,
            neg: false,
            half_carry: a % 16 + v % 16 + carry_value(carry_in) > 15,
            carry: sum > 255,
        },
    }
}

/// `a - v - carry`: zero on a zero result, half-carry on a borrow from bit
/// 4, carry on a borrow from beyond bit 7.
#[verifier::opaque]
pub open spec fn subtracted(a: u8, v: u8, carry_in: bool) -> AluResult {
    let difference = a - v - carry_value(carry_in);
    AluResult {
        value: ((difference + 256) % 256) as u8,
        flags: Flags {
            zero: (difference + 256) % 256 == 0,
            neg: true,
            half_carry: a % 16 < v % 16 + carry_value(carry_in),
            carry: difference < 0,
        },
    }
}

/// The flags of `a - v`, with `a` left as it is.
#[verifier::opaque]
pub open spec fn compared(a: u8, v: u8) -> AluResult {
    AluResult { value: a, flags: subtracted(a, v, false).flags }
}

#[verifier::opaque]
pub open spec fn anded(a: u8, v: u8) -> AluResult {
    AluResult {
        value: a & v,
        flags: Flags { zero: a & v == 0, neg: false, half_carry: true, carry: false },
    }
}

#[verifier::opaque]
pub open spec fn ored(a: u8, v: u8) -> AluResult {
    AluResult {
        value: a | v,
        flags: Flags { zero: a | v == 0, neg: false, half_carry: false, carry: false },
    }
}

#[verifier::opaque]
pub open spec fn xored(a: u8, v: u8) -> AluResult {
    AluResult {
        value: a ^ v,
        flags: Flags { zero: a ^ v == 0, neg: false, half_carry: false, carry: false },
    }
}

/// `v + 1`, the carry flag left as it is.
#[verifier::opaque]
pub open spec fn incremented(v: u8, flags: Flags) -> AluResult {
    AluResult {
        value: ((v + 1) % 256) as u8,
        flags: Flags { zero: v == 255, neg: false, half_carry: v % 16 == 15, carry: flags.carry },
    }
}

/// `v - 1`, the carry flag left as it is.
#[verifier::opaque]
pub open spec fn decremented(v: u8, flags: Flags) -> AluResult {
    AluResult {
        value: ((v + 255) % 256) as u8,
        flags: Flags { zero: v == 1, neg: true, half_carry: v % 16 == 0, carry: flags.carry },
    }
}

/// `a + v` on words: half-carry on a carry out of bit 11, carry on a carry
/// out of bit 15, the zero flag left as it is.
#[verifier::opaque]
pub open spec fn added16(a: u16, v: u16, flags: Flags) -> WideResult {
    WideResult {
        value: ((a + v) % 0x1_0000) as u16,
        flags: Flags {
            zero: flags.zero,
            neg: false,
            half_carry: a % 0x1000 + v % 0x1000 > 0xFFF,
            carry: a + v > 0xFFFF,
        },
    }
}

/// The stack pointer plus a signed byte: half-carry and carry are those of
/// the low byte of the pointer plus the byte read as unsigned.
#[verifier::opaque]
pub open spec fn offset_added(sp: u16, offset: u8) -> WideResult {
    WideResult {
        value: ((sp + signed(offset) + 0x1_0000) % 0x1_0000) as u16,
        flags: Flags {
            zero: false,
            neg: false,
            half_carry: sp % 16 + offset % 16 > 15,
            carry: sp % 256 + offset > 255,
        },
    }
}

/// What must be added to or taken from `a` to make it decimal again after
/// an addition or a subtraction of two decimal bytes.
pub open spec fn decimal_correction(a: u8, flags: Flags) -> int {
    (if flags.half_carry || (!flags.neg && a % 16 > 9) { 0x06 } else { 0int }) + (if flags.carry
        || (!flags.neg && a > 0x99) { 0x60 } else { 0int })
}

/// `a` made decimal again: each half of the byte a digit.
#[verifier::opaque]
pub open spec fn decimal_adjusted(a: u8, flags: Flags) -> AluResult {
    let correction = decimal_correction(a, flags);
    let value = if flags.neg {
        ((a - correction + 256) % 256) as u8
    } else {
        ((a + correction) % 256) as u8
    };
    AluResult {
        value,
        flags: Flags {
            zero: value == 0,
            neg: flags.neg,
            half_carry: false,
            carry: flags.carry || (!flags.neg && a > 0x99),
        },
    }
}

/// The flags of a rotation or a shift: zero as told, carry as the bit that
/// was moved out.
pub open spec fn shift_flags(zero: bool, carry: bool) -> Flags {
    Flags { zero, neg: false, half_carry: false, carry }
}

/// `v` rotated left, bit 7 coming back in at bit 0.
#[verifier::opaque]
pub open spec fn rotated_left(v: u8) -> AluResult {
    let value = (((v * 2) % 256) + v / 128) as u8;
    AluResult { value, flags: shift_flags(value == 0, v >= 128) }
}

/// `v` rotated right, bit 0 coming back in at bit 7.
#[verifier::opaque]
pub open spec fn rotated_right(v: u8) -> AluResult {
    let value = (v / 2 + (v % 2) * 128) as u8;
    AluResult { value, flags: shift_flags(value == 0, v % 2 == 1) }
}

/// `v` rotated left through the carry flag.
#[verifier::opaque]
pub open spec fn rotated_left_carry(v: u8, carry: bool) -> AluResult {
    let value = (((v * 2) % 256) + carry_value(carry)) as u8;
    AluResult { value, flags: shift_flags(value == 0, v >= 128) }
}

/// `v` rotated right through the carry flag.
#[verifier::opaque]
pub open spec fn rotated_right_carry(v: u8, carry: bool) -> AluResult {
    let value = (v / 2 + carry_value(carry) * 128) as u8;
    AluResult { value, flags: shift_flags(value == 0, v % 2 == 1) }
}

/// `v` shifted left, a zero coming in.
#[verifier::opaque]
pub open spec fn shifted_left(v: u8) -> AluResult {
    let value = ((v * 2) % 256) as u8;
    AluResult { value, flags: shift_flags(value == 0, v >= 128) }
}

/// `v` shifted right: bit 7 stays when the shift is signed, else a zero
/// comes in.
#[verifier::opaque]
pub open spec fn shifted_right(v: u8, signed: bool) -> AluResult {
    let value = if signed {
        (v / 2 + (v / 128) * 128) as u8
    } else {
        v / 2
    };
    AluResult { value, flags: shift_flags(value == 0, v % 2 == 1) }
}

/// `v` with its two halves exchanged.
#[verifier::opaque]
pub open spec fn swapped(v: u8) -> AluResult {
    let value = ((v % 16) * 16 + v / 16) as u8;
    AluResult { value, flags: shift_flags(value == 0, false) }
}

/// The flags after bit `index` of `v` was tested: zero when the bit is not
/// set, the carry flag left as it is.
#[verifier::opaque]
pub open spec fn bit_tested(v: u8, index: int, flags: Flags) -> Flags {
    Flags { zero: !bit_of(v, index), neg: false, half_carry: true, carry: flags.carry }
}

/// `v` with bit `index` cleared.
#[verifier::opaque]
pub open spec fn bit_cleared(v: u8, index: int) -> u8 {
    clear_bit(v, index)
}

/// `v` with bit `index` set.
#[verifier::opaque]
pub open spec fn bit_raised(v: u8, index: int) -> u8 {
    set_bit(v, index)
}

pub fn add_bytes(a: u8, v: u8, carry_in: bool) -> (r: AluResult)
    ensures
        r == added(a, v, carry_in),
{
    reveal(added);
    let carry: u16 = if carry_in { 1 } else { 0 };
    let sum: u16 = a as u16 + v as u16 + carry;
    AluResult {
        value: (sum % 256) as u8,
        flags: Flags {
            zero: sum % 256 == 0,
            neg: false,
            half_carry: (a % 16) as u16 + (v % 16) as u16 + carry > 15,
            carry: sum > 255,
        },
    }
}

pub fn subtract_bytes(a: u8, v: u8, carry_in: bool) -> (r: AluResult)
    ensures
        r == subtracted(a, v, carry_in),
{
    reveal(subtracted);
    let carry: u16 = if carry_in { 1 } else { 0 };
    let taken: u16 = v as u16 + carry;
    let value: u16 = (a as u16 + 256 - taken) % 256;
    AluResult {
        value: value as u8,
        flags: Flags {
            zero: value == 0,
            neg: true,
            half_carry: ((a % 16) as u16) < (v % 16) as u16 + carry,
            carry: (a as u16) < taken,
        },
    }
}

pub fn compare_bytes(a: u8, v: u8) -> (r: AluResult)
    ensures
        r == compared(a, v),
        r.value == a,
{
    reveal(compared);
    AluResult { value: a, flags: subtract_bytes(a, v, false).flags }
}

pub fn and_bytes(a: u8, v: u8) -> (r: AluResult)
    ensures
        r == anded(a, v),
{
    reveal(anded);
    let value = a & v;
    AluResult { value, flags: Flags { zero: value == 0, neg: false, half_carry: true, carry: false } }
}

pub fn or_bytes(a: u8, v: u8) -> (r: AluResult)
    ensures
        r == ored(a, v),
{
    reveal(ored);
    let value = a | v;
    AluResult {
        value,
        flags: Flags { zero: value == 0, neg: false, half_carry: false, carry: false },
    }
}

pub fn xor_bytes(a: u8, v: u8) -> (r: AluResult)
    ensures
        r == xored(a, v),
{
    reveal(xored);
    let value = a ^ v;
    AluResult {
        value,
        flags: Flags { zero: value == 0, neg: false, half_carry: false, carry: false },
    }
}

pub fn increment(v: u8, flags: Flags) -> (r: AluResult)
    ensures
        r == incremented(v, flags),
{
    reveal(incremented);
    let value = v.wrapping_add(1);
    AluResult {
        value,
        flags: Flags { zero: value == 0, neg: false, half_carry: v % 16 == 15, carry: flags.carry },
    }
}

pub fn decrement(v: u8, flags: Flags) -> (r: AluResult)
    ensures
        r == decremented(v, flags),
{
    reveal(decremented);
    let value = v.wrapping_sub(1);
    AluResult {
        value,
        flags: Flags { zero: value == 0, neg: true, half_carry: v % 16 == 0, carry: flags.carry },
    }
}

pub fn add_words(a: u16, v: u16, flags: Flags) -> (r: WideResult)
    ensures
        r == added16(a, v, flags),
{
    reveal(added16);
    let sum: u32 = a as u32 + v as u32;
    WideResult {
        value: (sum % 0x1_0000) as u16,
        flags: Flags {
            zero: flags.zero,
            neg: false,
            half_carry: (a % 0x1000) as u32 + (v % 0x1000) as u32 > 0xFFF,
            carry: sum > 0xFFFF,
        },
    }
}

pub fn add_offset(sp: u16, offset: u8) -> (r: WideResult)
    ensures
        r == offset_added(sp, offset),
{
    reveal(offset_added);
    let moved: u32 = if offset < 128 {
        sp as u32 + offset as u32
    } else {
        sp as u32 + 0x1_0000 + offset as u32 - 256
    };
    WideResult {
        value: (moved % 0x1_0000) as u16,
        flags: Flags {
            zero: false,
            neg: false,
            half_carry: sp % 16 + (offset % 16) as u16 > 15,
            carry: sp % 256 + offset as u16 > 255,
        },
    }
}

pub fn decimal_adjust(a: u8, flags: Flags) -> (r: AluResult)
    ensures
        r == decimal_adjusted(a, flags),
{
    reveal(decimal_adjusted);
    let mut correction: u8 = 0;
    let mut carry = flags.carry;
    if flags.half_carry || (!flags.neg && a % 16 > 9) {
        correction = correction + 0x06;
    }
    if flags.carry || (!flags.neg && a > 0x99) {
        correction = correction + 0x60;
        carry = true;
    }
    let value = if flags.neg {
        a.wrapping_sub(correction)
    } else {
        a.wrapping_add(correction)
    };
    AluResult { value, flags: Flags { zero: value == 0, neg: flags.neg, half_carry: false, carry } }
}

pub fn rotate_left(v: u8) -> (r: AluResult)
    ensures
        r == rotated_left(v),
{
    reveal(rotated_left);
    let value = ((v as u16 * 2) % 256) as u8 + v / 128;
    AluResult {
        value,
        flags: Flags { zero: value == 0, neg: false, half_carry: false, carry: v >= 128 },
    }
}

pub fn rotate_right(v: u8) -> (r: AluResult)
    ensures
        r == rotated_right(v),
{
    reveal(rotated_right);
    let value = v / 2 + (v % 2) * 128;
    AluResult {
        value,
        flags: Flags { zero: value == 0, neg: false, half_carry: false, carry: v % 2 == 1 },
    }
}

pub fn rotate_left_carry(v: u8, carry: bool) -> (r: AluResult)
    ensures
        r == rotated_left_carry(v, carry),
{
    reveal(rotated_left_carry);
    let incoming: u8 = if carry { 1 } else { 0 };
    let value = ((v as u16 * 2) % 256) as u8 + incoming;
    AluResult {
        value,
        flags: Flags { zero: value == 0, neg: false, half_carry: false, carry: v >= 128 },
    }
}

pub fn rotate_right_carry(v: u8, carry: bool) -> (r: AluResult)
    ensures
        r == rotated_right_carry(v, carry),
{
    reveal(rotated_right_carry);
    let incoming: u8 = if carry { 128 } else { 0 };
    let value = v / 2 + incoming;
    AluResult {
        value,
        flags: Flags { zero: value == 0, neg: false, half_carry: false, carry: v % 2 == 1 },
    }
}

pub fn shift_left_byte(v: u8) -> (r: AluResult)
    ensures
        r == shifted_left(v),
{
    reveal(shifted_left);
    let value = ((v as u16 * 2) % 256) as u8;
    AluResult {
        value,
        flags: Flags { zero: value == 0, neg: false, half_carry: false, carry: v >= 128 },
    }
}

pub fn shift_right_byte(v: u8, signed: bool) -> (r: AluResult)
    ensures
        r == shifted_right(v, signed),
{
    reveal(shifted_right);
    let value = if signed { v / 2 + (v / 128) * 128 } else { v / 2 };
    AluResult {
        value,
        flags: Flags { zero: value == 0, neg: false, half_carry: false, carry: v % 2 == 1 },
    }
}

pub fn swap_halves(v: u8) -> (r: AluResult)
    ensures
        r == swapped(v),
{
    reveal(swapped);
    let value = (v % 16) * 16 + v / 16;
    AluResult {
        value,
        flags: Flags { zero: value == 0, neg: false, half_carry: false, carry: false },
    }
}

pub fn test_bit(v: u8, index: u8, flags: Flags) -> (r: Flags)
    requires
        index < 8,
    ensures
        r == bit_tested(v, index as int, flags),
{
    reveal(bit_tested);
    proof {
        lemma_bit_operations(v, index);
    }
    Flags { zero: (v & (1u8 << index)) == 0, neg: false, half_carry: true, carry: flags.carry }
}

pub fn reset_bit(v: u8, index: u8) -> (r: u8)
    requires
        index < 8,
    ensures
        r == bit_cleared(v, index as int),
{
    reveal(bit_cleared);
    proof {
        lemma_bit_operations(v, index);
    }
    v & !(1u8 << index)
}

pub fn raise_bit(v: u8, index: u8) -> (r: u8)
    requires
        index < 8,
    ensures
        r == bit_raised(v, index as int),
{
    reveal(bit_raised);
    proof {
        lemma_bit_operations(v, index);
    }
    v | (1u8 << index)
}

/// Masking with one bit, in terms of the bits of the byte.
proof fn lemma_bit_operations(v: u8, index: u8)
    by (bit_vector)
    requires
        index < 8,
    ensures
        ((v & (1u8 << index)) == 0) == !bit_of(v, index as int),
        v & !(1u8 << index) == clear_bit(v, index as int),
        v | (1u8 << index) == set_bit(v, index as int),
{
}

/// Setting a bit that was cleared before gives the byte back exactly when
/// the bit was set in it.
pub proof fn lemma_clear_then_set(byte: u8, index: u8)
    by (bit_vector)
    requires
        index < 8,
    ensures
        (set_bit(clear_bit(byte, index as int), index as int) == byte) == bit_of(byte, index as int),
        bit_of(set_bit(byte, index as int), index as int),
        !bit_of(clear_bit(byte, index as int), index as int),
{
}

/// The zero flag that a bit test leaves tells what setting or clearing the
/// same bit will do: setting changes the byte exactly when the flag is set,
/// clearing exactly when it is not.
pub proof fn lemma_bit_test_predicts(byte: u8, index: u8, flags: Flags)
    requires
        index < 8,
    ensures
        bit_tested(byte, index as int, flags).zero == (bit_raised(byte, index as int) != byte),
        bit_tested(byte, index as int, flags).zero == (bit_cleared(byte, index as int) == byte),
{
    reveal(bit_tested);
    reveal(bit_raised);
    reveal(bit_cleared);
    lemma_set_changes(byte, index);
}

proof fn lemma_set_changes(byte: u8, index: u8)
    by (bit_vector)
    requires
        index < 8,
    ensures
        (set_bit(byte, index as int) != byte) == !bit_of(byte, index as int),
        (clear_bit(byte, index as int) == byte) == !bit_of(byte, index as int),
{
}

/// Whether each half of `v` is a decimal digit.
pub open spec fn is_decimal(v: u8) -> bool {
    v % 16 <= 9 && v / 16 <= 9
}

/// The number that the two decimal digits of `v` stand for.
pub open spec fn decimal_value(v: u8) -> int {
    (v / 16) * 10 + v % 16
}

/// The sum of two decimal bytes, adjusted, is the decimal byte of the sum of
/// their numbers, with the carry flag set when the sum has three digits.
pub proof fn lemma_decimal_adjust_after_addition(x: u8, y: u8, carry: bool)
    requires
        is_decimal(x),
        is_decimal(y),
    ensures
        ({
            let sum = added(x, y, carry);
            let adjusted = decimal_adjusted(sum.value, sum.flags);
            let total = decimal_value(x) + decimal_value(y) + carry_value(carry);
            &&& is_decimal(adjusted.value)
            &&& decimal_value(adjusted.value) == total % 100
            &&& adjusted.flags.carry == (total >= 100)
            &&& adjusted.flags.zero == (total % 100 == 0)
            &&& !adjusted.flags.half_carry
        }),
{
    reveal(added);
    reveal(decimal_adjusted);
    lemma_decimal_sum(x as u16, y as u16, if carry { 1 } else { 0 });
}

proof fn lemma_decimal_sum(x: u16, y: u16, c: u16)
    by (bit_vector)
    requires
        x < 256,
        y < 256,
        c <= 1,
        x % 16 <= 9,
        x / 16 <= 9,
        y % 16 <= 9,
        y / 16 <= 9,
    ensures
        ({
            let a = ((x + y + c) % 256) as u16;
            let low = x % 16 + y % 16 + c > 15 || a % 16 > 9;
            let high = x + y + c > 255 || a > 0x99;
            let v = ((a + (if low { 0x06u16 } else { 0u16 }) + (if high { 0x60u16 } else { 0u16 }))
                % 256) as u16;
            let total = ((x / 16) * 10 + x % 16 + (y / 16) * 10 + y % 16 + c) as u16;
            &&& v % 16 <= 9
            &&& v / 16 <= 9
            &&& (v / 16) * 10 + v % 16 == total % 100
            &&& high == (total >= 100)
            &&& (v == 0) == (total % 100 == 0)
        }),
{
}

/// The difference of two decimal bytes, adjusted, is the decimal byte of the
/// difference of their numbers, counted modulo 100, with the carry flag set
/// when a hundred had to be borrowed.
pub proof fn lemma_decimal_adjust_after_subtraction(x: u8, y: u8, carry: bool)
    requires
        is_decimal(x),
        is_decimal(y),
    ensures
        ({
            let difference = subtracted(x, y, carry);
            let adjusted = decimal_adjusted(difference.value, difference.flags);
            let total = decimal_value(x) - decimal_value(y) - carry_value(carry);
            &&& is_decimal(adjusted.value)
            &&& decimal_value(adjusted.value) == (total + 100) % 100
            &&& adjusted.flags.carry == (total < 0)
            &&& adjusted.flags.neg
        }),
{
    reveal(subtracted);
    reveal(decimal_adjusted);
    lemma_decimal_difference(x as u16, y as u16, if carry { 1 } else { 0 });
}

proof fn lemma_decimal_difference(x: u16, y: u16, c: u16)
    by (bit_vector)
    requires
        x < 256,
        y < 256,
        c <= 1,
        x % 16 <= 9,
        x / 16 <= 9,
        y % 16 <= 9,
        y / 16 <= 9,
    ensures
        ({
            let a = ((x + 256 - y - c) % 256) as u16;
            let low = x % 16 < y % 16 + c;
            let high = x < y + c;
            let v = ((a + 256 - (if low { 0x06u16 } else { 0u16 }) - (if high { 0x60u16 } else {
                0u16
            })) % 256) as u16;
            let have = ((x / 16) * 10 + x % 16 + 100) as u16;
            let taken = ((y / 16) * 10 + y % 16 + c) as u16;
            &&& v % 16 <= 9
            &&& v / 16 <= 9
            &&& (v / 16) * 10 + v % 16 == (have - taken) % 100
            &&& high == (have - taken < 100)
        }),
{
}

} // verus!
