//! The instructions behind the bit prefix: rotations, shifts and single
//! bits, each on any of the seven registers or on the byte that HL points
//! to.

use crate::cpu::alu::{
    bit_cleared, bit_raised, bit_tested, raise_bit, reset_bit, rotate_left, rotate_left_carry, rotate_right,
    rotate_right_carry, rotated_left, rotated_left_carry, rotated_right, rotated_right_carry,
    shift_left_byte, shift_right_byte, shifted_left, shifted_right, swap_halves, swapped, test_bit,
    AluResult,
};
use crate::cpu::instructions::{Direction, Operand};
use crate::cpu::{Cpu, Flags, Register16, Register8};
use crate::hardware::Hardware;
use vstd::prelude::*;

verus! {

/// Processor and memory after `result` was put where the operand is, with
/// the flags that came with it. An operand in memory takes eight ticks
/// more than one in a register.
pub open spec fn applied(cpu: Cpu, hw: Hardware, byte: Operand, result: AluResult) -> (
    Cpu,
    Hardware,
    u8,
) {
    let (cpu, hw) = byte.stored(cpu.with_flags(result.flags), hw, result.value);
    (cpu, hw, (8 + 2 * byte.extra()) as u8)
}

/// Processor and memory after a byte was put where the operand is, the
/// flags left as they are.
pub open spec fn replaced(cpu: Cpu, hw: Hardware, byte: Operand, value: u8) -> (Cpu, Hardware, u8) {
    let (cpu, hw) = byte.stored(cpu, hw, value);
    (cpu, hw, (8 + 2 * byte.extra()) as u8)
}

/// What an instruction of the second table does to its operand.
#[derive(Clone, Copy, Debug, PartialEq, Eq, Structural)]
pub enum BitOperation {
    /// Rotate, the bit that leaves coming back in at the other end.
    Rotate(Direction),
    /// Rotate through the carry flag.
    RotateCarry(Direction),
    ShiftLeft,
    /// Shift right, keeping bit 7 if told so.
    ShiftRight(bool),
    Swap,
    Test(u8),
    Clear(u8),
    Raise(u8),
}

impl BitOperation {
    pub open spec fn wf(self) -> bool {
        match self {
            BitOperation::Test(index) => index < 8,
            BitOperation::Clear(index) => index < 8,
            BitOperation::Raise(index) => index < 8,
            _ => true,
        }
    }
}

/// The rotation or shift that three bits of the second opcode byte name.
pub open spec fn shift_of(code: int) -> BitOperation {
    if code == 0 {
        BitOperation::Rotate(Direction::Left)
    } else if code == 1 {
        BitOperation::Rotate(Direction::Right)
    } else if code == 2 {
        BitOperation::RotateCarry(Direction::Left)
    } else if code == 3 {
        BitOperation::RotateCarry(Direction::Right)
    } else if code == 4 {
        BitOperation::ShiftLeft
    } else if code == 5 {
        BitOperation::ShiftRight(true)
    } else if code == 6 {
        BitOperation::Swap
    } else {
        BitOperation::ShiftRight(false)
    }
}

/// The instruction that the second opcode byte names. Its two high bits
/// tell rotations and shifts, bit tests, bit clears and bit sets apart, the
/// next three name the operation or the bit, the last three the operand.
pub open spec fn decoded(prefix: u8) -> (BitOperation, Operand) {
    let index = (prefix / 8) % 8;
    let byte = Operand::of_code((prefix % 8) as int);
    if prefix < 0x40 {
        (shift_of(index as int), byte)
    } else if prefix < 0x80 {
        (BitOperation::Test(index), byte)
    } else if prefix < 0xC0 {
        (BitOperation::Clear(index), byte)
    } else {
        (BitOperation::Raise(index), byte)
    }
}

/// What a rotation or a shift makes of `v`.
pub open spec fn transformed(operation: BitOperation, v: u8, flags: Flags) -> AluResult {
    match operation {
        BitOperation::Rotate(Direction::Left) => rotated_left(v),
        BitOperation::Rotate(Direction::Right) => rotated_right(v),
        BitOperation::RotateCarry(Direction::Left) => rotated_left_carry(v, flags.carry),
        BitOperation::RotateCarry(Direction::Right) => rotated_right_carry(v, flags.carry),
        BitOperation::ShiftLeft => shifted_left(v),
        BitOperation::ShiftRight(signed) => shifted_right(v, signed),
        _ => swapped(v),
    }
}

/// Processor and memory after `operation` on `byte`, and the master ticks
/// of the whole instruction, the fetch of the prefix included: eight for a
/// register; for the byte that HL points to, sixteen, or twelve where it is
/// only read.
pub open spec fn performed(cpu: Cpu, hw: Hardware, operation: BitOperation, byte: Operand) -> (
    Cpu,
    Hardware,
    u8,
) {
    let v = byte.value_spec(cpu, hw);
    match operation {
        BitOperation::Test(index) => (
            cpu.with_flags(bit_tested(v, index as int, cpu.regs.flags)),
            hw,
            (8 + byte.extra()) as u8,
        ),
        BitOperation::Clear(index) => replaced(cpu, hw, byte, bit_cleared(v, index as int)),
        BitOperation::Raise(index) => replaced(cpu, hw, byte, bit_raised(v, index as int)),
        _ => applied(cpu, hw, byte, transformed(operation, v, cpu.regs.flags)),
    }
}

/// Processor and memory after the instruction that the second opcode byte
/// names, and the master ticks that it took.
#[verifier::opaque]
pub open spec fn executed(cpu: Cpu, hw: Hardware, prefix: u8) -> (Cpu, Hardware, u8) {
    let (operation, byte) = decoded(prefix);
    performed(cpu, hw, operation, byte)
}

fn store(cpu: &mut Cpu, hw: &mut Hardware, byte: Operand, result: AluResult) -> (r: u8)
    requires
        old(hw).wf(),
    ensures
        final(hw).wf(),
        (*final(cpu), *final(hw), r) == applied(*old(cpu), *old(hw), byte, result),
{
    cpu.regs.flags = result.flags;
    byte.set_value(cpu, hw, result.value);
    8 + 2 * byte.extra_cycles()
}

/// Rotates a byte through the carry flag.
pub fn rotate_carry(cpu: &mut Cpu, hw: &mut Hardware, byte: Operand, dir: Direction) -> (r: u8)
    requires
        old(hw).wf(),
    ensures
        final(hw).wf(),
        (*final(cpu), *final(hw), r) == applied(
            *old(cpu),
            *old(hw),
            byte,
            if dir is Left {
                rotated_left_carry(byte.value_spec(*old(cpu), *old(hw)), old(cpu).regs.flags.carry)
            } else {
                rotated_right_carry(byte.value_spec(*old(cpu), *old(hw)), old(cpu).regs.flags.carry)
            },
        ),
{
    let value = byte.value(cpu, hw);
    let result = match dir {
        Direction::Left => rotate_left_carry(value, cpu.regs.flags.carry),
        Direction::Right => rotate_right_carry(value, cpu.regs.flags.carry),
    };
    store(cpu, hw, byte, result)
}

/// Rotates a byte, the bit that leaves at one end coming back in at the
/// other.
pub fn rotate(cpu: &mut Cpu, hw: &mut Hardware, byte: Operand, dir: Direction) -> (r: u8)
    requires
        old(hw).wf(),
    ensures
        final(hw).wf(),
        (*final(cpu), *final(hw), r) == applied(
            *old(cpu),
            *old(hw),
            byte,
            if dir is Left {
                rotated_left(byte.value_spec(*old(cpu), *old(hw)))
            } else {
                rotated_right(byte.value_spec(*old(cpu), *old(hw)))
            },
        ),
{
    let value = byte.value(cpu, hw);
    let result = match dir {
        Direction::Left => rotate_left(value),
        Direction::Right => rotate_right(value),
    };
    store(cpu, hw, byte, result)
}

pub fn shift_left(cpu: &mut Cpu, hw: &mut Hardware, byte: Operand) -> (r: u8)
    requires
        old(hw).wf(),
    ensures
        final(hw).wf(),
        (*final(cpu), *final(hw), r) == applied(
            *old(cpu),
            *old(hw),
            byte,
            shifted_left(byte.value_spec(*old(cpu), *old(hw))),
        ),
{
    let result = shift_left_byte(byte.value(cpu, hw));
    store(cpu, hw, byte, result)
}

pub fn shift_right(cpu: &mut Cpu, hw: &mut Hardware, byte: Operand, signed: bool) -> (r: u8)
    requires
        old(hw).wf(),
    ensures
        final(hw).wf(),
        (*final(cpu), *final(hw), r) == applied(
            *old(cpu),
            *old(hw),
            byte,
            shifted_right(byte.value_spec(*old(cpu), *old(hw)), signed),
        ),
{
    let result = shift_right_byte(byte.value(cpu, hw), signed);
    store(cpu, hw, byte, result)
}

pub fn swap(cpu: &mut Cpu, hw: &mut Hardware, byte: Operand) -> (r: u8)
    requires
        old(hw).wf(),
    ensures
        final(hw).wf(),
        (*final(cpu), *final(hw), r) == applied(
            *old(cpu),
            *old(hw),
            byte,
            swapped(byte.value_spec(*old(cpu), *old(hw))),
        ),
{
    let result = swap_halves(byte.value(cpu, hw));
    store(cpu, hw, byte, result)
}

pub fn bit(cpu: &mut Cpu, hw: &Hardware, byte: Operand, index: u8) -> (r: u8)
    requires
        hw.wf(),
        index < 8,
    ensures
        r == 8 + byte.extra(),
        *final(cpu) == old(cpu).with_flags(
            bit_tested(byte.value_spec(*old(cpu), *hw), index as int, old(cpu).regs.flags),
        ),
{
    cpu.regs.flags = test_bit(byte.value(cpu, hw), index, cpu.regs.flags);
    8 + byte.extra_cycles()
}

pub fn reset(cpu: &mut Cpu, hw: &mut Hardware, byte: Operand, index: u8) -> (r: u8)
    requires
        old(hw).wf(),
        index < 8,
    ensures
        final(hw).wf(),
        (*final(cpu), *final(hw), r) == replaced(
            *old(cpu),
            *old(hw),
            byte,
            bit_cleared(byte.value_spec(*old(cpu), *old(hw)), index as int),
        ),
{
    let value = reset_bit(byte.value(cpu, hw), index);
    byte.set_value(cpu, hw, value);
    8 + 2 * byte.extra_cycles()
}

pub fn set(cpu: &mut Cpu, hw: &mut Hardware, byte: Operand, index: u8) -> (r: u8)
    requires
        old(hw).wf(),
        index < 8,
    ensures
        final(hw).wf(),
        (*final(cpu), *final(hw), r) == replaced(
            *old(cpu),
            *old(hw),
            byte,
            bit_raised(byte.value_spec(*old(cpu), *old(hw)), index as int),
        ),
{
    let value = raise_bit(byte.value(cpu, hw), index);
    byte.set_value(cpu, hw, value);
    8 + 2 * byte.extra_cycles()
}

/// The master ticks that an instruction behind the prefix takes, the fetch
/// of the prefix apart: four on a register; on the byte that HL points to,
/// four more for reading it and four more for writing it.
pub open spec fn ticks_of(instruction: (BitOperation, Operand)) -> u8 {
    match instruction {
        (_, Operand::Reg(_)) => 4,
        (BitOperation::Test(_), Operand::Addr(_)) => 8,
        (_, Operand::Addr(_)) => 12,
    }
}

/// The master ticks that are documented for each second opcode byte, the
/// fetch of the prefix apart.
#[verifier::rlimit(40)]
pub fn documented_ticks(prefix: u8) -> (r: u8)
    ensures
        r == ticks_of(decoded(prefix)),
{
    match prefix {
        0x00 => 4,
        0x01 => 4,
        0x02 => 4,
        0x03 => 4,
        0x04 => 4,
        0x05 => 4,
        0x06 => 12,
        0x07 => 4,
        0x08 => 4,
        0x09 => 4,
        0x0A => 4,
        0x0B => 4,
        0x0C => 4,
        0x0D => 4,
        0x0E => 12,
        0x0F => 4,
        0x10 => 4,
        0x11 => 4,
        0x12 => 4,
        0x13 => 4,
        0x14 => 4,
        0x15 => 4,
        0x16 => 12,
        0x17 => 4,
        0x18 => 4,
        0x19 => 4,
        0x1A => 4,
        0x1B => 4,
        0x1C => 4,
        0x1D => 4,
        0x1E => 12,
        0x1F => 4,
        0x20 => 4,
        0x21 => 4,
        0x22 => 4,
        0x23 => 4,
        0x24 => 4,
        0x25 => 4,
        0x26 => 12,
        0x27 => 4,
        0x28 => 4,
        0x29 => 4,
        0x2A => 4,
        0x2B => 4,
        0x2C => 4,
        0x2D => 4,
        0x2E => 12,
        0x2F => 4,
        0x30 => 4,
        0x31 => 4,
        0x32 => 4,
        0x33 => 4,
        0x34 => 4,
        0x35 => 4,
        0x36 => 12,
        0x37 => 4,
        0x38 => 4,
        0x39 => 4,
        0x3A => 4,
        0x3B => 4,
        0x3C => 4,
        0x3D => 4,
        0x3E => 12,
        0x3F => 4,
        0x40 => 4,
        0x41 => 4,
        0x42 => 4,
        0x43 => 4,
        0x44 => 4,
        0x45 => 4,
        0x46 => 8,
        0x47 => 4,
        0x48 => 4,
        0x49 => 4,
        0x4A => 4,
        0x4B => 4,
        0x4C => 4,
        0x4D => 4,
        0x4E => 8,
        0x4F => 4,
        0x50 => 4,
        0x51 => 4,
        0x52 => 4,
        0x53 => 4,
        0x54 => 4,
        0x55 => 4,
        0x56 => 8,
        0x57 => 4,
        0x58 => 4,
        0x59 => 4,
        0x5A => 4,
        0x5B => 4,
        0x5C => 4,
        0x5D => 4,
        0x5E => 8,
        0x5F => 4,
        0x60 => 4,
        0x61 => 4,
        0x62 => 4,
        0x63 => 4,
        0x64 => 4,
        0x65 => 4,
        0x66 => 8,
        0x67 => 4,
        0x68 => 4,
        0x69 => 4,
        0x6A => 4,
        0x6B => 4,
        0x6C => 4,
        0x6D => 4,
        0x6E => 8,
        0x6F => 4,
        0x70 => 4,
        0x71 => 4,
        0x72 => 4,
        0x73 => 4,
        0x74 => 4,
        0x75 => 4,
        0x76 => 8,
        0x77 => 4,
        0x78 => 4,
        0x79 => 4,
        0x7A => 4,
        0x7B => 4,
        0x7C => 4,
        0x7D => 4,
        0x7E => 8,
        0x7F => 4,
        0x80 => 4,
        0x81 => 4,
        0x82 => 4,
        0x83 => 4,
        0x84 => 4,
        0x85 => 4,
        0x86 => 12,
        0x87 => 4,
        0x88 => 4,
        0x89 => 4,
        0x8A => 4,
        0x8B => 4,
        0x8C => 4,
        0x8D => 4,
        0x8E => 12,
        0x8F => 4,
        0x90 => 4,
        0x91 => 4,
        0x92 => 4,
        0x93 => 4,
        0x94 => 4,
        0x95 => 4,
        0x96 => 12,
        0x97 => 4,
        0x98 => 4,
        0x99 => 4,
        0x9A => 4,
        0x9B => 4,
        0x9C => 4,
        0x9D => 4,
        0x9E => 12,
        0x9F => 4,
        0xA0 => 4,
        0xA1 => 4,
        0xA2 => 4,
        0xA3 => 4,
        0xA4 => 4,
        0xA5 => 4,
        0xA6 => 12,
        0xA7 => 4,
        0xA8 => 4,
        0xA9 => 4,
        0xAA => 4,
        0xAB => 4,
        0xAC => 4,
        0xAD => 4,
        0xAE => 12,
        0xAF => 4,
        0xB0 => 4,
        0xB1 => 4,
        0xB2 => 4,
        0xB3 => 4,
        0xB4 => 4,
        0xB5 => 4,
        0xB6 => 12,
        0xB7 => 4,
        0xB8 => 4,
        0xB9 => 4,
        0xBA => 4,
        0xBB => 4,
        0xBC => 4,
        0xBD => 4,
        0xBE => 12,
        0xBF => 4,
        0xC0 => 4,
        0xC1 => 4,
        0xC2 => 4,
        0xC3 => 4,
        0xC4 => 4,
        0xC5 => 4,
        0xC6 => 12,
        0xC7 => 4,
        0xC8 => 4,
        0xC9 => 4,
        0xCA => 4,
        0xCB => 4,
        0xCC => 4,
        0xCD => 4,
        0xCE => 12,
        0xCF => 4,
        0xD0 => 4,
        0xD1 => 4,
        0xD2 => 4,
        0xD3 => 4,
        0xD4 => 4,
        0xD5 => 4,
        0xD6 => 12,
        0xD7 => 4,
        0xD8 => 4,
        0xD9 => 4,
        0xDA => 4,
        0xDB => 4,
        0xDC => 4,
        0xDD => 4,
        0xDE => 12,
        0xDF => 4,
        0xE0 => 4,
        0xE1 => 4,
        0xE2 => 4,
        0xE3 => 4,
        0xE4 => 4,
        0xE5 => 4,
        0xE6 => 12,
        0xE7 => 4,
        0xE8 => 4,
        0xE9 => 4,
        0xEA => 4,
        0xEB => 4,
        0xEC => 4,
        0xED => 4,
        0xEE => 12,
        0xEF => 4,
        0xF0 => 4,
        0xF1 => 4,
        0xF2 => 4,
        0xF3 => 4,
        0xF4 => 4,
        0xF5 => 4,
        0xF6 => 12,
        0xF7 => 4,
        0xF8 => 4,
        0xF9 => 4,
        0xFA => 4,
        0xFB => 4,
        0xFC => 4,
        0xFD => 4,
        0xFE => 12,
        _ => 4,
    }
}

/// An instruction behind the prefix takes the ticks of the fetch of the
/// prefix and those that are documented for it.
pub proof fn lemma_ticks_are_documented(cpu: Cpu, hw: Hardware, prefix: u8)
    ensures
        executed(cpu, hw, prefix).2 == 4 + ticks_of(decoded(prefix)),
{
    reveal(executed);
}

/// The table of the instructions behind the prefix, one entry for each
/// second opcode byte.
#[verifier::rlimit(40)]
pub fn decode(prefix: u8) -> (r: (BitOperation, Operand))
    ensures
        r == decoded(prefix),
        r.0.wf(),
{
    match prefix {
        0x00 => (BitOperation::Rotate(Direction::Left), Operand::Reg(Register8::B)),
        0x01 => (BitOperation::Rotate(Direction::Left), Operand::Reg(Register8::C)),
        0x02 => (BitOperation::Rotate(Direction::Left), Operand::Reg(Register8::D)),
        0x03 => (BitOperation::Rotate(Direction::Left), Operand::Reg(Register8::E)),
        0x04 => (BitOperation::Rotate(Direction::Left), Operand::Reg(Register8::H)),
        0x05 => (BitOperation::Rotate(Direction::Left), Operand::Reg(Register8::L)),
        0x06 => (BitOperation::Rotate(Direction::Left), Operand::Addr(Register16::HL)),
        0x07 => (BitOperation::Rotate(Direction::Left), Operand::Reg(Register8::A)),
        0x08 => (BitOperation::Rotate(Direction::Right), Operand::Reg(Register8::B)),
        0x09 => (BitOperation::Rotate(Direction::Right), Operand::Reg(Register8::C)),
        0x0A => (BitOperation::Rotate(Direction::Right), Operand::Reg(Register8::D)),
        0x0B => (BitOperation::Rotate(Direction::Right), Operand::Reg(Register8::E)),
        0x0C => (BitOperation::Rotate(Direction::Right), Operand::Reg(Register8::H)),
        0x0D => (BitOperation::Rotate(Direction::Right), Operand::Reg(Register8::L)),
        0x0E => (BitOperation::Rotate(Direction::Right), Operand::Addr(Register16::HL)),
        0x0F => (BitOperation::Rotate(Direction::Right), Operand::Reg(Register8::A)),
        0x10 => (BitOperation::RotateCarry(Direction::Left), Operand::Reg(Register8::B)),
        0x11 => (BitOperation::RotateCarry(Direction::Left), Operand::Reg(Register8::C)),
        0x12 => (BitOperation::RotateCarry(Direction::Left), Operand::Reg(Register8::D)),
        0x13 => (BitOperation::RotateCarry(Direction::Left), Operand::Reg(Register8::E)),
        0x14 => (BitOperation::RotateCarry(Direction::Left), Operand::Reg(Register8::H)),
        0x15 => (BitOperation::RotateCarry(Direction::Left), Operand::Reg(Register8::L)),
        0x16 => (BitOperation::RotateCarry(Direction::Left), Operand::Addr(Register16::HL)),
        0x17 => (BitOperation::RotateCarry(Direction::Left), Operand::Reg(Register8::A)),
        0x18 => (BitOperation::RotateCarry(Direction::Right), Operand::Reg(Register8::B)),
        0x19 => (BitOperation::RotateCarry(Direction::Right), Operand::Reg(Register8::C)),
        0x1A => (BitOperation::RotateCarry(Direction::Right), Operand::Reg(Register8::D)),
        0x1B => (BitOperation::RotateCarry(Direction::Right), Operand::Reg(Register8::E)),
        0x1C => (BitOperation::RotateCarry(Direction::Right), Operand::Reg(Register8::H)),
        0x1D => (BitOperation::RotateCarry(Direction::Right), Operand::Reg(Register8::L)),
        0x1E => (BitOperation::RotateCarry(Direction::Right), Operand::Addr(Register16::HL)),
        0x1F => (BitOperation::RotateCarry(Direction::Right), Operand::Reg(Register8::A)),
        0x20 => (BitOperation::ShiftLeft, Operand::Reg(Register8::B)),
        0x21 => (BitOperation::ShiftLeft, Operand::Reg(Register8::C)),
        0x22 => (BitOperation::ShiftLeft, Operand::Reg(Register8::D)),
        0x23 => (BitOperation::ShiftLeft, Operand::Reg(Register8::E)),
        0x24 => (BitOperation::ShiftLeft, Operand::Reg(Register8::H)),
        0x25 => (BitOperation::ShiftLeft, Operand::Reg(Register8::L)),
        0x26 => (BitOperation::ShiftLeft, Operand::Addr(Register16::HL)),
        0x27 => (BitOperation::ShiftLeft, Operand::Reg(Register8::A)),
        0x28 => (BitOperation::ShiftRight(true), Operand::Reg(Register8::B)),
        0x29 => (BitOperation::ShiftRight(true), Operand::Reg(Register8::C)),
        0x2A => (BitOperation::ShiftRight(true), Operand::Reg(Register8::D)),
        0x2B => (BitOperation::ShiftRight(true), Operand::Reg(Register8::E)),
        0x2C => (BitOperation::ShiftRight(true), Operand::Reg(Register8::H)),
        0x2D => (BitOperation::ShiftRight(true), Operand::Reg(Register8::L)),
        0x2E => (BitOperation::ShiftRight(true), Operand::Addr(Register16::HL)),
        0x2F => (BitOperation::ShiftRight(true), Operand::Reg(Register8::A)),
        0x30 => (BitOperation::Swap, Operand::Reg(Register8::B)),
        0x31 => (BitOperation::Swap, Operand::Reg(Register8::C)),
        0x32 => (BitOperation::Swap, Operand::Reg(Register8::D)),
        0x33 => (BitOperation::Swap, Operand::Reg(Register8::E)),
        0x34 => (BitOperation::Swap, Operand::Reg(Register8::H)),
        0x35 => (BitOperation::Swap, Operand::Reg(Register8::L)),
        0x36 => (BitOperation::Swap, Operand::Addr(Register16::HL)),
        0x37 => (BitOperation::Swap, Operand::Reg(Register8::A)),
        0x38 => (BitOperation::ShiftRight(false), Operand::Reg(Register8::B)),
        0x39 => (BitOperation::ShiftRight(false), Operand::Reg(Register8::C)),
        0x3A => (BitOperation::ShiftRight(false), Operand::Reg(Register8::D)),
        0x3B => (BitOperation::ShiftRight(false), Operand::Reg(Register8::E)),
        0x3C => (BitOperation::ShiftRight(false), Operand::Reg(Register8::H)),
        0x3D => (BitOperation::ShiftRight(false), Operand::Reg(Register8::L)),
        0x3E => (BitOperation::ShiftRight(false), Operand::Addr(Register16::HL)),
        0x3F => (BitOperation::ShiftRight(false), Operand::Reg(Register8::A)),
        0x40 => (BitOperation::Test(0), Operand::Reg(Register8::B)),
        0x41 => (BitOperation::Test(0), Operand::Reg(Register8::C)),
        0x42 => (BitOperation::Test(0), Operand::Reg(Register8::D)),
        0x43 => (BitOperation::Test(0), Operand::Reg(Register8::E)),
        0x44 => (BitOperation::Test(0), Operand::Reg(Register8::H)),
        0x45 => (BitOperation::Test(0), Operand::Reg(Register8::L)),
        0x46 => (BitOperation::Test(0), Operand::Addr(Register16::HL)),
        0x47 => (BitOperation::Test(0), Operand::Reg(Register8::A)),
        0x48 => (BitOperation::Test(1), Operand::Reg(Register8::B)),
        0x49 => (BitOperation::Test(1), Operand::Reg(Register8::C)),
        0x4A => (BitOperation::Test(1), Operand::Reg(Register8::D)),
        0x4B => (BitOperation::Test(1), Operand::Reg(Register8::E)),
        0x4C => (BitOperation::Test(1), Operand::Reg(Register8::H)),
        0x4D => (BitOperation::Test(1), Operand::Reg(Register8::L)),
        0x4E => (BitOperation::Test(1), Operand::Addr(Register16::HL)),
        0x4F => (BitOperation::Test(1), Operand::Reg(Register8::A)),
        0x50 => (BitOperation::Test(2), Operand::Reg(Register8::B)),
        0x51 => (BitOperation::Test(2), Operand::Reg(Register8::C)),
        0x52 => (BitOperation::Test(2), Operand::Reg(Register8::D)),
        0x53 => (BitOperation::Test(2), Operand::Reg(Register8::E)),
        0x54 => (BitOperation::Test(2), Operand::Reg(Register8::H)),
        0x55 => (BitOperation::Test(2), Operand::Reg(Register8::L)),
        0x56 => (BitOperation::Test(2), Operand::Addr(Register16::HL)),
        0x57 => (BitOperation::Test(2), Operand::Reg(Register8::A)),
        0x58 => (BitOperation::Test(3), Operand::Reg(Register8::B)),
        0x59 => (BitOperation::Test(3), Operand::Reg(Register8::C)),
        0x5A => (BitOperation::Test(3), Operand::Reg(Register8::D)),
        0x5B => (BitOperation::Test(3), Operand::Reg(Register8::E)),
        0x5C => (BitOperation::Test(3), Operand::Reg(Register8::H)),
        0x5D => (BitOperation::Test(3), Operand::Reg(Register8::L)),
        0x5E => (BitOperation::Test(3), Operand::Addr(Register16::HL)),
        0x5F => (BitOperation::Test(3), Operand::Reg(Register8::A)),
        0x60 => (BitOperation::Test(4), Operand::Reg(Register8::B)),
        0x61 => (BitOperation::Test(4), Operand::Reg(Register8::C)),
        0x62 => (BitOperation::Test(4), Operand::Reg(Register8::D)),
        0x63 => (BitOperation::Test(4), Operand::Reg(Register8::E)),
        0x64 => (BitOperation::Test(4), Operand::Reg(Register8::H)),
        0x65 => (BitOperation::Test(4), Operand::Reg(Register8::L)),
        0x66 => (BitOperation::Test(4), Operand::Addr(Register16::HL)),
        0x67 => (BitOperation::Test(4), Operand::Reg(Register8::A)),
        0x68 => (BitOperation::Test(5), Operand::Reg(Register8::B)),
        0x69 => (BitOperation::Test(5), Operand::Reg(Register8::C)),
        0x6A => (BitOperation::Test(5), Operand::Reg(Register8::D)),
        0x6B => (BitOperation::Test(5), Operand::Reg(Register8::E)),
        0x6C => (BitOperation::Test(5), Operand::Reg(Register8::H)),
        0x6D => (BitOperation::Test(5), Operand::Reg(Register8::L)),
        0x6E => (BitOperation::Test(5), Operand::Addr(Register16::HL)),
        0x6F => (BitOperation::Test(5), Operand::Reg(Register8::A)),
        0x70 => (BitOperation::Test(6), Operand::Reg(Register8::B)),
        0x71 => (BitOperation::Test(6), Operand::Reg(Register8::C)),
        0x72 => (BitOperation::Test(6), Operand::Reg(Register8::D)),
        0x73 => (BitOperation::Test(6), Operand::Reg(Register8::E)),
        0x74 => (BitOperation::Test(6), Operand::Reg(Register8::H)),
        0x75 => (BitOperation::Test(6), Operand::Reg(Register8::L)),
        0x76 => (BitOperation::Test(6), Operand::Addr(Register16::HL)),
        0x77 => (BitOperation::Test(6), Operand::Reg(Register8::A)),
        0x78 => (BitOperation::Test(7), Operand::Reg(Register8::B)),
        0x79 => (BitOperation::Test(7), Operand::Reg(Register8::C)),
        0x7A => (BitOperation::Test(7), Operand::Reg(Register8::D)),
        0x7B => (BitOperation::Test(7), Operand::Reg(Register8::E)),
        0x7C => (BitOperation::Test(7), Operand::Reg(Register8::H)),
        0x7D => (BitOperation::Test(7), Operand::Reg(Register8::L)),
        0x7E => (BitOperation::Test(7), Operand::Addr(Register16::HL)),
        0x7F => (BitOperation::Test(7), Operand::Reg(Register8::A)),
        0x80 => (BitOperation::Clear(0), Operand::Reg(Register8::B)),
        0x81 => (BitOperation::Clear(0), Operand::Reg(Register8::C)),
        0x82 => (BitOperation::Clear(0), Operand::Reg(Register8::D)),
        0x83 => (BitOperation::Clear(0), Operand::Reg(Register8::E)),
        0x84 => (BitOperation::Clear(0), Operand::Reg(Register8::H)),
        0x85 => (BitOperation::Clear(0), Operand::Reg(Register8::L)),
        0x86 => (BitOperation::Clear(0), Operand::Addr(Register16::HL)),
        0x87 => (BitOperation::Clear(0), Operand::Reg(Register8::A)),
        0x88 => (BitOperation::Clear(1), Operand::Reg(Register8::B)),
        0x89 => (BitOperation::Clear(1), Operand::Reg(Register8::C)),
        0x8A => (BitOperation::Clear(1), Operand::Reg(Register8::D)),
        0x8B => (BitOperation::Clear(1), Operand::Reg(Register8::E)),
        0x8C => (BitOperation::Clear(1), Operand::Reg(Register8::H)),
        0x8D => (BitOperation::Clear(1), Operand::Reg(Register8::L)),
        0x8E => (BitOperation::Clear(1), Operand::Addr(Register16::HL)),
        0x8F => (BitOperation::Clear(1), Operand::Reg(Register8::A)),
        0x90 => (BitOperation::Clear(2), Operand::Reg(Register8::B)),
        0x91 => (BitOperation::Clear(2), Operand::Reg(Register8::C)),
        0x92 => (BitOperation::Clear(2), Operand::Reg(Register8::D)),
        0x93 => (BitOperation::Clear(2), Operand::Reg(Register8::E)),
        0x94 => (BitOperation::Clear(2), Operand::Reg(Register8::H)),
        0x95 => (BitOperation::Clear(2), Operand::Reg(Register8::L)),
        0x96 => (BitOperation::Clear(2), Operand::Addr(Register16::HL)),
        0x97 => (BitOperation::Clear(2), Operand::Reg(Register8::A)),
        0x98 => (BitOperation::Clear(3), Operand::Reg(Register8::B)),
        0x99 => (BitOperation::Clear(3), Operand::Reg(Register8::C)),
        0x9A => (BitOperation::Clear(3), Operand::Reg(Register8::D)),
        0x9B => (BitOperation::Clear(3), Operand::Reg(Register8::E)),
        0x9C => (BitOperation::Clear(3), Operand::Reg(Register8::H)),
        0x9D => (BitOperation::Clear(3), Operand::Reg(Register8::L)),
        0x9E => (BitOperation::Clear(3), Operand::Addr(Register16::HL)),
        0x9F => (BitOperation::Clear(3), Operand::Reg(Register8::A)),
        0xA0 => (BitOperation::Clear(4), Operand::Reg(Register8::B)),
        0xA1 => (BitOperation::Clear(4), Operand::Reg(Register8::C)),
        0xA2 => (BitOperation::Clear(4), Operand::Reg(Register8::D)),
        0xA3 => (BitOperation::Clear(4), Operand::Reg(Register8::E)),
        0xA4 => (BitOperation::Clear(4), Operand::Reg(Register8::H)),
        0xA5 => (BitOperation::Clear(4), Operand::Reg(Register8::L)),
        0xA6 => (BitOperation::Clear(4), Operand::Addr(Register16::HL)),
        0xA7 => (BitOperation::Clear(4), Operand::Reg(Register8::A)),
        0xA8 => (BitOperation::Clear(5), Operand::Reg(Register8::B)),
        0xA9 => (BitOperation::Clear(5), Operand::Reg(Register8::C)),
        0xAA => (BitOperation::Clear(5), Operand::Reg(Register8::D)),
        0xAB => (BitOperation::Clear(5), Operand::Reg(Register8::E)),
        0xAC => (BitOperation::Clear(5), Operand::Reg(Register8::H)),
        0xAD => (BitOperation::Clear(5), Operand::Reg(Register8::L)),
        0xAE => (BitOperation::Clear(5), Operand::Addr(Register16::HL)),
        0xAF => (BitOperation::Clear(5), Operand::Reg(Register8::A)),
        0xB0 => (BitOperation::Clear(6), Operand::Reg(Register8::B)),
        0xB1 => (BitOperation::Clear(6), Operand::Reg(Register8::C)),
        0xB2 => (BitOperation::Clear(6), Operand::Reg(Register8::D)),
        0xB3 => (BitOperation::Clear(6), Operand::Reg(Register8::E)),
        0xB4 => (BitOperation::Clear(6), Operand::Reg(Register8::H)),
        0xB5 => (BitOperation::Clear(6), Operand::Reg(Register8::L)),
        0xB6 => (BitOperation::Clear(6), Operand::Addr(Register16::HL)),
        0xB7 => (BitOperation::Clear(6), Operand::Reg(Register8::A)),
        0xB8 => (BitOperation::Clear(7), Operand::Reg(Register8::B)),
        0xB9 => (BitOperation::Clear(7), Operand::Reg(Register8::C)),
        0xBA => (BitOperation::Clear(7), Operand::Reg(Register8::D)),
        0xBB => (BitOperation::Clear(7), Operand::Reg(Register8::E)),
        0xBC => (BitOperation::Clear(7), Operand::Reg(Register8::H)),
        0xBD => (BitOperation::Clear(7), Operand::Reg(Register8::L)),
        0xBE => (BitOperation::Clear(7), Operand::Addr(Register16::HL)),
        0xBF => (BitOperation::Clear(7), Operand::Reg(Register8::A)),
        0xC0 => (BitOperation::Raise(0), Operand::Reg(Register8::B)),
        0xC1 => (BitOperation::Raise(0), Operand::Reg(Register8::C)),
        0xC2 => (BitOperation::Raise(0), Operand::Reg(Register8::D)),
        0xC3 => (BitOperation::Raise(0), Operand::Reg(Register8::E)),
        0xC4 => (BitOperation::Raise(0), Operand::Reg(Register8::H)),
        0xC5 => (BitOperation::Raise(0), Operand::Reg(Register8::L)),
        0xC6 => (BitOperation::Raise(0), Operand::Addr(Register16::HL)),
        0xC7 => (BitOperation::Raise(0), Operand::Reg(Register8::A)),
        0xC8 => (BitOperation::Raise(1), Operand::Reg(Register8::B)),
        0xC9 => (BitOperation::Raise(1), Operand::Reg(Register8::C)),
        0xCA => (BitOperation::Raise(1), Operand::Reg(Register8::D)),
        0xCB => (BitOperation::Raise(1), Operand::Reg(Register8::E)),
        0xCC => (BitOperation::Raise(1), Operand::Reg(Register8::H)),
        0xCD => (BitOperation::Raise(1), Operand::Reg(Register8::L)),
        0xCE => (BitOperation::Raise(1), Operand::Addr(Register16::HL)),
        0xCF => (BitOperation::Raise(1), Operand::Reg(Register8::A)),
        0xD0 => (BitOperation::Raise(2), Operand::Reg(Register8::B)),
        0xD1 => (BitOperation::Raise(2), Operand::Reg(Register8::C)),
        0xD2 => (BitOperation::Raise(2), Operand::Reg(Register8::D)),
        0xD3 => (BitOperation::Raise(2), Operand::Reg(Register8::E)),
        0xD4 => (BitOperation::Raise(2), Operand::Reg(Register8::H)),
        0xD5 => (BitOperation::Raise(2), Operand::Reg(Register8::L)),
        0xD6 => (BitOperation::Raise(2), Operand::Addr(Register16::HL)),
        0xD7 => (BitOperation::Raise(2), Operand::Reg(Register8::A)),
        0xD8 => (BitOperation::Raise(3), Operand::Reg(Register8::B)),
        0xD9 => (BitOperation::Raise(3), Operand::Reg(Register8::C)),
        0xDA => (BitOperation::Raise(3), Operand::Reg(Register8::D)),
        0xDB => (BitOperation::Raise(3), Operand::Reg(Register8::E)),
        0xDC => (BitOperation::Raise(3), Operand::Reg(Register8::H)),
        0xDD => (BitOperation::Raise(3), Operand::Reg(Register8::L)),
        0xDE => (BitOperation::Raise(3), Operand::Addr(Register16::HL)),
        0xDF => (BitOperation::Raise(3), Operand::Reg(Register8::A)),
        0xE0 => (BitOperation::Raise(4), Operand::Reg(Register8::B)),
        0xE1 => (BitOperation::Raise(4), Operand::Reg(Register8::C)),
        0xE2 => (BitOperation::Raise(4), Operand::Reg(Register8::D)),
        0xE3 => (BitOperation::Raise(4), Operand::Reg(Register8::E)),
        0xE4 => (BitOperation::Raise(4), Operand::Reg(Register8::H)),
        0xE5 => (BitOperation::Raise(4), Operand::Reg(Register8::L)),
        0xE6 => (BitOperation::Raise(4), Operand::Addr(Register16::HL)),
        0xE7 => (BitOperation::Raise(4), Operand::Reg(Register8::A)),
        0xE8 => (BitOperation::Raise(5), Operand::Reg(Register8::B)),
        0xE9 => (BitOperation::Raise(5), Operand::Reg(Register8::C)),
        0xEA => (BitOperation::Raise(5), Operand::Reg(Register8::D)),
        0xEB => (BitOperation::Raise(5), Operand::Reg(Register8::E)),
        0xEC => (BitOperation::Raise(5), Operand::Reg(Register8::H)),
        0xED => (BitOperation::Raise(5), Operand::Reg(Register8::L)),
        0xEE => (BitOperation::Raise(5), Operand::Addr(Register16::HL)),
        0xEF => (BitOperation::Raise(5), Operand::Reg(Register8::A)),
        0xF0 => (BitOperation::Raise(6), Operand::Reg(Register8::B)),
        0xF1 => (BitOperation::Raise(6), Operand::Reg(Register8::C)),
        0xF2 => (BitOperation::Raise(6), Operand::Reg(Register8::D)),
        0xF3 => (BitOperation::Raise(6), Operand::Reg(Register8::E)),
        0xF4 => (BitOperation::Raise(6), Operand::Reg(Register8::H)),
        0xF5 => (BitOperation::Raise(6), Operand::Reg(Register8::L)),
        0xF6 => (BitOperation::Raise(6), Operand::Addr(Register16::HL)),
        0xF7 => (BitOperation::Raise(6), Operand::Reg(Register8::A)),
        0xF8 => (BitOperation::Raise(7), Operand::Reg(Register8::B)),
        0xF9 => (BitOperation::Raise(7), Operand::Reg(Register8::C)),
        0xFA => (BitOperation::Raise(7), Operand::Reg(Register8::D)),
        0xFB => (BitOperation::Raise(7), Operand::Reg(Register8::E)),
        0xFC => (BitOperation::Raise(7), Operand::Reg(Register8::H)),
        0xFD => (BitOperation::Raise(7), Operand::Reg(Register8::L)),
        0xFE => (BitOperation::Raise(7), Operand::Addr(Register16::HL)),
        _ => (BitOperation::Raise(7), Operand::Reg(Register8::A)),
    }
}

/// Executes the instruction that the second opcode byte names. Returns the
/// master ticks of the whole instruction.
#[verifier::rlimit(30)]
pub fn execute(cpu: &mut Cpu, hw: &mut Hardware, prefix: u8) -> (r: u8)
    requires
        old(hw).wf(),
    ensures
        final(hw).wf(),
        (*final(cpu), *final(hw), r) == executed(*old(cpu), *old(hw), prefix),
        r == 8 || r == 12 || r == 16,
{
    reveal(executed);
    let (operation, byte) = decode(prefix);
    match operation {
        BitOperation::Rotate(dir) => rotate(cpu, hw, byte, dir),
        BitOperation::RotateCarry(dir) => rotate_carry(cpu, hw, byte, dir),
        BitOperation::ShiftLeft => shift_left(cpu, hw, byte),
        BitOperation::ShiftRight(signed) => shift_right(cpu, hw, byte, signed),
        BitOperation::Swap => swap(cpu, hw, byte),
        BitOperation::Test(index) => bit(cpu, hw, byte, index),
        BitOperation::Clear(index) => reset(cpu, hw, byte, index),
        BitOperation::Raise(index) => set(cpu, hw, byte, index),
    }
}

} // verus!
