//! The instructions of the primary table: what each does to the processor
//! and to memory, and the table that tells them apart by their opcode.

use crate::cpu::alu::{
    add_bytes, add_offset, add_words, added, added16, and_bytes, anded, compare_bytes, compared,
    decimal_adjust, decimal_adjusted, decrement, decremented, increment, incremented, offset_added,
    or_bytes, ored, rotate_left, rotate_left_carry, rotate_right, rotate_right_carry, rotated_left,
    rotated_left_carry, rotated_right, rotated_right_carry, signed, subtract_bytes, subtracted,
    xor_bytes, xored, AluResult,
};
use crate::cpu::cbprefix;
use crate::cpu::{
    high_byte, hi, join, lo, low_byte, word, wrapped16, Cpu, CpuState, Flags, Register16,
    Register8, Registers,
};
use crate::hardware::{is_ram, lemma_ram_holds_writes, unechoed, Hardware};
use vstd::prelude::*;

verus! {

#[derive(Clone, Copy, Debug, PartialEq, Eq, Structural)]
pub enum Direction {
    Left,
    Right,
}

/// Whether an operation adds its operand or takes it away.
#[derive(Clone, Copy, Debug, PartialEq, Eq, Structural)]
pub enum Sign {
    Positive,
    Negative,
}

/// What an instruction works on: a register, or the byte of memory that a
/// register pair points to.
#[derive(Clone, Copy, Debug, PartialEq, Eq, Structural)]
pub enum Operand {
    Reg(Register8),
    Addr(Register16),
}

impl Operand {
    /// The operand that three bits of an opcode name.
    pub open spec fn of_code(code: int) -> Operand {
        if code == 0 {
            Operand::Reg(Register8::B)
        } else if code == 1 {
            Operand::Reg(Register8::C)
        } else if code == 2 {
            Operand::Reg(Register8::D)
        } else if code == 3 {
            Operand::Reg(Register8::E)
        } else if code == 4 {
            Operand::Reg(Register8::H)
        } else if code == 5 {
            Operand::Reg(Register8::L)
        } else if code == 6 {
            Operand::Addr(Register16::HL)
        } else {
            Operand::Reg(Register8::A)
        }
    }

    pub open spec fn value_spec(self, cpu: Cpu, hw: Hardware) -> u8 {
        match self {
            Operand::Reg(reg) => cpu.regs.reg(reg),
            Operand::Addr(reg) => hw.byte_at(cpu.regs.pair(reg)),
        }
    }

    /// Processor and memory after `value` was put where the operand is.
    pub open spec fn stored(self, cpu: Cpu, hw: Hardware, value: u8) -> (Cpu, Hardware) {
        match self {
            Operand::Reg(reg) => (cpu.with_reg(reg, value), hw),
            Operand::Addr(reg) => (cpu, hw.written(cpu.regs.pair(reg), value)),
        }
    }

    /// Master ticks that reaching the operand takes.
    pub open spec fn extra(self) -> int {
        match self {
            Operand::Reg(_) => 0,
            Operand::Addr(_) => 4,
        }
    }

    pub fn value(self, cpu: &Cpu, hw: &Hardware) -> (r: u8)
        requires
            hw.wf(),
        ensures
            r == self.value_spec(*cpu, *hw),
    {
        match self {
            Operand::Reg(reg) => cpu.regs.get(reg),
            Operand::Addr(reg) => hw.read(cpu.regs.combined(reg)),
        }
    }

    pub fn set_value(self, cpu: &mut Cpu, hw: &mut Hardware, value: u8)
        requires
            old(hw).wf(),
        ensures
            final(hw).wf(),
            (*final(cpu), *final(hw)) == self.stored(*old(cpu), *old(hw), value),
    {
        match self {
            Operand::Reg(reg) => cpu.regs.set(reg, value),
            Operand::Addr(reg) => hw.write(cpu.regs.combined(reg), value),
        }
    }

    pub fn extra_cycles(self) -> (r: u8)
        ensures
            r == self.extra(),
    {
        match self {
            Operand::Reg(_) => 0,
            Operand::Addr(_) => 4,
        }
    }
}

/// The register pair that two bits of an opcode name.
pub open spec fn pair_of(code: int) -> Register16 {
    if code == 0 {
        Register16::BC
    } else if code == 1 {
        Register16::DE
    } else if code == 2 {
        Register16::HL
    } else {
        Register16::SP
    }
}

/// The register pair that two bits of a push or a pop name.
pub open spec fn stack_pair_of(code: int) -> Register16 {
    if code == 3 {
        Register16::AF
    } else {
        pair_of(code)
    }
}

/// What the arithmetic operation that three bits of an opcode name makes of
/// the accumulator `a` and the operand `v`: add, add with carry, subtract,
/// subtract with carry, and, exclusive or, or, compare.
pub open spec fn operated(code: int, a: u8, v: u8, flags: Flags) -> AluResult {
    if code == 0 {
        added(a, v, false)
    } else if code == 1 {
        added(a, v, flags.carry)
    } else if code == 2 {
        subtracted(a, v, false)
    } else if code == 3 {
        subtracted(a, v, flags.carry)
    } else if code == 4 {
        anded(a, v)
    } else if code == 5 {
        xored(a, v)
    } else if code == 6 {
        ored(a, v)
    } else {
        compared(a, v)
    }
}

/// The code of an addition or a subtraction, with or without carry.
pub open spec fn sum_code(sign: Sign, use_carry: bool) -> int {
    (if sign is Negative { 2 } else { 0int }) + (if use_carry { 1 } else { 0int })
}

/// The processor with the accumulator and the flags that an operation left.
pub open spec fn with_result(cpu: Cpu, result: AluResult) -> Cpu {
    Cpu { regs: Registers { a: result.value, flags: result.flags, ..cpu.regs }, ..cpu }
}

/// The processor after an arithmetic operation on the accumulator.
pub open spec fn computed(cpu: Cpu, code: int, v: u8) -> Cpu {
    with_result(cpu, operated(code, cpu.regs.a, v, cpu.regs.flags))
}

/// A register pair stepped up or down, the words wrapping round.
pub open spec fn stepped16(cpu: Cpu, reg: Register16, val: i16) -> Cpu {
    cpu.with_pair(reg, wrapped16(cpu.regs.pair(reg) + val + 0x1_0000))
}

/// What stepping a byte up or down by one makes of it and of the flags.
pub open spec fn stepped(v: u8, val: i8, flags: Flags) -> AluResult {
    if val < 0 {
        decremented(v, flags)
    } else {
        incremented(v, flags)
    }
}

pub open spec fn stepped_register8(cpu: Cpu, reg: Register8, val: i8) -> Cpu {
    let result = stepped(cpu.regs.reg(reg), val, cpu.regs.flags);
    cpu.with_reg(reg, result.value).with_flags(result.flags)
}

pub open spec fn stepped_addr(cpu: Cpu, hw: Hardware, val: i8) -> (Cpu, Hardware, u8) {
    let addr = cpu.regs.pair(Register16::HL);
    let result = stepped(hw.byte_at(addr), val, cpu.regs.flags);
    (cpu.with_flags(result.flags), hw.written(addr, result.value), 12)
}

/// The accumulator rotated, bit 7 or bit 0 coming back in at the other end.
/// The zero flag is cleared whatever comes out.
pub open spec fn rotated_circular_a(cpu: Cpu, dir: Direction) -> Cpu {
    let result = if dir is Left { rotated_left(cpu.regs.a) } else { rotated_right(cpu.regs.a) };
    with_result(cpu, AluResult { flags: Flags { zero: false, ..result.flags }, ..result })
}

/// The accumulator rotated through the carry flag. The zero flag is cleared
/// whatever comes out.
pub open spec fn rotated_a(cpu: Cpu, dir: Direction) -> Cpu {
    let result = if dir is Left {
        rotated_left_carry(cpu.regs.a, cpu.regs.flags.carry)
    } else {
        rotated_right_carry(cpu.regs.a, cpu.regs.flags.carry)
    };
    with_result(cpu, AluResult { flags: Flags { zero: false, ..result.flags }, ..result })
}

pub open spec fn added_register16(cpu: Cpu, reg1: Register16, reg2: Register16) -> Cpu {
    let result = added16(cpu.regs.pair(reg1), cpu.regs.pair(reg2), cpu.regs.flags);
    cpu.with_pair(reg1, result.value).with_flags(result.flags)
}

pub open spec fn complemented(cpu: Cpu) -> Cpu {
    Cpu {
        regs: Registers {
            a: !cpu.regs.a,
            flags: Flags { neg: true, half_carry: true, ..cpu.regs.flags },
            ..cpu.regs
        },
        ..cpu
    }
}

pub open spec fn carry_set(cpu: Cpu) -> Cpu {
    cpu.with_flags(Flags { neg: false, half_carry: false, carry: true, ..cpu.regs.flags })
}

pub open spec fn carry_flipped(cpu: Cpu) -> Cpu {
    cpu.with_flags(
        Flags { neg: false, half_carry: false, carry: !cpu.regs.flags.carry, ..cpu.regs.flags },
    )
}

/// A jump by the signed byte at the program counter, counted from behind
/// that byte, if `taken`.
pub open spec fn jumped_relative(cpu: Cpu, hw: Hardware, taken: bool) -> (Cpu, Hardware, u8) {
    let next = cpu.skipped(1);
    if taken {
        (
            next.with_pc(wrapped16(next.regs.prog_counter + signed(cpu.operand(hw, 0)) + 0x1_0000)),
            hw,
            12,
        )
    } else {
        (next, hw, 8)
    }
}

/// A jump to the word at the program counter, if `taken`.
pub open spec fn jumped_absolute(cpu: Cpu, hw: Hardware, taken: bool) -> (Cpu, Hardware, u8) {
    if taken {
        (cpu.with_pc(cpu.operand16(hw)), hw, 16)
    } else {
        (cpu.skipped(2), hw, 12)
    }
}

/// A call of the word at the program counter, if `taken`: the address
/// behind the word goes on the stack.
pub open spec fn called(cpu: Cpu, hw: Hardware, taken: bool) -> (Cpu, Hardware, u8) {
    let next = cpu.skipped(2);
    if taken {
        let (pushed, memory) = next.pushed(hw, next.regs.prog_counter);
        (pushed.with_pc(cpu.operand16(hw)), memory, 24)
    } else {
        (next, hw, 12)
    }
}

/// A return to the word on top of the stack. With a condition it takes
/// longer, and nothing but time if the condition does not hold.
pub open spec fn returned(cpu: Cpu, hw: Hardware, condition: Option<bool>) -> (Cpu, Hardware, u8) {
    match condition {
        Some(false) => (cpu, hw, 8),
        Some(true) => (cpu.popped().with_pc(cpu.stack_top(hw)), hw, 20),
        None => (cpu.popped().with_pc(cpu.stack_top(hw)), hw, 16),
    }
}

/// A call of one of the eight fixed addresses of the first page.
pub open spec fn restarted(cpu: Cpu, hw: Hardware, lsb: u8) -> (Cpu, Hardware, u8) {
    let (pushed, memory) = cpu.pushed(hw, cpu.regs.prog_counter);
    (pushed.with_pc(word(0, lsb)), memory, 16)
}

/// The word at the program counter goes to a register pair.
pub open spec fn loaded_immediate16(cpu: Cpu, hw: Hardware, reg: Register16) -> Cpu {
    cpu.skipped(2).with_pair(reg, cpu.operand16(hw))
}

/// The stack pointer goes to the address that the word at the program
/// counter names, low byte first.
pub open spec fn stored_stack_pointer(cpu: Cpu, hw: Hardware) -> (Cpu, Hardware, u8) {
    let addr = cpu.operand16(hw);
    (
        cpu.skipped(2),
        hw.written(addr, low_byte(cpu.regs.stack_pointer)).written(
            wrapped16(addr + 1),
            high_byte(cpu.regs.stack_pointer),
        ),
        20,
    )
}

/// A register goes to the address that a register pair holds.
pub open spec fn stored_register8(cpu: Cpu, hw: Hardware, reg_addr: Register16, src: Register8)
    -> Hardware {
    hw.written(cpu.regs.pair(reg_addr), cpu.regs.reg(src))
}

/// The byte at the address that a register pair holds goes to a register.
pub open spec fn loaded_from_addr(cpu: Cpu, hw: Hardware, dst: Register8, reg_addr: Register16)
    -> Cpu {
    cpu.with_reg(dst, hw.byte_at(cpu.regs.pair(reg_addr)))
}

/// The accumulator goes to the address that HL holds, and HL moves on.
pub open spec fn stored_a_stepping(cpu: Cpu, hw: Hardware, inc: i16) -> (Cpu, Hardware, u8) {
    (
        stepped16(cpu, Register16::HL, inc),
        stored_register8(cpu, hw, Register16::HL, Register8::A),
        8,
    )
}

/// The byte at the address that HL holds goes to the accumulator, and HL
/// moves on.
pub open spec fn loaded_a_stepping(cpu: Cpu, hw: Hardware, inc: i16) -> Cpu {
    stepped16(loaded_from_addr(cpu, hw, Register8::A, Register16::HL), Register16::HL, inc)
}

/// The address in the last page that a byte names.
pub open spec fn high_page(offset: u8) -> u16 {
    (0xFF00 + offset) as u16
}

/// The stack pointer moved by the signed byte at the program counter.
pub open spec fn stack_pointer_moved(cpu: Cpu, hw: Hardware) -> Cpu {
    let result = offset_added(cpu.regs.stack_pointer, cpu.operand(hw, 0));
    cpu.skipped(1).with_sp(result.value).with_flags(result.flags)
}

/// HL set to the stack pointer moved by the signed byte at the program
/// counter.
pub open spec fn hl_from_stack_pointer(cpu: Cpu, hw: Hardware) -> Cpu {
    let result = offset_added(cpu.regs.stack_pointer, cpu.operand(hw, 0));
    cpu.skipped(1).with_pair(Register16::HL, result.value).with_flags(result.flags)
}

pub fn nop(_cpu: &mut Cpu) -> (r: u8)
    ensures
        r == 4,
        *final(_cpu) == *old(_cpu),
{
    4
}

pub fn ld_register16_immediate(cpu: &mut Cpu, hw: &Hardware, reg: Register16) -> (r: u8)
    requires
        hw.wf(),
    ensures
        r == 12,
        *final(cpu) == loaded_immediate16(*old(cpu), *hw, reg),
{
    let value = cpu.pop_prog_counter16(hw);
    cpu.regs.set_combined(reg, value);
    12
}

pub fn ld_addr_from_register8(cpu: &mut Cpu, hw: &mut Hardware, reg_addr: Register16, src: Register8)
    -> (r: u8)
    requires
        old(hw).wf(),
    ensures
        final(hw).wf(),
        r == 8,
        *final(cpu) == *old(cpu),
        *final(hw) == stored_register8(*old(cpu), *old(hw), reg_addr, src),
{
    hw.write(cpu.regs.combined(reg_addr), cpu.regs.get(src));
    8
}

pub fn inc_register16(cpu: &mut Cpu, reg: Register16, val: i16) -> (r: u8)
    ensures
        r == 8,
        *final(cpu) == stepped16(*old(cpu), reg, val),
{
    let moved: i32 = cpu.regs.combined(reg) as i32 + val as i32 + 0x1_0000;
    cpu.regs.set_combined(reg, (moved % 0x1_0000) as u16);
    8
}

pub fn ld_register8_immediate(cpu: &mut Cpu, hw: &Hardware, reg: Register8) -> (r: u8)
    requires
        hw.wf(),
    ensures
        r == 8,
        *final(cpu) == old(cpu).skipped(1).with_reg(reg, old(cpu).operand(*hw, 0)),
{
    let value = cpu.pop_prog_counter(hw);
    cpu.regs.set(reg, value);
    8
}

pub fn rotate_circular_a(cpu: &mut Cpu, dir: Direction) -> (r: u8)
    ensures
        r == 4,
        *final(cpu) == rotated_circular_a(*old(cpu), dir),
{
    let result = match dir {
        Direction::Left => rotate_left(cpu.regs.a),
        Direction::Right => rotate_right(cpu.regs.a),
    };
    cpu.regs.a = result.value;
    cpu.regs.flags = result.flags;
    cpu.regs.flags.zero = false;
    4
}

pub fn ld_from_stack_pointer_immediate(cpu: &mut Cpu, hw: &mut Hardware) -> (r: u8)
    requires
        old(hw).wf(),
    ensures
        final(hw).wf(),
        (*final(cpu), *final(hw), r) == stored_stack_pointer(*old(cpu), *old(hw)),
{
    let addr = cpu.pop_prog_counter16(hw);
    hw.write(addr, lo(cpu.regs.stack_pointer));
    hw.write(addr.wrapping_add(1), hi(cpu.regs.stack_pointer));
    20
}

pub fn add_register16(cpu: &mut Cpu, reg1: Register16, reg2: Register16) -> (r: u8)
    ensures
        r == 8,
        *final(cpu) == added_register16(*old(cpu), reg1, reg2),
{
    let result = add_words(cpu.regs.combined(reg1), cpu.regs.combined(reg2), cpu.regs.flags);
    cpu.regs.set_combined(reg1, result.value);
    cpu.regs.flags = result.flags;
    8
}

pub fn ld_register8_from_addr(cpu: &mut Cpu, hw: &Hardware, dst: Register8, reg_addr: Register16)
    -> (r: u8)
    requires
        hw.wf(),
    ensures
        r == 8,
        *final(cpu) == loaded_from_addr(*old(cpu), *hw, dst, reg_addr),
{
    let value = hw.read(cpu.regs.combined(reg_addr));
    cpu.regs.set(dst, value);
    8
}

pub fn inc_register8(cpu: &mut Cpu, reg: Register8, val: i8) -> (r: u8)
    ensures
        r == 4,
        *final(cpu) == stepped_register8(*old(cpu), reg, val),
{
    let result = if val < 0 {
        decrement(cpu.regs.get(reg), cpu.regs.flags)
    } else {
        increment(cpu.regs.get(reg), cpu.regs.flags)
    };
    cpu.regs.set(reg, result.value);
    cpu.regs.flags = result.flags;
    4
}

pub fn stop(cpu: &mut Cpu, hw: &Hardware) -> (r: u8)
    requires
        hw.wf(),
    ensures
        r == 4,
        *final(cpu) == (Cpu { state: CpuState::Stopped, ..old(cpu).skipped(1) }),
{
    cpu.state = CpuState::Stopped;
    cpu.pop_prog_counter(hw);
    4
}

pub fn rotate_a(cpu: &mut Cpu, dir: Direction) -> (r: u8)
    ensures
        r == 4,
        *final(cpu) == rotated_a(*old(cpu), dir),
{
    let result = match dir {
        Direction::Left => rotate_left_carry(cpu.regs.a, cpu.regs.flags.carry),
        Direction::Right => rotate_right_carry(cpu.regs.a, cpu.regs.flags.carry),
    };
    cpu.regs.a = result.value;
    cpu.regs.flags = result.flags;
    cpu.regs.flags.zero = false;
    4
}

pub fn jump_relative(cpu: &mut Cpu, hw: &Hardware, condition: bool) -> (r: u8)
    requires
        hw.wf(),
    ensures
        (*final(cpu), *hw, r) == jumped_relative(*old(cpu), *hw, condition),
{
    let offset = cpu.pop_prog_counter(hw);
    if !condition {
        return 8;
    }
    let target: u32 = if offset < 128 {
        cpu.regs.prog_counter as u32 + offset as u32 + 0x1_0000
    } else {
        cpu.regs.prog_counter as u32 + offset as u32 + 0x1_0000 - 256
    };
    cpu.regs.prog_counter = (target % 0x1_0000) as u16;
    12
}

pub fn ld_addr_from_a_increment(cpu: &mut Cpu, hw: &mut Hardware, inc: i16) -> (r: u8)
    requires
        old(hw).wf(),
    ensures
        final(hw).wf(),
        (*final(cpu), *final(hw), r) == stored_a_stepping(*old(cpu), *old(hw), inc),
{
    ld_addr_from_register8(cpu, hw, Register16::HL, Register8::A);
    inc_register16(cpu, Register16::HL, inc);
    8
}

pub fn daa(cpu: &mut Cpu) -> (r: u8)
    ensures
        r == 4,
        *final(cpu) == with_result(*old(cpu), decimal_adjusted(old(cpu).regs.a, old(cpu).regs.flags)),
{
    let result = decimal_adjust(cpu.regs.a, cpu.regs.flags);
    cpu.regs.a = result.value;
    cpu.regs.flags = result.flags;
    4
}

pub fn ld_a_from_addr_increment(cpu: &mut Cpu, hw: &Hardware, inc: i16) -> (r: u8)
    requires
        hw.wf(),
    ensures
        r == 8,
        *final(cpu) == loaded_a_stepping(*old(cpu), *hw, inc),
{
    ld_register8_from_addr(cpu, hw, Register8::A, Register16::HL);
    inc_register16(cpu, Register16::HL, inc);
    8
}

pub fn cpl(cpu: &mut Cpu) -> (r: u8)
    ensures
        r == 4,
        *final(cpu) == complemented(*old(cpu)),
{
    cpu.regs.a = !cpu.regs.a;
    cpu.regs.flags.neg = true;
    cpu.regs.flags.half_carry = true;
    4
}

pub fn inc_addr(cpu: &mut Cpu, hw: &mut Hardware, val: i8) -> (r: u8)
    requires
        old(hw).wf(),
    ensures
        final(hw).wf(),
        (*final(cpu), *final(hw), r) == stepped_addr(*old(cpu), *old(hw), val),
{
    let addr = cpu.regs.combined(Register16::HL);
    let byte = hw.read(addr);
    let result = if val < 0 {
        decrement(byte, cpu.regs.flags)
    } else {
        increment(byte, cpu.regs.flags)
    };
    hw.write(addr, result.value);
    cpu.regs.flags = result.flags;
    12
}

pub fn ld_addr_from_immediate(cpu: &mut Cpu, hw: &mut Hardware) -> (r: u8)
    requires
        old(hw).wf(),
    ensures
        final(hw).wf(),
        r == 12,
        *final(cpu) == old(cpu).skipped(1),
        *final(hw) == old(hw).written(
            old(cpu).regs.pair(Register16::HL),
            old(cpu).operand(*old(hw), 0),
        ),
{
    let byte = cpu.pop_prog_counter(hw);
    hw.write(cpu.regs.combined(Register16::HL), byte);
    12
}

pub fn scf(cpu: &mut Cpu) -> (r: u8)
    ensures
        r == 4,
        *final(cpu) == carry_set(*old(cpu)),
{
    cpu.regs.flags.neg = false;
    cpu.regs.flags.half_carry = false;
    cpu.regs.flags.carry = true;
    4
}

pub fn ccf(cpu: &mut Cpu) -> (r: u8)
    ensures
        r == 4,
        *final(cpu) == carry_flipped(*old(cpu)),
{
    cpu.regs.flags.neg = false;
    cpu.regs.flags.half_carry = false;
    cpu.regs.flags.carry = !cpu.regs.flags.carry;
    4
}

pub fn ld_register8(cpu: &mut Cpu, dst: Register8, src: Register8) -> (r: u8)
    ensures
        r == 4,
        *final(cpu) == old(cpu).with_reg(dst, old(cpu).regs.reg(src)),
{
    let value = cpu.regs.get(src);
    cpu.regs.set(dst, value);
    4
}

pub fn halt(cpu: &mut Cpu) -> (r: u8)
    ensures
        r == 4,
        *final(cpu) == (Cpu { state: CpuState::Halted, ..*old(cpu) }),
{
    cpu.state = CpuState::Halted;
    4
}

pub fn add_register8(cpu: &mut Cpu, hw: &Hardware, operand: Operand, sign: Sign, use_carry: bool)
    -> (r: u8)
    requires
        hw.wf(),
    ensures
        r == 4 + operand.extra(),
        *final(cpu) == computed(
            *old(cpu),
            sum_code(sign, use_carry),
            operand.value_spec(*old(cpu), *hw),
        ),
{
    let carry = use_carry && cpu.regs.flags.carry;
    let value = operand.value(cpu, hw);
    let result = match sign {
        Sign::Positive => add_bytes(cpu.regs.a, value, carry),
        Sign::Negative => subtract_bytes(cpu.regs.a, value, carry),
    };
    cpu.regs.a = result.value;
    cpu.regs.flags = result.flags;
    4 + operand.extra_cycles()
}

pub fn and_register8(cpu: &mut Cpu, hw: &Hardware, operand: Operand) -> (r: u8)
    requires
        hw.wf(),
    ensures
        r == 4 + operand.extra(),
        *final(cpu) == computed(*old(cpu), 4, operand.value_spec(*old(cpu), *hw)),
{
    let result = and_bytes(cpu.regs.a, operand.value(cpu, hw));
    cpu.regs.a = result.value;
    cpu.regs.flags = result.flags;
    4 + operand.extra_cycles()
}

pub fn xor_register8(cpu: &mut Cpu, hw: &Hardware, operand: Operand) -> (r: u8)
    requires
        hw.wf(),
    ensures
        r == 4 + operand.extra(),
        *final(cpu) == computed(*old(cpu), 5, operand.value_spec(*old(cpu), *hw)),
{
    let result = xor_bytes(cpu.regs.a, operand.value(cpu, hw));
    cpu.regs.a = result.value;
    cpu.regs.flags = result.flags;
    4 + operand.extra_cycles()
}

pub fn or_register8(cpu: &mut Cpu, hw: &Hardware, operand: Operand) -> (r: u8)
    requires
        hw.wf(),
    ensures
        r == 4 + operand.extra(),
        *final(cpu) == computed(*old(cpu), 6, operand.value_spec(*old(cpu), *hw)),
{
    let result = or_bytes(cpu.regs.a, operand.value(cpu, hw));
    cpu.regs.a = result.value;
    cpu.regs.flags = result.flags;
    4 + operand.extra_cycles()
}

pub fn cp_register8(cpu: &mut Cpu, hw: &Hardware, operand: Operand) -> (r: u8)
    requires
        hw.wf(),
    ensures
        r == 4 + operand.extra(),
        *final(cpu) == computed(*old(cpu), 7, operand.value_spec(*old(cpu), *hw)),
{
    let result = compare_bytes(cpu.regs.a, operand.value(cpu, hw));
    cpu.regs.flags = result.flags;
    4 + operand.extra_cycles()
}

pub fn ret(cpu: &mut Cpu, hw: &Hardware, condition: Option<bool>) -> (r: u8)
    requires
        hw.wf(),
    ensures
        (*final(cpu), *hw, r) == returned(*old(cpu), *hw, condition),
{
    let (condition, cycles): (bool, u8) = match condition {
        Some(cond) => {
            if cond {
                (true, 20)
            } else {
                (false, 8)
            }
        },
        None => (true, 16),
    };
    if !condition {
        return cycles;
    }
    let addr = cpu.pop_word(hw);
    cpu.regs.prog_counter = addr;
    cycles
}

pub fn pop(cpu: &mut Cpu, hw: &Hardware, dest: Register16) -> (r: u8)
    requires
        hw.wf(),
    ensures
        r == 12,
        *final(cpu) == old(cpu).popped().with_pair(dest, old(cpu).stack_top(*hw)),
{
    let value = cpu.pop_word(hw);
    cpu.regs.set_combined(dest, value);
    12
}

pub fn jump_absolute(cpu: &mut Cpu, hw: &Hardware, condition: bool) -> (r: u8)
    requires
        hw.wf(),
    ensures
        (*final(cpu), *hw, r) == jumped_absolute(*old(cpu), *hw, condition),
{
    let addr = cpu.pop_prog_counter16(hw);
    if !condition {
        return 12;
    }
    cpu.regs.prog_counter = addr;
    16
}

pub fn call(cpu: &mut Cpu, hw: &mut Hardware, condition: bool) -> (r: u8)
    requires
        old(hw).wf(),
    ensures
        final(hw).wf(),
        (*final(cpu), *final(hw), r) == called(*old(cpu), *old(hw), condition),
{
    // The subroutine address is read even if the condition is false!
    let addr = cpu.pop_prog_counter16(hw);
    if !condition {
        return 12;
    }
    let return_to = cpu.regs.prog_counter;
    cpu.push_word(hw, return_to);
    cpu.regs.prog_counter = addr;
    24
}

pub fn push(cpu: &mut Cpu, hw: &mut Hardware, src: Register16) -> (r: u8)
    requires
        old(hw).wf(),
    ensures
        final(hw).wf(),
        r == 16,
        (*final(cpu), *final(hw)) == old(cpu).pushed(*old(hw), old(cpu).regs.pair(src)),
{
    let value = cpu.regs.combined(src);
    cpu.push_word(hw, value);
    16
}

pub fn add_immediate(cpu: &mut Cpu, hw: &Hardware, sign: Sign, use_carry: bool) -> (r: u8)
    requires
        hw.wf(),
    ensures
        r == 8,
        *final(cpu) == computed(
            old(cpu).skipped(1),
            sum_code(sign, use_carry),
            old(cpu).operand(*hw, 0),
        ),
{
    let carry = use_carry && cpu.regs.flags.carry;
    let operand = cpu.pop_prog_counter(hw);
    let result = match sign {
        Sign::Positive => add_bytes(cpu.regs.a, operand, carry),
        Sign::Negative => subtract_bytes(cpu.regs.a, operand, carry),
    };
    cpu.regs.a = result.value;
    cpu.regs.flags = result.flags;
    8
}

pub fn and_immediate(cpu: &mut Cpu, hw: &Hardware) -> (r: u8)
    requires
        hw.wf(),
    ensures
        r == 8,
        *final(cpu) == computed(old(cpu).skipped(1), 4, old(cpu).operand(*hw, 0)),
{
    let operand = cpu.pop_prog_counter(hw);
    let result = and_bytes(cpu.regs.a, operand);
    cpu.regs.a = result.value;
    cpu.regs.flags = result.flags;
    8
}

pub fn xor_immediate(cpu: &mut Cpu, hw: &Hardware) -> (r: u8)
    requires
        hw.wf(),
    ensures
        r == 8,
        *final(cpu) == computed(old(cpu).skipped(1), 5, old(cpu).operand(*hw, 0)),
{
    let operand = cpu.pop_prog_counter(hw);
    let result = xor_bytes(cpu.regs.a, operand);
    cpu.regs.a = result.value;
    cpu.regs.flags = result.flags;
    8
}

pub fn or_immediate(cpu: &mut Cpu, hw: &Hardware) -> (r: u8)
    requires
        hw.wf(),
    ensures
        r == 8,
        *final(cpu) == computed(old(cpu).skipped(1), 6, old(cpu).operand(*hw, 0)),
{
    let operand = cpu.pop_prog_counter(hw);
    let result = or_bytes(cpu.regs.a, operand);
    cpu.regs.a = result.value;
    cpu.regs.flags = result.flags;
    8
}

pub fn cp_immediate(cpu: &mut Cpu, hw: &Hardware) -> (r: u8)
    requires
        hw.wf(),
    ensures
        r == 8,
        *final(cpu) == computed(old(cpu).skipped(1), 7, old(cpu).operand(*hw, 0)),
{
    let operand = cpu.pop_prog_counter(hw);
    let result = compare_bytes(cpu.regs.a, operand);
    cpu.regs.flags = result.flags;
    8
}

pub fn rst(cpu: &mut Cpu, hw: &mut Hardware, lsb: u8) -> (r: u8)
    requires
        old(hw).wf(),
    ensures
        final(hw).wf(),
        (*final(cpu), *final(hw), r) == restarted(*old(cpu), *old(hw), lsb),
{
    let return_to = cpu.regs.prog_counter;
    cpu.push_word(hw, return_to);
    cpu.regs.prog_counter = join(0x00, lsb);
    16
}

pub fn reti(cpu: &mut Cpu, hw: &Hardware) -> (r: u8)
    requires
        hw.wf(),
    ensures
        r == 16,
        *final(cpu) == (Cpu {
            interrupt_enabled: true,
            ..old(cpu).popped().with_pc(old(cpu).stack_top(*hw))
        }),
{
    cpu.interrupt_enabled = true;
    ret(cpu, hw, None)
}

/// Writes the accumulator to the address in the last page that the byte at
/// the program counter names.
pub fn ldh_addr_from_a(cpu: &mut Cpu, hw: &mut Hardware) -> (r: u8)
    requires
        old(hw).wf(),
    ensures
        final(hw).wf(),
        r == 12,
        *final(cpu) == old(cpu).skipped(1),
        *final(hw) == old(hw).written(high_page(old(cpu).operand(*old(hw), 0)), old(cpu).regs.a),
{
    let offset = cpu.pop_prog_counter(hw);
    hw.write(0xFF00 + offset as u16, cpu.regs.a);
    12
}

/// Reads the accumulator from the address in the last page that the byte at
/// the program counter names.
pub fn ldh_a_from_addr(cpu: &mut Cpu, hw: &Hardware) -> (r: u8)
    requires
        hw.wf(),
    ensures
        r == 12,
        *final(cpu) == old(cpu).skipped(1).with_reg(
            Register8::A,
            hw.byte_at(high_page(old(cpu).operand(*hw, 0))),
        ),
{
    let offset = cpu.pop_prog_counter(hw);
    cpu.regs.a = hw.read(0xFF00 + offset as u16);
    12
}

/// Writes the accumulator to the address in the last page that C names.
pub fn ld_high_c_from_a(cpu: &mut Cpu, hw: &mut Hardware) -> (r: u8)
    requires
        old(hw).wf(),
    ensures
        final(hw).wf(),
        r == 8,
        *final(cpu) == *old(cpu),
        *final(hw) == old(hw).written(high_page(old(cpu).regs.c), old(cpu).regs.a),
{
    hw.write(0xFF00 + cpu.regs.c as u16, cpu.regs.a);
    8
}

/// Reads the accumulator from the address in the last page that C names.
pub fn ld_a_from_high_c(cpu: &mut Cpu, hw: &Hardware) -> (r: u8)
    requires
        hw.wf(),
    ensures
        r == 8,
        *final(cpu) == old(cpu).with_reg(Register8::A, hw.byte_at(high_page(old(cpu).regs.c))),
{
    cpu.regs.a = hw.read(0xFF00 + cpu.regs.c as u16);
    8
}

/// Writes the accumulator to the address that the word at the program
/// counter names.
pub fn ld_immediate_addr_from_a(cpu: &mut Cpu, hw: &mut Hardware) -> (r: u8)
    requires
        old(hw).wf(),
    ensures
        final(hw).wf(),
        r == 16,
        *final(cpu) == old(cpu).skipped(2),
        *final(hw) == old(hw).written(old(cpu).operand16(*old(hw)), old(cpu).regs.a),
{
    let addr = cpu.pop_prog_counter16(hw);
    hw.write(addr, cpu.regs.a);
    16
}

/// Reads the accumulator from the address that the word at the program
/// counter names.
pub fn ld_a_from_immediate_addr(cpu: &mut Cpu, hw: &Hardware) -> (r: u8)
    requires
        hw.wf(),
    ensures
        r == 16,
        *final(cpu) == old(cpu).skipped(2).with_reg(
            Register8::A,
            hw.byte_at(old(cpu).operand16(*hw)),
        ),
{
    let addr = cpu.pop_prog_counter16(hw);
    cpu.regs.a = hw.read(addr);
    16
}

/// Moves the stack pointer by the signed byte at the program counter.
pub fn add_stack_pointer_immediate(cpu: &mut Cpu, hw: &Hardware) -> (r: u8)
    requires
        hw.wf(),
    ensures
        r == 16,
        *final(cpu) == stack_pointer_moved(*old(cpu), *hw),
{
    let offset = cpu.pop_prog_counter(hw);
    let result = add_offset(cpu.regs.stack_pointer, offset);
    cpu.regs.stack_pointer = result.value;
    cpu.regs.flags = result.flags;
    16
}

/// Sets HL to the stack pointer moved by the signed byte at the program
/// counter.
pub fn ld_hl_from_stack_pointer_offset(cpu: &mut Cpu, hw: &Hardware) -> (r: u8)
    requires
        hw.wf(),
    ensures
        r == 12,
        *final(cpu) == hl_from_stack_pointer(*old(cpu), *hw),
{
    let offset = cpu.pop_prog_counter(hw);
    let result = add_offset(cpu.regs.stack_pointer, offset);
    cpu.regs.set_combined(Register16::HL, result.value);
    cpu.regs.flags = result.flags;
    12
}

pub fn ld_stack_pointer_from_hl(cpu: &mut Cpu) -> (r: u8)
    ensures
        r == 8,
        *final(cpu) == old(cpu).with_sp(old(cpu).regs.pair(Register16::HL)),
{
    cpu.regs.stack_pointer = cpu.regs.combined(Register16::HL);
    8
}

pub fn jump_hl(cpu: &mut Cpu) -> (r: u8)
    ensures
        r == 4,
        *final(cpu) == old(cpu).with_pc(old(cpu).regs.pair(Register16::HL)),
{
    cpu.regs.prog_counter = cpu.regs.combined(Register16::HL);
    4
}

/// Switches the interrupts off, at once.
pub fn di(cpu: &mut Cpu) -> (r: u8)
    ensures
        r == 4,
        *final(cpu) == (Cpu { interrupt_enabled: false, enable_pending: false, ..*old(cpu) }),
{
    cpu.interrupt_enabled = false;
    cpu.enable_pending = false;
    4
}

/// Asks for the interrupts to be switched on once the next instruction is
/// done.
pub fn ei(cpu: &mut Cpu) -> (r: u8)
    ensures
        r == 4,
        *final(cpu) == (Cpu { enable_pending: true, ..*old(cpu) }),
{
    cpu.enable_pending = true;
    4
}


/// What a conditional jump, call or return looks at.
#[derive(Clone, Copy, Debug, PartialEq, Eq, Structural)]
pub enum Condition {
    NotZero,
    Zero,
    NotCarry,
    Carry,
}

impl Condition {
    /// The condition that two bits of an opcode name.
    pub open spec fn of_code(code: int) -> Condition {
        if code == 0 {
            Condition::NotZero
        } else if code == 1 {
            Condition::Zero
        } else if code == 2 {
            Condition::NotCarry
        } else {
            Condition::Carry
        }
    }

    pub open spec fn holds_spec(self, flags: Flags) -> bool {
        match self {
            Condition::NotZero => !flags.zero,
            Condition::Zero => flags.zero,
            Condition::NotCarry => !flags.carry,
            Condition::Carry => flags.carry,
        }
    }

    pub fn holds(self, flags: Flags) -> (r: bool)
        ensures
            r == self.holds_spec(flags),
    {
        match self {
            Condition::NotZero => !flags.zero,
            Condition::Zero => flags.zero,
            Condition::NotCarry => !flags.carry,
            Condition::Carry => flags.carry,
        }
    }
}

/// Whether a jump, call or return under `condition` goes ahead. Without a
/// condition it always does.
pub open spec fn taken_spec(condition: Option<Condition>, flags: Flags) -> bool {
    match condition {
        Some(condition) => condition.holds_spec(flags),
        None => true,
    }
}

pub fn taken(condition: Option<Condition>, flags: Flags) -> (r: bool)
    ensures
        r == taken_spec(condition, flags),
{
    match condition {
        Some(condition) => condition.holds(flags),
        None => true,
    }
}

/// Loads of one byte between registers and memory.
#[derive(Clone, Copy, Debug, PartialEq, Eq, Structural)]
pub enum Load {
    /// To the first register from the second.
    Register(Register8, Register8),
    /// To a register from the byte at the program counter.
    Immediate(Register8),
    /// To a register from the address that a register pair holds.
    FromAddr(Register8, Register16),
    /// To the address that a register pair holds from a register.
    ToAddr(Register16, Register8),
    /// To the address that HL holds from the byte at the program counter.
    ImmediateToAddr,
    /// To the address that HL holds from the accumulator, HL stepping.
    AToAddrStepping(i16),
    /// To the accumulator from the address that HL holds, HL stepping.
    AFromAddrStepping(i16),
}

/// Loads between the accumulator and an address given as such.
#[derive(Clone, Copy, Debug, PartialEq, Eq, Structural)]
pub enum HighLoad {
    ToHighImmediate,
    FromHighImmediate,
    ToHighC,
    FromHighC,
    ToImmediateAddr,
    FromImmediateAddr,
}

/// Loads of one word, the stack included.
#[derive(Clone, Copy, Debug, PartialEq, Eq, Structural)]
pub enum WideLoad {
    Immediate(Register16),
    StackPointerToAddr,
    HlFromStackPointerOffset,
    StackPointerFromHl,
    Push(Register16),
    Pop(Register16),
}

/// Arithmetic and logic on one byte.
#[derive(Clone, Copy, Debug, PartialEq, Eq, Structural)]
pub enum Arithmetic {
    /// Addition or subtraction, with or without the carry flag.
    Sum(Operand, Sign, bool),
    And(Operand),
    Xor(Operand),
    Or(Operand),
    Compare(Operand),
    /// A register stepped up or down by one.
    StepRegister(Register8, i8),
    /// The byte that HL points to stepped up or down by one.
    StepAddr(i8),
}

/// Arithmetic and logic on the accumulator and the byte at the program
/// counter.
#[derive(Clone, Copy, Debug, PartialEq, Eq, Structural)]
pub enum ImmediateArithmetic {
    Sum(Sign, bool),
    And,
    Xor,
    Or,
    Compare,
}

/// Arithmetic on words, and what works on the accumulator alone.
#[derive(Clone, Copy, Debug, PartialEq, Eq, Structural)]
pub enum Accumulator {
    AddWide(Register16, Register16),
    StepWide(Register16, i16),
    MoveStackPointer,
    RotateCircular(Direction),
    Rotate(Direction),
    DecimalAdjust,
    Complement,
    SetCarry,
}

/// Jumps, calls and returns.
#[derive(Clone, Copy, Debug, PartialEq, Eq, Structural)]
pub enum Control {
    JumpRelative(Option<Condition>),
    JumpAbsolute(Option<Condition>),
    JumpHl,
    Call(Option<Condition>),
    Return(Option<Condition>),
    /// Return and enable the interrupts.
    ReturnEnabling,
    /// Call of a fixed address of the first page, given by its low byte.
    Restart(u8),
}

#[derive(Clone, Copy, Debug, PartialEq, Eq, Structural)]
pub enum Misc {
    Nop,
    Stop,
    Halt,
    DisableInterrupts,
    EnableInterrupts,
    FlipCarry,
    /// The byte that follows names an instruction of the second table.
    Prefix,
    /// An opcode that names nothing. It passes like a `Nop`.
    Undefined,
}

/// An instruction of the primary table, with what it works on.
#[derive(Clone, Copy, Debug, PartialEq, Eq, Structural)]
pub enum Instruction {
    Load(Load),
    HighLoad(HighLoad),
    WideLoad(WideLoad),
    Arithmetic(Arithmetic),
    ImmediateArithmetic(ImmediateArithmetic),
    Accumulator(Accumulator),
    Control(Control),
    Misc(Misc),
}

/// The register that three bits of an opcode name. Six names no register.
pub open spec fn register_of(code: int) -> Register8 {
    if code == 0 {
        Register8::B
    } else if code == 1 {
        Register8::C
    } else if code == 2 {
        Register8::D
    } else if code == 3 {
        Register8::E
    } else if code == 4 {
        Register8::H
    } else if code == 5 {
        Register8::L
    } else {
        Register8::A
    }
}

/// The arithmetic on the accumulator that three bits of an opcode name.
pub open spec fn arithmetic_of(code: int, operand: Operand) -> Arithmetic {
    if code == 0 {
        Arithmetic::Sum(operand, Sign::Positive, false)
    } else if code == 1 {
        Arithmetic::Sum(operand, Sign::Positive, true)
    } else if code == 2 {
        Arithmetic::Sum(operand, Sign::Negative, false)
    } else if code == 3 {
        Arithmetic::Sum(operand, Sign::Negative, true)
    } else if code == 4 {
        Arithmetic::And(operand)
    } else if code == 5 {
        Arithmetic::Xor(operand)
    } else if code == 6 {
        Arithmetic::Or(operand)
    } else {
        Arithmetic::Compare(operand)
    }
}

pub open spec fn immediate_arithmetic_of(code: int) -> ImmediateArithmetic {
    if code == 0 {
        ImmediateArithmetic::Sum(Sign::Positive, false)
    } else if code == 1 {
        ImmediateArithmetic::Sum(Sign::Positive, true)
    } else if code == 2 {
        ImmediateArithmetic::Sum(Sign::Negative, false)
    } else if code == 3 {
        ImmediateArithmetic::Sum(Sign::Negative, true)
    } else if code == 4 {
        ImmediateArithmetic::And
    } else if code == 5 {
        ImmediateArithmetic::Xor
    } else if code == 6 {
        ImmediateArithmetic::Or
    } else {
        ImmediateArithmetic::Compare
    }
}

/// The instruction that an opcode of the first quarter of the table names:
/// `row` is bits 3 to 5 of the opcode, `column` bits 0 to 2.
pub open spec fn decoded_first(row: int, column: int) -> Instruction {
    let pair = pair_of(row / 2);
    if column == 0 {
        if row == 0 {
            Instruction::Misc(Misc::Nop)
        } else if row == 1 {
            Instruction::WideLoad(WideLoad::StackPointerToAddr)
        } else if row == 2 {
            Instruction::Misc(Misc::Stop)
        } else if row == 3 {
            Instruction::Control(Control::JumpRelative(None))
        } else {
            Instruction::Control(Control::JumpRelative(Some(Condition::of_code(row - 4))))
        }
    } else if column == 1 {
        if row % 2 == 0 {
            Instruction::WideLoad(WideLoad::Immediate(pair))
        } else {
            Instruction::Accumulator(Accumulator::AddWide(Register16::HL, pair))
        }
    } else if column == 2 {
        if row == 0 {
            Instruction::Load(Load::ToAddr(Register16::BC, Register8::A))
        } else if row == 1 {
            Instruction::Load(Load::FromAddr(Register8::A, Register16::BC))
        } else if row == 2 {
            Instruction::Load(Load::ToAddr(Register16::DE, Register8::A))
        } else if row == 3 {
            Instruction::Load(Load::FromAddr(Register8::A, Register16::DE))
        } else if row == 4 {
            Instruction::Load(Load::AToAddrStepping(1i16))
        } else if row == 5 {
            Instruction::Load(Load::AFromAddrStepping(1i16))
        } else if row == 6 {
            Instruction::Load(Load::AToAddrStepping(-1i16))
        } else {
            Instruction::Load(Load::AFromAddrStepping(-1i16))
        }
    } else if column == 3 {
        Instruction::Accumulator(Accumulator::StepWide(pair, if row % 2 == 0 { 1i16 } else { -1i16 }))
    } else if column == 4 || column == 5 {
        let val = if column == 4 { 1i8 } else { -1i8 };
        if row == 6 {
            Instruction::Arithmetic(Arithmetic::StepAddr(val))
        } else {
            Instruction::Arithmetic(Arithmetic::StepRegister(register_of(row), val))
        }
    } else if column == 6 {
        if row == 6 {
            Instruction::Load(Load::ImmediateToAddr)
        } else {
            Instruction::Load(Load::Immediate(register_of(row)))
        }
    } else {
        if row == 0 {
            Instruction::Accumulator(Accumulator::RotateCircular(Direction::Left))
        } else if row == 1 {
            Instruction::Accumulator(Accumulator::RotateCircular(Direction::Right))
        } else if row == 2 {
            Instruction::Accumulator(Accumulator::Rotate(Direction::Left))
        } else if row == 3 {
            Instruction::Accumulator(Accumulator::Rotate(Direction::Right))
        } else if row == 4 {
            Instruction::Accumulator(Accumulator::DecimalAdjust)
        } else if row == 5 {
            Instruction::Accumulator(Accumulator::Complement)
        } else if row == 6 {
            Instruction::Accumulator(Accumulator::SetCarry)
        } else {
            Instruction::Misc(Misc::FlipCarry)
        }
    }
}

/// The instruction that an opcode of the second quarter of the table names:
/// a load to the operand of the row from the operand of the column, but for
/// the one that would load memory from itself, which halts.
pub open spec fn decoded_second(row: int, column: int) -> Instruction {
    if row == 6 && column == 6 {
        Instruction::Misc(Misc::Halt)
    } else if row == 6 {
        Instruction::Load(Load::ToAddr(Register16::HL, register_of(column)))
    } else if column == 6 {
        Instruction::Load(Load::FromAddr(register_of(row), Register16::HL))
    } else {
        Instruction::Load(Load::Register(register_of(row), register_of(column)))
    }
}

/// The instruction that an opcode of the last quarter of the table names.
pub open spec fn decoded_last(row: int, column: int) -> Instruction {
    if column == 0 {
        if row < 4 {
            Instruction::Control(Control::Return(Some(Condition::of_code(row))))
        } else if row == 4 {
            Instruction::HighLoad(HighLoad::ToHighImmediate)
        } else if row == 5 {
            Instruction::Accumulator(Accumulator::MoveStackPointer)
        } else if row == 6 {
            Instruction::HighLoad(HighLoad::FromHighImmediate)
        } else {
            Instruction::WideLoad(WideLoad::HlFromStackPointerOffset)
        }
    } else if column == 1 {
        if row % 2 == 0 {
            Instruction::WideLoad(WideLoad::Pop(stack_pair_of(row / 2)))
        } else if row == 1 {
            Instruction::Control(Control::Return(None))
        } else if row == 3 {
            Instruction::Control(Control::ReturnEnabling)
        } else if row == 5 {
            Instruction::Control(Control::JumpHl)
        } else {
            Instruction::WideLoad(WideLoad::StackPointerFromHl)
        }
    } else if column == 2 {
        if row < 4 {
            Instruction::Control(Control::JumpAbsolute(Some(Condition::of_code(row))))
        } else if row == 4 {
            Instruction::HighLoad(HighLoad::ToHighC)
        } else if row == 5 {
            Instruction::HighLoad(HighLoad::ToImmediateAddr)
        } else if row == 6 {
            Instruction::HighLoad(HighLoad::FromHighC)
        } else {
            Instruction::HighLoad(HighLoad::FromImmediateAddr)
        }
    } else if column == 3 {
        if row == 0 {
            Instruction::Control(Control::JumpAbsolute(None))
        } else if row == 1 {
            Instruction::Misc(Misc::Prefix)
        } else if row == 6 {
            Instruction::Misc(Misc::DisableInterrupts)
        } else if row == 7 {
            Instruction::Misc(Misc::EnableInterrupts)
        } else {
            Instruction::Misc(Misc::Undefined)
        }
    } else if column == 4 {
        if row < 4 {
            Instruction::Control(Control::Call(Some(Condition::of_code(row))))
        } else {
            Instruction::Misc(Misc::Undefined)
        }
    } else if column == 5 {
        if row % 2 == 0 {
            Instruction::WideLoad(WideLoad::Push(stack_pair_of(row / 2)))
        } else if row == 1 {
            Instruction::Control(Control::Call(None))
        } else {
            Instruction::Misc(Misc::Undefined)
        }
    } else if column == 6 {
        Instruction::ImmediateArithmetic(immediate_arithmetic_of(row))
    } else {
        Instruction::Control(Control::Restart((row * 8) as u8))
    }
}

/// The instruction that an opcode names. The two high bits of the opcode
/// tell the quarters of the table apart, the next three give the row within
/// the quarter and the last three the column.
pub open spec fn decoded(opcode: u8) -> Instruction {
    let row = ((opcode / 8) % 8) as int;
    let column = (opcode % 8) as int;
    if opcode < 0x40 {
        decoded_first(row, column)
    } else if opcode < 0x80 {
        decoded_second(row, column)
    } else if opcode < 0xC0 {
        Instruction::Arithmetic(arithmetic_of(row, Operand::of_code(column)))
    } else {
        decoded_last(row, column)
    }
}

/// The table of the instructions, one entry for each opcode.
#[verifier::rlimit(80)]
pub fn decode(opcode: u8) -> (r: Instruction)
    ensures
        r == decoded(opcode),
{
    match opcode {
        0x00 => Instruction::Misc(Misc::Nop),
        0x01 => Instruction::WideLoad(WideLoad::Immediate(Register16::BC)),
        0x02 => Instruction::Load(Load::ToAddr(Register16::BC, Register8::A)),
        0x03 => Instruction::Accumulator(Accumulator::StepWide(Register16::BC, 1)),
        0x04 => Instruction::Arithmetic(Arithmetic::StepRegister(Register8::B, 1)),
        0x05 => Instruction::Arithmetic(Arithmetic::StepRegister(Register8::B, -1)),
        0x06 => Instruction::Load(Load::Immediate(Register8::B)),
        0x07 => Instruction::Accumulator(Accumulator::RotateCircular(Direction::Left)),
        0x08 => Instruction::WideLoad(WideLoad::StackPointerToAddr),
        0x09 => Instruction::Accumulator(Accumulator::AddWide(Register16::HL, Register16::BC)),
        0x0A => Instruction::Load(Load::FromAddr(Register8::A, Register16::BC)),
        0x0B => Instruction::Accumulator(Accumulator::StepWide(Register16::BC, -1)),
        0x0C => Instruction::Arithmetic(Arithmetic::StepRegister(Register8::C, 1)),
        0x0D => Instruction::Arithmetic(Arithmetic::StepRegister(Register8::C, -1)),
        0x0E => Instruction::Load(Load::Immediate(Register8::C)),
        0x0F => Instruction::Accumulator(Accumulator::RotateCircular(Direction::Right)),
        0x10 => Instruction::Misc(Misc::Stop),
        0x11 => Instruction::WideLoad(WideLoad::Immediate(Register16::DE)),
        0x12 => Instruction::Load(Load::ToAddr(Register16::DE, Register8::A)),
        0x13 => Instruction::Accumulator(Accumulator::StepWide(Register16::DE, 1)),
        0x14 => Instruction::Arithmetic(Arithmetic::StepRegister(Register8::D, 1)),
        0x15 => Instruction::Arithmetic(Arithmetic::StepRegister(Register8::D, -1)),
        0x16 => Instruction::Load(Load::Immediate(Register8::D)),
        0x17 => Instruction::Accumulator(Accumulator::Rotate(Direction::Left)),
        0x18 => Instruction::Control(Control::JumpRelative(None)),
        0x19 => Instruction::Accumulator(Accumulator::AddWide(Register16::HL, Register16::DE)),
        0x1A => Instruction::Load(Load::FromAddr(Register8::A, Register16::DE)),
        0x1B => Instruction::Accumulator(Accumulator::StepWide(Register16::DE, -1)),
        0x1C => Instruction::Arithmetic(Arithmetic::StepRegister(Register8::E, 1)),
        0x1D => Instruction::Arithmetic(Arithmetic::StepRegister(Register8::E, -1)),
        0x1E => Instruction::Load(Load::Immediate(Register8::E)),
        0x1F => Instruction::Accumulator(Accumulator::Rotate(Direction::Right)),
        0x20 => Instruction::Control(Control::JumpRelative(Some(Condition::NotZero))),
        0x21 => Instruction::WideLoad(WideLoad::Immediate(Register16::HL)),
        0x22 => Instruction::Load(Load::AToAddrStepping(1)),
        0x23 => Instruction::Accumulator(Accumulator::StepWide(Register16::HL, 1)),
        0x24 => Instruction::Arithmetic(Arithmetic::StepRegister(Register8::H, 1)),
        0x25 => Instruction::Arithmetic(Arithmetic::StepRegister(Register8::H, -1)),
        0x26 => Instruction::Load(Load::Immediate(Register8::H)),
        0x27 => Instruction::Accumulator(Accumulator::DecimalAdjust),
        0x28 => Instruction::Control(Control::JumpRelative(Some(Condition::Zero))),
        0x29 => Instruction::Accumulator(Accumulator::AddWide(Register16::HL, Register16::HL)),
        0x2A => Instruction::Load(Load::AFromAddrStepping(1)),
        0x2B => Instruction::Accumulator(Accumulator::StepWide(Register16::HL, -1)),
        0x2C => Instruction::Arithmetic(Arithmetic::StepRegister(Register8::L, 1)),
        0x2D => Instruction::Arithmetic(Arithmetic::StepRegister(Register8::L, -1)),
        0x2E => Instruction::Load(Load::Immediate(Register8::L)),
        0x2F => Instruction::Accumulator(Accumulator::Complement),
        0x30 => Instruction::Control(Control::JumpRelative(Some(Condition::NotCarry))),
        0x31 => Instruction::WideLoad(WideLoad::Immediate(Register16::SP)),
        0x32 => Instruction::Load(Load::AToAddrStepping(-1)),
        0x33 => Instruction::Accumulator(Accumulator::StepWide(Register16::SP, 1)),
        0x34 => Instruction::Arithmetic(Arithmetic::StepAddr(1)),
        0x35 => Instruction::Arithmetic(Arithmetic::StepAddr(-1)),
        0x36 => Instruction::Load(Load::ImmediateToAddr),
        0x37 => Instruction::Accumulator(Accumulator::SetCarry),
        0x38 => Instruction::Control(Control::JumpRelative(Some(Condition::Carry))),
        0x39 => Instruction::Accumulator(Accumulator::AddWide(Register16::HL, Register16::SP)),
        0x3A => Instruction::Load(Load::AFromAddrStepping(-1)),
        0x3B => Instruction::Accumulator(Accumulator::StepWide(Register16::SP, -1)),
        0x3C => Instruction::Arithmetic(Arithmetic::StepRegister(Register8::A, 1)),
        0x3D => Instruction::Arithmetic(Arithmetic::StepRegister(Register8::A, -1)),
        0x3E => Instruction::Load(Load::Immediate(Register8::A)),
        0x3F => Instruction::Misc(Misc::FlipCarry),
        0x40 => Instruction::Load(Load::Register(Register8::B, Register8::B)),
        0x41 => Instruction::Load(Load::Register(Register8::B, Register8::C)),
        0x42 => Instruction::Load(Load::Register(Register8::B, Register8::D)),
        0x43 => Instruction::Load(Load::Register(Register8::B, Register8::E)),
        0x44 => Instruction::Load(Load::Register(Register8::B, Register8::H)),
        0x45 => Instruction::Load(Load::Register(Register8::B, Register8::L)),
        0x46 => Instruction::Load(Load::FromAddr(Register8::B, Register16::HL)),
        0x47 => Instruction::Load(Load::Register(Register8::B, Register8::A)),
        0x48 => Instruction::Load(Load::Register(Register8::C, Register8::B)),
        0x49 => Instruction::Load(Load::Register(Register8::C, Register8::C)),
        0x4A => Instruction::Load(Load::Register(Register8::C, Register8::D)),
        0x4B => Instruction::Load(Load::Register(Register8::C, Register8::E)),
        0x4C => Instruction::Load(Load::Register(Register8::C, Register8::H)),
        0x4D => Instruction::Load(Load::Register(Register8::C, Register8::L)),
        0x4E => Instruction::Load(Load::FromAddr(Register8::C, Register16::HL)),
        0x4F => Instruction::Load(Load::Register(Register8::C, Register8::A)),
        0x50 => Instruction::Load(Load::Register(Register8::D, Register8::B)),
        0x51 => Instruction::Load(Load::Register(Register8::D, Register8::C)),
        0x52 => Instruction::Load(Load::Register(Register8::D, Register8::D)),
        0x53 => Instruction::Load(Load::Register(Register8::D, Register8::E)),
        0x54 => Instruction::Load(Load::Register(Register8::D, Register8::H)),
        0x55 => Instruction::Load(Load::Register(Register8::D, Register8::L)),
        0x56 => Instruction::Load(Load::FromAddr(Register8::D, Register16::HL)),
        0x57 => Instruction::Load(Load::Register(Register8::D, Register8::A)),
        0x58 => Instruction::Load(Load::Register(Register8::E, Register8::B)),
        0x59 => Instruction::Load(Load::Register(Register8::E, Register8::C)),
        0x5A => Instruction::Load(Load::Register(Register8::E, Register8::D)),
        0x5B => Instruction::Load(Load::Register(Register8::E, Register8::E)),
        0x5C => Instruction::Load(Load::Register(Register8::E, Register8::H)),
        0x5D => Instruction::Load(Load::Register(Register8::E, Register8::L)),
        0x5E => Instruction::Load(Load::FromAddr(Register8::E, Register16::HL)),
        0x5F => Instruction::Load(Load::Register(Register8::E, Register8::A)),
        0x60 => Instruction::Load(Load::Register(Register8::H, Register8::B)),
        0x61 => Instruction::Load(Load::Register(Register8::H, Register8::C)),
        0x62 => Instruction::Load(Load::Register(Register8::H, Register8::D)),
        0x63 => Instruction::Load(Load::Register(Register8::H, Register8::E)),
        0x64 => Instruction::Load(Load::Register(Register8::H, Register8::H)),
        0x65 => Instruction::Load(Load::Register(Register8::H, Register8::L)),
        0x66 => Instruction::Load(Load::FromAddr(Register8::H, Register16::HL)),
        0x67 => Instruction::Load(Load::Register(Register8::H, Register8::A)),
        0x68 => Instruction::Load(Load::Register(Register8::L, Register8::B)),
        0x69 => Instruction::Load(Load::Register(Register8::L, Register8::C)),
        0x6A => Instruction::Load(Load::Register(Register8::L, Register8::D)),
        0x6B => Instruction::Load(Load::Register(Register8::L, Register8::E)),
        0x6C => Instruction::Load(Load::Register(Register8::L, Register8::H)),
        0x6D => Instruction::Load(Load::Register(Register8::L, Register8::L)),
        0x6E => Instruction::Load(Load::FromAddr(Register8::L, Register16::HL)),
        0x6F => Instruction::Load(Load::Register(Register8::L, Register8::A)),
        0x70 => Instruction::Load(Load::ToAddr(Register16::HL, Register8::B)),
        0x71 => Instruction::Load(Load::ToAddr(Register16::HL, Register8::C)),
        0x72 => Instruction::Load(Load::ToAddr(Register16::HL, Register8::D)),
        0x73 => Instruction::Load(Load::ToAddr(Register16::HL, Register8::E)),
        0x74 => Instruction::Load(Load::ToAddr(Register16::HL, Register8::H)),
        0x75 => Instruction::Load(Load::ToAddr(Register16::HL, Register8::L)),
        0x76 => Instruction::Misc(Misc::Halt),
        0x77 => Instruction::Load(Load::ToAddr(Register16::HL, Register8::A)),
        0x78 => Instruction::Load(Load::Register(Register8::A, Register8::B)),
        0x79 => Instruction::Load(Load::Register(Register8::A, Register8::C)),
        0x7A => Instruction::Load(Load::Register(Register8::A, Register8::D)),
        0x7B => Instruction::Load(Load::Register(Register8::A, Register8::E)),
        0x7C => Instruction::Load(Load::Register(Register8::A, Register8::H)),
        0x7D => Instruction::Load(Load::Register(Register8::A, Register8::L)),
        0x7E => Instruction::Load(Load::FromAddr(Register8::A, Register16::HL)),
        0x7F => Instruction::Load(Load::Register(Register8::A, Register8::A)),
        0x80 => Instruction::Arithmetic(Arithmetic::Sum(Operand::Reg(Register8::B), Sign::Positive, false)),
        0x81 => Instruction::Arithmetic(Arithmetic::Sum(Operand::Reg(Register8::C), Sign::Positive, false)),
        0x82 => Instruction::Arithmetic(Arithmetic::Sum(Operand::Reg(Register8::D), Sign::Positive, false)),
        0x83 => Instruction::Arithmetic(Arithmetic::Sum(Operand::Reg(Register8::E), Sign::Positive, false)),
        0x84 => Instruction::Arithmetic(Arithmetic::Sum(Operand::Reg(Register8::H), Sign::Positive, false)),
        0x85 => Instruction::Arithmetic(Arithmetic::Sum(Operand::Reg(Register8::L), Sign::Positive, false)),
        0x86 => Instruction::Arithmetic(Arithmetic::Sum(Operand::Addr(Register16::HL), Sign::Positive, false)),
        0x87 => Instruction::Arithmetic(Arithmetic::Sum(Operand::Reg(Register8::A), Sign::Positive, false)),
        0x88 => Instruction::Arithmetic(Arithmetic::Sum(Operand::Reg(Register8::B), Sign::Positive, true)),
        0x89 => Instruction::Arithmetic(Arithmetic::Sum(Operand::Reg(Register8::C), Sign::Positive, true)),
        0x8A => Instruction::Arithmetic(Arithmetic::Sum(Operand::Reg(Register8::D), Sign::Positive, true)),
        0x8B => Instruction::Arithmetic(Arithmetic::Sum(Operand::Reg(Register8::E), Sign::Positive, true)),
        0x8C => Instruction::Arithmetic(Arithmetic::Sum(Operand::Reg(Register8::H), Sign::Positive, true)),
        0x8D => Instruction::Arithmetic(Arithmetic::Sum(Operand::Reg(Register8::L), Sign::Positive, true)),
        0x8E => Instruction::Arithmetic(Arithmetic::Sum(Operand::Addr(Register16::HL), Sign::Positive, true)),
        0x8F => Instruction::Arithmetic(Arithmetic::Sum(Operand::Reg(Register8::A), Sign::Positive, true)),
        0x90 => Instruction::Arithmetic(Arithmetic::Sum(Operand::Reg(Register8::B), Sign::Negative, false)),
        0x91 => Instruction::Arithmetic(Arithmetic::Sum(Operand::Reg(Register8::C), Sign::Negative, false)),
        0x92 => Instruction::Arithmetic(Arithmetic::Sum(Operand::Reg(Register8::D), Sign::Negative, false)),
        0x93 => Instruction::Arithmetic(Arithmetic::Sum(Operand::Reg(Register8::E), Sign::Negative, false)),
        0x94 => Instruction::Arithmetic(Arithmetic::Sum(Operand::Reg(Register8::H), Sign::Negative, false)),
        0x95 => Instruction::Arithmetic(Arithmetic::Sum(Operand::Reg(Register8::L), Sign::Negative, false)),
        0x96 => Instruction::Arithmetic(Arithmetic::Sum(Operand::Addr(Register16::HL), Sign::Negative, false)),
        0x97 => Instruction::Arithmetic(Arithmetic::Sum(Operand::Reg(Register8::A), Sign::Negative, false)),
        0x98 => Instruction::Arithmetic(Arithmetic::Sum(Operand::Reg(Register8::B), Sign::Negative, true)),
        0x99 => Instruction::Arithmetic(Arithmetic::Sum(Operand::Reg(Register8::C), Sign::Negative, true)),
        0x9A => Instruction::Arithmetic(Arithmetic::Sum(Operand::Reg(Register8::D), Sign::Negative, true)),
        0x9B => Instruction::Arithmetic(Arithmetic::Sum(Operand::Reg(Register8::E), Sign::Negative, true)),
        0x9C => Instruction::Arithmetic(Arithmetic::Sum(Operand::Reg(Register8::H), Sign::Negative, true)),
        0x9D => Instruction::Arithmetic(Arithmetic::Sum(Operand::Reg(Register8::L), Sign::Negative, true)),
        0x9E => Instruction::Arithmetic(Arithmetic::Sum(Operand::Addr(Register16::HL), Sign::Negative, true)),
        0x9F => Instruction::Arithmetic(Arithmetic::Sum(Operand::Reg(Register8::A), Sign::Negative, true)),
        0xA0 => Instruction::Arithmetic(Arithmetic::And(Operand::Reg(Register8::B))),
        0xA1 => Instruction::Arithmetic(Arithmetic::And(Operand::Reg(Register8::C))),
        0xA2 => Instruction::Arithmetic(Arithmetic::And(Operand::Reg(Register8::D))),
        0xA3 => Instruction::Arithmetic(Arithmetic::And(Operand::Reg(Register8::E))),
        0xA4 => Instruction::Arithmetic(Arithmetic::And(Operand::Reg(Register8::H))),
        0xA5 => Instruction::Arithmetic(Arithmetic::And(Operand::Reg(Register8::L))),
        0xA6 => Instruction::Arithmetic(Arithmetic::And(Operand::Addr(Register16::HL))),
        0xA7 => Instruction::Arithmetic(Arithmetic::And(Operand::Reg(Register8::A))),
        0xA8 => Instruction::Arithmetic(Arithmetic::Xor(Operand::Reg(Register8::B))),
        0xA9 => Instruction::Arithmetic(Arithmetic::Xor(Operand::Reg(Register8::C))),
        0xAA => Instruction::Arithmetic(Arithmetic::Xor(Operand::Reg(Register8::D))),
        0xAB => Instruction::Arithmetic(Arithmetic::Xor(Operand::Reg(Register8::E))),
        0xAC => Instruction::Arithmetic(Arithmetic::Xor(Operand::Reg(Register8::H))),
        0xAD => Instruction::Arithmetic(Arithmetic::Xor(Operand::Reg(Register8::L))),
        0xAE => Instruction::Arithmetic(Arithmetic::Xor(Operand::Addr(Register16::HL))),
        0xAF => Instruction::Arithmetic(Arithmetic::Xor(Operand::Reg(Register8::A))),
        0xB0 => Instruction::Arithmetic(Arithmetic::Or(Operand::Reg(Register8::B))),
        0xB1 => Instruction::Arithmetic(Arithmetic::Or(Operand::Reg(Register8::C))),
        0xB2 => Instruction::Arithmetic(Arithmetic::Or(Operand::Reg(Register8::D))),
        0xB3 => Instruction::Arithmetic(Arithmetic::Or(Operand::Reg(Register8::E))),
        0xB4 => Instruction::Arithmetic(Arithmetic::Or(Operand::Reg(Register8::H))),
        0xB5 => Instruction::Arithmetic(Arithmetic::Or(Operand::Reg(Register8::L))),
        0xB6 => Instruction::Arithmetic(Arithmetic::Or(Operand::Addr(Register16::HL))),
        0xB7 => Instruction::Arithmetic(Arithmetic::Or(Operand::Reg(Register8::A))),
        0xB8 => Instruction::Arithmetic(Arithmetic::Compare(Operand::Reg(Register8::B))),
        0xB9 => Instruction::Arithmetic(Arithmetic::Compare(Operand::Reg(Register8::C))),
        0xBA => Instruction::Arithmetic(Arithmetic::Compare(Operand::Reg(Register8::D))),
        0xBB => Instruction::Arithmetic(Arithmetic::Compare(Operand::Reg(Register8::E))),
        0xBC => Instruction::Arithmetic(Arithmetic::Compare(Operand::Reg(Register8::H))),
        0xBD => Instruction::Arithmetic(Arithmetic::Compare(Operand::Reg(Register8::L))),
        0xBE => Instruction::Arithmetic(Arithmetic::Compare(Operand::Addr(Register16::HL))),
        0xBF => Instruction::Arithmetic(Arithmetic::Compare(Operand::Reg(Register8::A))),
        0xC0 => Instruction::Control(Control::Return(Some(Condition::NotZero))),
        0xC1 => Instruction::WideLoad(WideLoad::Pop(Register16::BC)),
        0xC2 => Instruction::Control(Control::JumpAbsolute(Some(Condition::NotZero))),
        0xC3 => Instruction::Control(Control::JumpAbsolute(None)),
        0xC4 => Instruction::Control(Control::Call(Some(Condition::NotZero))),
        0xC5 => Instruction::WideLoad(WideLoad::Push(Register16::BC)),
        0xC6 => Instruction::ImmediateArithmetic(ImmediateArithmetic::Sum(Sign::Positive, false)),
        0xC7 => Instruction::Control(Control::Restart(0x00)),
        0xC8 => Instruction::Control(Control::Return(Some(Condition::Zero))),
        0xC9 => Instruction::Control(Control::Return(None)),
        0xCA => Instruction::Control(Control::JumpAbsolute(Some(Condition::Zero))),
        0xCB => Instruction::Misc(Misc::Prefix),
        0xCC => Instruction::Control(Control::Call(Some(Condition::Zero))),
        0xCD => Instruction::Control(Control::Call(None)),
        0xCE => Instruction::ImmediateArithmetic(ImmediateArithmetic::Sum(Sign::Positive, true)),
        0xCF => Instruction::Control(Control::Restart(0x08)),
        0xD0 => Instruction::Control(Control::Return(Some(Condition::NotCarry))),
        0xD1 => Instruction::WideLoad(WideLoad::Pop(Register16::DE)),
        0xD2 => Instruction::Control(Control::JumpAbsolute(Some(Condition::NotCarry))),
        0xD3 => Instruction::Misc(Misc::Undefined),
        0xD4 => Instruction::Control(Control::Call(Some(Condition::NotCarry))),
        0xD5 => Instruction::WideLoad(WideLoad::Push(Register16::DE)),
        0xD6 => Instruction::ImmediateArithmetic(ImmediateArithmetic::Sum(Sign::Negative, false)),
        0xD7 => Instruction::Control(Control::Restart(0x10)),
        0xD8 => Instruction::Control(Control::Return(Some(Condition::Carry))),
        0xD9 => Instruction::Control(Control::ReturnEnabling),
        0xDA => Instruction::Control(Control::JumpAbsolute(Some(Condition::Carry))),
        0xDB => Instruction::Misc(Misc::Undefined),
        0xDC => Instruction::Control(Control::Call(Some(Condition::Carry))),
        0xDD => Instruction::Misc(Misc::Undefined),
        0xDE => Instruction::ImmediateArithmetic(ImmediateArithmetic::Sum(Sign::Negative, true)),
        0xDF => Instruction::Control(Control::Restart(0x18)),
        0xE0 => Instruction::HighLoad(HighLoad::ToHighImmediate),
        0xE1 => Instruction::WideLoad(WideLoad::Pop(Register16::HL)),
        0xE2 => Instruction::HighLoad(HighLoad::ToHighC),
        0xE3 => Instruction::Misc(Misc::Undefined),
        0xE4 => Instruction::Misc(Misc::Undefined),
        0xE5 => Instruction::WideLoad(WideLoad::Push(Register16::HL)),
        0xE6 => Instruction::ImmediateArithmetic(ImmediateArithmetic::And),
        0xE7 => Instruction::Control(Control::Restart(0x20)),
        0xE8 => Instruction::Accumulator(Accumulator::MoveStackPointer),
        0xE9 => Instruction::Control(Control::JumpHl),
        0xEA => Instruction::HighLoad(HighLoad::ToImmediateAddr),
        0xEB => Instruction::Misc(Misc::Undefined),
        0xEC => Instruction::Misc(Misc::Undefined),
        0xED => Instruction::Misc(Misc::Undefined),
        0xEE => Instruction::ImmediateArithmetic(ImmediateArithmetic::Xor),
        0xEF => Instruction::Control(Control::Restart(0x28)),
        0xF0 => Instruction::HighLoad(HighLoad::FromHighImmediate),
        0xF1 => Instruction::WideLoad(WideLoad::Pop(Register16::AF)),
        0xF2 => Instruction::HighLoad(HighLoad::FromHighC),
        0xF3 => Instruction::Misc(Misc::DisableInterrupts),
        0xF4 => Instruction::Misc(Misc::Undefined),
        0xF5 => Instruction::WideLoad(WideLoad::Push(Register16::AF)),
        0xF6 => Instruction::ImmediateArithmetic(ImmediateArithmetic::Or),
        0xF7 => Instruction::Control(Control::Restart(0x30)),
        0xF8 => Instruction::WideLoad(WideLoad::HlFromStackPointerOffset),
        0xF9 => Instruction::WideLoad(WideLoad::StackPointerFromHl),
        0xFA => Instruction::HighLoad(HighLoad::FromImmediateAddr),
        0xFB => Instruction::Misc(Misc::EnableInterrupts),
        0xFC => Instruction::Misc(Misc::Undefined),
        0xFD => Instruction::Misc(Misc::Undefined),
        0xFE => Instruction::ImmediateArithmetic(ImmediateArithmetic::Compare),
        _ => Instruction::Control(Control::Restart(0x38)),
    }
}

/// The master ticks that an instruction takes, `goes` telling whether its
/// jump, call or return goes ahead. An operand in memory costs four ticks
/// for each time it is read or written. For the prefix the ticks are those
/// of its own fetch.
pub open spec fn ticks_of(instruction: Instruction, goes: bool) -> u8 {
    match instruction {
        Instruction::Load(Load::Register(_, _)) => 4,
        Instruction::Load(Load::ImmediateToAddr) => 12,
        Instruction::Load(_) => 8,
        Instruction::HighLoad(HighLoad::ToHighImmediate) => 12,
        Instruction::HighLoad(HighLoad::FromHighImmediate) => 12,
        Instruction::HighLoad(HighLoad::ToHighC) => 8,
        Instruction::HighLoad(HighLoad::FromHighC) => 8,
        Instruction::HighLoad(_) => 16,
        Instruction::WideLoad(WideLoad::Immediate(_)) => 12,
        Instruction::WideLoad(WideLoad::StackPointerToAddr) => 20,
        Instruction::WideLoad(WideLoad::HlFromStackPointerOffset) => 12,
        Instruction::WideLoad(WideLoad::StackPointerFromHl) => 8,
        Instruction::WideLoad(WideLoad::Push(_)) => 16,
        Instruction::WideLoad(WideLoad::Pop(_)) => 12,
        Instruction::Arithmetic(Arithmetic::StepRegister(_, _)) => 4,
        Instruction::Arithmetic(Arithmetic::StepAddr(_)) => 12,
        Instruction::Arithmetic(Arithmetic::Sum(operand, _, _)) => (4 + operand.extra()) as u8,
        Instruction::Arithmetic(Arithmetic::And(operand)) => (4 + operand.extra()) as u8,
        Instruction::Arithmetic(Arithmetic::Xor(operand)) => (4 + operand.extra()) as u8,
        Instruction::Arithmetic(Arithmetic::Or(operand)) => (4 + operand.extra()) as u8,
        Instruction::Arithmetic(Arithmetic::Compare(operand)) => (4 + operand.extra()) as u8,
        Instruction::ImmediateArithmetic(_) => 8,
        Instruction::Accumulator(Accumulator::AddWide(_, _)) => 8,
        Instruction::Accumulator(Accumulator::StepWide(_, _)) => 8,
        Instruction::Accumulator(Accumulator::MoveStackPointer) => 16,
        Instruction::Accumulator(_) => 4,
        Instruction::Control(Control::JumpRelative(None)) => 12,
        Instruction::Control(Control::JumpRelative(Some(_))) => if goes { 12 } else { 8 },
        Instruction::Control(Control::JumpAbsolute(None)) => 16,
        Instruction::Control(Control::JumpAbsolute(Some(_))) => if goes { 16 } else { 12 },
        Instruction::Control(Control::JumpHl) => 4,
        Instruction::Control(Control::Call(None)) => 24,
        Instruction::Control(Control::Call(Some(_))) => if goes { 24 } else { 12 },
        Instruction::Control(Control::Return(Some(_))) => if goes { 20 } else { 8 },
        Instruction::Control(Control::Return(None)) => 16,
        Instruction::Control(Control::ReturnEnabling) => 16,
        Instruction::Control(Control::Restart(_)) => 16,
        Instruction::Misc(_) => 4,
    }
}

/// Whether the instruction that `opcode` names goes ahead with its jump,
/// call or return under `flags`. An instruction that is none of these
/// counts as going ahead.
pub open spec fn goes_ahead(opcode: u8, flags: Flags) -> bool {
    match decoded(opcode) {
        Instruction::Control(Control::JumpRelative(condition)) => taken_spec(condition, flags),
        Instruction::Control(Control::JumpAbsolute(condition)) => taken_spec(condition, flags),
        Instruction::Control(Control::Call(condition)) => taken_spec(condition, flags),
        Instruction::Control(Control::Return(condition)) => taken_spec(condition, flags),
        _ => true,
    }
}

/// The master ticks that the instruction sheet gives for each opcode, for a
/// jump, call or return that goes ahead and for one that does not. For the
/// prefix they are those of its own fetch, and for an opcode that names
/// nothing those of a `Nop`.
#[verifier::rlimit(80)]
pub fn documented_ticks(opcode: u8, taken: bool) -> (r: u8)
    ensures
        r == ticks_of(decoded(opcode), taken),
        4 <= r <= 24,
{
    match opcode {
        0x00 => 4,
        0x01 => 12,
        0x02 => 8,
        0x03 => 8,
        0x04 => 4,
        0x05 => 4,
        0x06 => 8,
        0x07 => 4,
        0x08 => 20,
        0x09 => 8,
        0x0A => 8,
        0x0B => 8,
        0x0C => 4,
        0x0D => 4,
        0x0E => 8,
        0x0F => 4,
        0x10 => 4,
        0x11 => 12,
        0x12 => 8,
        0x13 => 8,
        0x14 => 4,
        0x15 => 4,
        0x16 => 8,
        0x17 => 4,
        0x18 => 12,
        0x19 => 8,
        0x1A => 8,
        0x1B => 8,
        0x1C => 4,
        0x1D => 4,
        0x1E => 8,
        0x1F => 4,
        0x20 => if taken { 12 } else { 8 },
        0x21 => 12,
        0x22 => 8,
        0x23 => 8,
        0x24 => 4,
        0x25 => 4,
        0x26 => 8,
        0x27 => 4,
        0x28 => if taken { 12 } else { 8 },
        0x29 => 8,
        0x2A => 8,
        0x2B => 8,
        0x2C => 4,
        0x2D => 4,
        0x2E => 8,
        0x2F => 4,
        0x30 => if taken { 12 } else { 8 },
        0x31 => 12,
        0x32 => 8,
        0x33 => 8,
        0x34 => 12,
        0x35 => 12,
        0x36 => 12,
        0x37 => 4,
        0x38 => if taken { 12 } else { 8 },
        0x39 => 8,
        0x3A => 8,
        0x3B => 8,
        0x3C => 4,
        0x3D => 4,
        0x3E => 8,
        0x3F => 4,
        0x40 => 4,
        0x41 => 4,
        0x42 => 4,
        0x43 => 4,
        0x44 => 4,
        0x45 => 4,
        0x46 => 8,
        0x47 => 4,
        0x48 => 4,
        0x49 => 4,
        0x4A => 4,
        0x4B => 4,
        0x4C => 4,
        0x4D => 4,
        0x4E => 8,
        0x4F => 4,
        0x50 => 4,
        0x51 => 4,
        0x52 => 4,
        0x53 => 4,
        0x54 => 4,
        0x55 => 4,
        0x56 => 8,
        0x57 => 4,
        0x58 => 4,
        0x59 => 4,
        0x5A => 4,
        0x5B => 4,
        0x5C => 4,
        0x5D => 4,
        0x5E => 8,
        0x5F => 4,
        0x60 => 4,
        0x61 => 4,
        0x62 => 4,
        0x63 => 4,
        0x64 => 4,
        0x65 => 4,
        0x66 => 8,
        0x67 => 4,
        0x68 => 4,
        0x69 => 4,
        0x6A => 4,
        0x6B => 4,
        0x6C => 4,
        0x6D => 4,
        0x6E => 8,
        0x6F => 4,
        0x70 => 8,
        0x71 => 8,
        0x72 => 8,
        0x73 => 8,
        0x74 => 8,
        0x75 => 8,
        0x76 => 4,
        0x77 => 8,
        0x78 => 4,
        0x79 => 4,
        0x7A => 4,
        0x7B => 4,
        0x7C => 4,
        0x7D => 4,
        0x7E => 8,
        0x7F => 4,
        0x80 => 4,
        0x81 => 4,
        0x82 => 4,
        0x83 => 4,
        0x84 => 4,
        0x85 => 4,
        0x86 => 8,
        0x87 => 4,
        0x88 => 4,
        0x89 => 4,
        0x8A => 4,
        0x8B => 4,
        0x8C => 4,
        0x8D => 4,
        0x8E => 8,
        0x8F => 4,
        0x90 => 4,
        0x91 => 4,
        0x92 => 4,
        0x93 => 4,
        0x94 => 4,
        0x95 => 4,
        0x96 => 8,
        0x97 => 4,
        0x98 => 4,
        0x99 => 4,
        0x9A => 4,
        0x9B => 4,
        0x9C => 4,
        0x9D => 4,
        0x9E => 8,
        0x9F => 4,
        0xA0 => 4,
        0xA1 => 4,
        0xA2 => 4,
        0xA3 => 4,
        0xA4 => 4,
        0xA5 => 4,
        0xA6 => 8,
        0xA7 => 4,
        0xA8 => 4,
        0xA9 => 4,
        0xAA => 4,
        0xAB => 4,
        0xAC => 4,
        0xAD => 4,
        0xAE => 8,
        0xAF => 4,
        0xB0 => 4,
        0xB1 => 4,
        0xB2 => 4,
        0xB3 => 4,
        0xB4 => 4,
        0xB5 => 4,
        0xB6 => 8,
        0xB7 => 4,
        0xB8 => 4,
        0xB9 => 4,
        0xBA => 4,
        0xBB => 4,
        0xBC => 4,
        0xBD => 4,
        0xBE => 8,
        0xBF => 4,
        0xC0 => if taken { 20 } else { 8 },
        0xC1 => 12,
        0xC2 => if taken { 16 } else { 12 },
        0xC3 => 16,
        0xC4 => if taken { 24 } else { 12 },
        0xC5 => 16,
        0xC6 => 8,
        0xC7 => 16,
        0xC8 => if taken { 20 } else { 8 },
        0xC9 => 16,
        0xCA => if taken { 16 } else { 12 },
        0xCB => 4,
        0xCC => if taken { 24 } else { 12 },
        0xCD => 24,
        0xCE => 8,
        0xCF => 16,
        0xD0 => if taken { 20 } else { 8 },
        0xD1 => 12,
        0xD2 => if taken { 16 } else { 12 },
        0xD3 => 4,
        0xD4 => if taken { 24 } else { 12 },
        0xD5 => 16,
        0xD6 => 8,
        0xD7 => 16,
        0xD8 => if taken { 20 } else { 8 },
        0xD9 => 16,
        0xDA => if taken { 16 } else { 12 },
        0xDB => 4,
        0xDC => if taken { 24 } else { 12 },
        0xDD => 4,
        0xDE => 8,
        0xDF => 16,
        0xE0 => 12,
        0xE1 => 12,
        0xE2 => 8,
        0xE3 => 4,
        0xE4 => 4,
        0xE5 => 16,
        0xE6 => 8,
        0xE7 => 16,
        0xE8 => 16,
        0xE9 => 4,
        0xEA => 16,
        0xEB => 4,
        0xEC => 4,
        0xED => 4,
        0xEE => 8,
        0xEF => 16,
        0xF0 => 12,
        0xF1 => 12,
        0xF2 => 8,
        0xF3 => 4,
        0xF4 => 4,
        0xF5 => 16,
        0xF6 => 8,
        0xF7 => 16,
        0xF8 => 12,
        0xF9 => 8,
        0xFA => 16,
        0xFB => 4,
        0xFC => 4,
        0xFD => 4,
        0xFE => 8,
        _ => 16,
    }
}


pub open spec fn performed_load(cpu: Cpu, hw: Hardware, load: Load) -> (Cpu, Hardware, u8) {
    match load {
        Load::Register(dst, src) => (cpu.with_reg(dst, cpu.regs.reg(src)), hw, 4),
        Load::Immediate(reg) => (cpu.skipped(1).with_reg(reg, cpu.operand(hw, 0)), hw, 8),
        Load::FromAddr(dst, reg_addr) => (loaded_from_addr(cpu, hw, dst, reg_addr), hw, 8),
        Load::ToAddr(reg_addr, src) => (cpu, stored_register8(cpu, hw, reg_addr, src), 8),
        Load::ImmediateToAddr => (
            cpu.skipped(1),
            hw.written(cpu.regs.pair(Register16::HL), cpu.operand(hw, 0)),
            12,
        ),
        Load::AToAddrStepping(inc) => stored_a_stepping(cpu, hw, inc),
        Load::AFromAddrStepping(inc) => (loaded_a_stepping(cpu, hw, inc), hw, 8),
    }
}

pub open spec fn performed_high_load(cpu: Cpu, hw: Hardware, load: HighLoad) -> (Cpu, Hardware, u8) {
    match load {
        HighLoad::ToHighImmediate => (
            cpu.skipped(1),
            hw.written(high_page(cpu.operand(hw, 0)), cpu.regs.a),
            12,
        ),
        HighLoad::FromHighImmediate => (
            cpu.skipped(1).with_reg(Register8::A, hw.byte_at(high_page(cpu.operand(hw, 0)))),
            hw,
            12,
        ),
        HighLoad::ToHighC => (cpu, hw.written(high_page(cpu.regs.c), cpu.regs.a), 8),
        HighLoad::FromHighC => (
            cpu.with_reg(Register8::A, hw.byte_at(high_page(cpu.regs.c))),
            hw,
            8,
        ),
        HighLoad::ToImmediateAddr => (
            cpu.skipped(2),
            hw.written(cpu.operand16(hw), cpu.regs.a),
            16,
        ),
        HighLoad::FromImmediateAddr => (
            cpu.skipped(2).with_reg(Register8::A, hw.byte_at(cpu.operand16(hw))),
            hw,
            16,
        ),
    }
}

pub open spec fn performed_wide_load(cpu: Cpu, hw: Hardware, load: WideLoad) -> (Cpu, Hardware, u8) {
    match load {
        WideLoad::Immediate(reg) => (loaded_immediate16(cpu, hw, reg), hw, 12),
        WideLoad::StackPointerToAddr => stored_stack_pointer(cpu, hw),
        WideLoad::HlFromStackPointerOffset => (hl_from_stack_pointer(cpu, hw), hw, 12),
        WideLoad::StackPointerFromHl => (cpu.with_sp(cpu.regs.pair(Register16::HL)), hw, 8),
        WideLoad::Push(src) => {
            let (cpu, hw) = cpu.pushed(hw, cpu.regs.pair(src));
            (cpu, hw, 16)
        },
        WideLoad::Pop(dest) => (cpu.popped().with_pair(dest, cpu.stack_top(hw)), hw, 12),
    }
}

pub open spec fn performed_arithmetic(cpu: Cpu, hw: Hardware, arithmetic: Arithmetic) -> (
    Cpu,
    Hardware,
    u8,
) {
    match arithmetic {
        Arithmetic::Sum(operand, sign, use_carry) => (
            computed(cpu, sum_code(sign, use_carry), operand.value_spec(cpu, hw)),
            hw,
            (4 + operand.extra()) as u8,
        ),
        Arithmetic::And(operand) => (
            computed(cpu, 4, operand.value_spec(cpu, hw)),
            hw,
            (4 + operand.extra()) as u8,
        ),
        Arithmetic::Xor(operand) => (
            computed(cpu, 5, operand.value_spec(cpu, hw)),
            hw,
            (4 + operand.extra()) as u8,
        ),
        Arithmetic::Or(operand) => (
            computed(cpu, 6, operand.value_spec(cpu, hw)),
            hw,
            (4 + operand.extra()) as u8,
        ),
        Arithmetic::Compare(operand) => (
            computed(cpu, 7, operand.value_spec(cpu, hw)),
            hw,
            (4 + operand.extra()) as u8,
        ),
        Arithmetic::StepRegister(reg, val) => (stepped_register8(cpu, reg, val), hw, 4),
        Arithmetic::StepAddr(val) => stepped_addr(cpu, hw, val),
    }
}

pub open spec fn performed_immediate_arithmetic(
    cpu: Cpu,
    hw: Hardware,
    arithmetic: ImmediateArithmetic,
) -> (Cpu, Hardware, u8) {
    let code = match arithmetic {
        ImmediateArithmetic::Sum(sign, use_carry) => sum_code(sign, use_carry),
        ImmediateArithmetic::And => 4,
        ImmediateArithmetic::Xor => 5,
        ImmediateArithmetic::Or => 6,
        ImmediateArithmetic::Compare => 7,
    };
    (computed(cpu.skipped(1), code, cpu.operand(hw, 0)), hw, 8)
}

pub open spec fn performed_accumulator(cpu: Cpu, hw: Hardware, accumulator: Accumulator) -> (
    Cpu,
    Hardware,
    u8,
) {
    match accumulator {
        Accumulator::AddWide(reg1, reg2) => (added_register16(cpu, reg1, reg2), hw, 8),
        Accumulator::StepWide(reg, val) => (stepped16(cpu, reg, val), hw, 8),
        Accumulator::MoveStackPointer => (stack_pointer_moved(cpu, hw), hw, 16),
        Accumulator::RotateCircular(dir) => (rotated_circular_a(cpu, dir), hw, 4),
        Accumulator::Rotate(dir) => (rotated_a(cpu, dir), hw, 4),
        Accumulator::DecimalAdjust => (
            with_result(cpu, decimal_adjusted(cpu.regs.a, cpu.regs.flags)),
            hw,
            4,
        ),
        Accumulator::Complement => (complemented(cpu), hw, 4),
        Accumulator::SetCarry => (carry_set(cpu), hw, 4),
    }
}

pub open spec fn performed_control(cpu: Cpu, hw: Hardware, control: Control) -> (Cpu, Hardware, u8) {
    match control {
        Control::JumpRelative(condition) => jumped_relative(
            cpu,
            hw,
            taken_spec(condition, cpu.regs.flags),
        ),
        Control::JumpAbsolute(condition) => jumped_absolute(
            cpu,
            hw,
            taken_spec(condition, cpu.regs.flags),
        ),
        Control::JumpHl => (cpu.with_pc(cpu.regs.pair(Register16::HL)), hw, 4),
        Control::Call(condition) => called(cpu, hw, taken_spec(condition, cpu.regs.flags)),
        Control::Return(condition) => returned(
            cpu,
            hw,
            match condition {
                Some(condition) => Some(condition.holds_spec(cpu.regs.flags)),
                None => None,
            },
        ),
        Control::ReturnEnabling => (
            Cpu { interrupt_enabled: true, ..cpu.popped().with_pc(cpu.stack_top(hw)) },
            hw,
            16,
        ),
        Control::Restart(lsb) => restarted(cpu, hw, lsb),
    }
}

pub open spec fn performed_misc(cpu: Cpu, hw: Hardware, misc: Misc) -> (Cpu, Hardware, u8) {
    match misc {
        Misc::Nop => (cpu, hw, 4),
        Misc::Stop => (Cpu { state: CpuState::Stopped, ..cpu.skipped(1) }, hw, 4),
        Misc::Halt => (Cpu { state: CpuState::Halted, ..cpu }, hw, 4),
        Misc::DisableInterrupts => (
            Cpu { interrupt_enabled: false, enable_pending: false, ..cpu },
            hw,
            4,
        ),
        Misc::EnableInterrupts => (Cpu { enable_pending: true, ..cpu }, hw, 4),
        Misc::FlipCarry => (carry_flipped(cpu), hw, 4),
        Misc::Prefix => cbprefix::executed(cpu.skipped(1), hw, cpu.operand(hw, 0)),
        Misc::Undefined => (cpu, hw, 4),
    }
}

/// Processor and memory after `instruction`, and the master ticks that it
/// took. The program counter is behind the opcode when the instruction
/// starts.
pub open spec fn performed(cpu: Cpu, hw: Hardware, instruction: Instruction) -> (Cpu, Hardware, u8) {
    match instruction {
        Instruction::Load(load) => performed_load(cpu, hw, load),
        Instruction::HighLoad(load) => performed_high_load(cpu, hw, load),
        Instruction::WideLoad(load) => performed_wide_load(cpu, hw, load),
        Instruction::Arithmetic(arithmetic) => performed_arithmetic(cpu, hw, arithmetic),
        Instruction::ImmediateArithmetic(arithmetic) => performed_immediate_arithmetic(
            cpu,
            hw,
            arithmetic,
        ),
        Instruction::Accumulator(accumulator) => performed_accumulator(cpu, hw, accumulator),
        Instruction::Control(control) => performed_control(cpu, hw, control),
        Instruction::Misc(misc) => performed_misc(cpu, hw, misc),
    }
}

/// Processor and memory after the instruction that `opcode` names, and the
/// master ticks that it took.
#[verifier::opaque]
pub open spec fn executed(cpu: Cpu, hw: Hardware, opcode: u8) -> (Cpu, Hardware, u8) {
    performed(cpu, hw, decoded(opcode))
}

#[verifier::rlimit(30)]
pub fn load(cpu: &mut Cpu, hw: &mut Hardware, instruction: Load) -> (r: u8)
    requires
        old(hw).wf(),
    ensures
        final(hw).wf(),
        (*final(cpu), *final(hw), r) == performed_load(*old(cpu), *old(hw), instruction),
        4 <= r <= 24,
{
    match instruction {
        Load::Register(dst, src) => ld_register8(cpu, dst, src),
        Load::Immediate(reg) => ld_register8_immediate(cpu, hw, reg),
        Load::FromAddr(dst, reg_addr) => ld_register8_from_addr(cpu, hw, dst, reg_addr),
        Load::ToAddr(reg_addr, src) => ld_addr_from_register8(cpu, hw, reg_addr, src),
        Load::ImmediateToAddr => ld_addr_from_immediate(cpu, hw),
        Load::AToAddrStepping(inc) => ld_addr_from_a_increment(cpu, hw, inc),
        Load::AFromAddrStepping(inc) => ld_a_from_addr_increment(cpu, hw, inc),
    }
}

#[verifier::rlimit(30)]
pub fn high_load(cpu: &mut Cpu, hw: &mut Hardware, instruction: HighLoad) -> (r: u8)
    requires
        old(hw).wf(),
    ensures
        final(hw).wf(),
        (*final(cpu), *final(hw), r) == performed_high_load(*old(cpu), *old(hw), instruction),
        4 <= r <= 24,
{
    match instruction {
        HighLoad::ToHighImmediate => ldh_addr_from_a(cpu, hw),
        HighLoad::FromHighImmediate => ldh_a_from_addr(cpu, hw),
        HighLoad::ToHighC => ld_high_c_from_a(cpu, hw),
        HighLoad::FromHighC => ld_a_from_high_c(cpu, hw),
        HighLoad::ToImmediateAddr => ld_immediate_addr_from_a(cpu, hw),
        HighLoad::FromImmediateAddr => ld_a_from_immediate_addr(cpu, hw),
    }
}

#[verifier::rlimit(30)]
pub fn wide_load(cpu: &mut Cpu, hw: &mut Hardware, instruction: WideLoad) -> (r: u8)
    requires
        old(hw).wf(),
    ensures
        final(hw).wf(),
        (*final(cpu), *final(hw), r) == performed_wide_load(*old(cpu), *old(hw), instruction),
        4 <= r <= 24,
{
    match instruction {
        WideLoad::Immediate(reg) => ld_register16_immediate(cpu, hw, reg),
        WideLoad::StackPointerToAddr => ld_from_stack_pointer_immediate(cpu, hw),
        WideLoad::HlFromStackPointerOffset => ld_hl_from_stack_pointer_offset(cpu, hw),
        WideLoad::StackPointerFromHl => ld_stack_pointer_from_hl(cpu),
        WideLoad::Push(src) => push(cpu, hw, src),
        WideLoad::Pop(dest) => pop(cpu, hw, dest),
    }
}

#[verifier::rlimit(30)]
pub fn arithmetic(cpu: &mut Cpu, hw: &mut Hardware, instruction: Arithmetic) -> (r: u8)
    requires
        old(hw).wf(),
    ensures
        final(hw).wf(),
        (*final(cpu), *final(hw), r) == performed_arithmetic(*old(cpu), *old(hw), instruction),
        4 <= r <= 24,
{
    match instruction {
        Arithmetic::Sum(operand, sign, use_carry) => add_register8(
            cpu,
            hw,
            operand,
            sign,
            use_carry,
        ),
        Arithmetic::And(operand) => and_register8(cpu, hw, operand),
        Arithmetic::Xor(operand) => xor_register8(cpu, hw, operand),
        Arithmetic::Or(operand) => or_register8(cpu, hw, operand),
        Arithmetic::Compare(operand) => cp_register8(cpu, hw, operand),
        Arithmetic::StepRegister(reg, val) => inc_register8(cpu, reg, val),
        Arithmetic::StepAddr(val) => inc_addr(cpu, hw, val),
    }
}

#[verifier::rlimit(30)]
pub fn immediate_arithmetic(cpu: &mut Cpu, hw: &Hardware, instruction: ImmediateArithmetic) -> (r:
    u8)
    requires
        hw.wf(),
    ensures
        (*final(cpu), *hw, r) == performed_immediate_arithmetic(*old(cpu), *hw, instruction),
        4 <= r <= 24,
{
    match instruction {
        ImmediateArithmetic::Sum(sign, use_carry) => add_immediate(cpu, hw, sign, use_carry),
        ImmediateArithmetic::And => and_immediate(cpu, hw),
        ImmediateArithmetic::Xor => xor_immediate(cpu, hw),
        ImmediateArithmetic::Or => or_immediate(cpu, hw),
        ImmediateArithmetic::Compare => cp_immediate(cpu, hw),
    }
}

#[verifier::rlimit(30)]
pub fn accumulator(cpu: &mut Cpu, hw: &Hardware, instruction: Accumulator) -> (r: u8)
    requires
        hw.wf(),
    ensures
        (*final(cpu), *hw, r) == performed_accumulator(*old(cpu), *hw, instruction),
        4 <= r <= 24,
{
    match instruction {
        Accumulator::AddWide(reg1, reg2) => add_register16(cpu, reg1, reg2),
        Accumulator::StepWide(reg, val) => inc_register16(cpu, reg, val),
        Accumulator::MoveStackPointer => add_stack_pointer_immediate(cpu, hw),
        Accumulator::RotateCircular(dir) => rotate_circular_a(cpu, dir),
        Accumulator::Rotate(dir) => rotate_a(cpu, dir),
        Accumulator::DecimalAdjust => daa(cpu),
        Accumulator::Complement => cpl(cpu),
        Accumulator::SetCarry => scf(cpu),
    }
}

#[verifier::rlimit(30)]
pub fn control(cpu: &mut Cpu, hw: &mut Hardware, instruction: Control) -> (r: u8)
    requires
        old(hw).wf(),
    ensures
        final(hw).wf(),
        (*final(cpu), *final(hw), r) == performed_control(*old(cpu), *old(hw), instruction),
        4 <= r <= 24,
{
    match instruction {
        Control::JumpRelative(condition) => {
            let goes = taken(condition, cpu.regs.flags);
            jump_relative(cpu, hw, goes)
        },
        Control::JumpAbsolute(condition) => {
            let goes = taken(condition, cpu.regs.flags);
            jump_absolute(cpu, hw, goes)
        },
        Control::JumpHl => jump_hl(cpu),
        Control::Call(condition) => {
            let goes = taken(condition, cpu.regs.flags);
            call(cpu, hw, goes)
        },
        Control::Return(condition) => {
            let goes = match condition {
                Some(condition) => Some(condition.holds(cpu.regs.flags)),
                None => None,
            };
            ret(cpu, hw, goes)
        },
        Control::ReturnEnabling => reti(cpu, hw),
        Control::Restart(lsb) => rst(cpu, hw, lsb),
    }
}

#[verifier::rlimit(30)]
pub fn misc(cpu: &mut Cpu, hw: &mut Hardware, instruction: Misc) -> (r: u8)
    requires
        old(hw).wf(),
    ensures
        final(hw).wf(),
        (*final(cpu), *final(hw), r) == performed_misc(*old(cpu), *old(hw), instruction),
        4 <= r <= 16,
{
    match instruction {
        Misc::Nop => nop(cpu),
        Misc::Stop => stop(cpu, hw),
        Misc::Halt => halt(cpu),
        Misc::DisableInterrupts => di(cpu),
        Misc::EnableInterrupts => ei(cpu),
        Misc::FlipCarry => ccf(cpu),
        Misc::Prefix => {
            let prefix = cpu.pop_prog_counter(hw);
            cbprefix::execute(cpu, hw, prefix)
        },
        // Nothing answers to this opcode: it passes like a `Nop`.
        Misc::Undefined => nop(cpu),
    }
}

/// The master ticks that an instruction takes are those that are
/// documented for it: those of `ticks_of`, by whether its jump, call or
/// return goes ahead, and for the prefix those of its fetch and those of
/// the instruction that the byte behind it names.
#[verifier::rlimit(40)]
pub proof fn lemma_ticks_are_documented(cpu: Cpu, hw: Hardware, opcode: u8)
    ensures
        executed(cpu, hw, opcode).2 == ticks_of(
            decoded(opcode),
            goes_ahead(opcode, cpu.regs.flags),
        ) + (if decoded(opcode) == Instruction::Misc(Misc::Prefix) {
            cbprefix::ticks_of(cbprefix::decoded(cpu.operand(hw, 0)))
        } else {
            0
        }),
{
    reveal(executed);
    let instruction = decoded(opcode);
    match instruction {
        Instruction::Misc(Misc::Prefix) => {
            cbprefix::lemma_ticks_are_documented(cpu.skipped(1), hw, cpu.operand(hw, 0));
        },
        _ => {},
    }
}

/// A word pushed on a stack that lies in RAM is the word on top of the
/// stack, and taking it off puts the stack pointer back.
#[verifier::rlimit(40)]
pub proof fn lemma_stack_holds_pushed(cpu: Cpu, hw: Hardware, value: u16)
    requires
        is_ram(wrapped16(cpu.regs.stack_pointer - 1 + 0x1_0000)),
        is_ram(wrapped16(cpu.regs.stack_pointer - 2 + 0x1_0000)),
    ensures
        ({
            let (pushed, memory) = cpu.pushed(hw, value);
            &&& pushed.stack_top(memory) == value
            &&& pushed.popped() == cpu
        }),
{
    let first = wrapped16(cpu.regs.stack_pointer - 1 + 0x1_0000);
    let second = wrapped16(cpu.regs.stack_pointer - 2 + 0x1_0000);
    let (pushed, memory) = cpu.pushed(hw, value);
    let between = hw.written(first, high_byte(value));
    lemma_ram_holds_writes(hw, first, high_byte(value), second);
    lemma_ram_holds_writes(between, second, low_byte(value), first);
    assert(unechoed(first) != unechoed(second));
    assert(memory == between.written(second, low_byte(value)));
    assert(wrapped16(pushed.regs.stack_pointer + 1) == first);
    assert(wrapped16(pushed.regs.stack_pointer + 2) == cpu.regs.stack_pointer);
}

/// Pushing a register pair and popping it again leaves the pair and the
/// stack pointer as they were, where the two bytes below the stack pointer
/// are bytes of RAM.
#[verifier::rlimit(40)]
pub proof fn lemma_push_then_pop(cpu: Cpu, hw: Hardware, reg: Register16)
    requires
        reg != Register16::SP,
        is_ram(wrapped16(cpu.regs.stack_pointer - 1 + 0x1_0000)),
        is_ram(wrapped16(cpu.regs.stack_pointer - 2 + 0x1_0000)),
    ensures
        ({
            let (pushed, memory, _) = performed_wide_load(cpu, hw, WideLoad::Push(reg));
            let (popped, _, _) = performed_wide_load(pushed, memory, WideLoad::Pop(reg));
            &&& popped.regs.pair(reg) == cpu.regs.pair(reg)
            &&& popped.regs.stack_pointer == cpu.regs.stack_pointer
            &&& popped == cpu
        }),
{
    let value = cpu.regs.pair(reg);
    let (pushed, memory) = cpu.pushed(hw, value);
    lemma_stack_holds_pushed(cpu, hw, value);
    crate::cpu::lemma_pair_kept(cpu.regs, reg);
    assert(performed_wide_load(cpu, hw, WideLoad::Push(reg)) == (pushed, memory, 16u8));
    assert(performed_wide_load(pushed, memory, WideLoad::Pop(reg)).0 == pushed.popped().with_pair(
        reg,
        pushed.stack_top(memory),
    ));
}

/// Executes the instruction that `opcode` names. The program counter is
/// behind the opcode already. Returns the master ticks that the instruction
/// took.
#[verifier::rlimit(30)]
pub fn execute(cpu: &mut Cpu, hw: &mut Hardware, opcode: u8) -> (r: u8)
    requires
        old(hw).wf(),
    ensures
        final(hw).wf(),
        (*final(cpu), *final(hw), r) == executed(*old(cpu), *old(hw), opcode),
        4 <= r <= 24,
{
    reveal(executed);
    match decode(opcode) {
        Instruction::Load(instruction) => load(cpu, hw, instruction),
        Instruction::HighLoad(instruction) => high_load(cpu, hw, instruction),
        Instruction::WideLoad(instruction) => wide_load(cpu, hw, instruction),
        Instruction::Arithmetic(instruction) => arithmetic(cpu, hw, instruction),
        Instruction::ImmediateArithmetic(instruction) => immediate_arithmetic(cpu, hw, instruction),
        Instruction::Accumulator(instruction) => accumulator(cpu, hw, instruction),
        Instruction::Control(instruction) => control(cpu, hw, instruction),
        Instruction::Misc(instruction) => misc(cpu, hw, instruction),
    }
}

} // verus!
