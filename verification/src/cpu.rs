//! The processor: its registers, and the step that fetches one instruction,
//! executes it and serves an interrupt.

pub mod alu;
pub mod cbprefix;
pub mod instructions;

use crate::bitflags::{bit_of, BitFlags8};
use crate::hardware::Hardware;
use crate::interrupt::Interrupt;
use vstd::prelude::*;
use vstd::std_specs::convert::FromSpecImpl;

verus! {

/// The low byte of a word.
pub open spec fn low_byte(n: u16) -> u8 {
    (n % 256) as u8
}

/// The high byte of a word.
pub open spec fn high_byte(n: u16) -> u8 {
    (n / 256) as u8
}

/// The word made of a high and a low byte.
pub open spec fn word(high: u8, low: u8) -> u16 {
    (high * 256 + low) as u16
}

/// The word `delta` after `n`, the words wrapping round.
pub open spec fn wrapped16(n: int) -> u16 {
    (n % 0x1_0000) as u16
}

pub fn lo(n: u16) -> (r: u8)
    ensures
        r == low_byte(n),
{
    (n % 256) as u8
}

pub fn hi(n: u16) -> (r: u8)
    ensures
        r == high_byte(n),
{
    (n / 256) as u8
}

/// Puts a word together out of its two bytes.
pub fn join(high: u8, low: u8) -> (r: u16)
    ensures
        r == word(high, low),
{
    high as u16 * 256 + low as u16
}

/// A word taken apart into its bytes and put together again is the word,
/// and the bytes of a word put together are the bytes it was made of.
pub proof fn lemma_split_and_join(n: u16, high: u8, low: u8)
    ensures
        word(high_byte(n), low_byte(n)) == n,
        high_byte(word(high, low)) == high,
        low_byte(word(high, low)) == low,
{
}

#[derive(Clone, Copy, Debug, PartialEq, Eq, Structural)]
pub struct Flags {
    pub zero: bool,
    pub neg: bool,
    pub half_carry: bool,
    pub carry: bool,
}

impl Flags {
    /// The flags as the byte that software sees: the four flags on top, the
    /// four low bits zero.
    pub open spec fn byte(self) -> u8 {
        ((if self.zero { 128 } else { 0int }) + (if self.neg { 64 } else { 0int }) + (
        if self.half_carry { 32 } else { 0int }) + (if self.carry { 16 } else { 0int })) as u8
    }

    /// The flags that a byte holds in its four high bits.
    pub open spec fn of_byte(value: u8) -> Flags {
        Flags {
            zero: bit_of(value, 7),
            neg: bit_of(value, 6),
            half_carry: bit_of(value, 5),
            carry: bit_of(value, 4),
        }
    }

    pub fn to_byte(self) -> (r: u8)
        ensures
            r == self.byte(),
            r % 16 == 0,
    {
        let zero: u8 = if self.zero { 128 } else { 0 };
        let neg: u8 = if self.neg { 64 } else { 0 };
        let half_carry: u8 = if self.half_carry { 32 } else { 0 };
        let carry: u8 = if self.carry { 16 } else { 0 };
        zero + neg + half_carry + carry
    }

    pub fn from_byte(value: u8) -> (r: Self)
        ensures
            r == Self::of_byte(value),
    {
        let bits = BitFlags8(value);
        Flags { zero: bits.get(7), neg: bits.get(6), half_carry: bits.get(5), carry: bits.get(4) }
    }
}

/// Whatever byte the flags are taken from, the byte they read back as has
/// its four low bits zero and its four high bits as they were given.
pub proof fn lemma_flag_byte_low_nibble(value: u8)
    ensures
        Flags::of_byte(value).byte() % 16 == 0,
        Flags::of_byte(value).byte() == value - value % 16,
{
    lemma_high_nibble(value);
}

/// A byte without its low half is the sum of the values of the four bits of
/// its high half.
proof fn lemma_high_nibble(value: u8)
    by (bit_vector)
    ensures
        (if bit_of(value, 7) { 128u8 } else { 0u8 }) + (if bit_of(value, 6) { 64u8 } else { 0u8 })
            + (if bit_of(value, 5) { 32u8 } else { 0u8 }) + (if bit_of(value, 4) { 16u8 } else {
            0u8
        }) == value - value % 16,
{
}

#[derive(Clone, Copy, Debug, PartialEq, Eq, Structural)]
pub enum Register8 {
    A,
    B,
    C,
    D,
    E,
    H,
    L,
}

#[derive(Clone, Copy, Debug, PartialEq, Eq, Structural)]
pub enum Register16 {
    BC,
    DE,
    HL,
    SP,
    AF,
}

#[derive(Clone, Copy, Debug, PartialEq, Eq, Structural)]
pub struct Registers {
    pub a: u8,
    pub b: u8,
    pub c: u8,
    pub d: u8,
    pub e: u8,
    pub h: u8,
    pub l: u8,
    pub flags: Flags,
    /// Points to the next instruction of the program.
    pub prog_counter: u16,
    /// Points to the top of the stack.
    pub stack_pointer: u16,
}

impl Registers {
    pub open spec fn initial() -> Registers {
        Registers {
            a: 0,
            b: 0,
            c: 0,
            d: 0,
            e: 0,
            h: 0,
            l: 0,
            flags: Flags { zero: false, neg: false, half_carry: false, carry: false },
            prog_counter: 0,
            stack_pointer: 0,
        }
    }

    pub open spec fn reg(self, index: Register8) -> u8 {
        match index {
            Register8::A => self.a,
            Register8::B => self.b,
            Register8::C => self.c,
            Register8::D => self.d,
            Register8::E => self.e,
            Register8::H => self.h,
            Register8::L => self.l,
        }
    }

    pub open spec fn with_reg(self, index: Register8, val: u8) -> Registers {
        match index {
            Register8::A => Registers { a: val, ..self },
            Register8::B => Registers { b: val, ..self },
            Register8::C => Registers { c: val, ..self },
            Register8::D => Registers { d: val, ..self },
            Register8::E => Registers { e: val, ..self },
            Register8::H => Registers { h: val, ..self },
            Register8::L => Registers { l: val, ..self },
        }
    }

    /// The value of a register pair: the first register is the high byte.
    pub open spec fn pair(self, reg: Register16) -> u16 {
        match reg {
            Register16::BC => word(self.b, self.c),
            Register16::DE => word(self.d, self.e),
            Register16::HL => word(self.h, self.l),
            Register16::SP => self.stack_pointer,
            Register16::AF => word(self.a, self.flags.byte()),
        }
    }

    pub open spec fn with_pair(self, reg: Register16, val: u16) -> Registers {
        match reg {
            Register16::BC => Registers { b: high_byte(val), c: low_byte(val), ..self },
            Register16::DE => Registers { d: high_byte(val), e: low_byte(val), ..self },
            Register16::HL => Registers { h: high_byte(val), l: low_byte(val), ..self },
            Register16::SP => Registers { stack_pointer: val, ..self },
            Register16::AF => Registers {
                a: high_byte(val),
                flags: Flags::of_byte(low_byte(val)),
                ..self
            },
        }
    }

    pub fn get(&self, index: Register8) -> (r: u8)
        ensures
            r == self.reg(index),
    {
        match index {
            Register8::A => self.a,
            Register8::B => self.b,
            Register8::C => self.c,
            Register8::D => self.d,
            Register8::E => self.e,
            Register8::H => self.h,
            Register8::L => self.l,
        }
    }

    pub fn set(&mut self, index: Register8, val: u8)
        ensures
            *final(self) == old(self).with_reg(index, val),
    {
        match index {
            Register8::A => self.a = val,
            Register8::B => self.b = val,
            Register8::C => self.c = val,
            Register8::D => self.d = val,
            Register8::E => self.e = val,
            Register8::H => self.h = val,
            Register8::L => self.l = val,
        }
    }

    pub fn combined(&self, reg: Register16) -> (r: u16)
        ensures
            r == self.pair(reg),
    {
        match reg {
            Register16::BC => join(self.b, self.c),
            Register16::DE => join(self.d, self.e),
            Register16::HL => join(self.h, self.l),
            Register16::SP => self.stack_pointer,
            Register16::AF => join(self.a, self.flags.to_byte()),
        }
    }

    pub fn set_combined(&mut self, reg: Register16, val: u16)
        ensures
            *final(self) == old(self).with_pair(reg, val),
    {
        match reg {
            Register16::BC => {
                self.b = hi(val);
                self.c = lo(val);
            },
            Register16::DE => {
                self.d = hi(val);
                self.e = lo(val);
            },
            Register16::HL => {
                self.h = hi(val);
                self.l = lo(val);
            },
            Register16::SP => {
                self.stack_pointer = val;
            },
            Register16::AF => {
                self.a = hi(val);
                self.flags = Flags::from_byte(lo(val));
            },
        }
    }
}

/// A register pair that is given a value holds it; the pair of A and the
/// flags holds it but for the four low bits, which are zero.
pub proof fn lemma_pair_round_trip(regs: Registers, reg: Register16, val: u16)
    ensures
        reg != Register16::AF ==> regs.with_pair(reg, val).pair(reg) == val,
        regs.with_pair(Register16::AF, val).pair(Register16::AF) == val - val % 16,
{
    lemma_flag_byte_low_nibble(low_byte(val));
    let low = low_byte(val);
    let kept = Flags::of_byte(low).byte();
    assert(kept == low - low % 16);
    assert(regs.with_pair(Register16::AF, val).pair(Register16::AF) == word(high_byte(val), kept));
}

/// A register pair that is given the value it holds stays as it is, and
/// the four low bits of the pair of A and the flags are zero.
pub proof fn lemma_pair_kept(regs: Registers, reg: Register16)
    ensures
        regs.with_pair(reg, regs.pair(reg)) == regs,
        low_byte(regs.pair(Register16::AF)) % 16 == 0,
{
    lemma_flags_round_trip(regs.flags);
}

/// The byte that flags read as holds those flags.
pub proof fn lemma_flags_round_trip(flags: Flags)
    ensures
        Flags::of_byte(flags.byte()) == flags,
{
}

/// What the processor is doing.
#[derive(Clone, Copy, Debug, PartialEq, Eq, Structural)]
pub enum CpuState {
    Running,
    /// Waiting for an interrupt.
    Halted,
    /// Waiting for a button.
    Stopped,
}

#[derive(Clone, Copy, Debug, PartialEq, Eq, Structural)]
pub struct Cpu {
    pub regs: Registers,
    pub state: CpuState,
    /// The master enable of the interrupts.
    pub interrupt_enabled: bool,
    /// Whether the master enable is to be set once the next instruction is
    /// done.
    pub enable_pending: bool,
}

/// Master ticks that serving an interrupt takes.
pub const INTERRUPT_TICKS: u8 = 20;

/// Master ticks that a step takes while the processor waits.
pub const IDLE_TICKS: u8 = 4;

impl Cpu {
    pub open spec fn initial() -> Cpu {
        Cpu {
            regs: Registers::initial(),
            state: CpuState::Running,
            interrupt_enabled: true,
            enable_pending: false,
        }
    }

    pub open spec fn with_reg(self, index: Register8, val: u8) -> Cpu {
        Cpu { regs: self.regs.with_reg(index, val), ..self }
    }

    pub open spec fn with_pair(self, reg: Register16, val: u16) -> Cpu {
        Cpu { regs: self.regs.with_pair(reg, val), ..self }
    }

    pub open spec fn with_flags(self, flags: Flags) -> Cpu {
        Cpu { regs: Registers { flags, ..self.regs }, ..self }
    }

    pub open spec fn with_pc(self, prog_counter: u16) -> Cpu {
        Cpu { regs: Registers { prog_counter, ..self.regs }, ..self }
    }

    pub open spec fn with_sp(self, stack_pointer: u16) -> Cpu {
        Cpu { regs: Registers { stack_pointer, ..self.regs }, ..self }
    }

    /// The processor with the program counter `count` bytes further.
    pub open spec fn skipped(self, count: int) -> Cpu {
        self.with_pc(wrapped16(self.regs.prog_counter + count))
    }

    /// The byte `offset` bytes after the program counter.
    pub open spec fn operand(self, hw: Hardware, offset: int) -> u8 {
        hw.byte_at(wrapped16(self.regs.prog_counter + offset))
    }

    /// The word that the two bytes at the program counter make up, low byte
    /// first.
    pub open spec fn operand16(self, hw: Hardware) -> u16 {
        word(self.operand(hw, 1), self.operand(hw, 0))
    }

    /// Processor and memory after `val` was pushed on the stack, high byte
    /// first.
    pub open spec fn pushed(self, hw: Hardware, val: u16) -> (Cpu, Hardware) {
        let first = wrapped16(self.regs.stack_pointer - 1 + 0x1_0000);
        let second = wrapped16(self.regs.stack_pointer - 2 + 0x1_0000);
        (self.with_sp(second), hw.written(first, high_byte(val)).written(second, low_byte(val)))
    }

    /// The word on top of the stack.
    pub open spec fn stack_top(self, hw: Hardware) -> u16 {
        word(hw.byte_at(wrapped16(self.regs.stack_pointer + 1)), hw.byte_at(self.regs.stack_pointer))
    }

    /// The processor after the word on top of the stack was taken off.
    pub open spec fn popped(self) -> Cpu {
        self.with_sp(wrapped16(self.regs.stack_pointer + 2))
    }

    /// Processor and memory after the request of `source` was served: the
    /// processor runs, the master enable is off, the program counter is on
    /// the stack and at the vector of the source, the request is taken back.
    pub open spec fn served(self, hw: Hardware, source: Interrupt) -> (Cpu, Hardware) {
        let (cpu, hw) = (Cpu {
            state: CpuState::Running,
            interrupt_enabled: false,
            ..self
        }).pushed(hw, self.regs.prog_counter);
        (cpu.with_pc(source.vector_spec()), hw.with_pending(source, false))
    }

    /// The processor with the interrupts enabled, if the instruction before
    /// the one that just ran asked for it and nothing took the request back
    /// since. `asked` tells whether the request stood before the instruction
    /// ran.
    pub open spec fn with_delayed_enable(self, asked: bool) -> Cpu {
        if asked && self.enable_pending {
            Cpu { interrupt_enabled: true, enable_pending: false, ..self }
        } else {
            self
        }
    }

    /// Processor and memory after one instruction was fetched and executed,
    /// the delayed enable was applied and an interrupt was served, if one
    /// asks, is enabled and the master enable is on.
    pub open spec fn ran(self, hw: Hardware) -> (Cpu, Hardware, u8) {
        let opcode = self.operand(hw, 0);
        let (cpu, hw, ticks) = instructions::executed(self.skipped(1), hw, opcode);
        let cpu = cpu.with_delayed_enable(self.enable_pending);
        if cpu.interrupt_enabled && hw.next_interrupt() is Some {
            let (cpu, hw) = cpu.served(hw, hw.next_interrupt().unwrap());
            (cpu, hw, (ticks + INTERRUPT_TICKS) as u8)
        } else {
            (cpu, hw, ticks)
        }
    }

    /// Processor and memory one step later, and the master ticks that the
    /// step took.
    pub open spec fn stepped(self, hw: Hardware) -> (Cpu, Hardware, u8) {
        match self.state {
            CpuState::Stopped => if hw.keypad.any_pressed() {
                (Cpu { state: CpuState::Running, ..self }).ran(hw)
            } else {
                (self, hw, IDLE_TICKS)
            },
            CpuState::Halted => match hw.next_interrupt() {
                None => (self, hw, IDLE_TICKS),
                Some(source) => if self.interrupt_enabled {
                    let (cpu, hw) = self.served(hw, source);
                    (cpu, hw, INTERRUPT_TICKS)
                } else {
                    (Cpu { state: CpuState::Running, ..self }).ran(hw)
                },
            },
            CpuState::Running => self.ran(hw),
        }
    }

    pub fn new() -> (r: Self)
        ensures
            r == Self::initial(),
    {
        Cpu {
            regs: Registers {
                a: 0,
                b: 0,
                c: 0,
                d: 0,
                e: 0,
                h: 0,
                l: 0,
                flags: Flags { zero: false, neg: false, half_carry: false, carry: false },
                prog_counter: 0,
                stack_pointer: 0,
            },
            state: CpuState::Running,
            interrupt_enabled: true,
            enable_pending: false,
        }
    }

    /// Reads the byte at the program counter and moves the counter past it.
    pub fn pop_prog_counter(&mut self, hw: &Hardware) -> (r: u8)
        requires
            hw.wf(),
        ensures
            r == old(self).operand(*hw, 0),
            *final(self) == old(self).skipped(1),
    {
        let mem = hw.read(self.regs.prog_counter);
        self.regs.prog_counter = self.regs.prog_counter.wrapping_add(1);
        mem
    }

    /// Reads the word at the program counter, low byte first, and moves the
    /// counter past it.
    pub fn pop_prog_counter16(&mut self, hw: &Hardware) -> (r: u16)
        requires
            hw.wf(),
        ensures
            r == old(self).operand16(*hw),
            *final(self) == old(self).skipped(2),
    {
        let lsb = self.pop_prog_counter(hw);
        let msb = self.pop_prog_counter(hw);
        join(msb, lsb)
    }

    /// Pushes a word on the stack, high byte first.
    #[verifier::rlimit(30)]
    pub fn push_word(&mut self, hw: &mut Hardware, val: u16)
        requires
            old(hw).wf(),
        ensures
            final(hw).wf(),
            (*final(self), *final(hw)) == old(self).pushed(*old(hw), val),
    {
        self.regs.stack_pointer = self.regs.stack_pointer.wrapping_sub(1);
        hw.write(self.regs.stack_pointer, hi(val));
        self.regs.stack_pointer = self.regs.stack_pointer.wrapping_sub(1);
        hw.write(self.regs.stack_pointer, lo(val));
    }

    /// Takes a word off the stack, low byte first.
    pub fn pop_word(&mut self, hw: &Hardware) -> (r: u16)
        requires
            hw.wf(),
        ensures
            r == old(self).stack_top(*hw),
            *final(self) == old(self).popped(),
    {
        let lsb = hw.read(self.regs.stack_pointer);
        self.regs.stack_pointer = self.regs.stack_pointer.wrapping_add(1);
        let msb = hw.read(self.regs.stack_pointer);
        self.regs.stack_pointer = self.regs.stack_pointer.wrapping_add(1);
        join(msb, lsb)
    }

    /// Serves the request of `source`.
    #[verifier::rlimit(30)]
    pub fn serve(&mut self, hw: &mut Hardware, source: Interrupt)
        requires
            old(hw).wf(),
        ensures
            final(hw).wf(),
            (*final(self), *final(hw)) == old(self).served(*old(hw), source),
    {
        self.state = CpuState::Running;
        self.interrupt_enabled = false;
        let return_to = self.regs.prog_counter;
        self.push_word(hw, return_to);
        self.regs.prog_counter = source.vector();
        hw.set_pending(source, false);
    }

    /// Fetches and executes one instruction, then enables the interrupts if
    /// the instruction before asked for it, then serves one if it may.
    #[verifier::rlimit(30)]
    fn run(&mut self, hw: &mut Hardware) -> (r: u8)
        requires
            old(hw).wf(),
        ensures
            final(hw).wf(),
            (*final(self), *final(hw), r) == old(self).ran(*old(hw)),
            4 <= r <= 44,
    {
        let enable_was_pending = self.enable_pending;
        let opcode = self.pop_prog_counter(hw);
        let ticks = instructions::execute(self, hw, opcode);
        if enable_was_pending && self.enable_pending {
            // The instruction behind the one that asked for the interrupts
            // has run: they are enabled from now on.
            self.interrupt_enabled = true;
            self.enable_pending = false;
        }
        if self.interrupt_enabled {
            if let Some(source) = hw.highest_interrupt() {
                self.serve(hw, source);
                return ticks + INTERRUPT_TICKS;
            }
        }
        ticks
    }

    /// Advances the processor by one step and returns the master ticks that
    /// the step took.
    #[verifier::rlimit(30)]
    pub fn tick(&mut self, hw: &mut Hardware) -> (r: u8)
        requires
            old(hw).wf(),
        ensures
            final(hw).wf(),
            (*final(self), *final(hw), r) == old(self).stepped(*old(hw)),
            4 <= r <= 44,
    {
        match self.state {
            CpuState::Stopped => {
                if !hw.keypad.has_input() {
                    return IDLE_TICKS;
                }
                self.state = CpuState::Running;
            },
            CpuState::Halted => {
                match hw.highest_interrupt() {
                    None => {
                        return IDLE_TICKS;
                    },
                    Some(source) => {
                        if self.interrupt_enabled {
                            self.serve(hw, source);
                            return INTERRUPT_TICKS;
                        }
                        self.state = CpuState::Running;
                    },
                }
            },
            CpuState::Running => {},
        }
        self.run(hw)
    }
}

impl From<u8> for Flags {
    fn from(value: u8) -> (r: Self) {
        Flags::from_byte(value)
    }
}

impl FromSpecImpl<u8> for Flags {
    open spec fn obeys_from_spec() -> bool {
        true
    }

    open spec fn from_spec(v: u8) -> Self {
        Flags::of_byte(v)
    }
}

impl From<Flags> for u8 {
    fn from(value: Flags) -> (r: Self) {
        value.to_byte()
    }
}

impl FromSpecImpl<Flags> for u8 {
    open spec fn obeys_from_spec() -> bool {
        true
    }

    open spec fn from_spec(v: Flags) -> Self {
        v.byte()
    }
}


} // verus!
