use playful_youngster::cartridge::Cartridge;
use playful_youngster::cpu::alu::{
    add_bytes, add_offset, add_words, and_bytes, compare_bytes, decimal_adjust, decrement,
    increment, or_bytes, raise_bit, reset_bit, rotate_left, rotate_left_carry, rotate_right,
    rotate_right_carry, shift_left_byte, shift_right_byte, subtract_bytes, swap_halves, test_bit,
    xor_bytes,
};
use playful_youngster::cpu::cbprefix;
use playful_youngster::cpu::instructions::{
    decode, documented_ticks, execute, Condition, Control, Instruction, Misc,
};
use playful_youngster::cpu::{hi, join, lo, Cpu, CpuState, Flags, Register16, Register8};
use playful_youngster::emulator::{Emulator, TICKS_PER_FRAME};
use playful_youngster::hardware::Hardware;

const CLEAR: Flags = Flags { zero: false, neg: false, half_carry: false, carry: false };

fn flags(zero: bool, neg: bool, half_carry: bool, carry: bool) -> Flags {
    Flags { zero, neg, half_carry, carry }
}

/// Hardware without boot ROM and without cartridge, with `program` in work
/// RAM at 0xC000, and a processor about to run it.
fn machine(program: &[u8]) -> (Cpu, Hardware) {
    let mut hw = Hardware::new([0u8; 256]);
    hw.write(0xFF50, 1);
    for (offset, byte) in program.iter().enumerate() {
        hw.write(0xC000 + offset as u16, *byte);
    }
    let mut cpu = Cpu::new();
    cpu.regs.prog_counter = 0xC000;
    cpu.regs.stack_pointer = 0xDFFF;
    (cpu, hw)
}

#[test]
fn words_split_and_join() {
    for word in [0x0000u16, 0x00FF, 0x0100, 0x1234, 0xABCD, 0xFFFF] {
        assert_eq!(join(hi(word), lo(word)), word);
    }
    assert_eq!(hi(0x1234), 0x12);
    assert_eq!(lo(0x1234), 0x34);
}

#[test]
fn register_pairs_are_big_endian() {
    let mut cpu = Cpu::new();
    cpu.regs.set_combined(Register16::BC, 0x1234);
    cpu.regs.set_combined(Register16::DE, 0x5678);
    cpu.regs.set_combined(Register16::HL, 0x9ABC);
    cpu.regs.set_combined(Register16::SP, 0xDEF0);
    assert_eq!((cpu.regs.b, cpu.regs.c), (0x12, 0x34));
    assert_eq!((cpu.regs.d, cpu.regs.e), (0x56, 0x78));
    assert_eq!((cpu.regs.h, cpu.regs.l), (0x9A, 0xBC));
    assert_eq!(cpu.regs.stack_pointer, 0xDEF0);
    for (pair, value) in [
        (Register16::BC, 0x1234),
        (Register16::DE, 0x5678),
        (Register16::HL, 0x9ABC),
        (Register16::SP, 0xDEF0),
    ] {
        assert_eq!(cpu.regs.combined(pair), value);
    }
    cpu.regs.set(Register8::A, 0x11);
    assert_eq!(cpu.regs.get(Register8::A), 0x11);
    assert_eq!(cpu.regs.get(Register8::L), 0xBC);
}

#[test]
fn flag_byte_has_no_low_nibble() {
    for byte in 0..=255u8 {
        let flags = Flags::from_byte(byte);
        assert_eq!(flags.to_byte(), byte & 0xF0);
    }
    assert_eq!(Flags::from_byte(0x80), flags(true, false, false, false));
    assert_eq!(Flags::from_byte(0x40), flags(false, true, false, false));
    assert_eq!(Flags::from_byte(0x20), flags(false, false, true, false));
    assert_eq!(Flags::from_byte(0x10), flags(false, false, false, true));
    let mut cpu = Cpu::new();
    cpu.regs.set_combined(Register16::AF, 0x12FF);
    assert_eq!(cpu.regs.combined(Register16::AF), 0x12F0);
}

#[test]
fn addition_flags() {
    let r = add_bytes(0x0F, 0x01, false);
    assert_eq!((r.value, r.flags), (0x10, flags(false, false, true, false)));
    let r = add_bytes(0xF0, 0x10, false);
    assert_eq!((r.value, r.flags), (0x00, flags(true, false, false, true)));
    let r = add_bytes(0xFF, 0x01, false);
    assert_eq!((r.value, r.flags), (0x00, flags(true, false, true, true)));
    let r = add_bytes(0xFF, 0xFF, true);
    assert_eq!((r.value, r.flags), (0xFF, flags(false, false, true, true)));
    let r = add_bytes(0x0E, 0x01, true);
    assert_eq!((r.value, r.flags), (0x10, flags(false, false, true, false)));
    let r = add_bytes(0x3C, 0x12, false);
    assert_eq!((r.value, r.flags), (0x4E, CLEAR));
}

#[test]
fn subtraction_flags() {
    let r = subtract_bytes(0x10, 0x01, false);
    assert_eq!((r.value, r.flags), (0x0F, flags(false, true, true, false)));
    let r = subtract_bytes(0x00, 0x01, false);
    assert_eq!((r.value, r.flags), (0xFF, flags(false, true, true, true)));
    let r = subtract_bytes(0x3E, 0x3E, false);
    assert_eq!((r.value, r.flags), (0x00, flags(true, true, false, false)));
    let r = subtract_bytes(0x3B, 0x4F, true);
    assert_eq!((r.value, r.flags), (0xEB, flags(false, true, true, true)));
    let r = subtract_bytes(0x10, 0x0F, true);
    assert_eq!((r.value, r.flags), (0x00, flags(true, true, true, false)));
    let r = compare_bytes(0x3C, 0x40);
    assert_eq!((r.value, r.flags), (0x3C, flags(false, true, false, true)));
    let r = compare_bytes(0x3C, 0x3C);
    assert_eq!((r.value, r.flags), (0x3C, flags(true, true, false, false)));
}

#[test]
fn logic_flags() {
    let r = and_bytes(0x5A, 0x3F);
    assert_eq!((r.value, r.flags), (0x1A, flags(false, false, true, false)));
    let r = and_bytes(0x5A, 0xA5);
    assert_eq!((r.value, r.flags), (0x00, flags(true, false, true, false)));
    let r = or_bytes(0x5A, 0x0F);
    assert_eq!((r.value, r.flags), (0x5F, CLEAR));
    let r = or_bytes(0x00, 0x00);
    assert_eq!((r.value, r.flags), (0x00, flags(true, false, false, false)));
    let r = xor_bytes(0xFF, 0x0F);
    assert_eq!((r.value, r.flags), (0xF0, CLEAR));
    let r = xor_bytes(0xFF, 0xFF);
    assert_eq!((r.value, r.flags), (0x00, flags(true, false, false, false)));
}

#[test]
fn increment_and_decrement_leave_the_carry() {
    let carry = flags(false, false, false, true);
    let r = increment(0xFF, carry);
    assert_eq!((r.value, r.flags), (0x00, flags(true, false, true, true)));
    let r = increment(0x0F, CLEAR);
    assert_eq!((r.value, r.flags), (0x10, flags(false, false, true, false)));
    let r = increment(0x41, carry);
    assert_eq!((r.value, r.flags), (0x42, carry));
    let r = decrement(0x01, carry);
    assert_eq!((r.value, r.flags), (0x00, flags(true, true, false, true)));
    let r = decrement(0x00, CLEAR);
    assert_eq!((r.value, r.flags), (0xFF, flags(false, true, true, false)));
    let r = decrement(0x10, CLEAR);
    assert_eq!((r.value, r.flags), (0x0F, flags(false, true, true, false)));
}

#[test]
fn word_addition_flags() {
    let zero = flags(true, true, false, false);
    let r = add_words(0x8A23, 0x0605, zero);
    assert_eq!((r.value, r.flags), (0x9028, flags(true, false, true, false)));
    let r = add_words(0x8A23, 0x8A23, CLEAR);
    assert_eq!((r.value, r.flags), (0x1446, flags(false, false, true, true)));
    let r = add_words(0xFFFF, 0x0001, CLEAR);
    assert_eq!((r.value, r.flags), (0x0000, flags(false, false, true, true)));
    let r = add_offset(0xFFF8, 0x02);
    assert_eq!((r.value, r.flags), (0xFFFA, CLEAR));
    let r = add_offset(0x0001, 0xFF);
    assert_eq!((r.value, r.flags), (0x0000, flags(false, false, true, true)));
    let r = add_offset(0x0100, 0xFF);
    assert_eq!((r.value, r.flags), (0x00FF, CLEAR));
    let r = add_offset(0x00FF, 0x01);
    assert_eq!((r.value, r.flags), (0x0100, flags(false, false, true, true)));
}

#[test]
fn decimal_adjust_after_addition_and_subtraction() {
    // 45 + 38 = 83.
    let sum = add_bytes(0x45, 0x38, false);
    let r = decimal_adjust(sum.value, sum.flags);
    assert_eq!((r.value, r.flags), (0x83, CLEAR));
    // 99 + 01 = 100.
    let sum = add_bytes(0x99, 0x01, false);
    let r = decimal_adjust(sum.value, sum.flags);
    assert_eq!((r.value, r.flags), (0x00, flags(true, false, false, true)));
    // 83 - 38 = 45.
    let difference = subtract_bytes(0x83, 0x38, false);
    let r = decimal_adjust(difference.value, difference.flags);
    assert_eq!((r.value, r.flags), (0x45, flags(false, true, false, false)));
    // 00 - 01 = 99 with a borrow.
    let difference = subtract_bytes(0x00, 0x01, false);
    let r = decimal_adjust(difference.value, difference.flags);
    assert_eq!((r.value, r.flags), (0x99, flags(false, true, false, true)));
}

#[test]
fn decimal_adjust_makes_every_decimal_sum_decimal() {
    for a in 0..100u8 {
        for b in 0..100u8 {
            let x = (a / 10) * 16 + a % 10;
            let y = (b / 10) * 16 + b % 10;
            let sum = add_bytes(x, y, false);
            let r = decimal_adjust(sum.value, sum.flags);
            let expected = (a + b) % 100;
            assert_eq!(r.value, (expected / 10) * 16 + expected % 10);
            assert_eq!(r.flags.carry, a + b >= 100);
        }
    }
}

#[test]
fn rotations_and_shifts() {
    let r = rotate_left(0x85);
    assert_eq!((r.value, r.flags), (0x0B, flags(false, false, false, true)));
    let r = rotate_right(0x01);
    assert_eq!((r.value, r.flags), (0x80, flags(false, false, false, true)));
    let r = rotate_left(0x00);
    assert_eq!((r.value, r.flags), (0x00, flags(true, false, false, false)));
    let r = rotate_left_carry(0x80, false);
    assert_eq!((r.value, r.flags), (0x00, flags(true, false, false, true)));
    let r = rotate_left_carry(0x11, true);
    assert_eq!((r.value, r.flags), (0x23, CLEAR));
    let r = rotate_right_carry(0x01, false);
    assert_eq!((r.value, r.flags), (0x00, flags(true, false, false, true)));
    let r = rotate_right_carry(0x8A, true);
    assert_eq!((r.value, r.flags), (0xC5, CLEAR));
    let r = shift_left_byte(0xFF);
    assert_eq!((r.value, r.flags), (0xFE, flags(false, false, false, true)));
    let r = shift_right_byte(0x8A, true);
    assert_eq!((r.value, r.flags), (0xC5, CLEAR));
    let r = shift_right_byte(0x01, true);
    assert_eq!((r.value, r.flags), (0x00, flags(true, false, false, true)));
    let r = shift_right_byte(0xFF, false);
    assert_eq!((r.value, r.flags), (0x7F, flags(false, false, false, true)));
    let r = swap_halves(0xF1);
    assert_eq!((r.value, r.flags), (0x1F, CLEAR));
    let r = swap_halves(0x00);
    assert_eq!((r.value, r.flags), (0x00, flags(true, false, false, false)));
}

#[test]
fn single_bits() {
    let carry = flags(false, true, false, true);
    for index in 0..8u8 {
        for byte in [0x00u8, 0xFF, 0xA5, 0x5A, 0x80, 0x01] {
            let set = byte & (1 << index) != 0;
            assert_eq!(test_bit(byte, index, carry), flags(!set, false, true, true));
            assert_eq!(raise_bit(byte, index), byte | (1 << index));
            assert_eq!(reset_bit(byte, index), byte & !(1 << index));
            // Setting what was cleared gives the byte back only if the bit was set.
            assert_eq!(raise_bit(reset_bit(byte, index), index) == byte, set);
            // The test tells whether setting or clearing will change the byte.
            assert_eq!(test_bit(byte, index, carry).zero, raise_bit(byte, index) != byte);
            assert_eq!(test_bit(byte, index, carry).zero, reset_bit(byte, index) == byte);
        }
    }
}

#[test]
fn loads_between_registers_and_memory() {
    // LD HL,0xC100; LD (HL),0x5A; LD B,(HL); LD C,B; LD (HL+),A; LD A,(HL-); LD (0xC200),A
    let (mut cpu, mut hw) = machine(&[
        0x21, 0x00, 0xC1, 0x36, 0x5A, 0x46, 0x48, 0x22, 0x3A, 0xEA, 0x00, 0xC2,
    ]);
    cpu.regs.a = 0x77;
    assert_eq!(cpu.tick(&mut hw), 12);
    assert_eq!(cpu.regs.combined(Register16::HL), 0xC100);
    assert_eq!(cpu.tick(&mut hw), 12);
    assert_eq!(hw.read(0xC100), 0x5A);
    assert_eq!(cpu.tick(&mut hw), 8);
    assert_eq!(cpu.regs.b, 0x5A);
    assert_eq!(cpu.tick(&mut hw), 4);
    assert_eq!(cpu.regs.c, 0x5A);
    assert_eq!(cpu.tick(&mut hw), 8);
    assert_eq!(hw.read(0xC100), 0x77);
    assert_eq!(cpu.regs.combined(Register16::HL), 0xC101);
    hw.write(0xC101, 0x99);
    assert_eq!(cpu.tick(&mut hw), 8);
    assert_eq!(cpu.regs.a, 0x99);
    assert_eq!(cpu.regs.combined(Register16::HL), 0xC100);
    assert_eq!(cpu.tick(&mut hw), 16);
    assert_eq!(hw.read(0xC200), 0x99);
    assert_eq!(cpu.regs.prog_counter, 0xC00C);
}

#[test]
fn loads_through_the_last_page() {
    // LDH (0x80),A; LD C,0x81; LD (C),A; LDH A,(0x81); LD A,(C); LD A,(0xFF80)
    let (mut cpu, mut hw) =
        machine(&[0xE0, 0x80, 0x0E, 0x81, 0xE2, 0xF0, 0x81, 0xF2, 0xFA, 0x80, 0xFF]);
    cpu.regs.a = 0x3C;
    assert_eq!(cpu.tick(&mut hw), 12);
    assert_eq!(hw.read(0xFF80), 0x3C);
    assert_eq!(cpu.tick(&mut hw), 8);
    cpu.regs.a = 0x4D;
    assert_eq!(cpu.tick(&mut hw), 8);
    assert_eq!(hw.read(0xFF81), 0x4D);
    cpu.regs.a = 0;
    assert_eq!(cpu.tick(&mut hw), 12);
    assert_eq!(cpu.regs.a, 0x4D);
    hw.write(0xFF81, 0x5E);
    assert_eq!(cpu.tick(&mut hw), 8);
    assert_eq!(cpu.regs.a, 0x5E);
    assert_eq!(cpu.tick(&mut hw), 16);
    assert_eq!(cpu.regs.a, 0x3C);
}

#[test]
fn stack_pointer_loads() {
    // LD SP,0xD000; LD (0xC100),SP; LD HL,SP-2; LD SP,HL; ADD SP,5
    let (mut cpu, mut hw) =
        machine(&[0x31, 0x00, 0xD0, 0x08, 0x00, 0xC1, 0xF8, 0xFE, 0xF9, 0xE8, 0x05]);
    assert_eq!(cpu.tick(&mut hw), 12);
    assert_eq!(cpu.regs.stack_pointer, 0xD000);
    assert_eq!(cpu.tick(&mut hw), 20);
    assert_eq!((hw.read(0xC100), hw.read(0xC101)), (0x00, 0xD0));
    assert_eq!(cpu.tick(&mut hw), 12);
    assert_eq!(cpu.regs.combined(Register16::HL), 0xCFFE);
    assert_eq!(cpu.regs.flags, CLEAR);
    assert_eq!(cpu.tick(&mut hw), 8);
    assert_eq!(cpu.regs.stack_pointer, 0xCFFE);
    assert_eq!(cpu.tick(&mut hw), 16);
    assert_eq!(cpu.regs.stack_pointer, 0xD003);
    assert_eq!(cpu.regs.flags, flags(false, false, true, true));
}

#[test]
fn push_then_pop_leaves_pair_and_stack_pointer() {
    let pairs = [
        (Register16::BC, 0xC5u8, 0xC1u8),
        (Register16::DE, 0xD5, 0xD1),
        (Register16::HL, 0xE5, 0xE1),
        (Register16::AF, 0xF5, 0xF1),
    ];
    for (pair, push, pop) in pairs {
        let (mut cpu, mut hw) = machine(&[push, pop]);
        cpu.regs.set_combined(pair, 0xBEE0);
        let before = cpu.regs;
        assert_eq!(cpu.tick(&mut hw), 16);
        assert_eq!(cpu.regs.stack_pointer, 0xDFFD);
        assert_eq!((hw.read(0xDFFE), hw.read(0xDFFD)), (0xBE, 0xE0));
        assert_eq!(cpu.tick(&mut hw), 12);
        assert_eq!(cpu.regs.combined(pair), 0xBEE0);
        assert_eq!(cpu.regs.stack_pointer, before.stack_pointer);
        assert_eq!(cpu.regs.a, before.a);
        assert_eq!(cpu.regs.flags, before.flags);
    }
}

#[test]
fn pop_af_drops_the_low_nibble() {
    // POP AF; PUSH AF
    let (mut cpu, mut hw) = machine(&[0xF1, 0xF5]);
    cpu.regs.stack_pointer = 0xD000;
    hw.write(0xD000, 0xFF);
    hw.write(0xD001, 0x12);
    cpu.tick(&mut hw);
    assert_eq!(cpu.regs.a, 0x12);
    assert_eq!(cpu.regs.flags, flags(true, true, true, true));
    hw.write(0xD000, 0x00);
    cpu.tick(&mut hw);
    assert_eq!(hw.read(0xD000), 0xF0);
    assert_eq!(hw.read(0xD001), 0x12);
}

#[test]
fn arithmetic_on_the_accumulator() {
    // ADD A,B; ADC A,(HL); SUB 0x10; SBC A,C; AND 0xF0; XOR A; OR (HL); CP 0x99
    let (mut cpu, mut hw) =
        machine(&[0x80, 0x8E, 0xD6, 0x10, 0x99, 0xE6, 0xF0, 0xAF, 0xB6, 0xFE, 0x99]);
    cpu.regs.a = 0xF0;
    cpu.regs.b = 0x20;
    cpu.regs.c = 0x01;
    cpu.regs.set_combined(Register16::HL, 0xC100);
    hw.write(0xC100, 0x98);
    assert_eq!(cpu.tick(&mut hw), 4);
    assert_eq!((cpu.regs.a, cpu.regs.flags), (0x10, flags(false, false, false, true)));
    assert_eq!(cpu.tick(&mut hw), 8);
    assert_eq!((cpu.regs.a, cpu.regs.flags), (0xA9, CLEAR));
    assert_eq!(cpu.tick(&mut hw), 8);
    assert_eq!((cpu.regs.a, cpu.regs.flags), (0x99, flags(false, true, false, false)));
    assert_eq!(cpu.tick(&mut hw), 4);
    assert_eq!((cpu.regs.a, cpu.regs.flags), (0x98, flags(false, true, false, false)));
    assert_eq!(cpu.tick(&mut hw), 8);
    assert_eq!((cpu.regs.a, cpu.regs.flags), (0x90, flags(false, false, true, false)));
    assert_eq!(cpu.tick(&mut hw), 4);
    assert_eq!((cpu.regs.a, cpu.regs.flags), (0x00, flags(true, false, false, false)));
    assert_eq!(cpu.tick(&mut hw), 8);
    assert_eq!((cpu.regs.a, cpu.regs.flags), (0x98, CLEAR));
    assert_eq!(cpu.tick(&mut hw), 8);
    assert_eq!((cpu.regs.a, cpu.regs.flags), (0x98, flags(false, true, true, true)));
}

#[test]
fn steps_of_registers_pairs_and_memory() {
    // INC B; DEC C; INC (HL); DEC (HL); INC DE; DEC SP; ADD HL,DE
    let (mut cpu, mut hw) = machine(&[0x04, 0x0D, 0x34, 0x35, 0x13, 0x3B, 0x19]);
    cpu.regs.b = 0xFF;
    cpu.regs.c = 0x10;
    cpu.regs.flags.carry = true;
    cpu.regs.set_combined(Register16::HL, 0xC100);
    cpu.regs.set_combined(Register16::DE, 0xFFFF);
    cpu.regs.stack_pointer = 0x0000;
    hw.write(0xC100, 0x0F);
    assert_eq!(cpu.tick(&mut hw), 4);
    assert_eq!((cpu.regs.b, cpu.regs.flags), (0x00, flags(true, false, true, true)));
    assert_eq!(cpu.tick(&mut hw), 4);
    assert_eq!((cpu.regs.c, cpu.regs.flags), (0x0F, flags(false, true, true, true)));
    assert_eq!(cpu.tick(&mut hw), 12);
    assert_eq!((hw.read(0xC100), cpu.regs.flags), (0x10, flags(false, false, true, true)));
    assert_eq!(cpu.tick(&mut hw), 12);
    assert_eq!((hw.read(0xC100), cpu.regs.flags), (0x0F, flags(false, true, true, true)));
    let before = cpu.regs.flags;
    assert_eq!(cpu.tick(&mut hw), 8);
    assert_eq!(cpu.regs.combined(Register16::DE), 0x0000);
    assert_eq!(cpu.tick(&mut hw), 8);
    assert_eq!(cpu.regs.stack_pointer, 0xFFFF);
    assert_eq!(cpu.regs.flags, before);
    assert_eq!(cpu.tick(&mut hw), 8);
    assert_eq!(cpu.regs.combined(Register16::HL), 0xC100);
    assert_eq!(cpu.regs.flags, flags(false, false, false, false));
}

#[test]
fn accumulator_rotations_clear_the_zero_flag() {
    // RLCA; RRCA; RLA; RRA; CPL; SCF; CCF; CCF; DAA
    let (mut cpu, mut hw) = machine(&[0x07, 0x0F, 0x17, 0x1F, 0x2F, 0x37, 0x3F, 0x3F, 0x27]);
    cpu.regs.a = 0x80;
    cpu.regs.flags.zero = true;
    assert_eq!(cpu.tick(&mut hw), 4);
    assert_eq!((cpu.regs.a, cpu.regs.flags), (0x01, flags(false, false, false, true)));
    assert_eq!(cpu.tick(&mut hw), 4);
    assert_eq!((cpu.regs.a, cpu.regs.flags), (0x80, flags(false, false, false, true)));
    assert_eq!(cpu.tick(&mut hw), 4);
    assert_eq!((cpu.regs.a, cpu.regs.flags), (0x01, flags(false, false, false, true)));
    assert_eq!(cpu.tick(&mut hw), 4);
    assert_eq!((cpu.regs.a, cpu.regs.flags), (0x80, flags(false, false, false, true)));
    assert_eq!(cpu.tick(&mut hw), 4);
    assert_eq!((cpu.regs.a, cpu.regs.flags), (0x7F, flags(false, true, true, true)));
    assert_eq!(cpu.tick(&mut hw), 4);
    assert_eq!(cpu.regs.flags, flags(false, false, false, true));
    assert_eq!(cpu.tick(&mut hw), 4);
    assert_eq!(cpu.regs.flags, flags(false, false, false, false));
    assert_eq!(cpu.tick(&mut hw), 4);
    assert_eq!(cpu.regs.flags, flags(false, false, false, true));
    assert_eq!(cpu.tick(&mut hw), 4);
    assert_eq!((cpu.regs.a, cpu.regs.flags), (0xE5, flags(false, false, false, true)));
}

#[test]
fn jumps_calls_and_returns() {
    // JP 0xC010
    let (mut cpu, mut hw) = machine(&[0xC3, 0x10, 0xC0]);
    assert_eq!(cpu.tick(&mut hw), 16);
    assert_eq!(cpu.regs.prog_counter, 0xC010);
    // JP C,0xC010, not taken and taken
    let (mut cpu, mut hw) = machine(&[0xDA, 0x10, 0xC0, 0xDA, 0x10, 0xC0]);
    assert_eq!(cpu.tick(&mut hw), 12);
    assert_eq!(cpu.regs.prog_counter, 0xC003);
    cpu.regs.flags.carry = true;
    assert_eq!(cpu.tick(&mut hw), 16);
    assert_eq!(cpu.regs.prog_counter, 0xC010);
    // JP HL
    let (mut cpu, mut hw) = machine(&[0xE9]);
    cpu.regs.set_combined(Register16::HL, 0x1234);
    assert_eq!(cpu.tick(&mut hw), 4);
    assert_eq!(cpu.regs.prog_counter, 0x1234);
    // CALL NC, not taken: the address is skipped.
    let (mut cpu, mut hw) = machine(&[0xD4, 0x10, 0xC0]);
    cpu.regs.flags.carry = true;
    assert_eq!(cpu.tick(&mut hw), 12);
    assert_eq!(cpu.regs.prog_counter, 0xC003);
    assert_eq!(cpu.regs.stack_pointer, 0xDFFF);
    // CALL Z, taken, then RET NZ not taken, RET Z taken.
    let (mut cpu, mut hw) = machine(&[0xCC, 0x10, 0xC0]);
    hw.write(0xC010, 0xC0);
    hw.write(0xC011, 0xC8);
    cpu.regs.flags.zero = true;
    assert_eq!(cpu.tick(&mut hw), 24);
    assert_eq!(cpu.regs.prog_counter, 0xC010);
    assert_eq!(cpu.regs.stack_pointer, 0xDFFD);
    assert_eq!(cpu.tick(&mut hw), 8);
    assert_eq!(cpu.regs.prog_counter, 0xC011);
    assert_eq!(cpu.tick(&mut hw), 20);
    assert_eq!(cpu.regs.prog_counter, 0xC003);
    assert_eq!(cpu.regs.stack_pointer, 0xDFFF);
}

#[test]
fn restarts_and_return_from_interrupt() {
    for (opcode, vector) in
        [(0xC7u8, 0x00u16), (0xCF, 0x08), (0xD7, 0x10), (0xDF, 0x18), (0xE7, 0x20), (0xEF, 0x28), (0xF7, 0x30), (0xFF, 0x38)]
    {
        let (mut cpu, mut hw) = machine(&[opcode]);
        assert_eq!(cpu.tick(&mut hw), 16);
        assert_eq!(cpu.regs.prog_counter, vector);
        assert_eq!(cpu.regs.stack_pointer, 0xDFFD);
        assert_eq!((hw.read(0xDFFE), hw.read(0xDFFD)), (0xC0, 0x01));
    }
    // RETI
    let (mut cpu, mut hw) = machine(&[0xD9]);
    cpu.interrupt_enabled = false;
    cpu.regs.stack_pointer = 0xD000;
    hw.write(0xD000, 0x34);
    hw.write(0xD001, 0x12);
    assert_eq!(cpu.tick(&mut hw), 16);
    assert_eq!(cpu.regs.prog_counter, 0x1234);
    assert_eq!(cpu.regs.stack_pointer, 0xD002);
    assert!(cpu.interrupt_enabled);
}

#[test]
fn disabling_interrupts_is_immediate() {
    // EI; DI; NOP
    let (mut cpu, mut hw) = machine(&[0xFB, 0xF3, 0x00]);
    cpu.interrupt_enabled = false;
    hw.write(0xFFFF, 0x1F);
    hw.write(0xFF0F, 0x04);
    assert_eq!(cpu.tick(&mut hw), 4);
    assert_eq!(cpu.tick(&mut hw), 4);
    assert!(!cpu.interrupt_enabled);
    assert_eq!(cpu.tick(&mut hw), 4);
    assert_eq!(cpu.regs.prog_counter, 0xC003);
    assert_eq!(hw.read(0xFF0F), 0x04);
}

#[test]
fn interrupts_are_served_by_priority() {
    let vectors = [0x40u16, 0x48, 0x50, 0x58, 0x60];
    let (mut cpu, mut hw) = machine(&[0x00]);
    hw.write(0xFFFF, 0x1F);
    hw.write(0xFF0F, 0x1F);
    let mut pending = 0x1F;
    for (bit, vector) in vectors.into_iter().enumerate() {
        cpu.interrupt_enabled = true;
        cpu.regs.prog_counter = 0xC000;
        assert_eq!(cpu.tick(&mut hw), 24);
        assert_eq!(cpu.regs.prog_counter, vector);
        pending &= !(1 << bit);
        assert_eq!(hw.read(0xFF0F), pending);
        assert!(!cpu.interrupt_enabled);
    }
    // A request that is not enabled is not served.
    hw.write(0xFFFF, 0x00);
    hw.write(0xFF0F, 0x1F);
    cpu.interrupt_enabled = true;
    cpu.regs.prog_counter = 0xC000;
    assert_eq!(cpu.tick(&mut hw), 4);
    assert_eq!(cpu.regs.prog_counter, 0xC001);
}

#[test]
fn halt_with_interrupts_enabled_serves_the_interrupt() {
    let (mut cpu, mut hw) = machine(&[0x76, 0x00]);
    assert_eq!(cpu.tick(&mut hw), 4);
    assert_eq!(cpu.state, CpuState::Halted);
    assert_eq!(cpu.tick(&mut hw), 4);
    hw.write(0xFFFF, 0x10);
    hw.write(0xFF0F, 0x10);
    assert_eq!(cpu.tick(&mut hw), 20);
    assert_eq!(cpu.state, CpuState::Running);
    assert_eq!(cpu.regs.prog_counter, 0x60);
    assert_eq!((hw.read(0xDFFE), hw.read(0xDFFD)), (0xC0, 0x01));
}

#[test]
fn undefined_opcodes_pass_like_nop() {
    for opcode in [0xD3u8, 0xDB, 0xDD, 0xE3, 0xE4, 0xEB, 0xEC, 0xED, 0xF4, 0xFC, 0xFD] {
        let (mut cpu, mut hw) = machine(&[opcode]);
        cpu.regs.a = 0x12;
        let before = cpu.regs;
        assert_eq!(decode(opcode), Instruction::Misc(Misc::Undefined));
        assert_eq!(cpu.tick(&mut hw), 4);
        assert_eq!(cpu.regs.prog_counter, 0xC001);
        assert_eq!(cpu.regs.a, before.a);
        assert_eq!(cpu.regs.stack_pointer, before.stack_pointer);
    }
}

#[test]
fn decode_names_the_instructions() {
    assert_eq!(decode(0x00), Instruction::Misc(Misc::Nop));
    assert_eq!(decode(0x76), Instruction::Misc(Misc::Halt));
    assert_eq!(decode(0xCB), Instruction::Misc(Misc::Prefix));
    assert_eq!(
        decode(0x20),
        Instruction::Control(Control::JumpRelative(Some(Condition::NotZero)))
    );
    assert_eq!(decode(0x28), Instruction::Control(Control::JumpRelative(Some(Condition::Zero))));
    assert_eq!(decode(0xC9), Instruction::Control(Control::Return(None)));
    assert_eq!(decode(0xFF), Instruction::Control(Control::Restart(0x38)));
}

#[test]
fn every_opcode_takes_its_documented_ticks() {
    for opcode in 0..=255u8 {
        if opcode == 0xCB {
            continue;
        }
        // With all flags clear, and with all flags set.
        for set in [false, true] {
            let (mut cpu, mut hw) = machine(&[opcode, 0x00, 0xC1]);
            cpu.regs.flags = flags(set, set, set, set);
            cpu.regs.set_combined(Register16::HL, 0xC100);
            cpu.regs.prog_counter = 0xC001;
            let taken = match decode(opcode) {
                Instruction::Control(
                    Control::JumpRelative(Some(condition))
                    | Control::JumpAbsolute(Some(condition))
                    | Control::Call(Some(condition))
                    | Control::Return(Some(condition)),
                ) => condition.holds(cpu.regs.flags),
                _ => true,
            };
            let ticks = execute(&mut cpu, &mut hw, opcode);
            assert_eq!(ticks, documented_ticks(opcode, taken), "opcode {opcode:#04x}");
        }
    }
}

#[test]
fn conditions_look_at_their_flag() {
    let set = flags(true, false, false, true);
    assert!(Condition::Zero.holds(set));
    assert!(!Condition::NotZero.holds(set));
    assert!(Condition::Carry.holds(set));
    assert!(!Condition::NotCarry.holds(set));
    assert!(Condition::NotZero.holds(CLEAR));
    assert!(Condition::NotCarry.holds(CLEAR));
}

#[test]
fn every_prefixed_opcode_takes_its_documented_ticks() {
    for prefix in 0..=255u8 {
        let (mut cpu, mut hw) = machine(&[0xCB, prefix]);
        cpu.regs.set_combined(Register16::HL, 0xC100);
        let ticks = cpu.tick(&mut hw);
        assert_eq!(ticks, documented_ticks(0xCB, true) + cbprefix::documented_ticks(prefix));
        let register = prefix & 0b111 != 6;
        let test = prefix & 0xC0 == 0x40;
        assert_eq!(ticks, if register { 8 } else if test { 12 } else { 16 });
        assert_eq!(cpu.regs.prog_counter, 0xC002);
    }
}

#[test]
fn prefixed_instructions_on_registers_and_memory() {
    // RLC B; SWAP (HL); BIT 7,(HL); RES 0,(HL); SET 7,A; SRA C; RL D; SRL (HL)
    let (mut cpu, mut hw) = machine(&[
        0xCB, 0x00, 0xCB, 0x36, 0xCB, 0x7E, 0xCB, 0x86, 0xCB, 0xFF, 0xCB, 0x29, 0xCB, 0x12, 0xCB,
        0x3E,
    ]);
    cpu.regs.b = 0x85;
    cpu.regs.c = 0x81;
    cpu.regs.d = 0x40;
    cpu.regs.set_combined(Register16::HL, 0xC100);
    hw.write(0xC100, 0x1F);
    cpu.tick(&mut hw);
    assert_eq!((cpu.regs.b, cpu.regs.flags), (0x0B, flags(false, false, false, true)));
    cpu.tick(&mut hw);
    assert_eq!((hw.read(0xC100), cpu.regs.flags), (0xF1, CLEAR));
    cpu.tick(&mut hw);
    assert_eq!(cpu.regs.flags, flags(false, false, true, false));
    cpu.tick(&mut hw);
    assert_eq!((hw.read(0xC100), cpu.regs.flags), (0xF0, flags(false, false, true, false)));
    cpu.tick(&mut hw);
    assert_eq!(cpu.regs.a, 0x80);
    cpu.tick(&mut hw);
    assert_eq!((cpu.regs.c, cpu.regs.flags), (0xC0, flags(false, false, false, true)));
    cpu.tick(&mut hw);
    assert_eq!((cpu.regs.d, cpu.regs.flags), (0x81, CLEAR));
    cpu.tick(&mut hw);
    assert_eq!((hw.read(0xC100), cpu.regs.flags), (0x78, CLEAR));
}

#[test]
fn echo_mirrors_work_ram() {
    let mut hw = Hardware::new([0u8; 256]);
    for (work, echo) in [(0xC000u16, 0xE000u16), (0xC123, 0xE123), (0xDDFF, 0xFDFF)] {
        hw.write(work, 0x5A);
        assert_eq!(hw.read(echo), 0x5A);
        hw.write(echo, 0xA5);
        assert_eq!(hw.read(work), 0xA5);
        assert_eq!(hw.read(echo), hw.read(work));
    }
}

#[test]
fn boot_rom_covers_the_first_page_until_switched_away() {
    let mut boot = [0u8; 256];
    boot[0] = 0x31;
    boot[0xFF] = 0x50;
    let mut hw = Hardware::new(boot);
    let mut image = vec![0xEEu8; 0x8000];
    image[0x147] = 0;
    image[0x148] = 0;
    image[0x149] = 0;
    hw.insert_cartridge(Cartridge::new_from_header(image).unwrap());
    assert_eq!(hw.read(0x0000), 0x31);
    assert_eq!(hw.read(0x00FF), 0x50);
    assert_eq!(hw.read(0x0100), 0xEE);
    // Any value switches it away, for good.
    hw.write(0xFF50, 0x00);
    assert_eq!(hw.read(0x0000), 0xEE);
    assert_eq!(hw.read(0x00FF), 0xEE);
    hw.write(0xFF50, 0x01);
    assert_eq!(hw.read(0x0000), 0xEE);
}

#[test]
fn empty_slot_and_unmapped_addresses_read_all_ones() {
    let mut hw = Hardware::new([0u8; 256]);
    hw.write(0xFF50, 1);
    for addr in [0x0000u16, 0x7FFF, 0xA000, 0xBFFF, 0xFEA0, 0xFEFF, 0xFF01, 0xFF4C, 0xFF7F] {
        hw.write(addr, 0x12);
        assert_eq!(hw.read(addr), 0xFF);
    }
}

#[test]
fn memory_mapped_registers_read_back() {
    let mut hw = Hardware::new([0u8; 256]);
    for addr in [
        0xFF05u16, 0xFF06, 0xFF12, 0xFF13, 0xFF17, 0xFF18, 0xFF1D, 0xFF21, 0xFF22, 0xFF24, 0xFF25,
        0xFF30, 0xFF3F, 0xFF42, 0xFF43, 0xFF45, 0xFF47, 0xFF48, 0xFF49, 0xFF4A, 0xFF4B, 0xFF80,
        0xFFFE, 0xFFFF,
    ] {
        for val in [0x00u8, 0xFF, 0xA5, 0x5A] {
            hw.write(addr, val);
            assert_eq!(hw.read(addr), val, "register {addr:#06x}");
        }
    }
    for (addr, mask) in [(0xFF07u16, 0x07u8), (0xFF0F, 0x1F), (0xFF10, 0x7F), (0xFF1A, 0x80), (0xFF1C, 0x60)] {
        for val in [0x00u8, 0xFF, 0xA5, 0x5A] {
            hw.write(addr, val);
            assert_eq!(hw.read(addr), val & mask, "register {addr:#06x}");
        }
    }
    hw.write(0xFF40, 0x91);
    assert_eq!(hw.read(0xFF40), 0x91);
    // Status: searching the attributes, mode 2, which cannot be written.
    hw.write(0xFF41, 0xFD);
    assert_eq!(hw.read(0xFF41), 0xFE);
    hw.write(0xFF44, 0x55);
    assert_eq!(hw.read(0xFF44), 0x00);
    hw.write(0xFF00, 0xFF);
    assert_eq!(hw.read(0xFF00), 0xFF);
    hw.write(0xFF00, 0x00);
    assert_eq!(hw.read(0xFF00), 0xCF);
}

#[test]
fn dma_copies_160_bytes_and_owes_160_ticks() {
    let mut hw = Hardware::new([0u8; 256]);
    for offset in 0..0xA0u16 {
        hw.write(0xC200 + offset, offset as u8 ^ 0x5A);
    }
    hw.write(0xC2A0, 0x77);
    assert_eq!(hw.dma_ticks, 0);
    hw.write(0xFF46, 0xC2);
    assert_eq!(hw.read(0xFF46), 0xC2);
    assert_eq!(hw.dma_ticks, 160);
    for offset in 0..0xA0u16 {
        assert_eq!(hw.read(0xFE00 + offset), offset as u8 ^ 0x5A);
    }
    assert_eq!(hw.take_dma_ticks(), 160);
    assert_eq!(hw.take_dma_ticks(), 0);
}

#[test]
fn emulator_step_adds_the_ticks_of_a_dma_copy() {
    // LD A,0xC2; LDH (0x46),A; NOP
    let mut boot = [0u8; 256];
    boot[..5].copy_from_slice(&[0x3E, 0xC2, 0xE0, 0x46, 0x00]);
    let mut emulator = Emulator::new(boot);
    let mut samples = Vec::new();
    assert_eq!(emulator.step(&mut samples), 8);
    assert_eq!(emulator.step(&mut samples), 12 + 160);
    assert_eq!(emulator.hw.dma_ticks, 0);
    assert_eq!(emulator.step(&mut samples), 4);
    assert_eq!(emulator.hw.timer.divider, 8 + 172 + 4);
    assert!(samples.is_empty());
}

#[test]
fn emulator_lets_the_peripherals_catch_up() {
    // LD A,0x80; LDH (0x26),A; LDH (0x40),A; JR -2
    let mut boot = [0u8; 256];
    boot[..8].copy_from_slice(&[0x3E, 0x80, 0xE0, 0x26, 0xE0, 0x40, 0x18, 0xFE]);
    let mut emulator = Emulator::new(boot);
    let mut samples = Vec::new();
    let stats = emulator.process_frame(&mut samples);
    assert!(stats.ticks >= TICKS_PER_FRAME);
    assert!(stats.ticks < TICKS_PER_FRAME + 12);
    assert_eq!(TICKS_PER_FRAME, 69905);
    // Three instructions to set up, then the jump over and over.
    assert_eq!(stats.ticks, 8 + 12 + 12 + 12 * (stats.steps - 3));
    assert_eq!(emulator.hw.timer.divider as u32, stats.ticks % 0x1_0000);
    // Sound is on from the second instruction: one sample every 95 ticks.
    assert_eq!(samples.len() as u32, (stats.ticks - 8 - 1) / 95);
    assert!(samples.iter().all(|sample| *sample == (0, 0)));
    // The screen is on from the third: it is 456 ticks a line.
    let since = stats.ticks - 8 - 12;
    assert_eq!(emulator.hw.gpu.lcd_y as u32, (since / 456) % 154);
    assert_eq!(emulator.hw.gpu.dots as u32, since % 456);
}

#[test]
fn emulator_step_keeps_every_sample_of_a_long_step() {
    // LD A,0x80; LDH (0x26),A; LD A,0xC2; LDH (0x46),A
    let mut boot = [0u8; 256];
    boot[..8].copy_from_slice(&[0x3E, 0x80, 0xE0, 0x26, 0x3E, 0xC2, 0xE0, 0x46]);
    let mut emulator = Emulator::new(boot);
    let mut samples = Vec::new();
    assert_eq!(emulator.step(&mut samples), 8);
    assert_eq!(emulator.step(&mut samples), 12);
    assert_eq!(emulator.step(&mut samples), 8);
    assert!(samples.is_empty());
    // 20 ticks behind, 172 more: two samples, and two ticks over.
    assert_eq!(emulator.step(&mut samples), 172);
    assert_eq!(samples, vec![(0, 0), (0, 0)]);
    assert_eq!(emulator.hw.apu.ticks, 2);
}

#[test]
fn emulator_forwards_the_buttons() {
    let mut emulator = Emulator::new([0u8; 256]);
    emulator.set_pressed(playful_youngster::keypad::Button::Select, true);
    assert_eq!(emulator.hw.keypad.btns.values, 0b1011);
    assert!(emulator.hw.keypad.interrupt_raised);
    emulator.set_pressed(playful_youngster::keypad::Button::Select, false);
    assert_eq!(emulator.hw.keypad.btns.values, 0b1111);
}
