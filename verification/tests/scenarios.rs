use playful_youngster::cartridge::Cartridge;
use playful_youngster::cpu::{Cpu, CpuState};
use playful_youngster::hardware::Hardware;
use playful_youngster::keypad::Button;

/// A 32 KiB image without a memory controller, with `program` at `origin`.
fn image(origin: usize, program: &[u8]) -> Vec<u8> {
    let mut data = vec![0u8; 0x8000];
    data[origin..origin + program.len()].copy_from_slice(program);
    data
}

/// Hardware that runs the cartridge from its first byte on.
fn hardware_with(data: Vec<u8>) -> Hardware {
    let mut hw = Hardware::new([0u8; 256]);
    hw.insert_cartridge(Cartridge::new_from_header(data).unwrap());
    hw.write(0xFF50, 1);
    hw
}

#[test]
fn nop_three_times() {
    let mut hw = hardware_with(image(0, &[0x00, 0x00, 0x00, 0x10]));
    let mut cpu = Cpu::new();
    let mut total: u32 = 0;
    for _ in 0..3 {
        total += cpu.tick(&mut hw) as u32;
    }
    assert_eq!(cpu.regs.prog_counter, 0x0003);
    assert_eq!(total, 12);
}

#[test]
fn register_immediate_load() {
    let mut hw = hardware_with(image(0, &[0x06, 0x42]));
    let mut cpu = Cpu::new();
    let ticks = cpu.tick(&mut hw);
    assert_eq!(cpu.regs.b, 0x42);
    assert_eq!(cpu.regs.prog_counter, 0x0002);
    assert_eq!(ticks, 8);
}

#[test]
fn conditional_jump_not_taken() {
    // A jump on the zero flag being set, with the flag clear: not taken.
    let mut hw = hardware_with(image(0, &[0x28, 0x05]));
    let mut cpu = Cpu::new();
    cpu.regs.flags.zero = false;
    let ticks = cpu.tick(&mut hw);
    assert_eq!(cpu.regs.prog_counter, 2);
    assert_eq!(ticks, 8);
}

#[test]
fn conditional_jump_taken() {
    // The same program with the flag set: taken, 2 + 5 bytes further.
    let mut hw = hardware_with(image(0, &[0x28, 0x05]));
    let mut cpu = Cpu::new();
    cpu.regs.flags.zero = true;
    let ticks = cpu.tick(&mut hw);
    assert_eq!(cpu.regs.prog_counter, 7);
    assert_eq!(ticks, 12);
}

#[test]
fn conditional_jump_on_clear_zero_flag() {
    // Opcode 0x20 jumps when the zero flag is clear.
    let mut hw = hardware_with(image(0, &[0x20, 0x05]));
    let mut cpu = Cpu::new();
    cpu.regs.flags.zero = false;
    assert_eq!(cpu.tick(&mut hw), 12);
    assert_eq!(cpu.regs.prog_counter, 7);

    let mut hw = hardware_with(image(0, &[0x20, 0x05]));
    let mut cpu = Cpu::new();
    cpu.regs.flags.zero = true;
    assert_eq!(cpu.tick(&mut hw), 8);
    assert_eq!(cpu.regs.prog_counter, 2);
}

#[test]
fn relative_jump_backwards() {
    let mut hw = hardware_with(image(0x10, &[0x18, 0xFE]));
    let mut cpu = Cpu::new();
    cpu.regs.prog_counter = 0x10;
    assert_eq!(cpu.tick(&mut hw), 12);
    assert_eq!(cpu.regs.prog_counter, 0x10);
}

#[test]
fn call_and_return() {
    let mut data = image(0x0100, &[0xCD, 0x34, 0x12, 0x00]);
    data[0x1234] = 0xC9;
    let mut hw = hardware_with(data);
    let mut cpu = Cpu::new();
    cpu.regs.prog_counter = 0x0100;
    cpu.regs.stack_pointer = 0xFFFE;

    let ticks = cpu.tick(&mut hw);
    assert_eq!(ticks, 24);
    assert_eq!(cpu.regs.prog_counter, 0x1234);
    assert_eq!(cpu.regs.stack_pointer, 0xFFFC);
    assert_eq!(hw.read(0xFFFD), 0x01);
    assert_eq!(hw.read(0xFFFC), 0x03);

    let ticks = cpu.tick(&mut hw);
    assert_eq!(ticks, 16);
    assert_eq!(cpu.regs.prog_counter, 0x0103);
    assert_eq!(cpu.regs.stack_pointer, 0xFFFE);
}

#[test]
fn timer_overflow() {
    let mut hw = Hardware::new([0u8; 256]);
    hw.write(0xFF06, 0xAB);
    hw.write(0xFF05, 0xFE);
    hw.write(0xFF07, 0x05);
    // Two periods of 16 ticks: the counter reaches 0xFF, then overflows and
    // restarts from the modulo.
    hw.timer.step(32);
    assert_eq!(hw.read(0xFF05), 0xAB);
    assert_eq!(hw.read(0xFF0F) & 0b100, 0b100);
    // One period more, and it has counted on from the modulo.
    hw.timer.step(16);
    assert_eq!(hw.read(0xFF05), 0xAC);
    assert_eq!(hw.read(0xFF0F) & 0b100, 0b100);
}

/// An image of 64 banks for the first controller family, the first byte of
/// each bank being the number of the bank.
fn banked_image() -> Vec<u8> {
    let mut data = vec![0u8; 65 * 0x4000];
    for bank in 0..65 {
        data[bank * 0x4000] = bank as u8;
    }
    data[0x147] = 0x01;
    data[0x148] = 0x06;
    data[0x149] = 0x00;
    data
}

#[test]
fn mbc1_rom_bank_select() {
    let mut hw = hardware_with(banked_image());
    hw.write(0x2000, 0x00);
    assert_eq!(hw.read(0x4000), 1);
    hw.write(0x2000, 0x01);
    assert_eq!(hw.read(0x4000), 1);
    hw.write(0x2000, 0x02);
    assert_eq!(hw.read(0x4000), 2);
}

#[test]
fn keypad_press_propagation() {
    let mut hw = Hardware::new([0u8; 256]);
    hw.write(0xFF00, 0x10);
    hw.keypad.set_pressed(Button::Start, true);
    assert_eq!(hw.read(0xFF00) & 0b1000, 0);
    assert_eq!(hw.read(0xFF0F) & 0b1_0000, 0b1_0000);
    hw.keypad.set_pressed(Button::Start, false);
    assert_eq!(hw.read(0xFF00) & 0b1000, 0b1000);
}

#[test]
fn halt_waits_for_an_enabled_interrupt() {
    let mut hw = hardware_with(image(0, &[0x76, 0x00]));
    let mut cpu = Cpu::new();
    cpu.interrupt_enabled = false;
    assert_eq!(cpu.tick(&mut hw), 4);
    assert_eq!(cpu.state, CpuState::Halted);
    assert_eq!(cpu.tick(&mut hw), 4);
    assert_eq!(cpu.regs.prog_counter, 1);
    // A request that is not enabled does not wake the processor.
    hw.write(0xFF0F, 0b100);
    assert_eq!(cpu.tick(&mut hw), 4);
    assert_eq!(cpu.state, CpuState::Halted);
    // Once enabled it does, and with the master enable off the program goes on.
    hw.write(0xFFFF, 0b100);
    assert_eq!(cpu.tick(&mut hw), 4);
    assert_eq!(cpu.state, CpuState::Running);
    assert_eq!(cpu.regs.prog_counter, 2);
}

#[test]
fn interrupt_is_served_after_the_instruction() {
    let mut hw = hardware_with(image(0x0200, &[0x00]));
    let mut cpu = Cpu::new();
    cpu.regs.prog_counter = 0x0200;
    cpu.regs.stack_pointer = 0xFFFE;
    hw.write(0xFFFF, 0b0_0101);
    hw.write(0xFF0F, 0b0_0101);
    // The instruction takes 4 ticks and serving the request 20.
    assert_eq!(cpu.tick(&mut hw), 24);
    assert_eq!(cpu.regs.prog_counter, 0x40);
    assert!(!cpu.interrupt_enabled);
    assert_eq!(cpu.regs.stack_pointer, 0xFFFC);
    assert_eq!(hw.read(0xFFFD), 0x02);
    assert_eq!(hw.read(0xFFFC), 0x01);
    // The request that was served is taken back, the other stays.
    assert_eq!(hw.read(0xFF0F), 0b0_0100);
}

#[test]
fn enabling_interrupts_takes_one_instruction_more() {
    let mut hw = hardware_with(image(0x0200, &[0xFB, 0x00, 0x00]));
    let mut cpu = Cpu::new();
    cpu.interrupt_enabled = false;
    cpu.regs.prog_counter = 0x0200;
    cpu.regs.stack_pointer = 0xFFFE;
    hw.write(0xFFFF, 0b1);
    hw.write(0xFF0F, 0b1);
    // The request stands, but the instruction that enables does not let
    // it through yet.
    assert_eq!(cpu.tick(&mut hw), 4);
    assert_eq!(cpu.regs.prog_counter, 0x0201);
    assert!(!cpu.interrupt_enabled);
    // The instruction behind it runs, and only then the request is served.
    assert_eq!(cpu.tick(&mut hw), 24);
    assert_eq!(cpu.regs.prog_counter, 0x40);
    assert_eq!((hw.read(0xFFFD), hw.read(0xFFFC)), (0x02, 0x02));
    assert!(!cpu.interrupt_enabled);
}

#[test]
fn stop_waits_for_a_button() {
    let mut hw = hardware_with(image(0, &[0x10, 0x00, 0x3C]));
    let mut cpu = Cpu::new();
    assert_eq!(cpu.tick(&mut hw), 4);
    assert_eq!(cpu.state, CpuState::Stopped);
    assert_eq!(cpu.regs.prog_counter, 2);
    assert_eq!(cpu.tick(&mut hw), 4);
    assert_eq!(cpu.regs.prog_counter, 2);
    hw.keypad.set_pressed(Button::A, true);
    assert_eq!(cpu.tick(&mut hw), 4);
    assert_eq!(cpu.state, CpuState::Running);
    assert_eq!(cpu.regs.a, 1);
}

#[test]
fn halt_with_a_request_already_pending_goes_to_its_handler() {
    let mut hw = hardware_with(image(0x0200, &[0x76]));
    let mut cpu = Cpu::new();
    cpu.regs.prog_counter = 0x0200;
    cpu.regs.stack_pointer = 0xFFFE;
    hw.write(0xFFFF, 0b100);
    hw.write(0xFF0F, 0b100);
    assert_eq!(cpu.tick(&mut hw), 24);
    assert_eq!(cpu.state, CpuState::Running);
    assert_eq!(cpu.regs.prog_counter, 0x50);
    assert_eq!(hw.read(0xFF0F), 0);
    // The handler runs on from there.
    assert_eq!(cpu.tick(&mut hw), 4);
    assert_eq!(cpu.regs.prog_counter, 0x51);
}
