use playful_youngster::interrupt::{Interrupt, Interruptible, Interrupts};
use playful_youngster::keypad::{Button, Keypad};
use playful_youngster::timer::Timer;

#[test]
fn divider_counts_every_tick_and_shows_its_high_byte() {
    let mut timer = Timer::new();
    timer.tick(255);
    assert_eq!(timer.read_register(0), 0);
    timer.tick(1);
    assert_eq!(timer.divider, 256);
    assert_eq!(timer.read_register(0), 1);
    timer.step(0xFF00);
    assert_eq!(timer.divider, 0);
}

#[test]
fn divider_write_clears_the_whole_divider() {
    let mut timer = Timer::new();
    timer.step(0x12FF);
    timer.write_register(0, 0x77);
    assert_eq!(timer.divider, 0);
    assert_eq!(timer.read_register(0), 0);
    timer.tick(1);
    assert_eq!(timer.divider, 1);
}

#[test]
fn counter_rates() {
    let rates: [(u8, u16); 4] = [(0, 1024), (1, 16), (2, 64), (3, 256)];
    for (select, rate) in rates {
        let mut timer = Timer::new();
        timer.write_register(3, 0b100 | select);
        timer.step(rate - 1);
        assert_eq!(timer.read_register(1), 0);
        timer.step(1);
        assert_eq!(timer.read_register(1), 1);
        timer.step(3 * rate);
        assert_eq!(timer.read_register(1), 4);
    }
}

#[test]
fn counter_stands_still_while_disabled() {
    let mut timer = Timer::new();
    timer.write_register(3, 0b001);
    timer.step(1000);
    assert_eq!(timer.read_register(1), 0);
    assert_eq!(timer.divider, 1000);
    timer.set_enabled(true);
    timer.step(16);
    assert_eq!(timer.read_register(1), 1);
    timer.set_enabled(false);
    timer.step(160);
    assert_eq!(timer.read_register(1), 1);
}

#[test]
fn counter_reloads_from_the_modulo_at_overflow_time() {
    let mut timer = Timer::new();
    timer.write_register(3, 0b101);
    timer.write_register(2, 0x10);
    timer.write_register(1, 0xFF);
    timer.step(15);
    // The modulo is changed just before the counter overflows.
    timer.write_register(2, 0x80);
    assert!(!timer.has_interrupt());
    timer.step(1);
    assert_eq!(timer.read_register(1), 0x80);
    assert!(timer.has_interrupt());
}

#[test]
fn counter_overflows_several_times_in_one_step() {
    let mut timer = Timer::new();
    timer.write_register(3, 0b101);
    timer.write_register(2, 0xFE);
    timer.write_register(1, 0xFE);
    // 0xFE, 0xFF, reload, 0xFF, reload, 0xFF.
    timer.step(5 * 16);
    assert_eq!(timer.read_register(1), 0xFF);
    assert!(timer.has_interrupt());
}

#[test]
fn control_register_reads_back_its_three_low_bits() {
    let mut timer = Timer::new();
    for val in [0x00, 0x05, 0x07, 0xFF, 0xFA] {
        timer.write_register(3, val);
        assert_eq!(timer.read_register(3), val & 0b111);
    }
    timer.write_register(1, 0xAB);
    timer.write_register(2, 0xCD);
    assert_eq!(timer.read_register(1), 0xAB);
    assert_eq!(timer.read_register(2), 0xCD);
}

#[test]
fn interrupt_can_be_taken_back() {
    let mut timer = Timer::default();
    timer.write_register(3, 0b101);
    timer.write_register(1, 0xFF);
    timer.step(16);
    assert!(timer.has_interrupt());
    timer.set_interrupt(false);
    assert!(!timer.has_interrupt());
}

#[test]
fn keypad_rows_are_selected_by_zero_bits() {
    let mut keypad = Keypad::new();
    keypad.set_pressed(Button::Right, true);
    keypad.set_pressed(Button::B, true);
    // No row selected.
    keypad.write_register(0, 0x30);
    assert_eq!(keypad.read_register(0), 0xFF);
    // Direction row.
    keypad.write_register(0, 0x20);
    assert_eq!(keypad.read_register(0), 0xC0 | 0x20 | 0b1110);
    // Action row.
    keypad.write_register(0, 0x10);
    assert_eq!(keypad.read_register(0), 0xC0 | 0x10 | 0b1101);
    // Both rows.
    keypad.write_register(0, 0x00);
    assert_eq!(keypad.read_register(0), 0xC0 | 0b1100);
}

#[test]
fn keypad_buttons_sit_at_their_bits() {
    let direction = [Button::Right, Button::Left, Button::Up, Button::Down];
    let action = [Button::A, Button::B, Button::Select, Button::Start];
    for (bit, button) in direction.into_iter().enumerate() {
        let mut keypad = Keypad::new();
        keypad.write_register(0, 0x20);
        keypad.set_pressed(button, true);
        assert_eq!(keypad.read_register(0) & 0x0F, 0x0F & !(1 << bit));
        assert_eq!(keypad.btns.values, 0x0F);
    }
    for (bit, button) in action.into_iter().enumerate() {
        let mut keypad = Keypad::new();
        keypad.write_register(0, 0x10);
        keypad.set_pressed(button, true);
        assert_eq!(keypad.read_register(0) & 0x0F, 0x0F & !(1 << bit));
        assert_eq!(keypad.dpad.values, 0x0F);
    }
}

#[test]
fn keypad_raises_its_interrupt_on_a_press_only() {
    let mut keypad = Keypad::default();
    assert!(!keypad.has_input());
    keypad.set_pressed(Button::Up, false);
    assert!(!keypad.has_interrupt());
    keypad.set_pressed(Button::Up, true);
    assert!(keypad.has_interrupt());
    assert!(keypad.has_input());
    keypad.set_interrupt(false);
    // Holding the button down is no new press.
    keypad.set_pressed(Button::Up, true);
    assert!(!keypad.has_interrupt());
    keypad.set_pressed(Button::Up, false);
    assert!(!keypad.has_interrupt());
    assert!(!keypad.has_input());
}

#[test]
fn interrupts_pack_their_flags_by_source() {
    let mut ints = Interrupts::new();
    assert_eq!(ints.as_byte(), 0);
    ints.register(Interrupt::Timer, true);
    ints.register(Interrupt::Keypad, true);
    ints.register(Interrupt::VBlank, false);
    assert_eq!(ints.as_byte(), 0b1_0100);
    ints.register(Interrupt::LcdStat, true);
    ints.register(Interrupt::Serial, true);
    ints.register(Interrupt::VBlank, true);
    assert_eq!(ints.as_byte(), 0b1_1111);
    ints.register(Interrupt::Timer, false);
    assert_eq!(ints.as_byte(), 0b1_1011);
}

#[test]
fn interrupt_vectors() {
    let sources = [
        (Interrupt::VBlank, 0, 0x40),
        (Interrupt::LcdStat, 1, 0x48),
        (Interrupt::Timer, 2, 0x50),
        (Interrupt::Serial, 3, 0x58),
        (Interrupt::Keypad, 4, 0x60),
    ];
    for (source, index, vector) in sources {
        assert_eq!(source.index(), index);
        assert_eq!(source.vector(), vector);
    }
}
