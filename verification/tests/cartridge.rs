use playful_youngster::cartridge::header::{cartridge_type, ram_banks, rom_banks, CartridgeType};
use playful_youngster::cartridge::mbc::mbc3::{SourceSelection, Status};
use playful_youngster::cartridge::mbc::Mbc;
use playful_youngster::cartridge::{BankingMode, Cartridge, Rtc, RtcBoolRegisters};
use playful_youngster::error::Error;

/// An image of `banks` banks whose every byte is the number of its bank,
/// with the three header bytes that matter.
fn image(banks: usize, type_code: u8, rom_code: u8, ram_code: u8) -> Vec<u8> {
    let mut data = vec![0u8; banks * 0x4000];
    for bank in 0..banks {
        for byte in data[bank * 0x4000..(bank + 1) * 0x4000].iter_mut() {
            *byte = bank as u8;
        }
    }
    data[0x147] = type_code;
    data[0x148] = rom_code;
    data[0x149] = ram_code;
    data
}

fn header(type_code: u8, rom_code: u8, ram_code: u8) -> Vec<u8> {
    let mut data = vec![0u8; 0x150];
    data[0x147] = type_code;
    data[0x148] = rom_code;
    data[0x149] = ram_code;
    data
}

#[test]
fn cartridge_type_selects_the_controller() {
    for code in [0x00, 0x08, 0x09] {
        assert_eq!(CartridgeType(code).mbc(), Ok(Mbc::Mbc0));
    }
    for code in [0x01, 0x02, 0x03] {
        assert_eq!(CartridgeType(code).mbc(), Ok(Mbc::Mbc1));
    }
    for code in [0x05, 0x06] {
        assert_eq!(CartridgeType(code).mbc(), Ok(Mbc::Mbc2));
    }
    for code in [0x0F, 0x10, 0x11, 0x12, 0x13] {
        assert_eq!(
            CartridgeType(code).mbc(),
            Ok(Mbc::Mbc3(Status { data_source: SourceSelection::Ram }))
        );
    }
    for code in [0x04, 0x07, 0x0A, 0x0E, 0x14, 0x19, 0xFF] {
        assert_eq!(CartridgeType(code).mbc(), Err(Error::UnsupportedCartridgeType(code)));
    }
}

#[test]
fn cartridge_type_tells_the_battery() {
    let with_battery = [0x03, 0x06, 0x09, 0x0D, 0x0F, 0x10, 0x13, 0x1B, 0x1E, 0x22];
    for code in 0..=255u8 {
        assert_eq!(CartridgeType(code).has_battery(), with_battery.contains(&code));
    }
}

#[test]
fn header_bytes_are_read_at_their_offsets() {
    let data = header(0x13, 0x05, 0x03);
    assert_eq!(cartridge_type(&data), Ok(CartridgeType(0x13)));
    assert_eq!(rom_banks(&data), Ok(33));
    assert_eq!(ram_banks(&data, CartridgeType(0x13)), Ok(4));
}

#[test]
fn rom_size_codes() {
    let expected: [(u8, u16); 12] = [
        (0x00, 2),
        (0x01, 3),
        (0x02, 5),
        (0x03, 9),
        (0x04, 17),
        (0x05, 33),
        (0x06, 65),
        (0x07, 129),
        (0x08, 257),
        (0x52, 72),
        (0x53, 80),
        (0x54, 96),
    ];
    for (code, banks) in expected {
        assert_eq!(rom_banks(&header(0, code, 0)), Ok(banks));
    }
    for code in [0x09, 0x51, 0x55, 0xFF] {
        assert_eq!(rom_banks(&header(0, code, 0)), Err(Error::UnsupportedRomSize(code)));
    }
}

#[test]
fn ram_size_codes() {
    let plain = CartridgeType(0x01);
    assert_eq!(ram_banks(&header(0, 0, 0x00), plain), Ok(0));
    assert_eq!(ram_banks(&header(0, 0, 0x02), plain), Ok(1));
    assert_eq!(ram_banks(&header(0, 0, 0x03), plain), Ok(4));
    assert_eq!(ram_banks(&header(0, 0, 0x04), plain), Ok(16));
    assert_eq!(ram_banks(&header(0, 0, 0x05), plain), Ok(8));
    assert_eq!(ram_banks(&header(0, 0, 0x01), plain), Err(Error::UnsupportedRamSize(0x01)));
    assert_eq!(ram_banks(&header(0, 0, 0x06), plain), Err(Error::UnsupportedRamSize(0x06)));
    // The second controller family counts its own RAM as one bank.
    assert_eq!(ram_banks(&header(0, 0, 0x00), CartridgeType(0x05)), Ok(1));
    assert_eq!(ram_banks(&header(0, 0, 0x00), CartridgeType(0x06)), Ok(1));
}

#[test]
fn a_short_header_is_truncated() {
    let data = vec![0u8; 0x147];
    assert_eq!(cartridge_type(&data), Err(Error::TruncatedImage));
    assert_eq!(rom_banks(&data), Err(Error::TruncatedImage));
    assert_eq!(ram_banks(&data, CartridgeType(0)), Err(Error::TruncatedImage));
    assert!(matches!(Cartridge::new_from_header(data), Err(Error::TruncatedImage)));
    assert!(matches!(Cartridge::new_from_header(vec![0u8; 0x14F]), Err(Error::TruncatedImage)));
}

#[test]
fn new_from_header_reports_the_first_fault() {
    assert!(matches!(
        Cartridge::new_from_header(image(2, 0x04, 0x09, 0x01)),
        Err(Error::UnsupportedCartridgeType(0x04))
    ));
    assert!(matches!(
        Cartridge::new_from_header(image(2, 0x01, 0x09, 0x01)),
        Err(Error::UnsupportedRomSize(0x09))
    ));
    assert!(matches!(
        Cartridge::new_from_header(image(2, 0x01, 0x00, 0x01)),
        Err(Error::UnsupportedRamSize(0x01))
    ));
    // Three banks announced, two there.
    assert!(matches!(
        Cartridge::new_from_header(image(2, 0x01, 0x01, 0x00)),
        Err(Error::TruncatedImage)
    ));
}

#[test]
fn new_from_header_sets_up_the_cartridge() {
    let cartridge = Cartridge::new_from_header(image(4, 0x03, 0x01, 0x03)).unwrap();
    assert_eq!(cartridge.mbc, Mbc::Mbc1);
    assert!(cartridge.has_battery);
    assert_eq!(cartridge.hw.rom.banks, 3);
    assert_eq!(cartridge.hw.rom.curr_bank, 1);
    assert_eq!(cartridge.hw.ram.banks, 4);
    assert_eq!(cartridge.hw.ram.curr_bank, 0);
    assert!(!cartridge.hw.ram.enabled);
    assert_eq!(cartridge.hw.banking_mode, BankingMode::Rom);
    assert_eq!(Error::UnsupportedRomSize(9).code(), Some(9));
    assert_eq!(Error::TruncatedImage.code(), None);
}

#[test]
fn low_window_reads_the_first_bank() {
    for type_code in [0x00, 0x01, 0x05, 0x11] {
        let mut cartridge = Cartridge::new_from_header(image(8, type_code, 0x02, 0x00)).unwrap();
        cartridge.write(0x2100, 0x03);
        assert_eq!(cartridge.read(0x0000), 0);
        assert_eq!(cartridge.read(0x0147), type_code);
        assert_eq!(cartridge.read(0x3FFF), 0);
    }
}

#[test]
fn mbc0_ignores_writes() {
    let mut cartridge = Cartridge::new_from_header(image(2, 0x08, 0x00, 0x02)).unwrap();
    assert_eq!(cartridge.read(0x4000), 1);
    cartridge.write(0x2000, 0x00);
    cartridge.write(0x0000, 0x0A);
    cartridge.write(0xA000, 0x55);
    assert_eq!(cartridge.read(0x4000), 1);
    assert_eq!(cartridge.read(0x7FFF), 1);
    // Nothing ever opens the RAM.
    assert_eq!(cartridge.read(0xA000), 0xFF);
}

#[test]
fn mbc1_selects_rom_banks() {
    let mut cartridge = Cartridge::new_from_header(image(65, 0x01, 0x06, 0x00)).unwrap();
    assert_eq!(cartridge.read(0x4000), 1);
    cartridge.write(0x2000, 0x00);
    assert_eq!(cartridge.read(0x4000), 1);
    cartridge.write(0x3FFF, 0x1F);
    assert_eq!(cartridge.read(0x7FFF), 0x1F);
    // Only five bits count.
    cartridge.write(0x2000, 0xE5);
    assert_eq!(cartridge.read(0x4000), 0x05);
}

#[test]
fn mbc1_cannot_select_banks_0x20_0x40_0x60() {
    let mut cartridge = Cartridge::new_from_header(image(129, 0x01, 0x07, 0x00)).unwrap();
    for upper in 1..4u8 {
        cartridge.write(0x4000, upper);
        cartridge.write(0x2000, upper << 5);
        assert_eq!(cartridge.hw.rom.curr_bank, (upper << 5) + 1);
        assert_eq!(cartridge.read(0x4000), (upper << 5) + 1);
    }
    cartridge.write(0x4000, 0);
    cartridge.write(0x2000, 0x00);
    assert_eq!(cartridge.read(0x4000), 0x01);
}

#[test]
fn mbc1_masks_the_bank_by_the_size_of_the_image() {
    // Five banks announced: bank numbers are cut to three bits.
    let mut cartridge = Cartridge::new_from_header(image(8, 0x01, 0x02, 0x00)).unwrap();
    cartridge.write(0x2000, 0x0B);
    assert_eq!(cartridge.read(0x4000), 3);
    cartridge.write(0x2000, 0x07);
    assert_eq!(cartridge.read(0x4000), 7);
}

#[test]
fn mbc1_reads_past_the_image_as_all_ones() {
    // Five banks announced and there: bank 7 is selectable but not in the image.
    let mut cartridge = Cartridge::new_from_header(image(5, 0x01, 0x02, 0x00)).unwrap();
    cartridge.write(0x2000, 0x07);
    assert_eq!(cartridge.read(0x4000), 0xFF);
}

#[test]
fn mbc1_ram_is_closed_until_enabled() {
    let mut cartridge = Cartridge::new_from_header(image(2, 0x03, 0x00, 0x02)).unwrap();
    assert_eq!(cartridge.read(0xA000), 0xFF);
    cartridge.write(0xA000, 0x12);
    cartridge.write(0x0000, 0x0A);
    assert_eq!(cartridge.read(0xA000), 0x00);
    cartridge.write(0xA000, 0x34);
    cartridge.write(0xBFFF, 0x56);
    assert_eq!(cartridge.read(0xA000), 0x34);
    assert_eq!(cartridge.read(0xBFFF), 0x56);
    // Any value with 0xA in its low half opens the RAM, any other closes it.
    cartridge.write(0x1FFF, 0x3A);
    assert_eq!(cartridge.read(0xA000), 0x34);
    cartridge.write(0x0000, 0x0B);
    assert_eq!(cartridge.read(0xA000), 0xFF);
    cartridge.write(0xA000, 0x78);
    cartridge.write(0x0000, 0x0A);
    assert_eq!(cartridge.read(0xA000), 0x34);
}

#[test]
fn mbc1_small_cartridge_ignores_banking_mode() {
    let mut cartridge = Cartridge::new_from_header(image(17, 0x03, 0x04, 0x02)).unwrap();
    cartridge.write(0x0000, 0x0A);
    cartridge.write(0xA000, 0x77);
    cartridge.write(0x2000, 0x0C);
    for val in [0x01, 0x00, 0xFF] {
        cartridge.write(0x6000, val);
        cartridge.write(0x4000, 0x03);
        assert_eq!(cartridge.hw.banking_mode, BankingMode::Rom);
        assert_eq!(cartridge.hw.rom.curr_bank, 0x0C);
        assert_eq!(cartridge.hw.ram.curr_bank, 0);
        assert_eq!(cartridge.read(0x4000), 0x0C);
        assert_eq!(cartridge.read(0xA000), 0x77);
    }
}

#[test]
fn mbc1_banking_mode_moves_the_upper_bits() {
    let mut cartridge = Cartridge::new_from_header(image(129, 0x03, 0x07, 0x03)).unwrap();
    cartridge.write(0x0000, 0x0A);
    cartridge.write(0x2000, 0x05);
    cartridge.write(0x4000, 0x02);
    assert_eq!(cartridge.hw.rom.curr_bank, 0x45);
    // In RAM mode the two bits pick the RAM bank.
    cartridge.write(0x6000, 0x01);
    assert_eq!(cartridge.hw.banking_mode, BankingMode::Ram);
    assert_eq!(cartridge.hw.rom.curr_bank, 0x05);
    assert_eq!(cartridge.hw.ram.curr_bank, 2);
    cartridge.write(0xA000, 0x99);
    cartridge.write(0x4000, 0x01);
    assert_eq!(cartridge.hw.ram.curr_bank, 1);
    assert_eq!(cartridge.read(0xA000), 0x00);
    cartridge.write(0x4000, 0x02);
    assert_eq!(cartridge.read(0xA000), 0x99);
    // Back in ROM mode they are the upper bits of the ROM bank again.
    cartridge.write(0x6000, 0x00);
    assert_eq!(cartridge.hw.banking_mode, BankingMode::Rom);
    assert_eq!(cartridge.hw.rom.curr_bank, 0x45);
    assert_eq!(cartridge.hw.ram.curr_bank, 0);
}

#[test]
fn mbc2_tells_ram_switch_and_rom_bank_by_address_bit_8() {
    let mut cartridge = Cartridge::new_from_header(image(17, 0x06, 0x04, 0x00)).unwrap();
    assert_eq!(cartridge.hw.ram.banks, 1);
    cartridge.write(0x0100, 0x07);
    assert_eq!(cartridge.read(0x4000), 7);
    assert_eq!(cartridge.read(0xA000), 0xFF);
    cartridge.write(0x0000, 0x0A);
    assert_eq!(cartridge.read(0x4000), 7);
    assert_eq!(cartridge.read(0xA000), 0x00);
    // Only four bits of the bank count, and zero stands for one.
    cartridge.write(0x2100, 0xF0);
    assert_eq!(cartridge.read(0x4000), 1);
    cartridge.write(0x3FFF, 0x1C);
    assert_eq!(cartridge.read(0x4000), 0x0C);
    cartridge.write(0x3EFF, 0x00);
    assert_eq!(cartridge.read(0xA000), 0xFF);
}

#[test]
fn mbc2_ram_mirrors_every_512_bytes() {
    let mut cartridge = Cartridge::new_from_header(image(2, 0x05, 0x00, 0x00)).unwrap();
    cartridge.write(0x0000, 0x0A);
    cartridge.write(0xA1FF, 0x21);
    assert_eq!(cartridge.read(0xA1FF), 0x21);
    assert_eq!(cartridge.read(0xA3FF), 0x21);
    assert_eq!(cartridge.read(0xBFFF), 0x21);
    cartridge.write(0xA200, 0x43);
    assert_eq!(cartridge.read(0xA000), 0x43);
}

#[test]
fn mbc3_selects_seven_bit_rom_banks_and_ram_banks() {
    let mut cartridge = Cartridge::new_from_header(image(129, 0x13, 0x07, 0x03)).unwrap();
    cartridge.write(0x2000, 0x7F);
    assert_eq!(cartridge.read(0x4000), 0x7F);
    cartridge.write(0x2000, 0x80);
    assert_eq!(cartridge.read(0x4000), 1);
    cartridge.write(0x0000, 0x0A);
    cartridge.write(0x4000, 0x03);
    cartridge.write(0xA000, 0x31);
    cartridge.write(0x4000, 0x00);
    assert_eq!(cartridge.read(0xA000), 0x00);
    cartridge.write(0x4000, 0x03);
    assert_eq!(cartridge.read(0xA000), 0x31);
    // A value that names neither a bank nor a clock register changes nothing.
    cartridge.write(0x4000, 0x0D);
    assert_eq!(cartridge.read(0xA000), 0x31);
}

#[test]
fn mbc3_latches_the_clock_on_a_rising_edge() {
    let mut cartridge = Cartridge::new_from_header(image(2, 0x10, 0x00, 0x00)).unwrap();
    cartridge.write(0x0000, 0x0A);
    cartridge.write(0x4000, 0x09);
    assert_eq!(cartridge.mbc, Mbc::Mbc3(Status { data_source: SourceSelection::Rtc }));
    cartridge.write(0xA000, 42);
    // What was written runs on; what is read is the last latch.
    assert_eq!(cartridge.read(0xA000), 0);
    cartridge.write(0x6000, 0x01);
    assert_eq!(cartridge.read(0xA000), 42);
    cartridge.write(0xA000, 43);
    cartridge.write(0x6000, 0x01);
    assert_eq!(cartridge.read(0xA000), 42);
    cartridge.write(0x6000, 0x00);
    assert_eq!(cartridge.read(0xA000), 42);
    cartridge.write(0x6000, 0x01);
    assert_eq!(cartridge.read(0xA000), 43);
    // RAM and clock are closed together.
    cartridge.write(0x0000, 0x00);
    assert_eq!(cartridge.read(0xA000), 0xFF);
}

#[test]
fn clock_registers_are_selected_by_8_to_12() {
    let mut rtc = Rtc::new();
    for register in 0..5u8 {
        rtc.set_current_register(register);
        rtc.write_current_register(10 + register);
    }
    rtc.set_latched(true);
    for register in 0..5usize {
        assert_eq!(rtc.read_register(register), 10 + register as u8);
    }
    rtc.write_register(0, 59);
    rtc.set_latched(false);
    rtc.set_latched(true);
    assert_eq!(rtc.read_register(0), 59);
}

#[test]
fn clock_flags_are_single_bits() {
    let mut flags = RtcBoolRegisters(0b0100_0000);
    assert!(!flags.days_upper());
    assert!(flags.enabled());
    assert!(!flags.days_overflowed());

    flags.set_days_upper(true);
    assert_eq!(flags.0, 0b0100_0001);
    flags.set_days_overflowed(true);
    assert_eq!(flags.0, 0b1100_0001);
    flags.set_enabled(false);
    assert_eq!(flags.0, 0b1000_0001);
    flags.set_days_upper(false);
    flags.set_days_upper(false);
    assert_eq!(flags.0, 0b1000_0000);
    assert!(flags.days_overflowed());
    assert!(!flags.enabled());
}
