use playful_youngster::bitflags::BitFlags8;
use playful_youngster::gpu::lcdc::{AddressingMode, LcdControl, ObjectSize, Tilemap};
use playful_youngster::gpu::lcdstatus::{LcdStatus, PpuMode};
use playful_youngster::gpu::oam::{ObjAttr, ObjFlags, ObjectPalette};
use playful_youngster::gpu::palette::{Palette, PaletteIds};
use playful_youngster::gpu::{Gpu, Vram};

/// A processor with the LCD on, `dots` master ticks into its first frame.
fn running(dots: u32) -> Gpu {
    let mut gpu = Gpu::new();
    gpu.write_register(0, 0x80);
    let mut left = dots;
    while left > 0 {
        let step = left.min(255);
        gpu.tick(step as u8);
        left -= step;
    }
    gpu
}

#[test]
fn lcd_control_bits() {
    let control = LcdControl(BitFlags8(0b1010_1010));
    assert!(control.lcd_enabled());
    assert_eq!(control.window_tilemap(), Tilemap::First);
    assert!(control.window_enabled());
    assert_eq!(control.addressing_mode(), AddressingMode::Signed);
    assert_eq!(control.background_tilemap(), Tilemap::Second);
    assert_eq!(control.object_size(), ObjectSize::Small);
    assert!(control.objects_enabled());
    assert!(control.objects_only());

    let control = LcdControl(BitFlags8(0b0101_0101));
    assert!(!control.lcd_enabled());
    assert_eq!(control.window_tilemap(), Tilemap::Second);
    assert!(!control.window_enabled());
    assert_eq!(control.addressing_mode(), AddressingMode::Unsigned);
    assert_eq!(control.background_tilemap(), Tilemap::First);
    assert_eq!(control.object_size(), ObjectSize::Big);
    assert!(!control.objects_enabled());
    assert!(!control.objects_only());

    assert_eq!(Tilemap::First.base(), 0x9800);
    assert_eq!(Tilemap::Second.base(), 0x9C00);
    assert_eq!(ObjectSize::Small.pixels(), (8, 8));
    assert_eq!(ObjectSize::Big.pixels(), (8, 16));
}

#[test]
fn tile_addresses() {
    assert_eq!(AddressingMode::Unsigned.compute_address(0), 0x8000);
    assert_eq!(AddressingMode::Unsigned.compute_address(1), 0x8010);
    assert_eq!(AddressingMode::Unsigned.compute_address(0x80), 0x8800);
    assert_eq!(AddressingMode::Unsigned.compute_address(0xFF), 0x8FF0);
    assert_eq!(AddressingMode::Signed.compute_address(0), 0x9000);
    assert_eq!(AddressingMode::Signed.compute_address(0x7F), 0x97F0);
    assert_eq!(AddressingMode::Signed.compute_address(0x80), 0x8800);
    assert_eq!(AddressingMode::Signed.compute_address(0xFF), 0x8FF0);
}

#[test]
fn lcd_status_bits() {
    let status = LcdStatus(BitFlags8(0b0101_0110));
    assert!(status.interrupt_if_lyc_equals_ly());
    assert!(!status.interrupt_if_mode2());
    assert!(status.interrupt_if_mode1());
    assert!(!status.interrupt_if_mode0());
    assert!(status.lyc_equals_ly());
    assert_eq!(status.ppu_mode(), PpuMode::Mode2);

    let mut status = LcdStatus(BitFlags8(0b1010_1001));
    assert_eq!(status.ppu_mode(), PpuMode::Mode1);
    status.set_ppu_mode(PpuMode::Mode3);
    assert_eq!(status.0 .0, 0b1010_1011);
    status.set_lyc_equals_ly(true);
    assert_eq!(status.0 .0, 0b1010_1111);
    status.write(0b0111_0100);
    assert_eq!(status.0 .0, 0b0111_0111);
    for number in 0..4 {
        assert_eq!(PpuMode::from_number(number).as_number(), number);
        assert_eq!(PpuMode::from_number(number + 4).as_number(), number);
    }
}

#[test]
fn palette_shades() {
    let ids = PaletteIds(BitFlags8(0b11_10_01_00));
    assert_eq!(ids.id0(), Palette::White);
    assert_eq!(ids.id1(), Palette::LightGray);
    assert_eq!(ids.id2(), Palette::DarkGray);
    assert_eq!(ids.id3(), Palette::Black);
    let ids = PaletteIds(BitFlags8(0b00_01_10_11));
    assert_eq!(ids.id0(), Palette::Black);
    assert_eq!(ids.id1(), Palette::DarkGray);
    assert_eq!(ids.id2(), Palette::LightGray);
    assert_eq!(ids.id3(), Palette::White);
    assert_eq!(ids.palette_from_bits(0, 7), Palette::DarkGray);
    assert_eq!(Palette::from_number(6), Palette::DarkGray);
}

#[test]
fn object_attributes() {
    let mut gpu = Gpu::new();
    for (offset, byte) in [0x20u8, 0x18, 0x42, 0b1011_0000].into_iter().enumerate() {
        gpu.write_oam(0xFE00 + 4 * 39 + offset as u16, byte);
    }
    let object = gpu.object(39);
    assert_eq!(
        object,
        ObjAttr { y_position: 0x20, x_position: 0x18, tile_index: 0x42, flags: ObjFlags(0b1011_0000) }
    );
    assert_eq!(object.real_y_position(), 16);
    assert_eq!(object.real_x_position(), 16);
    assert_eq!(ObjAttr { y_position: 0, ..object }.real_y_position(), -16);
    assert_eq!(ObjAttr { x_position: 0, ..object }.real_x_position(), -8);
    for index in 0..4 {
        assert_eq!(object.index(index), [0x20, 0x18, 0x42, 0b1011_0000][index]);
    }
    assert!(!object.flags.priority());
    assert!(!object.flags.y_mirror());
    assert!(object.flags.x_mirror());
    assert_eq!(object.flags.palette(), ObjectPalette::Obp1);

    let flags = ObjFlags(0b0100_1111);
    assert!(flags.priority());
    assert!(flags.y_mirror());
    assert!(!flags.x_mirror());
    assert_eq!(flags.palette(), ObjectPalette::Obp0);
}

#[test]
fn video_ram_is_byte_addressed_from_0x8000() {
    let mut vram = Vram::new();
    assert_eq!(vram.compute_index(0x8000), 0);
    assert_eq!(vram.compute_index(0x9FFF), 0x1FFF);
    vram.write_byte(0x8000, 1);
    vram.write_byte(0x9800, 2);
    vram.write_byte(0x9FFF, 3);
    assert_eq!(vram.read_byte(0x8000), 1);
    assert_eq!(vram.read_byte(0x9800), 2);
    assert_eq!(vram.read_byte(0x9FFF), 3);
    assert_eq!(vram.read_byte(0x8001), 0);
    assert_eq!(vram.video_ram[0x1800], 2);
}

#[test]
fn modes_follow_the_place_in_the_frame() {
    assert_eq!(running(0).lcd_status.ppu_mode(), PpuMode::Mode2);
    assert_eq!(running(79).lcd_status.ppu_mode(), PpuMode::Mode2);
    assert_eq!(running(80).lcd_status.ppu_mode(), PpuMode::Mode3);
    assert_eq!(running(251).lcd_status.ppu_mode(), PpuMode::Mode3);
    assert_eq!(running(252).lcd_status.ppu_mode(), PpuMode::Mode0);
    assert_eq!(running(455).lcd_status.ppu_mode(), PpuMode::Mode0);
    let gpu = running(456);
    assert_eq!(gpu.lcd_status.ppu_mode(), PpuMode::Mode2);
    assert_eq!(gpu.read_register(4), 1);
    let gpu = running(144 * 456 - 1);
    assert_eq!(gpu.read_register(4), 143);
    assert!(!gpu.vblank_interrupt);
    let gpu = running(144 * 456);
    assert_eq!(gpu.read_register(4), 144);
    assert_eq!(gpu.lcd_status.ppu_mode(), PpuMode::Mode1);
    assert!(gpu.vblank_interrupt);
    let gpu = running(154 * 456 - 1);
    assert_eq!(gpu.read_register(4), 153);
    assert_eq!(gpu.lcd_status.ppu_mode(), PpuMode::Mode1);
    let gpu = running(154 * 456);
    assert_eq!(gpu.read_register(4), 0);
    assert_eq!(gpu.lcd_status.ppu_mode(), PpuMode::Mode2);
}

#[test]
fn video_ram_is_out_of_reach_while_drawing() {
    let mut gpu = running(0);
    gpu.write_vram(0x8123, 0x5A);
    assert_eq!(gpu.read_vram(0x8123), 0x5A);
    gpu.tick(80);
    assert_eq!(gpu.read_vram(0x8123), 0xFF);
    gpu.write_vram(0x8123, 0xA5);
    gpu.tick(172);
    assert_eq!(gpu.read_vram(0x8123), 0x5A);
}

#[test]
fn object_attributes_are_out_of_reach_while_searched_and_drawn() {
    let mut gpu = Gpu::new();
    gpu.write_oam(0xFE9F, 0x11);
    assert_eq!(gpu.read_oam(0xFE9F), 0x11);
    gpu.write_register(0, 0x80);
    assert_eq!(gpu.read_oam(0xFE9F), 0xFF);
    gpu.write_oam(0xFE9F, 0x22);
    gpu.tick(80);
    assert_eq!(gpu.read_oam(0xFE9F), 0xFF);
    gpu.write_oam(0xFE9F, 0x33);
    gpu.tick(172);
    assert_eq!(gpu.read_oam(0xFE9F), 0x11);
    gpu.write_oam(0xFE9F, 0x44);
    assert_eq!(gpu.read_oam(0xFE9F), 0x44);
}

#[test]
fn registers_read_back_but_for_the_read_only_bits() {
    let mut gpu = running(100);
    for index in [2u16, 3, 5, 6, 7, 8, 9, 0xA, 0xB] {
        gpu.write_register(index, 0x9C + index as u8);
        assert_eq!(gpu.read_register(index), 0x9C + index as u8);
    }
    assert_eq!(gpu.lcd_status.ppu_mode(), PpuMode::Mode3);
    gpu.write_register(1, 0b0111_1000);
    assert_eq!(gpu.read_register(1), 0b0111_1011);
    gpu.write_register(1, 0b1000_0100);
    assert_eq!(gpu.read_register(1), 0b1000_0111);
    // The line cannot be written.
    let line = gpu.read_register(4);
    gpu.write_register(4, line.wrapping_add(7));
    assert_eq!(gpu.read_register(4), line);
    gpu.write_register(0, 0x91);
    assert_eq!(gpu.read_register(0), 0x91);
}

#[test]
fn lcd_off_rests_in_horizontal_blank_on_line_zero() {
    let mut gpu = running(20 * 456 + 100);
    assert_eq!(gpu.read_register(4), 20);
    assert_eq!(gpu.lcd_status.ppu_mode(), PpuMode::Mode3);
    gpu.write_register(0, 0x11);
    assert_eq!(gpu.lcd_status.ppu_mode(), PpuMode::Mode0);
    assert_eq!(gpu.read_register(4), 0);
    for _ in 0..10 {
        gpu.tick(255);
        assert_eq!(gpu.lcd_status.ppu_mode(), PpuMode::Mode0);
        assert_eq!(gpu.read_register(4), 0);
    }
    assert!(!gpu.vblank_interrupt);
    assert!(!gpu.stat_interrupt);
    // Switched on again, it starts a frame.
    gpu.write_register(0, 0x91);
    assert_eq!(gpu.lcd_status.ppu_mode(), PpuMode::Mode2);
    gpu.tick(80);
    assert_eq!(gpu.lcd_status.ppu_mode(), PpuMode::Mode3);
}

#[test]
fn status_interrupt_on_mode_changes_that_are_selected() {
    // Horizontal blank selected.
    let mut gpu = running(0);
    gpu.write_register(1, 0b0000_1000);
    gpu.tick(251);
    assert!(!gpu.stat_interrupt);
    gpu.tick(1);
    assert!(gpu.stat_interrupt);

    // Search of the attributes selected: the next line starts with it.
    let mut gpu = running(300);
    gpu.write_register(1, 0b0010_0000);
    gpu.tick(155);
    assert!(!gpu.stat_interrupt);
    gpu.tick(1);
    assert!(gpu.stat_interrupt);

    // Vertical blank selected.
    let mut gpu = running(143 * 456 + 300);
    gpu.write_register(1, 0b0001_0000);
    gpu.tick(155);
    assert!(!gpu.stat_interrupt);
    assert!(!gpu.vblank_interrupt);
    gpu.tick(1);
    assert!(gpu.stat_interrupt);
    assert!(gpu.vblank_interrupt);

    // Nothing selected.
    let mut gpu = running(0);
    gpu.tick(255);
    gpu.tick(255);
    assert!(!gpu.stat_interrupt);
}

#[test]
fn status_interrupt_on_the_line_that_is_compared() {
    let mut gpu = running(0);
    gpu.write_register(5, 2);
    gpu.write_register(1, 0b0100_0000);
    gpu.tick(255);
    gpu.tick(201);
    assert_eq!(gpu.read_register(4), 1);
    assert!(!gpu.lcd_status.lyc_equals_ly());
    assert!(!gpu.stat_interrupt);
    gpu.tick(255);
    gpu.tick(201);
    assert_eq!(gpu.read_register(4), 2);
    assert!(gpu.lcd_status.lyc_equals_ly());
    assert!(gpu.stat_interrupt);
    gpu.set_stat_interrupt(false);
    gpu.tick(255);
    gpu.tick(201);
    assert!(!gpu.lcd_status.lyc_equals_ly());
    assert!(!gpu.stat_interrupt);
}

#[test]
fn background_coordinates_wrap_at_256() {
    let mut gpu = Gpu::new();
    gpu.write_register(2, 200);
    gpu.write_register(3, 10);
    assert_eq!(gpu.real_background_coords(), ((200 + 143) % 256, 10 + 159));
}
