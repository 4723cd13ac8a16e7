//! The memory bus: it routes every byte that the processor reads or writes
//! to the peripheral that owns the address.

use crate::apu::Apu;
use crate::bitflags::{bit_of, BitFlags8};
use crate::cartridge::{Cartridge, Rtc};
use crate::gpu::Gpu;
use crate::interrupt::{Interrupt, Interruptible, Interrupts};
use crate::keypad::Keypad;
use crate::timer::Timer;
use vstd::prelude::*;

verus! {

pub const BOOTROM_END: u16 = 0xFF;

pub const CARTRIDGE_ROM_END: u16 = 0x7FFF;

pub const VIDEO_RAM_START: u16 = 0x8000;

pub const VIDEO_RAM_END: u16 = 0x9FFF;

pub const CARTRIDGE_RAM_START: u16 = 0xA000;

pub const CARTRIDGE_RAM_END: u16 = 0xBFFF;

pub const WORK_RAM_START: u16 = 0xC000;

pub const WORK_RAM_END: u16 = 0xDFFF;

pub const ECHO_RAM_START: u16 = 0xE000;

pub const ECHO_RAM_END: u16 = 0xFDFF;

pub const OAM_RAM_START: u16 = 0xFE00;

pub const OAM_RAM_END: u16 = 0xFE9F;

pub const MAPPED_KEYPAD: u16 = 0xFF00;

pub const MAPPED_TIMER_START: u16 = 0xFF04;

pub const MAPPED_TIMER_END: u16 = 0xFF07;

pub const INTERRUPT_FLAGS: u16 = 0xFF0F;

pub const APU_REGISTERS_START: u16 = 0xFF10;

pub const APU_REGISTERS_END: u16 = 0xFF3F;

pub const GPU_REGISTERS_START: u16 = 0xFF40;

pub const GPU_REGISTERS_END: u16 = 0xFF4B;

pub const MAPPED_DMA: u16 = 0xFF46;

pub const BOOTROM_LATCH: u16 = 0xFF50;

pub const HIGH_RAM_START: u16 = 0xFF80;

pub const HIGH_RAM_END: u16 = 0xFFFE;

pub const INTERRUPT_ENABLE: u16 = 0xFFFF;

/// Bytes that one DMA copy moves, and master ticks that it takes.
pub const DMA_LENGTH: u16 = 0xA0;

/// A peripheral whose registers the bus shows at consecutive addresses.
pub trait RegisterReadWrite: Sized {
    /// Whether the peripheral is in a state that it can be in.
    spec fn mapped_wf(&self) -> bool;

    /// How many registers the peripheral has.
    spec fn register_count() -> int;

    /// What software reads at register `idx`.
    spec fn register_value(&self, idx: int) -> u8;

    /// The peripheral after software wrote `val` to register `idx`.
    spec fn register_written(&self, idx: int, val: u8) -> Self;

    fn read_register(&self, idx: usize) -> (r: u8)
        requires
            self.mapped_wf(),
            idx < Self::register_count(),
        ensures
            r == self.register_value(idx as int),
    ;

    fn write_register(&mut self, idx: usize, val: u8)
        requires
            old(self).mapped_wf(),
            idx < Self::register_count(),
        ensures
            final(self).mapped_wf(),
            *final(self) == old(self).register_written(idx as int, val),
    ;
}

impl RegisterReadWrite for Timer {
    open spec fn mapped_wf(&self) -> bool {
        self.wf()
    }

    open spec fn register_count() -> int {
        4
    }

    open spec fn register_value(&self, idx: int) -> u8 {
        self.register(idx) as u8
    }

    open spec fn register_written(&self, idx: int, val: u8) -> Self {
        self.written(idx, val)
    }

    fn read_register(&self, idx: usize) -> (r: u8) {
        Timer::read_register(self, idx)
    }

    fn write_register(&mut self, idx: usize, val: u8) {
        Timer::write_register(self, idx, val)
    }
}

impl RegisterReadWrite for Keypad {
    open spec fn mapped_wf(&self) -> bool {
        self.wf()
    }

    open spec fn register_count() -> int {
        1
    }

    open spec fn register_value(&self, idx: int) -> u8 {
        self.register() as u8
    }

    open spec fn register_written(&self, idx: int, val: u8) -> Self {
        self.written(val)
    }

    fn read_register(&self, idx: usize) -> (r: u8) {
        Keypad::read_register(self, idx)
    }

    fn write_register(&mut self, idx: usize, val: u8) {
        Keypad::write_register(self, idx, val)
    }
}

impl RegisterReadWrite for Apu {
    open spec fn mapped_wf(&self) -> bool {
        self.wf()
    }

    open spec fn register_count() -> int {
        0x30
    }

    open spec fn register_value(&self, idx: int) -> u8 {
        self.register(idx) as u8
    }

    open spec fn register_written(&self, idx: int, val: u8) -> Self {
        self.written(idx, val)
    }

    fn read_register(&self, idx: usize) -> (r: u8) {
        Apu::read_register(self, idx)
    }

    fn write_register(&mut self, idx: usize, val: u8) {
        Apu::write_register(self, idx, val)
    }
}

impl RegisterReadWrite for Gpu {
    open spec fn mapped_wf(&self) -> bool {
        self.wf()
    }

    open spec fn register_count() -> int {
        0xC
    }

    open spec fn register_value(&self, idx: int) -> u8 {
        self.register(idx)
    }

    open spec fn register_written(&self, idx: int, val: u8) -> Self {
        self.written(idx, val)
    }

    fn read_register(&self, idx: usize) -> (r: u8) {
        Gpu::read_register(self, idx as u16)
    }

    fn write_register(&mut self, idx: usize, val: u8) {
        Gpu::write_register(self, idx as u16, val)
    }
}

impl RegisterReadWrite for Rtc {
    open spec fn mapped_wf(&self) -> bool {
        true
    }

    open spec fn register_count() -> int {
        5
    }

    open spec fn register_value(&self, idx: int) -> u8 {
        self.exposed.register(idx)
    }

    open spec fn register_written(&self, idx: int, val: u8) -> Self {
        Rtc { registers: self.registers.written(idx, val), ..*self }
    }

    fn read_register(&self, idx: usize) -> (r: u8) {
        Rtc::read_register(self, idx)
    }

    fn write_register(&mut self, idx: usize, val: u8) {
        Rtc::write_register(self, idx, val)
    }
}

/// Reads the register of `peripheral` that the bus shows at `addr`, the
/// first of its registers showing at `start`.
fn read_mapped<P: RegisterReadWrite>(peripheral: &P, addr: u16, start: u16) -> (r: u8)
    requires
        peripheral.mapped_wf(),
        start <= addr,
        addr - start < P::register_count(),
    ensures
        r == peripheral.register_value(addr - start),
{
    peripheral.read_register((addr - start) as usize)
}

/// Writes the register of `peripheral` that the bus shows at `addr`, the
/// first of its registers showing at `start`.
fn write_mapped<P: RegisterReadWrite>(peripheral: &mut P, addr: u16, start: u16, val: u8)
    requires
        old(peripheral).mapped_wf(),
        start <= addr,
        addr - start < P::register_count(),
    ensures
        final(peripheral).mapped_wf(),
        *final(peripheral) == old(peripheral).register_written(addr - start, val),
{
    peripheral.write_register((addr - start) as usize, val)
}

pub struct Hardware {
    /// The program that runs first. It covers the start of the cartridge
    /// until software switches it away.
    pub boot_rom: [u8; 256],
    pub boot_rom_enabled: bool,
    pub work_ram: [u8; 0x2000],
    pub high_ram: [u8; 127],
    pub apu: Apu,
    pub gpu: Gpu,
    pub cartridge: Option<Cartridge>,
    pub keypad: Keypad,
    pub timer: Timer,
    /// The interrupt enable byte, as software wrote it.
    pub interrupt_enable: u8,
    /// The request of the serial link, which nothing but software raises.
    pub serial_interrupt: bool,
    /// Master ticks that a DMA copy took and that nobody has accounted for.
    pub dma_ticks: u16,
}

impl Hardware {
    /// Whether each peripheral is in a state that it can be in.
    #[verifier::opaque]
    pub open spec fn wf(self) -> bool {
        &&& self.apu.wf()
        &&& self.gpu.wf()
        &&& self.keypad.wf()
        &&& self.timer.wf()
        &&& self.cartridge matches Some(cartridge) ==> cartridge.wf()
        &&& self.dma_ticks == 0 || self.dma_ticks == DMA_LENGTH
    }

    /// What the cartridge slot answers at `addr`. An empty slot reads as all
    /// ones.
    pub open spec fn cartridge_byte(self, addr: u16) -> u8 {
        match self.cartridge {
            Some(cartridge) => cartridge.byte_at(addr),
            None => 0xFF,
        }
    }

    pub open spec fn cartridge_written(self, addr: u16, val: u8) -> Option<Cartridge> {
        match self.cartridge {
            Some(cartridge) => Some(cartridge.written(addr, val)),
            None => None,
        }
    }

    /// Whether the request of `source` is pending.
    pub open spec fn pending(self, source: Interrupt) -> bool {
        match source {
            Interrupt::VBlank => self.gpu.vblank_interrupt,
            Interrupt::LcdStat => self.gpu.stat_interrupt,
            Interrupt::Timer => self.timer.interrupt,
            Interrupt::Serial => self.serial_interrupt,
            Interrupt::Keypad => self.keypad.interrupt_raised,
        }
    }

    /// The five requests as the flags that the pending byte is made of.
    pub open spec fn requests(self) -> Interrupts {
        Interrupts {
            vblank: Some(self.gpu.vblank_interrupt),
            lcd_stat: Some(self.gpu.stat_interrupt),
            timer: Some(self.timer.interrupt),
            serial: Some(self.serial_interrupt),
            keypad: Some(self.keypad.interrupt_raised),
        }
    }

    /// The hardware with the request of `source` set to `pending`.
    pub open spec fn with_pending(self, source: Interrupt, pending: bool) -> Hardware {
        match source {
            Interrupt::VBlank => Hardware {
                gpu: Gpu { vblank_interrupt: pending, ..self.gpu },
                ..self
            },
            Interrupt::LcdStat => Hardware { gpu: Gpu { stat_interrupt: pending, ..self.gpu }, ..self },
            Interrupt::Timer => Hardware { timer: Timer { interrupt: pending, ..self.timer }, ..self },
            Interrupt::Serial => Hardware { serial_interrupt: pending, ..self },
            Interrupt::Keypad => Hardware {
                keypad: Keypad { interrupt_raised: pending, ..self.keypad },
                ..self
            },
        }
    }

    /// The hardware after software wrote `val` to the pending byte: each of
    /// the five low bits goes to the peripheral it belongs to.
    pub open spec fn with_requests(self, val: u8) -> Hardware {
        Hardware {
            gpu: Gpu {
                vblank_interrupt: bit_of(val, 0),
                stat_interrupt: bit_of(val, 1),
                ..self.gpu
            },
            timer: Timer { interrupt: bit_of(val, 2), ..self.timer },
            serial_interrupt: bit_of(val, 3),
            keypad: Keypad { interrupt_raised: bit_of(val, 4), ..self.keypad },
            ..self
        }
    }

    /// Whether `source` asks for the processor and is allowed to.
    pub open spec fn requested(self, source: Interrupt) -> bool {
        self.pending(source) && bit_of(self.interrupt_enable, source.bit())
    }

    /// The source that the processor serves next, if any asks and is allowed
    /// to: the first in the fixed order.
    pub open spec fn next_interrupt(self) -> Option<Interrupt> {
        if self.requested(Interrupt::VBlank) {
            Some(Interrupt::VBlank)
        } else if self.requested(Interrupt::LcdStat) {
            Some(Interrupt::LcdStat)
        } else if self.requested(Interrupt::Timer) {
            Some(Interrupt::Timer)
        } else if self.requested(Interrupt::Serial) {
            Some(Interrupt::Serial)
        } else if self.requested(Interrupt::Keypad) {
            Some(Interrupt::Keypad)
        } else {
            None
        }
    }

    /// What the processor reads at `addr`.
    #[verifier::opaque]
    pub open spec fn byte_at(self, addr: u16) -> u8 {
        if addr <= BOOTROM_END && self.boot_rom_enabled {
            self.boot_rom[addr as int]
        } else if addr <= CARTRIDGE_ROM_END {
            self.cartridge_byte(addr)
        } else if addr <= VIDEO_RAM_END {
            self.gpu.vram_byte(addr)
        } else if addr <= CARTRIDGE_RAM_END {
            self.cartridge_byte(addr)
        } else if addr <= WORK_RAM_END {
            self.work_ram[addr - WORK_RAM_START]
        } else if addr <= ECHO_RAM_END {
            self.work_ram[addr - ECHO_RAM_START]
        } else if addr <= OAM_RAM_END {
            self.gpu.oam_byte(addr)
        } else if addr == MAPPED_KEYPAD {
            self.keypad.register() as u8
        } else if MAPPED_TIMER_START <= addr <= MAPPED_TIMER_END {
            self.timer.register(addr - MAPPED_TIMER_START) as u8
        } else if addr == INTERRUPT_FLAGS {
            self.requests().byte() as u8
        } else if APU_REGISTERS_START <= addr <= APU_REGISTERS_END {
            self.apu.register(addr - APU_REGISTERS_START) as u8
        } else if GPU_REGISTERS_START <= addr <= GPU_REGISTERS_END {
            self.gpu.register(addr - GPU_REGISTERS_START)
        } else if HIGH_RAM_START <= addr <= HIGH_RAM_END {
            self.high_ram[addr - HIGH_RAM_START]
        } else if addr == INTERRUPT_ENABLE {
            self.interrupt_enable
        } else {
            0xFF
        }
    }

    /// The object attributes once the first `count` bytes of a DMA copy from
    /// page `page` have arrived.
    pub open spec fn dma_oam(self, page: u8, count: nat) -> [u8; 160]
        decreases count,
    {
        if count == 0 {
            self.gpu.oam
        } else {
            vstd::array::spec_array_update(
                self.dma_oam(page, (count - 1) as nat),
                count - 1,
                self.byte_at((page * 256 + count - 1) as u16),
            )
        }
    }

    /// The hardware after a DMA copy from page `page`: the 160 bytes that the
    /// bus showed from the start of the page on are the object attributes,
    /// whatever the mode, and the ticks of the copy are owed.
    pub open spec fn with_dma(self, page: u8) -> Hardware {
        Hardware {
            gpu: Gpu { oam: self.dma_oam(page, DMA_LENGTH as nat), dma: page, ..self.gpu },
            dma_ticks: DMA_LENGTH,
            ..self
        }
    }

    /// The hardware after the processor wrote `val` to `addr`.
    #[verifier::opaque]
    pub open spec fn written(self, addr: u16, val: u8) -> Hardware {
        if addr <= CARTRIDGE_ROM_END {
            Hardware { cartridge: self.cartridge_written(addr, val), ..self }
        } else if addr <= VIDEO_RAM_END {
            Hardware { gpu: self.gpu.with_vram(addr, val), ..self }
        } else if addr <= CARTRIDGE_RAM_END {
            Hardware { cartridge: self.cartridge_written(addr, val), ..self }
        } else if addr <= WORK_RAM_END {
            Hardware {
                work_ram: vstd::array::spec_array_update(self.work_ram, addr - WORK_RAM_START, val),
                ..self
            }
        } else if addr <= ECHO_RAM_END {
            Hardware {
                work_ram: vstd::array::spec_array_update(self.work_ram, addr - ECHO_RAM_START, val),
                ..self
            }
        } else if addr <= OAM_RAM_END {
            Hardware { gpu: self.gpu.with_oam(addr, val), ..self }
        } else if addr == MAPPED_KEYPAD {
            Hardware { keypad: self.keypad.written(val), ..self }
        } else if MAPPED_TIMER_START <= addr <= MAPPED_TIMER_END {
            Hardware { timer: self.timer.written(addr - MAPPED_TIMER_START, val), ..self }
        } else if addr == INTERRUPT_FLAGS {
            self.with_requests(val)
        } else if APU_REGISTERS_START <= addr <= APU_REGISTERS_END {
            Hardware { apu: self.apu.written(addr - APU_REGISTERS_START, val), ..self }
        } else if addr == MAPPED_DMA {
            self.with_dma(val)
        } else if GPU_REGISTERS_START <= addr <= GPU_REGISTERS_END {
            Hardware { gpu: self.gpu.written(addr - GPU_REGISTERS_START, val), ..self }
        } else if addr == BOOTROM_LATCH {
            Hardware { boot_rom_enabled: false, ..self }
        } else if HIGH_RAM_START <= addr <= HIGH_RAM_END {
            Hardware {
                high_ram: vstd::array::spec_array_update(self.high_ram, addr - HIGH_RAM_START, val),
                ..self
            }
        } else if addr == INTERRUPT_ENABLE {
            Hardware { interrupt_enable: val, ..self }
        } else {
            self
        }
    }

    /// The hardware at power-on, with `boot_rom` as the program that runs
    /// first and no cartridge in the slot.
    /// Whether the hardware is as it is at power-on with `boot_rom` as the
    /// program that runs first: the boot ROM showing, the slot empty, the
    /// memories zero, every peripheral at its first state, no request
    /// pending or enabled.
    pub open spec fn is_initial(self, boot_rom: [u8; 256]) -> bool {
        &&& self.boot_rom == boot_rom
        &&& self.boot_rom_enabled
        &&& self.cartridge is None
        &&& self.apu.is_initial()
        &&& self.gpu.is_initial()
        &&& self.keypad == Keypad::initial()
        &&& self.timer == Timer::initial()
        &&& self.interrupt_enable == 0
        &&& !self.serial_interrupt
        &&& self.dma_ticks == 0
        &&& forall|i: int| 0 <= i < 0x2000 ==> self.work_ram[i] == 0
        &&& forall|i: int| 0 <= i < 127 ==> self.high_ram[i] == 0
    }

    pub fn new(boot_rom: [u8; 256]) -> (r: Self)
        ensures
            r.wf(),
            r.is_initial(boot_rom),
    {
        reveal(Hardware::wf);
        Hardware {
            boot_rom,
            boot_rom_enabled: true,
            work_ram: [0u8; 0x2000],
            high_ram: [0u8; 127],
            apu: Apu::new(),
            gpu: Gpu::new(),
            cartridge: None,
            keypad: Keypad::new(),
            timer: Timer::new(),
            interrupt_enable: 0,
            serial_interrupt: false,
            dma_ticks: 0,
        }
    }

    #[verifier::rlimit(30)]
    pub fn read(&self, addr: u16) -> (r: u8)
        requires
            self.wf(),
        ensures
            r == self.byte_at(addr),
    {
        reveal(Hardware::wf);
        reveal(Hardware::byte_at);
        if addr <= BOOTROM_END && self.boot_rom_enabled {
            self.boot_rom[addr as usize]
        } else if addr <= CARTRIDGE_ROM_END {
            self.read_cartridge(addr)
        } else if addr <= VIDEO_RAM_END {
            self.gpu.read_vram(addr)
        } else if addr <= CARTRIDGE_RAM_END {
            self.read_cartridge(addr)
        } else if addr <= WORK_RAM_END {
            self.work_ram[(addr - WORK_RAM_START) as usize]
        } else if addr <= ECHO_RAM_END {
            self.work_ram[(addr - ECHO_RAM_START) as usize]
        } else if addr <= OAM_RAM_END {
            self.gpu.read_oam(addr)
        } else if addr == MAPPED_KEYPAD {
            read_mapped(&self.keypad, addr, MAPPED_KEYPAD)
        } else if MAPPED_TIMER_START <= addr && addr <= MAPPED_TIMER_END {
            read_mapped(&self.timer, addr, MAPPED_TIMER_START)
        } else if addr == INTERRUPT_FLAGS {
            self.read_interrupts()
        } else if APU_REGISTERS_START <= addr && addr <= APU_REGISTERS_END {
            read_mapped(&self.apu, addr, APU_REGISTERS_START)
        } else if GPU_REGISTERS_START <= addr && addr <= GPU_REGISTERS_END {
            read_mapped(&self.gpu, addr, GPU_REGISTERS_START)
        } else if HIGH_RAM_START <= addr && addr <= HIGH_RAM_END {
            self.high_ram[(addr - HIGH_RAM_START) as usize]
        } else if addr == INTERRUPT_ENABLE {
            self.interrupt_enable
        } else {
            0xFF
        }
    }

    fn read_cartridge(&self, addr: u16) -> (r: u8)
        requires
            self.wf(),
            crate::cartridge::in_window(addr),
        ensures
            r == self.cartridge_byte(addr),
    {
        reveal(Hardware::wf);
        match &self.cartridge {
            Some(cartridge) => cartridge.read(addr),
            None => 0xFF,
        }
    }

    fn write_cartridge(&mut self, addr: u16, val: u8)
        requires
            old(self).wf(),
            crate::cartridge::in_window(addr),
        ensures
            final(self).wf(),
            *final(self) == (Hardware {
                cartridge: old(self).cartridge_written(addr, val),
                ..*old(self)
            }),
    {
        reveal(Hardware::wf);
        match &mut self.cartridge {
            Some(cartridge) => cartridge.write(addr, val),
            None => {},
        }
    }

    #[verifier::rlimit(30)]
    pub fn write(&mut self, addr: u16, val: u8)
        requires
            old(self).wf(),
        ensures
            final(self).wf(),
            *final(self) == old(self).written(addr, val),
    {
        reveal(Hardware::wf);
        reveal(Hardware::written);
        if addr <= CARTRIDGE_ROM_END {
            self.write_cartridge(addr, val);
        } else if addr <= VIDEO_RAM_END {
            self.gpu.write_vram(addr, val);
        } else if addr <= CARTRIDGE_RAM_END {
            self.write_cartridge(addr, val);
        } else if addr <= WORK_RAM_END {
            self.work_ram[(addr - WORK_RAM_START) as usize] = val;
        } else if addr <= ECHO_RAM_END {
            self.work_ram[(addr - ECHO_RAM_START) as usize] = val;
        } else if addr <= OAM_RAM_END {
            self.gpu.write_oam(addr, val);
        } else if addr == MAPPED_KEYPAD {
            write_mapped(&mut self.keypad, addr, MAPPED_KEYPAD, val);
        } else if MAPPED_TIMER_START <= addr && addr <= MAPPED_TIMER_END {
            write_mapped(&mut self.timer, addr, MAPPED_TIMER_START, val);
        } else if addr == INTERRUPT_FLAGS {
            self.write_interrupts(val);
        } else if APU_REGISTERS_START <= addr && addr <= APU_REGISTERS_END {
            write_mapped(&mut self.apu, addr, APU_REGISTERS_START, val);
        } else if addr == MAPPED_DMA {
            self.dma_write(val);
        } else if GPU_REGISTERS_START <= addr && addr <= GPU_REGISTERS_END {
            write_mapped(&mut self.gpu, addr, GPU_REGISTERS_START, val);
        } else if addr == BOOTROM_LATCH {
            self.boot_rom_enabled = false;
        } else if HIGH_RAM_START <= addr && addr <= HIGH_RAM_END {
            self.high_ram[(addr - HIGH_RAM_START) as usize] = val;
        } else if addr == INTERRUPT_ENABLE {
            self.interrupt_enable = val;
        }
    }

    pub fn insert_cartridge(&mut self, cart: Cartridge)
        requires
            cart.wf(),
            old(self).wf(),
        ensures
            final(self).wf(),
            *final(self) == (Hardware { cartridge: Some(cart), ..*old(self) }),
    {
        reveal(Hardware::wf);
        self.cartridge = Some(cart);
    }

    /// Assembles the pending byte out of the requests of the peripherals.
    pub fn read_interrupts(&self) -> (r: u8)
        ensures
            r == self.requests().byte(),
            r < 32,
    {
        let mut ints = Interrupts::new();
        ints.register(Interrupt::VBlank, self.gpu.vblank_interrupt);
        ints.register(Interrupt::LcdStat, self.gpu.stat_interrupt);
        ints.register(Interrupt::Timer, self.timer.has_interrupt());
        ints.register(Interrupt::Serial, self.serial_interrupt);
        ints.register(Interrupt::Keypad, self.keypad.has_interrupt());
        ints.as_byte()
    }

    /// Hands each bit of the pending byte to the peripheral it belongs to.
    pub fn write_interrupts(&mut self, val: u8)
        requires
            old(self).wf(),
        ensures
            final(self).wf(),
            *final(self) == old(self).with_requests(val),
    {
        reveal(Hardware::wf);
        let bits = BitFlags8(val);
        self.gpu.set_vblank_interrupt(bits.get(0));
        self.gpu.set_stat_interrupt(bits.get(1));
        self.timer.set_interrupt(bits.get(2));
        self.serial_interrupt = bits.get(3);
        self.keypad.set_interrupt(bits.get(4));
    }

    /// Whether `source` has a request pending.
    pub fn is_pending(&self, source: Interrupt) -> (r: bool)
        ensures
            r == self.pending(source),
    {
        match source {
            Interrupt::VBlank => self.gpu.vblank_interrupt,
            Interrupt::LcdStat => self.gpu.stat_interrupt,
            Interrupt::Timer => self.timer.has_interrupt(),
            Interrupt::Serial => self.serial_interrupt,
            Interrupt::Keypad => self.keypad.has_interrupt(),
        }
    }

    /// Sets or takes back the request of `source`.
    pub fn set_pending(&mut self, source: Interrupt, pending: bool)
        requires
            old(self).wf(),
        ensures
            final(self).wf(),
            *final(self) == old(self).with_pending(source, pending),
    {
        reveal(Hardware::wf);
        match source {
            Interrupt::VBlank => self.gpu.set_vblank_interrupt(pending),
            Interrupt::LcdStat => self.gpu.set_stat_interrupt(pending),
            Interrupt::Timer => self.timer.set_interrupt(pending),
            Interrupt::Serial => self.serial_interrupt = pending,
            Interrupt::Keypad => self.keypad.set_interrupt(pending),
        }
    }

    /// The source that the processor is to serve next.
    pub fn highest_interrupt(&self) -> (r: Option<Interrupt>)
        ensures
            r == self.next_interrupt(),
    {
        let enable = BitFlags8(self.interrupt_enable);
        if self.gpu.vblank_interrupt && enable.get(0) {
            Some(Interrupt::VBlank)
        } else if self.gpu.stat_interrupt && enable.get(1) {
            Some(Interrupt::LcdStat)
        } else if self.timer.has_interrupt() && enable.get(2) {
            Some(Interrupt::Timer)
        } else if self.serial_interrupt && enable.get(3) {
            Some(Interrupt::Serial)
        } else if self.keypad.has_interrupt() && enable.get(4) {
            Some(Interrupt::Keypad)
        } else {
            None
        }
    }

    /// Copies 160 bytes from the page `addr` to the object attributes.
    #[verifier::rlimit(30)]
    pub fn dma_write(&mut self, addr: u8)
        requires
            old(self).wf(),
        ensures
            final(self).wf(),
            *final(self) == old(self).with_dma(addr),
    {
        reveal(Hardware::wf);
        let read_base: u16 = addr as u16 * 256;
        let mut copied: [u8; 160] = self.gpu.oam;
        let mut i: u16 = 0;
        while i < DMA_LENGTH
            invariant
                i <= DMA_LENGTH,
                read_base == addr * 256,
                self.wf(),
                *self == *old(self),
                copied == self.dma_oam(addr, i as nat),
            decreases DMA_LENGTH - i,
        {
            copied[i as usize] = self.read(read_base + i);
            i = i + 1;
        }
        self.gpu.oam = copied;
        self.gpu.dma = addr;
        self.dma_ticks = DMA_LENGTH;
    }

    /// Hands out the master ticks that DMA copies took since the last call.
    pub fn take_dma_ticks(&mut self) -> (r: u16)
        ensures
            r == old(self).dma_ticks,
            *final(self) == (Hardware { dma_ticks: 0, ..*old(self) }),
            old(self).wf() ==> final(self).wf(),
    {
        reveal(Hardware::wf);
        let ticks = self.dma_ticks;
        self.dma_ticks = 0;
        ticks
    }
}

/// Once the boot ROM is switched away it stays away, whatever is written,
/// and any write to its switch does switch it away.
pub proof fn lemma_boot_rom_stays_away(hw: Hardware, addr: u16, val: u8)
    ensures
        !hw.boot_rom_enabled ==> !hw.written(addr, val).boot_rom_enabled,
        addr == BOOTROM_LATCH ==> !hw.written(addr, val).boot_rom_enabled,
{
    reveal(Hardware::written);
}

/// Whether `addr` is a byte of work RAM, of its echo or of high RAM: memory
/// that holds what is written to it, whatever the peripherals do.
pub open spec fn is_ram(addr: u16) -> bool {
    WORK_RAM_START <= addr <= ECHO_RAM_END || HIGH_RAM_START <= addr <= HIGH_RAM_END
}

/// The address in work RAM that an address in the echo stands for; any
/// other address stands for itself.
pub open spec fn unechoed(addr: u16) -> u16 {
    if ECHO_RAM_START <= addr <= ECHO_RAM_END {
        (addr - 0x2000) as u16
    } else {
        addr
    }
}

/// A byte written to RAM is read back from the same address, and every
/// other byte of RAM reads as before.
#[verifier::rlimit(40)]
pub proof fn lemma_ram_holds_writes(hw: Hardware, addr: u16, val: u8, other: u16)
    requires
        is_ram(addr),
    ensures
        hw.written(addr, val).byte_at(addr) == val,
        is_ram(other) && unechoed(other) != unechoed(addr) ==> hw.written(addr, val).byte_at(other)
            == hw.byte_at(other),
        hw.wf() ==> hw.written(addr, val).wf(),
{
    reveal(Hardware::byte_at);
    reveal(Hardware::written);
    reveal(Hardware::wf);
}

/// The echo shows work RAM: an address in the echo and the address 0x2000
/// below it read the same, a write to either does what a write to the
/// other does, and is read back through both.
#[verifier::rlimit(40)]
pub proof fn lemma_echo_mirrors_work_ram(hw: Hardware, addr: u16, val: u8)
    requires
        ECHO_RAM_START <= addr <= ECHO_RAM_END,
    ensures
        hw.byte_at(addr) == hw.byte_at((addr - 0x2000) as u16),
        hw.written(addr, val) == hw.written((addr - 0x2000) as u16, val),
        hw.written(addr, val).byte_at((addr - 0x2000) as u16) == val,
        hw.written((addr - 0x2000) as u16, val).byte_at(addr) == val,
{
    reveal(Hardware::byte_at);
    reveal(Hardware::written);
}

/// What a register reads as after `val` was written to it, `before` being
/// what it read as before: for a register that only stores, and for one that
/// cannot be written, what it holds of `val` and of `before`; for any other
/// address, nothing.
pub open spec fn read_back(addr: u16, val: u8, before: u8) -> Option<int> {
    if addr == 0xFF05 || addr == 0xFF06 {
        // Timer counter and modulo.
        Some(val as int)
    } else if addr == 0xFF07 {
        // Timer control: enable and clock select, the five high bits unused.
        Some(val as int % 8)
    } else if addr == INTERRUPT_FLAGS {
        // The three high bits are unused.
        Some(val as int % 32)
    } else if addr == 0xFF10 {
        // Sweep of the first channel, the high bit unused.
        Some(val as int % 128)
    } else if addr == 0xFF12 || addr == 0xFF17 || addr == 0xFF21 {
        // Envelopes.
        Some(val as int)
    } else if addr == 0xFF13 || addr == 0xFF18 || addr == 0xFF1D {
        // Low bytes of the periods.
        Some(val as int)
    } else if addr == 0xFF1A {
        // Only the high bit is used.
        Some((val as int / 128) * 128)
    } else if addr == 0xFF1C {
        // Only bits 5 and 6 are used.
        Some(((val as int / 32) % 4) * 32)
    } else if addr == 0xFF22 || addr == 0xFF24 || addr == 0xFF25 {
        Some(val as int)
    } else if 0xFF30 <= addr <= 0xFF3F {
        // Wave RAM.
        Some(val as int)
    } else if addr == 0xFF40 || addr == 0xFF42 || addr == 0xFF43 || addr == 0xFF45 {
        Some(val as int)
    } else if addr == 0xFF41 {
        // Status: the mode in the two low bits is read-only.
        Some((val as int / 4) * 4 + before as int % 4)
    } else if addr == 0xFF44 {
        // The line is read-only.
        Some(before as int)
    } else if 0xFF47 <= addr <= 0xFF4B {
        Some(val as int)
    } else if addr == INTERRUPT_ENABLE {
        Some(val as int)
    } else {
        None
    }
}

/// A register that only stores what is written to it reads back as written,
/// but for the bits that it does not have and the bits that are read-only.
pub proof fn lemma_registers_read_back(hw: Hardware, addr: u16, val: u8)
    requires
        hw.wf(),
    ensures
        read_back(addr, val, hw.byte_at(addr)) matches Some(value) ==> hw.written(addr, val).byte_at(
            addr,
        ) == value,
{
    if MAPPED_TIMER_START <= addr <= MAPPED_TIMER_END || addr == INTERRUPT_FLAGS || addr
        == INTERRUPT_ENABLE {
        lemma_timer_reads_back(hw, addr, val);
    } else if APU_REGISTERS_START <= addr <= APU_REGISTERS_END {
        lemma_apu_reads_back(hw, addr, val);
    } else if GPU_REGISTERS_START <= addr <= GPU_REGISTERS_END {
        lemma_gpu_reads_back(hw, addr, val);
    }
}

#[verifier::rlimit(40)]
proof fn lemma_timer_reads_back(hw: Hardware, addr: u16, val: u8)
    requires
        hw.wf(),
        MAPPED_TIMER_START <= addr <= MAPPED_TIMER_END || addr == INTERRUPT_FLAGS || addr
            == INTERRUPT_ENABLE,
    ensures
        read_back(addr, val, hw.byte_at(addr)) matches Some(value) ==> hw.written(addr, val).byte_at(
            addr,
        ) == value,
{
    if addr == INTERRUPT_FLAGS {
        lemma_five_bits(val);
        assert(hw.written(addr, val) == hw.with_requests(val)) by {
            reveal(Hardware::written);
        }
        assert(hw.with_requests(val).byte_at(addr) == hw.with_requests(val).requests().byte() as u8)
            by {
            reveal(Hardware::byte_at);
        }
    } else if addr == INTERRUPT_ENABLE {
        assert(hw.written(addr, val) == (Hardware { interrupt_enable: val, ..hw })) by {
            reveal(Hardware::written);
        }
        assert((Hardware { interrupt_enable: val, ..hw }).byte_at(addr) == val) by {
            reveal(Hardware::byte_at);
        }
    } else {
        let idx = addr - MAPPED_TIMER_START;
        let timer = hw.timer.written(idx, val);
        assert(hw.written(addr, val) == (Hardware { timer, ..hw })) by {
            reveal(Hardware::written);
        }
        assert((Hardware { timer, ..hw }).byte_at(addr) == timer.register(idx) as u8) by {
            reveal(Hardware::byte_at);
        }
        if idx >= 1 {
            crate::timer::lemma_registers_read_back(hw.timer, idx, val);
        }
    }
}

/// The five low bits of a byte make up the byte modulo 32.
proof fn lemma_five_bits(val: u8)
    by (bit_vector)
    ensures
        (if bit_of(val, 0) { 1u8 } else { 0u8 }) + (if bit_of(val, 1) { 2u8 } else { 0u8 }) + (
        if bit_of(val, 2) { 4u8 } else { 0u8 }) + (if bit_of(val, 3) { 8u8 } else { 0u8 }) + (
        if bit_of(val, 4) { 16u8 } else { 0u8 }) == val % 32,
{
}

#[verifier::rlimit(40)]
proof fn lemma_apu_reads_back(hw: Hardware, addr: u16, val: u8)
    requires
        hw.wf(),
        APU_REGISTERS_START <= addr <= APU_REGISTERS_END,
    ensures
        read_back(addr, val, hw.byte_at(addr)) matches Some(value) ==> hw.written(addr, val).byte_at(
            addr,
        ) == value,
{
    reveal(Hardware::byte_at);
    reveal(Hardware::written);
    reveal(Hardware::wf);
    crate::apu::lemma_registers_read_back(hw.apu, addr - APU_REGISTERS_START, val);
}

#[verifier::rlimit(40)]
proof fn lemma_gpu_reads_back(hw: Hardware, addr: u16, val: u8)
    requires
        hw.wf(),
        GPU_REGISTERS_START <= addr <= GPU_REGISTERS_END,
    ensures
        read_back(addr, val, hw.byte_at(addr)) matches Some(value) ==> hw.written(addr, val).byte_at(
            addr,
        ) == value,
{
    reveal(Hardware::byte_at);
    reveal(Hardware::written);
    reveal(Hardware::wf);
    crate::gpu::lemma_registers_read_back(hw.gpu, addr - GPU_REGISTERS_START, val);
}

} // verus!
