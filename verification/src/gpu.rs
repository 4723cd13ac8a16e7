//! The pixel processor as the bus sees it: video RAM, object attributes,
//! registers, and the mode that opens and closes the two memories.

pub mod lcdc;
pub mod lcdstatus;
pub mod oam;
pub mod palette;

use crate::bitflags::{bit_of, BitFlags8};
use crate::gpu::lcdc::LcdControl;
use crate::gpu::lcdstatus::{LcdStatus, PpuMode};
use crate::gpu::oam::ObjAttr;
use crate::gpu::palette::PaletteIds;
use vstd::prelude::*;

verus! {

pub const SCREEN_WIDTH: u32 = 160;

pub const SCREEN_HEIGHT: u32 = 144;

pub const VRAM_START: u16 = 0x8000;

pub const VRAM_SIZE: usize = 8192;

pub const OAM_START: u16 = 0xFE00;

pub const OAM_SIZE: usize = 160;

/// Master ticks that one line of the screen takes.
pub const DOTS_PER_LINE: u16 = 456;

/// Lines of a frame, the ten of the vertical blank included.
pub const LINES_PER_FRAME: u8 = 154;

/// Contains the tile data and the two tile maps.
pub struct Vram {
    pub video_ram: [u8; 8192],
}

impl Vram {
    pub open spec fn index_of(addr: u16) -> int {
        addr - VRAM_START
    }

    pub open spec fn byte_at(self, addr: u16) -> u8 {
        self.video_ram[Self::index_of(addr)]
    }

    pub open spec fn written(self, addr: u16, val: u8) -> Vram {
        Vram { video_ram: vstd::array::spec_array_update(self.video_ram, Self::index_of(addr), val) }
    }

    pub fn new() -> (r: Self)
        ensures
            forall|i: int| 0 <= i < VRAM_SIZE ==> r.video_ram[i] == 0,
    {
        Vram { video_ram: [0u8; 8192] }
    }

    pub fn compute_index(&self, addr: u16) -> (r: usize)
        requires
            0x8000 <= addr < 0xA000,
        ensures
            r == Self::index_of(addr),
            r < VRAM_SIZE,
    {
        (addr - VRAM_START) as usize
    }

    pub fn read_byte(&self, idx: u16) -> (r: u8)
        requires
            0x8000 <= idx < 0xA000,
        ensures
            r == self.byte_at(idx),
    {
        self.video_ram[self.compute_index(idx)]
    }

    pub fn write_byte(&mut self, idx: u16, val: u8)
        requires
            0x8000 <= idx < 0xA000,
        ensures
            *final(self) == old(self).written(idx, val),
    {
        let index = self.compute_index(idx);
        self.video_ram[index] = val;
    }
}

/// The mode of the pixel processor at a place in the frame.
pub open spec fn mode_at(line: int, dot: int) -> PpuMode {
    if line >= 144 {
        PpuMode::Mode1
    } else if dot < 80 {
        PpuMode::Mode2
    } else if dot < 252 {
        PpuMode::Mode3
    } else {
        PpuMode::Mode0
    }
}

pub struct Gpu {
    pub vram: Vram,
    /// Object Attribute Memory, that is metadata associated to each sprite.
    pub oam: [u8; 160],
    pub lcd_control: LcdControl,
    pub lcd_status: LcdStatus,
    /// The Y coordinate of the background viewport: register SCY.
    pub background_y: u8,
    /// The X coordinate of the background viewport: register SCX.
    pub background_x: u8,
    /// The Y coordinate of the window: register WY.
    pub window_y: u8,
    /// The X coordinate of the window: register WX.
    pub window_x: u8,
    /// The line that is being drawn, or would be: register LY.
    pub lcd_y: u8,
    /// The line that software asked to be told of: register LYC.
    pub lcd_y_compare: u8,
    /// The high byte of the address the last DMA copy started from.
    pub dma: u8,
    pub background_palette: PaletteIds,
    pub object_palette0: PaletteIds,
    pub object_palette1: PaletteIds,
    /// Master ticks spent in the current line.
    pub dots: u16,
    pub vblank_interrupt: bool,
    pub stat_interrupt: bool,
}

impl Gpu {
    /// With the LCD off the processor rests in horizontal blank at the top of
    /// the frame; with the LCD on the mode is the one its place in the frame
    /// asks for.
    pub open spec fn wf(self) -> bool {
        &&& self.lcd_y < LINES_PER_FRAME
        &&& self.dots < DOTS_PER_LINE
        &&& self.lcd_control.enabled_spec() ==> self.lcd_status.mode() == mode_at(
            self.lcd_y as int,
            self.dots as int,
        )
        &&& !self.lcd_control.enabled_spec() ==> self.lcd_status.mode() == PpuMode::Mode0
            && self.lcd_y == 0 && self.dots == 0
    }

    pub open spec fn vram_byte(self, addr: u16) -> u8 {
        if self.lcd_status.mode().blocks_vram() {
            0xFF
        } else {
            self.vram.byte_at(addr)
        }
    }

    pub open spec fn with_vram(self, addr: u16, val: u8) -> Gpu {
        if self.lcd_status.mode().blocks_vram() {
            self
        } else {
            Gpu { vram: self.vram.written(addr, val), ..self }
        }
    }

    pub open spec fn oam_byte(self, addr: u16) -> u8 {
        if self.lcd_status.mode().blocks_oam() {
            0xFF
        } else {
            self.oam[addr - OAM_START]
        }
    }

    pub open spec fn with_oam(self, addr: u16, val: u8) -> Gpu {
        if self.lcd_status.mode().blocks_oam() {
            self
        } else {
            Gpu { oam: vstd::array::spec_array_update(self.oam, addr - OAM_START, val), ..self }
        }
    }

    /// What software reads at register `idx`, counted from 0xFF40.
    pub open spec fn register(self, idx: int) -> u8 {
        if idx == 0x0 {
            self.lcd_control.0.0
        } else if idx == 0x1 {
            self.lcd_status.0.0
        } else if idx == 0x2 {
            self.background_y
        } else if idx == 0x3 {
            self.background_x
        } else if idx == 0x4 {
            self.lcd_y
        } else if idx == 0x5 {
            self.lcd_y_compare
        } else if idx == 0x6 {
            self.dma
        } else if idx == 0x7 {
            self.background_palette.0.0
        } else if idx == 0x8 {
            self.object_palette0.0.0
        } else if idx == 0x9 {
            self.object_palette1.0.0
        } else if idx == 0xA {
            self.window_y
        } else {
            self.window_x
        }
    }

    /// The processor after software wrote `val` to the control register.
    /// Switching the LCD off puts it to rest; switching it on starts a frame.
    pub open spec fn with_control(self, val: u8) -> Gpu {
        let on = bit_of(val, 7);
        let was_on = self.lcd_control.enabled_spec();
        let control = LcdControl(BitFlags8(val));
        if !on {
            Gpu {
                lcd_control: control,
                lcd_status: self.lcd_status.with_mode(PpuMode::Mode0),
                lcd_y: 0,
                dots: 0,
                ..self
            }
        } else if !was_on {
            Gpu { lcd_control: control, lcd_status: self.lcd_status.with_mode(PpuMode::Mode2), ..self }
        } else {
            Gpu { lcd_control: control, ..self }
        }
    }

    /// The processor after software wrote `val` to register `idx`.
    pub open spec fn written(self, idx: int, val: u8) -> Gpu {
        if idx == 0x0 {
            self.with_control(val)
        } else if idx == 0x1 {
            Gpu { lcd_status: self.lcd_status.written(val), ..self }
        } else if idx == 0x2 {
            Gpu { background_y: val, ..self }
        } else if idx == 0x3 {
            Gpu { background_x: val, ..self }
        } else if idx == 0x4 {
            self
        } else if idx == 0x5 {
            Gpu { lcd_y_compare: val, ..self }
        } else if idx == 0x6 {
            Gpu { dma: val, ..self }
        } else if idx == 0x7 {
            Gpu { background_palette: PaletteIds(BitFlags8(val)), ..self }
        } else if idx == 0x8 {
            Gpu { object_palette0: PaletteIds(BitFlags8(val)), ..self }
        } else if idx == 0x9 {
            Gpu { object_palette1: PaletteIds(BitFlags8(val)), ..self }
        } else if idx == 0xA {
            Gpu { window_y: val, ..self }
        } else {
            Gpu { window_x: val, ..self }
        }
    }

    /// The processor one master tick later.
    pub open spec fn after_dot(self) -> Gpu {
        if !self.lcd_control.enabled_spec() {
            self
        } else {
            let wraps = self.dots + 1 == DOTS_PER_LINE;
            let line = if !wraps {
                self.lcd_y
            } else if self.lcd_y + 1 == LINES_PER_FRAME {
                0
            } else {
                (self.lcd_y + 1) as u8
            };
            let dots = if wraps { 0 } else { (self.dots + 1) as u16 };
            let mode = mode_at(line as int, dots as int);
            let entered = mode != self.lcd_status.mode();
            let meets = wraps && line == self.lcd_y_compare;
            let asks = (entered && mode == PpuMode::Mode0 && bit_of(self.lcd_status.0.0, 3)) || (
            entered && mode == PpuMode::Mode1 && bit_of(self.lcd_status.0.0, 4)) || (entered && mode
                == PpuMode::Mode2 && bit_of(self.lcd_status.0.0, 5)) || (meets && bit_of(
                self.lcd_status.0.0,
                6,
            ));
            let status = if wraps {
                self.lcd_status.with_mode(mode).with_coincidence(line == self.lcd_y_compare)
            } else {
                self.lcd_status.with_mode(mode)
            };
            Gpu {
                lcd_y: line,
                dots,
                lcd_status: status,
                vblank_interrupt: self.vblank_interrupt || (entered && mode == PpuMode::Mode1),
                stat_interrupt: self.stat_interrupt || asks,
                ..self
            }
        }
    }

    /// The processor `ticks` master ticks later.
    pub open spec fn advanced(self, ticks: nat) -> Gpu
        decreases ticks,
    {
        if ticks == 0 {
            self
        } else {
            self.advanced((ticks - 1) as nat).after_dot()
        }
    }

    /// Whether the processor is as it is at power-on: the LCD off, the
    /// memories and the registers all zero, no request pending.
    pub open spec fn is_initial(self) -> bool {
        &&& forall|i: int| 0 <= i < VRAM_SIZE ==> self.vram.video_ram[i] == 0
        &&& forall|i: int| 0 <= i < OAM_SIZE ==> self.oam[i] == 0
        &&& forall|idx: int| 0 <= idx <= 0xB ==> self.register(idx) == 0
        &&& self.dots == 0
        &&& !self.vblank_interrupt
        &&& !self.stat_interrupt
    }

    pub fn new() -> (r: Self)
        ensures
            r.wf(),
            r.is_initial(),
    {
        let r = Gpu {
            vram: Vram::new(),
            oam: [0u8; 160],
            lcd_control: LcdControl(BitFlags8(0)),
            lcd_status: LcdStatus(BitFlags8(0)),
            background_y: 0,
            background_x: 0,
            window_y: 0,
            window_x: 0,
            lcd_y: 0,
            lcd_y_compare: 0,
            dma: 0,
            background_palette: PaletteIds(BitFlags8(0)),
            object_palette0: PaletteIds(BitFlags8(0)),
            object_palette1: PaletteIds(BitFlags8(0)),
            dots: 0,
            vblank_interrupt: false,
            stat_interrupt: false,
        };
        r
    }

    pub fn read_vram(&self, addr: u16) -> (r: u8)
        requires
            0x8000 <= addr < 0xA000,
        ensures
            r == self.vram_byte(addr),
    {
        if self.lcd_status.ppu_mode().as_number() >= 3 {
            // Video RAM is out of reach while pixels are drawn.
            return 0xFF;
        }
        self.vram.read_byte(addr)
    }

    pub fn write_vram(&mut self, addr: u16, value: u8)
        requires
            0x8000 <= addr < 0xA000,
        ensures
            *final(self) == old(self).with_vram(addr, value),
            old(self).wf() ==> final(self).wf(),
    {
        if self.lcd_status.ppu_mode().as_number() >= 3 {
            return ;
        }
        self.vram.write_byte(addr, value);
    }

    pub fn read_oam(&self, addr: u16) -> (r: u8)
        requires
            0xFE00 <= addr < 0xFEA0,
        ensures
            r == self.oam_byte(addr),
    {
        if self.lcd_status.ppu_mode().as_number() >= 2 {
            // The attributes are out of reach while they are searched and
            // while pixels are drawn.
            return 0xFF;
        }
        self.oam[(addr - OAM_START) as usize]
    }

    pub fn write_oam(&mut self, addr: u16, value: u8)
        requires
            0xFE00 <= addr < 0xFEA0,
        ensures
            *final(self) == old(self).with_oam(addr, value),
            old(self).wf() ==> final(self).wf(),
    {
        if self.lcd_status.ppu_mode().as_number() >= 2 {
            return ;
        }
        self.oam[(addr - OAM_START) as usize] = value;
    }

    /// The attributes of object `index`, whatever the mode.
    pub fn object(&self, index: usize) -> (r: ObjAttr)
        requires
            index < 40,
        ensures
            r == ObjAttr::of_bytes(
                self.oam[4 * index],
                self.oam[4 * index + 1],
                self.oam[4 * index + 2],
                self.oam[4 * index + 3],
            ),
    {
        let base = 4 * index;
        ObjAttr {
            y_position: self.oam[base],
            x_position: self.oam[base + 1],
            tile_index: self.oam[base + 2],
            flags: crate::gpu::oam::ObjFlags(self.oam[base + 3]),
        }
    }

    /// Where in the background map the top left pixel of the screen's last
    /// line and column lies, the map wrapping at 256.
    pub fn real_background_coords(&self) -> (r: (u16, u16))
        ensures
            r.0 == (self.background_y + 143) % 256,
            r.1 == (self.background_x + 159) % 256,
    {
        ((self.background_y as u16 + 143) % 256, (self.background_x as u16 + 159) % 256)
    }

    pub fn read_register(&self, addr: u16) -> (r: u8)
        requires
            addr <= 0xB,
        ensures
            r == self.register(addr as int),
    {
        match addr {
            0x00 => self.lcd_control.0.0,
            0x01 => self.lcd_status.0.0,
            0x02 => self.background_y,
            0x03 => self.background_x,
            0x04 => self.lcd_y,
            0x05 => self.lcd_y_compare,
            0x06 => self.dma,
            0x07 => self.background_palette.0.0,
            0x08 => self.object_palette0.0.0,
            0x09 => self.object_palette1.0.0,
            0x0A => self.window_y,
            _ => self.window_x,
        }
    }

    #[verifier::rlimit(30)]
    pub fn write_register(&mut self, addr: u16, val: u8)
        requires
            addr <= 0xB,
            old(self).wf(),
        ensures
            final(self).wf(),
            *final(self) == old(self).written(addr as int, val),
    {
        match addr {
            0x00 => {
                let was_on = self.lcd_control.lcd_enabled();
                self.lcd_control = LcdControl(BitFlags8(val));
                if !self.lcd_control.lcd_enabled() {
                    self.lcd_status.set_ppu_mode(PpuMode::Mode0);
                    self.lcd_y = 0;
                    self.dots = 0;
                } else if !was_on {
                    self.lcd_status.set_ppu_mode(PpuMode::Mode2);
                }
            },
            0x01 => self.lcd_status.write(val),
            0x02 => self.background_y = val,
            0x03 => self.background_x = val,
            // LY is read-only.
            0x04 => (),
            0x05 => self.lcd_y_compare = val,
            0x06 => self.dma = val,
            0x07 => self.background_palette = PaletteIds(BitFlags8(val)),
            0x08 => self.object_palette0 = PaletteIds(BitFlags8(val)),
            0x09 => self.object_palette1 = PaletteIds(BitFlags8(val)),
            0x0A => self.window_y = val,
            _ => self.window_x = val,
        }
    }

    fn mode_for(line: u8, dot: u16) -> (r: PpuMode)
        ensures
            r == mode_at(line as int, dot as int),
    {
        if line >= 144 {
            PpuMode::Mode1
        } else if dot < 80 {
            PpuMode::Mode2
        } else if dot < 252 {
            PpuMode::Mode3
        } else {
            PpuMode::Mode0
        }
    }

    /// Advances the processor by one master tick.
    #[verifier::rlimit(30)]
    pub fn step_dot(&mut self)
        requires
            old(self).wf(),
        ensures
            final(self).wf(),
            *final(self) == old(self).after_dot(),
    {
        if !self.lcd_control.lcd_enabled() {
            return ;
        }
        let wraps = self.dots + 1 == DOTS_PER_LINE;
        if wraps {
            self.dots = 0;
            self.lcd_y = if self.lcd_y + 1 == LINES_PER_FRAME { 0 } else { self.lcd_y + 1 };
        } else {
            self.dots = self.dots + 1;
        }
        let mode = Self::mode_for(self.lcd_y, self.dots);
        let old_mode = self.lcd_status.ppu_mode();
        let entered = mode.as_number() != old_mode.as_number();
        let meets = wraps && self.lcd_y == self.lcd_y_compare;
        let asks = (entered && mode.as_number() == 0 && self.lcd_status.interrupt_if_mode0()) || (
        entered && mode.as_number() == 1 && self.lcd_status.interrupt_if_mode1()) || (entered
            && mode.as_number() == 2 && self.lcd_status.interrupt_if_mode2()) || (meets
            && self.lcd_status.interrupt_if_lyc_equals_ly());
        self.lcd_status.set_ppu_mode(mode);
        if wraps {
            self.lcd_status.set_lyc_equals_ly(self.lcd_y == self.lcd_y_compare);
        }
        if entered && mode.as_number() == 1 {
            self.vblank_interrupt = true;
        }
        if asks {
            self.stat_interrupt = true;
        }
    }

    /// Advances the processor by the ticks of one instruction.
    pub fn tick(&mut self, ticks: u8)
        requires
            old(self).wf(),
        ensures
            final(self).wf(),
            *final(self) == old(self).advanced(ticks as nat),
    {
        let mut done: u8 = 0;
        while done < ticks
            invariant
                done <= ticks,
                self.wf(),
                *self == old(self).advanced(done as nat),
            decreases ticks - done,
        {
            self.step_dot();
            done = done + 1;
        }
    }

    pub fn set_vblank_interrupt(&mut self, pending: bool)
        ensures
            *final(self) == (Gpu { vblank_interrupt: pending, ..*old(self) }),
            old(self).wf() ==> final(self).wf(),
    {
        self.vblank_interrupt = pending;
    }

    pub fn set_stat_interrupt(&mut self, pending: bool)
        ensures
            *final(self) == (Gpu { stat_interrupt: pending, ..*old(self) }),
            old(self).wf() ==> final(self).wf(),
    {
        self.stat_interrupt = pending;
    }
}

/// A register of the pixel processor that only stores reads back as
/// written; the status keeps its two low bits, the line stays as it is.
pub proof fn lemma_registers_read_back(gpu: Gpu, idx: int, val: u8)
    requires
        gpu.wf(),
        0 <= idx <= 0xB,
    ensures
        idx != 1 && idx != 4 ==> gpu.written(idx, val).register(idx) == val,
        idx == 1 ==> gpu.written(idx, val).register(idx) == (val / 4) * 4 + gpu.register(idx) % 4,
        idx == 4 ==> gpu.written(idx, val).register(idx) == gpu.register(idx),
{
    if idx == 1 {
        let mode = gpu.lcd_status.0.0;
        assert(crate::bitflags::with_field(val, 0, 1, crate::bitflags::field_of(mode, 0, 1) as u8)
            == (val / 4) * 4 + mode % 4) by (bit_vector);
    }
}

/// While the LCD is off the processor rests: it is in horizontal blank on
/// line 0, and stays there however many ticks pass. Switching the LCD off
/// puts it there.
#[verifier::rlimit(40)]
pub proof fn lemma_lcd_off_rests(gpu: Gpu, val: u8, ticks: nat)
    requires
        gpu.wf(),
    ensures
        !gpu.lcd_control.enabled_spec() ==> gpu.lcd_status.mode() == PpuMode::Mode0 && gpu.lcd_y
            == 0,
        !gpu.lcd_control.enabled_spec() ==> gpu.advanced(ticks) == gpu,
        !bit_of(val, 7) ==> gpu.written(0, val).lcd_status.mode() == PpuMode::Mode0 && gpu.written(
            0,
            val,
        ).lcd_y == 0 && !gpu.written(0, val).lcd_control.enabled_spec(),
    decreases ticks,
{
    if ticks > 0 {
        lemma_lcd_off_rests(gpu, val, (ticks - 1) as nat);
    }
    if !bit_of(val, 7) {
        let status = gpu.lcd_status.0.0;
        assert(crate::bitflags::field_of(crate::bitflags::with_field(status, 0, 1, 0u8) as u8, 0, 1)
            == 0) by (bit_vector);
    }
}

} // verus!
