//! The frame driver: it steps the processor and lets the peripherals catch
//! up, until the master ticks of one frame are spent.

use crate::apu::MASTER_CLOCK;
use crate::cartridge::Cartridge;
use crate::cpu::Cpu;
use crate::hardware::Hardware;
use crate::keypad::Button;
use vstd::prelude::*;

verus! {

/// Target framerate for the emulator, in frames per second.
pub const FRAMERATE: u32 = 60;

/// Master ticks that one frame lasts.
pub const TICKS_PER_FRAME: u32 = MASTER_CLOCK / FRAMERATE;

/// What one run of `process_frame` did.
#[derive(Clone, Copy, Debug, PartialEq, Eq, Structural)]
pub struct FrameStats {
    /// Master ticks that were spent.
    pub ticks: u32,
    /// Steps of the processor that were made.
    pub steps: u32,
}

pub struct Emulator {
    pub cpu: Cpu,
    pub hw: Hardware,
}

impl Emulator {
    pub open spec fn wf(self) -> bool {
        self.hw.wf()
    }

    /// The emulator one step of the processor later, the master ticks that
    /// the step took, and the samples that came out. A DMA copy that the
    /// step started is part of the step. The peripherals catch up in a
    /// fixed order: timer, sound, pixels.
    #[verifier::opaque]
    pub open spec fn stepped(self) -> (Emulator, u8, Seq<(u8, u8)>) {
        let (cpu, hw, cpu_ticks) = self.cpu.stepped(self.hw);
        let ticks = (cpu_ticks + hw.dma_ticks) as u8;
        let (apu, made) = hw.apu.advanced(ticks as int);
        (
            Emulator {
                cpu,
                hw: Hardware {
                    dma_ticks: 0,
                    timer: hw.timer.advanced(ticks as int),
                    apu,
                    gpu: hw.gpu.advanced(ticks as nat),
                    ..hw
                },
            },
            ticks,
            made,
        )
    }

    /// The emulator `steps` steps later, the master ticks that they took,
    /// and the samples that came out, in their order.
    pub open spec fn after_steps(self, steps: nat) -> (Emulator, int, Seq<(u8, u8)>)
        decreases steps,
    {
        if steps == 0 {
            (self, 0, Seq::empty())
        } else {
            let (before, ticks, samples) = self.after_steps((steps - 1) as nat);
            let (after, step_ticks, made) = before.stepped();
            (after, ticks + step_ticks, samples + made)
        }
    }

    /// The emulator at power-on, with `boot_rom` as the program that runs
    /// first.
    pub fn new(boot_rom: [u8; 256]) -> (r: Self)
        ensures
            r.wf(),
            r.cpu == Cpu::initial(),
            r.hw.is_initial(boot_rom),
    {
        Emulator { cpu: Cpu::new(), hw: Hardware::new(boot_rom) }
    }

    pub fn insert_cartridge(&mut self, cart: Cartridge)
        requires
            cart.wf(),
            old(self).wf(),
        ensures
            final(self).wf(),
            final(self).cpu == old(self).cpu,
            final(self).hw == (Hardware { cartridge: Some(cart), ..old(self).hw }),
    {
        self.hw.insert_cartridge(cart);
    }

    pub fn set_pressed(&mut self, button: Button, pressed: bool)
        requires
            old(self).wf(),
        ensures
            final(self).wf(),
            final(self).cpu == old(self).cpu,
            final(self).hw == (Hardware {
                keypad: old(self).hw.keypad.after_press(button, pressed),
                ..old(self).hw
            }),
    {
        proof {
            reveal(Hardware::wf);
        }
        self.hw.keypad.set_pressed(button, pressed);
    }

    /// Makes one step of the processor and lets the peripherals catch up.
    /// Returns the master ticks that passed. The samples that come out are
    /// appended to `samples`.
    #[verifier::rlimit(30)]
    pub fn step(&mut self, samples: &mut Vec<(u8, u8)>) -> (r: u8)
        requires
            old(self).wf(),
        ensures
            final(self).wf(),
            (*final(self), r, final(samples)@) == ({
                let (emulator, ticks, made) = old(self).stepped();
                (emulator, ticks, old(samples)@ + made)
            }),
            4 <= r,
    {
        let cpu_ticks = self.cpu.tick(&mut self.hw);
        proof {
            reveal(Hardware::wf);
            reveal(Emulator::stepped);
        }
        let dma_ticks = self.hw.take_dma_ticks();
        let ticks: u8 = (cpu_ticks as u16 + dma_ticks) as u8;
        self.hw.timer.tick(ticks);
        self.hw.apu.tick(ticks, samples);
        self.hw.gpu.tick(ticks);
        ticks
    }

    /// Runs the processor and the peripherals until the master ticks of one
    /// frame are spent. The samples that come out are appended to `samples`.
    #[verifier::rlimit(30)]
    pub fn process_frame(&mut self, samples: &mut Vec<(u8, u8)>) -> (r: FrameStats)
        requires
            old(self).wf(),
        ensures
            final(self).wf(),
            r.steps >= 1,
            r.ticks >= TICKS_PER_FRAME,
            (*final(self), r.ticks as int, final(samples)@) == ({
                let (emulator, ticks, made) = old(self).after_steps(r.steps as nat);
                (emulator, ticks, old(samples)@ + made)
            }),
            old(self).after_steps((r.steps - 1) as nat).1 < TICKS_PER_FRAME,
    {
        let mut total_ticks: u32 = 0;
        let mut steps: u32 = 0;
        let ghost mut made: Seq<(u8, u8)> = Seq::empty();
        assert(old(samples)@ + made =~= old(samples)@);
        while total_ticks < TICKS_PER_FRAME
            invariant
                self.wf(),
                total_ticks < TICKS_PER_FRAME + 256,
                4 * steps <= total_ticks,
                (*self, total_ticks as int, made) == old(self).after_steps(steps as nat),
                samples@ == old(samples)@ + made,
                steps > 0 ==> old(self).after_steps((steps - 1) as nat).1 < TICKS_PER_FRAME,
            decreases TICKS_PER_FRAME + 256 - total_ticks,
        {
            let ghost before = *self;
            let ghost had = samples@;
            let ticks = self.step(samples);
            proof {
                let step_made = before.stepped().2;
                assert(samples@ == had + step_made);
                assert(samples@ =~= old(samples)@ + (made + step_made));
                assert(old(self).after_steps((steps + 1) as nat) == (
                    *self,
                    total_ticks + ticks,
                    made + step_made,
                ));
                made = made + step_made;
            }
            total_ticks = total_ticks + ticks as u32;
            steps = steps + 1;
        }
        FrameStats { ticks: total_ticks, steps }
    }
}

} // verus!
