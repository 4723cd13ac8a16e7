//! Cycle-driven core of an emulator for the first, monochrome model of a
//! handheld console: CPU, memory bus, cartridge controllers, timer, keypad, sound and
//! pixel-processor registers, each advanced by master-clock ticks.

pub mod apu;
pub mod bitflags;
pub mod bitmap;
pub mod cartridge;
pub mod cpu;
pub mod emulator;
pub mod error;
pub mod gpu;
pub mod hardware;
pub mod interrupt;
pub mod keypad;
pub mod timer;
