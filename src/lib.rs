//! A Game Boy (DMG) and Game Boy Color core: the LR35902 interpreter with its interrupt
//! dispatch, the memory bus, the pixel processing unit, the timers, OAM DMA, the joypad
//! register and the ROM-only, MBC1 and MBC5 cartridge controllers. `System::tick` runs
//! the machine for one frame and hands the frame buffer to the caller.
use vstd::prelude::*;

pub mod bits;
pub mod error;
pub mod header;
pub mod rom_only;
pub mod mbc1;
pub mod mbc5;
pub mod cartridge;
pub mod memory;
pub mod interrupt;
pub mod lcd;
pub mod colors;
pub mod vram;
pub mod oam;
pub mod mmu;
pub mod regs;
pub mod cpu;
pub mod ops;
pub mod cb;
pub mod exec;
pub mod screen;
pub mod gpu;
pub mod timers;
pub mod dma;
pub mod system;

pub use crate::error::CoreError;
pub use crate::screen::Screen;
pub use crate::system::System;

verus! {

pub const KEY_A: u8 = 0b00000001;
pub const KEY_B: u8 = 0b00000010;
pub const KEY_SELECT: u8 = 0b00000100;
pub const KEY_START: u8 = 0b00001000;
pub const KEY_RIGHT: u8 = 0b00010000;
pub const KEY_LEFT: u8 = 0b00100000;
pub const KEY_UP: u8 = 0b01000000;
pub const KEY_DOWN: u8 = 0b10000000;

} // verus!
