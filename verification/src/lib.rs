//! A Game Boy emulator core: registers and instruction set of the processor,
//! the memory map with its cartridge bank controllers, and the pixel pipeline.
pub mod util;
pub mod processor;
pub mod mem;
pub mod memory;
pub mod rom;
pub mod memory_map;
pub mod gpu;
pub mod debug;
pub mod emulator;


pub use mem::cartridge::Cartridge;
pub use emulator::gameboy::{Emulator, Gameboy};
