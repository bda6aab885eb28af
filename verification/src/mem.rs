//! Address ranges of memory and the cartridge that plugs into them.
pub mod memory;
pub mod cartridge;
