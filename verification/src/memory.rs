//! Memory ranges with read-only, write-only and read-write access, and the
//! cartridge read-only memory that they hold.
pub mod memory;
pub mod cartridge;
