//! The emulator that a front end drives.
pub mod gameboy;
