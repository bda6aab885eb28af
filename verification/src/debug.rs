//! Debugging views of the emulator.
pub mod vram_fetcher;
