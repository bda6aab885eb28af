//! The processor: register file, interrupt flags and instruction set.
pub mod registers;
pub mod interrupt_controller;
pub mod bus;
pub mod cpu;
pub mod opcodes;
