//! Small helpers shared by the processor and the memory map.
pub mod bit_op;
pub mod slices;
pub mod text;
pub mod memory_op;
