//! Reading and writing a memory where the access must succeed.
use vstd::prelude::*;
use crate::mem::memory::MapsMemory;
use crate::processor::registers::pair;

verus! {

/// `address` can be read and gives a byte.
pub open spec fn readable<M: MapsMemory>(memory: &M, address: u16) -> bool {
    memory.read_defined(address) && memory.read_spec(address) is Ok
}

/// The byte that a readable address gives.
pub open spec fn byte_at<M: MapsMemory>(memory: &M, address: u16) -> u8 {
    memory.read_spec(address)->Ok_0
}

/// `address` can be written with `value` and the write succeeds.
pub open spec fn writable<M: MapsMemory>(memory: &M, address: u16, value: u8) -> bool {
    memory.write_defined(address, value) && memory.write_spec(address, value) is Ok
}

/// Writes `value` at `address`; the write must succeed.
pub fn write_memory<M: MapsMemory>(memory: &mut M, address: u16, value: u8)
    requires
        old(memory).wf(),
        writable(old(memory), address, value),
    ensures
        final(memory).wf(),
        old(memory).written(final(memory), address, value),
{
    memory.write(address, value).unwrap()
}

/// The byte at `address`; the read must succeed.
pub fn read_memory<M: MapsMemory>(memory: &M, address: u16) -> (r: u8)
    requires
        memory.wf(),
        readable(memory, address),
    ensures
        r == byte_at(memory, address),
{
    memory.read(address).unwrap()
}

/// The byte after `address`.
pub fn read_memory_following_u8<M: MapsMemory>(memory: &M, address: u16) -> (r: u8)
    requires
        memory.wf(),
        address < 0xFFFF,
        readable(memory, (address + 1) as u16),
    ensures
        r == byte_at(memory, (address + 1) as u16),
{
    memory.read(address + 1).unwrap()
}

/// The 16-bit value in the two bytes after `address`, the low byte first.
pub fn read_memory_following_u16<M: MapsMemory>(memory: &M, address: u16) -> (r: u16)
    requires
        memory.wf(),
        address < 0xFFFE,
        readable(memory, (address + 1) as u16),
        readable(memory, (address + 2) as u16),
    ensures
        r == pair(byte_at(memory, (address + 2) as u16), byte_at(memory, (address + 1) as u16)),
{
    let hi = memory.read(address + 2).unwrap();
    let lo = memory.read(address + 1).unwrap();
    assert(((hi as u16) << 8u16) as int + lo as int <= 0xFFFF) by (bit_vector);
    assert(((hi as u16) << 8u16) + (lo as u16) == (hi as u16) * 256 + (lo as u16)) by (bit_vector);
    ((hi as u16) << 8) + lo as u16
}

/// Pushes `value` below the stack pointer `sp`: the high byte at `sp - 1`,
/// the low byte at `sp - 2`.
pub fn push_u16_stack<M: MapsMemory>(memory: &mut M, value: u16, sp: u16)
    requires
        old(memory).wf(),
        sp >= 2,
        writable(old(memory), (sp - 1) as u16, (value / 256) as u8),
        forall|m: M| #[trigger] old(memory).written(&m, (sp - 1) as u16, (value / 256) as u8) && m.wf()
            ==> writable(&m, (sp - 2) as u16, (value % 256) as u8),
    ensures
        final(memory).wf(),
        exists|m: M| #[trigger] old(memory).written(&m, (sp - 1) as u16, (value / 256) as u8)
            && m.written(final(memory), (sp - 2) as u16, (value % 256) as u8),
{
    assert(((value >> 8u16) & 0xFF) as u8 == value / 256) by (bit_vector);
    assert((value & 0xFF) as u8 == value % 256) by (bit_vector);
    let ghost before = *memory;
    memory.write(sp - 1, ((value >> 8) & 0xFF) as u8).unwrap();
    let ghost middle = *memory;
    memory.write(sp - 2, (value & 0xFF) as u8).unwrap();
    assert(before.written(&middle, (sp - 1) as u16, (value / 256) as u8));
}

/// The 16-bit value at the stack pointer `sp`: the low byte at `sp`, the
/// high byte at `sp + 1`.
pub fn pop_u16_stack<M: MapsMemory>(memory: &mut M, sp: u16) -> (r: u16)
    requires
        old(memory).wf(),
        sp < 0xFFFF,
        readable(old(memory), sp),
        readable(old(memory), (sp + 1) as u16),
    ensures
        *final(memory) == *old(memory),
        r == pair(byte_at(old(memory), (sp + 1) as u16), byte_at(old(memory), sp)),
{
    let val_lo = memory.read(sp).unwrap();
    let val_hi = memory.read(sp + 1).unwrap();
    assert(((val_hi as u16) << 8u16) as int + val_lo as int <= 0xFFFF) by (bit_vector);
    assert(((val_hi as u16) << 8u16) + (val_lo as u16) == (val_hi as u16) * 256 + (val_lo as u16)) by (bit_vector);
    ((val_hi as u16) << 8) + val_lo as u16
}

} // verus!
