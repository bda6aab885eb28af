//! Memory that answers for one range of addresses, with three kinds of access.
use vstd::prelude::*;
pub use crate::mem::memory::MapsMemory;
use crate::mem::memory::{Access, MemView, MemoryInternal, RegionView};

verus! {

/// A memory that can only be read.
pub struct ReadOnly {
    memory: MemoryInternal,
}

/// A memory that can only be written.
pub struct WriteOnly {
    memory: MemoryInternal,
}

/// A memory that can be read and written.
pub struct ReadWrite {
    memory: MemoryInternal,
}

impl View for ReadOnly {
    type V = RegionView;

    closed spec fn view(&self) -> RegionView {
        self.memory@
    }
}

impl View for WriteOnly {
    type V = RegionView;

    closed spec fn view(&self) -> RegionView {
        self.memory@
    }
}

impl View for ReadWrite {
    type V = RegionView;

    closed spec fn view(&self) -> RegionView {
        self.memory@
    }
}

impl ReadOnly {
    /// The byte at `address`, which lies in the range.
    pub fn read(&self, address: u16) -> (r: u8)
        requires
            self@.wf(),
            self@.contains(address),
        ensures
            r == self@.get(address),
    {
        let offset = self.memory.from();
        self.memory.read(address - offset)
    }
}

impl WriteOnly {
    /// Replaces the byte at `address`, which lies in the range.
    pub fn write(&mut self, address: u16, value: u8)
        requires
            old(self)@.wf(),
            old(self)@.contains(address),
        ensures
            final(self)@ == old(self)@.store(address, value),
    {
        let offset = self.memory.from();
        self.memory.write(address - offset, value)
    }
}

impl ReadWrite {
    /// The byte at `address`, which lies in the range.
    pub fn read(&self, address: u16) -> (r: u8)
        requires
            self@.wf(),
            self@.contains(address),
        ensures
            r == self@.get(address),
    {
        let offset = self.memory.from();
        self.memory.read(address - offset)
    }

    /// Replaces the byte at `address`, which lies in the range.
    pub fn write(&mut self, address: u16, value: u8)
        requires
            old(self)@.wf(),
            old(self)@.contains(address),
        ensures
            final(self)@ == old(self)@.store(address, value),
    {
        let offset = self.memory.from();
        self.memory.write(address - offset, value)
    }
}

/// A memory over one address range.
pub enum Memory {
    ReadOnly { memory: ReadOnly },
    WriteOnly { memory: WriteOnly },
    ReadWrite { memory: ReadWrite },
}

impl View for Memory {
    type V = MemView;

    open spec fn view(&self) -> MemView {
        match self {
            Memory::ReadOnly { memory } => MemView { access: Access::ReadOnly, region: memory@ },
            Memory::WriteOnly { memory } => MemView { access: Access::WriteOnly, region: memory@ },
            Memory::ReadWrite { memory } => MemView { access: Access::ReadWrite, region: memory@ },
        }
    }
}

impl Memory {
    /// A read-only memory over `from..=to` holding `values` from `from` on, zero after them.
    pub fn new_read_only(values: &[u8], from: u16, to: u16) -> (r: Memory)
        requires
            from <= to,
            values@.len() <= to - from + 1,
        ensures
            r@ == (MemView { access: Access::ReadOnly, region: RegionView::filled(values@, from, to) }),
            r.wf(),
    {
        let memory = ReadOnly { memory: MemoryInternal::new(values, from, to) };
        Memory::ReadOnly { memory }
    }

    /// A write-only memory over `from..=to` holding `values` from `from` on, zero after them.
    pub fn new_write_only(values: &[u8], from: u16, to: u16) -> (r: Memory)
        requires
            from <= to,
            values@.len() <= to - from + 1,
        ensures
            r@ == (MemView { access: Access::WriteOnly, region: RegionView::filled(values@, from, to) }),
            r.wf(),
    {
        let memory = WriteOnly { memory: MemoryInternal::new(values, from, to) };
        Memory::WriteOnly { memory }
    }

    /// A read-write memory over `from..=to` holding `values` from `from` on, zero after them.
    pub fn new_read_write(values: &[u8], from: u16, to: u16) -> (r: Memory)
        requires
            from <= to,
            values@.len() <= to - from + 1,
        ensures
            r@ == (MemView { access: Access::ReadWrite, region: RegionView::filled(values@, from, to) }),
            r.wf(),
    {
        let memory = ReadWrite { memory: MemoryInternal::new(values, from, to) };
        Memory::ReadWrite { memory }
    }
}

impl MapsMemory for Memory {
    open spec fn wf(&self) -> bool {
        self@.region.wf()
    }

    open spec fn read_defined(&self, address: u16) -> bool {
        self@.access != Access::WriteOnly ==> self@.region.contains(address)
    }

    open spec fn read_spec(&self, address: u16) -> Result<u8, ()> {
        if self@.access == Access::WriteOnly { Err(()) } else { Ok(self@.region.get(address)) }
    }

    open spec fn write_defined(&self, address: u16, value: u8) -> bool {
        self@.access != Access::ReadOnly ==> self@.region.contains(address)
    }

    open spec fn write_spec(&self, address: u16, value: u8) -> Result<(), ()> {
        if self@.access == Access::ReadOnly { Err(()) } else { Ok(()) }
    }

    open spec fn written(&self, after: &Self, address: u16, value: u8) -> bool {
        if self@.access == Access::ReadOnly {
            after@ == self@
        } else {
            after@ == (MemView { access: self@.access, region: self@.region.store(address, value) })
        }
    }

    open spec fn in_range(&self, address: u16) -> bool {
        self@.region.contains(address)
    }

    fn read(&self, address: u16) -> (r: Result<u8, ()>) {
        match self {
            Memory::ReadOnly { memory } => Ok(memory.read(address)),
            Memory::ReadWrite { memory } => Ok(memory.read(address)),
            Memory::WriteOnly { .. } => Err(()),
        }
    }

    fn write(&mut self, address: u16, value: u8) -> (r: Result<(), ()>) {
        match self {
            Memory::WriteOnly { memory } => {
                memory.write(address, value);
                Ok(())
            },
            Memory::ReadWrite { memory } => {
                memory.write(address, value);
                Ok(())
            },
            Memory::ReadOnly { .. } => Err(()),
        }
    }

    fn is_in_range(&self, address: u16) -> (r: bool) {
        let memory = match self {
            Memory::ReadOnly { memory } => &memory.memory,
            Memory::WriteOnly { memory } => &memory.memory,
            Memory::ReadWrite { memory } => &memory.memory,
        };
        memory.from() <= address && address <= memory.to()
    }
}

} // verus!
