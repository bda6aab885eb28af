//! Memory that answers for one range of addresses.
use vstd::prelude::*;

verus! {

/// The bytes of one address range `from..=to`; `data[i]` is the byte at `from + i`.
pub struct RegionView {
    pub from: u16,
    pub to: u16,
    pub data: Seq<u8>,
}

impl RegionView {
    pub open spec fn wf(self) -> bool {
        &&& self.from <= self.to
        &&& self.data.len() == self.to - self.from + 1
    }

    pub open spec fn contains(self, address: u16) -> bool {
        self.from <= address <= self.to
    }

    /// The byte at `address`.
    pub open spec fn get(self, address: u16) -> u8 {
        self.data[address - self.from]
    }

    /// The range with the byte at `address` replaced.
    pub open spec fn store(self, address: u16, value: u8) -> RegionView {
        RegionView { data: self.data.update(address - self.from, value), ..self }
    }

    /// The range `from..=to` holding `values` from its start and zero after them.
    pub open spec fn filled(values: Seq<u8>, from: u16, to: u16) -> RegionView {
        RegionView {
            from,
            to,
            data: Seq::new((to - from + 1) as nat, |i: int| if i < values.len() { values[i] } else { 0u8 }),
        }
    }
}

/// Whether a memory can be read, written or both.
#[derive(PartialEq, Eq, Structural, Copy, Clone, Debug)]
pub enum Access {
    ReadOnly,
    WriteOnly,
    ReadWrite,
}

/// What a memory is: its access and its bytes.
pub struct MemView {
    pub access: Access,
    pub region: RegionView,
}

/// A memory that the processor reaches through the address bus.
///
/// `read` and `write` may only be called where `read_defined` and
/// `write_defined` hold; elsewhere the memory would stop the emulator.
pub trait MapsMemory: Sized {
    /// The invariant of the memory.
    spec fn wf(&self) -> bool;

    /// `read(address)` returns rather than stops.
    spec fn read_defined(&self, address: u16) -> bool;

    /// What `read(address)` returns.
    spec fn read_spec(&self, address: u16) -> Result<u8, ()>;

    /// `write(address, value)` returns rather than stops.
    spec fn write_defined(&self, address: u16, value: u8) -> bool;

    /// What `write(address, value)` returns.
    spec fn write_spec(&self, address: u16, value: u8) -> Result<(), ()>;

    /// `after` is what `write(address, value)` leaves of this memory.
    spec fn written(&self, after: &Self, address: u16, value: u8) -> bool;

    /// What `is_in_range(address)` returns.
    spec fn in_range(&self, address: u16) -> bool;

    fn read(&self, address: u16) -> (r: Result<u8, ()>)
        requires
            self.wf(),
            self.read_defined(address),
        ensures
            r == self.read_spec(address),
    ;

    fn write(&mut self, address: u16, value: u8) -> (r: Result<(), ()>)
        requires
            old(self).wf(),
            old(self).write_defined(address, value),
        ensures
            final(self).wf(),
            old(self).written(final(self), address, value),
            r == old(self).write_spec(address, value),
    ;

    fn is_in_range(&self, address: u16) -> (r: bool)
        requires
            self.wf(),
        ensures
            r == self.in_range(address),
    ;
}

/// The bytes of one address range.
#[derive(Debug)]
pub struct MemoryInternal {
    from: u16,
    to: u16,
    memory: Vec<u8>,
}

impl View for MemoryInternal {
    type V = RegionView;

    closed spec fn view(&self) -> RegionView {
        RegionView { from: self.from, to: self.to, data: self.memory@ }
    }
}

impl MemoryInternal {
    /// The range `from..=to` holding `values` from its start, zero after them.
    pub fn new(values: &[u8], from: u16, to: u16) -> (r: MemoryInternal)
        requires
            from <= to,
            values@.len() <= to - from + 1,
        ensures
            r@ == RegionView::filled(values@, from, to),
            r@.wf(),
    {
        let len: usize = ((to - from) as usize) + 1;
        let mut memory: Vec<u8> = Vec::new();
        let mut i: usize = 0;
        while i < len
            invariant
                len == to - from + 1,
                values@.len() <= len,
                i <= len,
                memory@.len() == i,
                forall|j: int| 0 <= j < i ==> memory@[j] == (if j < values@.len() { values@[j] } else { 0u8 }),
            decreases len - i,
        {
            if i < values.len() {
                memory.push(values[i]);
            } else {
                memory.push(0);
            }
            i = i + 1;
        }
        let r = MemoryInternal { from, to, memory };
        assert(r@.data =~= RegionView::filled(values@, from, to).data);
        r
    }

    /// The byte at offset `address` from the start of the range.
    pub fn read(&self, address: u16) -> (r: u8)
        requires
            (address as int) < self@.data.len(),
        ensures
            r == self@.data[address as int],
    {
        self.memory[address as usize]
    }

    /// Replaces the byte at offset `address` from the start of the range.
    pub fn write(&mut self, address: u16, value: u8)
        requires
            (address as int) < old(self)@.data.len(),
        ensures
            final(self)@ == (RegionView { data: old(self)@.data.update(address as int, value), ..old(self)@ }),
    {
        self.memory.set(address as usize, value);
    }

    pub fn from(&self) -> (r: u16)
        ensures
            r == self@.from,
    {
        self.from
    }

    pub fn to(&self) -> (r: u16)
        ensures
            r == self@.to,
    {
        self.to
    }
}

/// A memory that can only be read.
#[derive(Debug)]
pub struct ReadOnly {
    memory: MemoryInternal,
}

/// A memory that can be read and written.
#[derive(Debug)]
pub struct ReadWrite {
    memory: MemoryInternal,
}

impl View for ReadOnly {
    type V = RegionView;

    closed spec fn view(&self) -> RegionView {
        self.memory@
    }
}

impl View for ReadWrite {
    type V = RegionView;

    closed spec fn view(&self) -> RegionView {
        self.memory@
    }
}

impl ReadOnly {
    /// The byte at `address`, which lies in the range.
    pub fn read(&self, address: u16) -> (r: u8)
        requires
            self@.wf(),
            self@.contains(address),
        ensures
            r == self@.get(address),
    {
        let offset = self.memory.from();
        self.memory.read(address - offset)
    }
}

impl ReadWrite {
    /// The byte at `address`, which lies in the range.
    pub fn read(&self, address: u16) -> (r: u8)
        requires
            self@.wf(),
            self@.contains(address),
        ensures
            r == self@.get(address),
    {
        let offset = self.memory.from();
        self.memory.read(address - offset)
    }

    /// Replaces the byte at `address`, which lies in the range.
    pub fn write(&mut self, address: u16, value: u8)
        requires
            old(self)@.wf(),
            old(self)@.contains(address),
        ensures
            final(self)@ == old(self)@.store(address, value),
    {
        let offset = self.memory.from();
        self.memory.write(address - offset, value)
    }
}

/// A memory over one address range, read-only or read-write.
#[derive(Debug)]
pub enum Memory {
    ReadOnly { memory: ReadOnly },
    ReadWrite { memory: ReadWrite },
}

impl View for Memory {
    type V = MemView;

    open spec fn view(&self) -> MemView {
        match self {
            Memory::ReadOnly { memory } => MemView { access: Access::ReadOnly, region: memory@ },
            Memory::ReadWrite { memory } => MemView { access: Access::ReadWrite, region: memory@ },
        }
    }
}

impl Memory {
    /// A read-only memory over `from..=to` holding `values` from `from` on, zero after them.
    pub fn new_read_only(values: &[u8], from: u16, to: u16) -> (r: Memory)
        requires
            from <= to,
            values@.len() <= to - from + 1,
        ensures
            r@ == (MemView { access: Access::ReadOnly, region: RegionView::filled(values@, from, to) }),
            r.wf(),
    {
        let memory = ReadOnly { memory: MemoryInternal::new(values, from, to) };
        Memory::ReadOnly { memory }
    }

    /// A read-write memory over `from..=to` holding `values` from `from` on, zero after them.
    pub fn new_read_write(values: &[u8], from: u16, to: u16) -> (r: Memory)
        requires
            from <= to,
            values@.len() <= to - from + 1,
        ensures
            r@ == (MemView { access: Access::ReadWrite, region: RegionView::filled(values@, from, to) }),
            r.wf(),
    {
        let memory = ReadWrite { memory: MemoryInternal::new(values, from, to) };
        Memory::ReadWrite { memory }
    }
}

impl MapsMemory for Memory {
    open spec fn wf(&self) -> bool {
        self@.region.wf()
    }

    open spec fn read_defined(&self, address: u16) -> bool {
        self@.region.contains(address)
    }

    open spec fn read_spec(&self, address: u16) -> Result<u8, ()> {
        Ok(self@.region.get(address))
    }

    open spec fn write_defined(&self, address: u16, value: u8) -> bool {
        self@.access == Access::ReadWrite ==> self@.region.contains(address)
    }

    open spec fn write_spec(&self, address: u16, value: u8) -> Result<(), ()> {
        if self@.access == Access::ReadWrite { Ok(()) } else { Err(()) }
    }

    open spec fn written(&self, after: &Self, address: u16, value: u8) -> bool {
        if self@.access == Access::ReadWrite {
            after@ == (MemView { access: Access::ReadWrite, region: self@.region.store(address, value) })
        } else {
            after@ == self@
        }
    }

    open spec fn in_range(&self, address: u16) -> bool {
        self@.region.contains(address)
    }

    fn read(&self, address: u16) -> (r: Result<u8, ()>) {
        match self {
            Memory::ReadOnly { memory } => Ok(memory.read(address)),
            Memory::ReadWrite { memory } => Ok(memory.read(address)),
        }
    }

    fn write(&mut self, address: u16, value: u8) -> (r: Result<(), ()>) {
        match self {
            Memory::ReadWrite { memory } => {
                memory.write(address, value);
                Ok(())
            },
            Memory::ReadOnly { .. } => Err(()),
        }
    }

    fn is_in_range(&self, address: u16) -> (r: bool) {
        let memory = match self {
            Memory::ReadOnly { memory } => &memory.memory,
            Memory::ReadWrite { memory } => &memory.memory,
        };
        memory.from() <= address && address <= memory.to()
    }
}

/// The index of the first memory of `memories` whose range holds `address`.
pub fn find_in_range<M: MapsMemory>(memories: &Vec<M>, address: u16) -> (r: Option<usize>)
    requires
        forall|i: int| 0 <= i < memories@.len() ==> (#[trigger] memories@[i]).wf(),
    ensures
        r matches Some(i) ==> i < memories@.len() && memories@[i as int].in_range(address)
            && forall|j: int| 0 <= j < i ==> !(#[trigger] memories@[j]).in_range(address),
        r is None ==> forall|j: int| 0 <= j < memories@.len() ==> !(#[trigger] memories@[j]).in_range(address),
{
    let mut i: usize = 0;
    while i < memories.len()
        invariant
            i <= memories@.len(),
            forall|k: int| 0 <= k < memories@.len() ==> (#[trigger] memories@[k]).wf(),
            forall|j: int| 0 <= j < i ==> !(#[trigger] memories@[j]).in_range(address),
        decreases memories@.len() - i,
    {
        if memories[i].is_in_range(address) {
            return Some(i);
        }
        i = i + 1;
    }
    None
}

/// What a write to a read-write memory stores, a read at the same address
/// gives back; the other addresses keep their bytes.
pub proof fn law_read_after_write(m: Memory, after: Memory, address: u16, other: u16, value: u8)
    requires
        m.wf(),
        m@.access == Access::ReadWrite,
        m.write_defined(address, value),
        m.written(&after, address, value),
    ensures
        after.read_defined(address),
        after.read_spec(address) == Ok::<u8, ()>(value),
        other != address && m.read_defined(other) ==> after.read_spec(other) == m.read_spec(other),
{
}

/// A read-only memory refuses writes and keeps its bytes.
pub proof fn law_read_only_refuses_writes(m: Memory, after: Memory, address: u16, value: u8)
    requires
        m@.access == Access::ReadOnly,
        m.written(&after, address, value),
    ensures
        m.write_spec(address, value) is Err,
        after@ == m@,
{
}

} // verus!
