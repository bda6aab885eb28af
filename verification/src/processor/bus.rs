//! The address bus of the processor: work RAM, high RAM, the input/output
//! registers, the boot ROM while it is mapped, the video memory of the pixel
//! processing unit and the cartridge.
use vstd::prelude::*;
use crate::mem::memory::{Access, MapsMemory, MemView, RegionView, find_in_range};
use crate::memory::memory::Memory;
use crate::mem::cartridge::{Cartridge, CartridgeView};
use crate::gpu::ppu::{PixelProcessingUnit, PpuView, initial_ppu, io_registers_wf};
use crate::processor::interrupt_controller::InterruptController;

verus! {

/// The register that unmaps the boot ROM when it is written.
pub const BOOT_ROM_DISABLE: u16 = 0xFF50;

/// A read-write memory over exactly `from..=to`.
pub open spec fn ram_over(m: MemView, from: u16, to: u16) -> bool {
    &&& m.access == Access::ReadWrite
    &&& m.region.from == from
    &&& m.region.to == to
    &&& m.region.wf()
}

/// `m` with the byte at `address` replaced.
pub open spec fn stored(m: MemView, address: u16, value: u8) -> MemView {
    MemView { region: m.region.store(address, value), ..m }
}

/// The work RAM and high RAM that the bus starts with, all zero.
pub open spec fn initial_ram() -> Seq<MemView> {
    seq![
        MemView { access: Access::ReadWrite, region: RegionView::filled(Seq::empty(), 0xC000, 0xDFFF) },
        MemView { access: Access::ReadWrite, region: RegionView::filled(Seq::empty(), 0xE000, 0xFDFF) },
        MemView { access: Access::ReadWrite, region: RegionView::filled(Seq::empty(), 0xFF80, 0xFFFE) },
        MemView { access: Access::ReadWrite, region: RegionView::filled(Seq::empty(), 0xFFFF, 0xFFFF) },
    ]
}

/// The bus that the processor starts with: zeroed RAM and input/output
/// registers, a new pixel processing unit, `cartridge` and `boot_rom`.
pub open spec fn initial_bus(cartridge: CartridgeView, boot_rom: Option<MemView>) -> BusView {
    BusView {
        memory: initial_ram(),
        io_registers: MemView { access: Access::ReadWrite, region: RegionView::filled(Seq::empty(), 0xFF00, 0xFF7F) },
        boot_rom,
        ppu: initial_ppu(),
        cartridge,
    }
}

/// What the bus holds.
pub struct BusView {
    /// Work RAM `0xC000..=0xDFFF`, its echo `0xE000..=0xFDFF`, high RAM
    /// `0xFF80..=0xFFFE` and the interrupt enable register `0xFFFF`.
    pub memory: Seq<MemView>,
    pub io_registers: MemView,
    pub boot_rom: Option<MemView>,
    pub ppu: PpuView,
    pub cartridge: CartridgeView,
}

impl BusView {
    pub open spec fn wf(self) -> bool {
        &&& self.memory.len() == 4
        &&& ram_over(self.memory[0], 0xC000, 0xDFFF)
        &&& ram_over(self.memory[1], 0xE000, 0xFDFF)
        &&& ram_over(self.memory[2], 0xFF80, 0xFFFE)
        &&& ram_over(self.memory[3], 0xFFFF, 0xFFFF)
        &&& io_registers_wf(self.io_registers)
        &&& self.boot_rom matches Some(b) ==> b.access == Access::ReadOnly && b.region.wf()
        &&& self.ppu.wf()
        &&& self.cartridge.mbc.wf()
    }

    /// The index of the RAM that holds `address`, if one does.
    pub open spec fn ram_index(self, address: u16) -> Option<int> {
        if self.memory[0].region.contains(address) {
            Some(0)
        } else if self.memory[1].region.contains(address) {
            Some(1)
        } else if self.memory[2].region.contains(address) {
            Some(2)
        } else if self.memory[3].region.contains(address) {
            Some(3)
        } else {
            None
        }
    }

    /// The boot ROM is mapped and holds `address`.
    pub open spec fn in_boot_rom(self, address: u16) -> bool {
        self.boot_rom matches Some(b) && b.region.contains(address)
    }

    /// A read at `address` reaches the cartridge.
    pub open spec fn reads_cartridge(self, address: u16) -> bool {
        !self.in_boot_rom(address) && self.ram_index(address) is None && !self.ppu.in_range(address)
            && self.cartridge.mbc.in_range(address)
    }

    /// A write at `address` reaches the cartridge.
    pub open spec fn writes_cartridge(self, address: u16) -> bool {
        self.ram_index(address) is None && !self.ppu.in_range(address) && self.cartridge.mbc.in_range(address)
    }

    /// A read at `address` returns rather than stops the emulator.
    pub open spec fn read_defined(self, address: u16) -> bool {
        self.reads_cartridge(address) ==> self.cartridge.mbc.read_defined(address)
    }

    /// What a read at `address` gives: the boot ROM while it is mapped, then
    /// the RAM, the video memory, the cartridge and the input/output
    /// registers; the unused area reads `0xFF`, the rest fails.
    pub open spec fn read(self, address: u16) -> Result<u8, ()> {
        if self.in_boot_rom(address) {
            Ok(self.boot_rom->0.region.get(address))
        } else if let Some(i) = self.ram_index(address) {
            Ok(self.memory[i].region.get(address))
        } else if self.ppu.in_range(address) {
            self.ppu.read(address)
        } else if self.cartridge.mbc.in_range(address) {
            self.cartridge.mbc.read(address)
        } else if self.io_registers.region.contains(address) {
            Ok(self.io_registers.region.get(address))
        } else if 0xFEA0 <= address <= 0xFEFF {
            Ok(0xFF)
        } else {
            Err(())
        }
    }

    /// The byte that a read gives, where the read returns a byte.
    pub open spec fn read_byte(self, address: u16) -> Option<u8> {
        if self.read_defined(address) && self.read(address) is Ok {
            Some(self.read(address)->Ok_0)
        } else {
            None
        }
    }

    /// A write at `address` returns rather than stops the emulator.
    pub open spec fn write_defined(self, address: u16) -> bool {
        self.writes_cartridge(address) ==> self.cartridge.mbc.write_defined(address)
    }

    /// What a write at `address` returns: it fails outside the mapped areas.
    pub open spec fn write_result(self, address: u16) -> Result<(), ()> {
        if self.ram_index(address) is Some || self.ppu.in_range(address) || self.cartridge.mbc.in_range(address)
            || self.io_registers.region.contains(address) || 0xFEA0 <= address <= 0xFEFF {
            Ok(())
        } else {
            Err(())
        }
    }

    /// What a write leaves. A write to the echo RAM also writes the work RAM
    /// `0x2000` below; a write to `0xFF50` unmaps the boot ROM.
    pub open spec fn write(self, address: u16, value: u8) -> BusView {
        if let Some(i) = self.ram_index(address) {
            if i == 1 {
                BusView {
                    memory: self.memory.update(1, stored(self.memory[1], address, value)).update(
                        0,
                        stored(self.memory[0], (address - 0x2000) as u16, value),
                    ),
                    ..self
                }
            } else {
                BusView { memory: self.memory.update(i, stored(self.memory[i], address, value)), ..self }
            }
        } else if self.ppu.in_range(address) {
            BusView { ppu: self.ppu.write(address, value), ..self }
        } else if self.cartridge.mbc.in_range(address) {
            BusView { cartridge: CartridgeView { mbc: self.cartridge.mbc.write(address, value), ..self.cartridge }, ..self }
        } else if self.io_registers.region.contains(address) {
            BusView {
                io_registers: stored(self.io_registers, address, value),
                boot_rom: if address == BOOT_ROM_DISABLE { None } else { self.boot_rom },
                ..self
            }
        } else {
            self
        }
    }

    /// What a write leaves where it succeeds.
    pub open spec fn write_byte(self, address: u16, value: u8) -> Option<BusView> {
        if self.write_defined(address) && self.write_result(address) is Ok {
            Some(self.write(address, value))
        } else {
            None
        }
    }

    /// What `is_in_range(address)` returns: the RAM, the cartridge and the
    /// video memory answer.
    pub open spec fn in_range(self, address: u16) -> bool {
        self.ram_index(address) is Some || self.cartridge.mbc.in_range(address) || self.ppu.in_range(address)
    }
}

/// The memories that the processor reaches.
pub struct Bus {
    memory: Vec<Memory>,
    io_registers: Memory,
    boot_rom: Option<Memory>,
    ppu: PixelProcessingUnit,
    cartridge: Cartridge,
}

impl View for Bus {
    type V = BusView;

    closed spec fn view(&self) -> BusView {
        BusView {
            memory: self.memory@.map_values(|m: Memory| m@),
            io_registers: self.io_registers@,
            boot_rom: match self.boot_rom {
                Some(b) => Some(b@),
                None => None,
            },
            ppu: self.ppu@,
            cartridge: self.cartridge@,
        }
    }
}

impl Bus {
    /// The invariant of the bus.
    pub open spec fn wf(&self) -> bool {
        self@.wf() && self.display_wf()
    }

    /// The display of the pixel processing unit is well formed.
    pub closed spec fn display_wf(&self) -> bool {
        self.ppu.wf()
    }

    /// A bus over `cartridge`, with the boot ROM mapped at `0x0000` when one
    /// is given (one byte longer than `boot_rom`, the last byte zero).
    pub fn new(cartridge: Cartridge, boot_rom: Option<Vec<u8>>) -> (r: Bus)
        requires
            cartridge.wf(),
            boot_rom matches Some(b) ==> b@.len() < 0xFFFF,
        ensures
            r.wf(),
            r@ == initial_bus(cartridge@, match boot_rom {
                Some(b) => Some(MemView { access: Access::ReadOnly, region: RegionView::filled(b@, 0x0000, b@.len() as u16) }),
                None => None::<MemView>,
            }),
    {
        let boot_rom = match boot_rom {
            Some(opcodes) => Some(Memory::new_read_only(opcodes.as_slice(), 0x0000, opcodes.len() as u16)),
            None => None,
        };
        let memory = Self::init_memory();
        let empty: Vec<u8> = Vec::new();
        let io_registers = Memory::new_read_write(empty.as_slice(), 0xFF00, 0xFF7F);
        let ppu = PixelProcessingUnit::new();
        let r = Bus { memory, io_registers, boot_rom, ppu, cartridge };
        assert(r@.memory =~= initial_ram());
        assert(r@ == initial_bus(cartridge@, r@.boot_rom));
        r
    }

    /// The work RAM, its echo, the high RAM and the interrupt enable register,
    /// all zero.
    pub fn init_memory() -> (r: Vec<Memory>)
        ensures
            r@.map_values(|m: Memory| m@) == initial_ram(),
            forall|i: int| 0 <= i < r@.len() ==> (#[trigger] r@[i]).wf(),
    {
        let empty: Vec<u8> = Vec::new();
        let mut memory: Vec<Memory> = Vec::new();
        memory.push(Memory::new_read_write(empty.as_slice(), 0xC000, 0xDFFF));
        memory.push(Memory::new_read_write(empty.as_slice(), 0xE000, 0xFDFF));
        memory.push(Memory::new_read_write(empty.as_slice(), 0xFF80, 0xFFFE));
        memory.push(Memory::new_read_write(empty.as_slice(), 0xFFFF, 0xFFFF));
        assert(memory@.map_values(|m: Memory| m@) =~= initial_ram());
        memory
    }

    proof fn lemma_memories_wf(&self)
        requires
            self.wf(),
        ensures
            forall|i: int| 0 <= i < self.memory@.len() ==> (#[trigger] self.memory@[i]).wf(),
            forall|i: int| 0 <= i < self.memory@.len() ==> (#[trigger] self.memory@[i])@ == self@.memory[i],
    {
        assert forall|i: int| 0 <= i < self.memory@.len() implies (#[trigger] self.memory@[i])@ == self@.memory[i] by {
        }
    }

    /// The index that `find_in_range` gives on the RAM is the one of the view.
    proof fn lemma_find(&self, address: u16, found: Option<usize>)
        requires
            self.wf(),
            found matches Some(i) ==> i < self.memory@.len() && self.memory@[i as int].in_range(address)
                && forall|j: int| 0 <= j < i ==> !(#[trigger] self.memory@[j]).in_range(address),
            found is None ==> forall|j: int| 0 <= j < self.memory@.len() ==> !(#[trigger] self.memory@[j]).in_range(address),
        ensures
            found matches Some(i) ==> self@.ram_index(address) == Some(i as int),
            found is None ==> self@.ram_index(address) is None,
    {
        self.lemma_memories_wf();
        assert(self.memory@[0]@ == self@.memory[0]);
        assert(self.memory@[1]@ == self@.memory[1]);
        assert(self.memory@[2]@ == self@.memory[2]);
        assert(self.memory@[3]@ == self@.memory[3]);
    }

    /// Reads the RAM that holds `address`; fails where none does.
    fn read_ram(&self, address: u16) -> (r: Result<u8, ()>)
        requires
            self.wf(),
        ensures
            r == (match self@.ram_index(address) {
                Some(i) => Ok(self@.memory[i].region.get(address)),
                None => Err(()),
            }),
    {
        proof { self.lemma_memories_wf(); }
        let found = find_in_range(&self.memory, address);
        proof { self.lemma_find(address, found); }
        match found {
            Some(i) => self.memory[i].read(address),
            None => Err(()),
        }
    }

    /// Writes the RAM that holds `address`; fails where none does.
    fn write_ram(&mut self, address: u16, value: u8) -> (r: Result<(), ()>)
        requires
            old(self).wf(),
        ensures
            final(self).wf(),
            r == (if old(self)@.ram_index(address) is Some { Ok::<(), ()>(()) } else { Err(()) }),
            final(self)@ == (match old(self)@.ram_index(address) {
                Some(i) => BusView { memory: old(self)@.memory.update(i, stored(old(self)@.memory[i], address, value)), ..old(self)@ },
                None => old(self)@,
            }),
    {
        proof { self.lemma_memories_wf(); }
        let found = find_in_range(&self.memory, address);
        proof { self.lemma_find(address, found); }
        match found {
            Some(i) => {
                let ghost before = self.memory@;
                let mut memory = self.memory.remove(i);
                let r = memory.write(address, value);
                self.memory.insert(i, memory);
                assert(self.memory@ =~= before.update(i as int, self.memory@[i as int]));
                assert(self@.memory =~= old(self)@.memory.update(i as int, stored(old(self)@.memory[i as int], address, value)));
                r
            },
            None => Err(()),
        }
    }

    /// Reads `address`. Only the cartridge can stop the emulator on a read.
    pub fn read(&self, address: u16) -> (r: Result<u8, ()>)
        requires
            self.wf(),
            self@.read_defined(address),
        ensures
            r == self@.read(address),
    {
        if let Some(boot) = &self.boot_rom {
            if boot.is_in_range(address) {
                return boot.read(address);
            }
        }
        let read = self.read_ram(address);
        if read.is_err() {
            if self.ppu.is_in_range(address) {
                self.ppu.read(address)
            } else if self.cartridge.is_in_range(address) {
                self.cartridge.read(address)
            } else if self.io_registers.is_in_range(address) {
                self.io_registers.read(address)
            } else {
                if address >= 0xFEA0 && address <= 0xFEFF {
                    Ok(0xFF)
                } else {
                    Err(())
                }
            }
        } else {
            read
        }
    }

    /// Writes `value` at `address`. Only the cartridge can stop the emulator
    /// on a write.
    pub fn write(&mut self, address: u16, value: u8) -> (r: Result<(), ()>)
        requires
            old(self).wf(),
            old(self)@.write_defined(address),
        ensures
            final(self).wf(),
            final(self)@ == old(self)@.write(address, value),
            r == old(self)@.write_result(address),
    {
        let write = self.write_ram(address, value);
        if write.is_ok() {
            if (address >= 0xE000) && (address <= 0xFDFF) {
                let echo = self.write_ram(address - 0x2000, value);
                assert(echo is Ok);
                proof {
                    assert(self@.memory =~= old(self)@.write(address, value).memory);
                }
            }
            write
        } else {
            if self.ppu.is_in_range(address) {
                self.ppu.write(address, value)
            } else if self.cartridge.is_in_range(address) {
                self.cartridge.write(address, value)
            } else if self.io_registers.is_in_range(address) {
                if address == BOOT_ROM_DISABLE {
                    self.boot_rom = None;
                }
                self.io_registers.write(address, value)
            } else {
                if address >= 0xFEA0 && address <= 0xFEFF {
                    Ok(())
                } else {
                    Err(())
                }
            }
        }
    }

    /// Whether the RAM, the cartridge or the video memory holds `address`.
    pub fn is_in_range(&self, address: u16) -> (r: bool)
        requires
            self.wf(),
        ensures
            r == self@.in_range(address),
    {
        proof { self.lemma_memories_wf(); }
        let found = find_in_range(&self.memory, address);
        proof { self.lemma_find(address, found); }
        let ram = found.is_some();
        let cartridge = self.cartridge.is_in_range(address);
        let ppu = self.ppu.is_in_range(address);
        ram || cartridge || ppu
    }

    /// The byte at `address`, where a read gives one.
    pub fn read_byte(&self, address: u16) -> (r: Option<u8>)
        requires
            self.wf(),
        ensures
            r == self@.read_byte(address),
    {
        let defined = if self.boot_rom.is_some() && self.boot_rom.as_ref().unwrap().is_in_range(address) {
            true
        } else if self.read_ram(address).is_ok() || self.ppu.is_in_range(address) {
            true
        } else if self.cartridge.is_in_range(address) {
            self.cartridge.can_read(address)
        } else {
            true
        };
        if defined {
            match self.read(address) {
                Ok(value) => Some(value),
                Err(_) => None,
            }
        } else {
            None
        }
    }

    /// Writes `value` at `address` where the write succeeds; leaves the bus
    /// as it is and returns `false` elsewhere.
    pub fn write_byte(&mut self, address: u16, value: u8) -> (r: bool)
        requires
            old(self).wf(),
        ensures
            final(self).wf(),
            r == old(self)@.write_byte(address, value) is Some,
            r ==> final(self)@ == old(self)@.write_byte(address, value)->0,
            !r ==> final(self)@ == old(self)@,
    {
        proof { self.lemma_memories_wf(); }
        let found = find_in_range(&self.memory, address);
        proof { self.lemma_find(address, found); }
        let defined = if found.is_none() && !self.ppu.is_in_range(address) && self.cartridge.is_in_range(address) {
            self.cartridge.can_write(address)
        } else {
            true
        };
        let mapped = found.is_some() || self.ppu.is_in_range(address) || self.cartridge.is_in_range(address)
            || self.io_registers.is_in_range(address) || (address >= 0xFEA0 && address <= 0xFEFF);
        if defined && mapped {
            let r = self.write(address, value);
            assert(r is Ok);
            true
        } else {
            false
        }
    }

    /// One tick of the pixel processing unit on the input/output registers.
    pub fn tick(&mut self, interrupt: &mut InterruptController)
        requires
            old(self).wf(),
        ensures
            final(self).wf(),
            (final(self)@.ppu, final(self)@.io_registers) == old(self)@.ppu.step(old(self)@.io_registers),
            final(self)@.memory == old(self)@.memory,
            final(self)@.boot_rom == old(self)@.boot_rom,
            final(self)@.cartridge == old(self)@.cartridge,
            *final(interrupt) == *old(interrupt),
    {
        self.ppu.step(&mut self.io_registers, interrupt);
    }

    /// The title of the game in the cartridge.
    pub fn game_title(&self) -> (r: &str)
        ensures
            r@ == self@.cartridge.header.title,
    {
        self.cartridge.title()
    }

    /// The pixel processing unit.
    pub fn ppu(&self) -> (r: &PixelProcessingUnit)
        ensures
            r@ == self@.ppu,
            self.wf() ==> r.wf(),
    {
        &self.ppu
    }
}

impl MapsMemory for Bus {
    open spec fn wf(&self) -> bool {
        self.wf()
    }

    open spec fn read_defined(&self, address: u16) -> bool {
        self@.read_defined(address)
    }

    open spec fn read_spec(&self, address: u16) -> Result<u8, ()> {
        self@.read(address)
    }

    open spec fn write_defined(&self, address: u16, value: u8) -> bool {
        self@.write_defined(address)
    }

    open spec fn write_spec(&self, address: u16, value: u8) -> Result<(), ()> {
        self@.write_result(address)
    }

    open spec fn written(&self, after: &Self, address: u16, value: u8) -> bool {
        after@ == self@.write(address, value)
    }

    open spec fn in_range(&self, address: u16) -> bool {
        self@.in_range(address)
    }

    fn read(&self, address: u16) -> (r: Result<u8, ()>) {
        Bus::read(self, address)
    }

    fn write(&mut self, address: u16, value: u8) -> (r: Result<(), ()>) {
        Bus::write(self, address, value)
    }

    fn is_in_range(&self, address: u16) -> (r: bool) {
        Bus::is_in_range(self, address)
    }
}

/// What a write to the RAM stores, a read at the same address gives back.
pub proof fn law_ram_read_after_write(b: BusView, address: u16, value: u8)
    requires
        b.wf(),
        b.ram_index(address) is Some,
        !b.in_boot_rom(address),
    ensures
        b.write_byte(address, value) is Some,
        b.write_byte(address, value)->0.read_byte(address) == Some(value),
{
}

/// A write to the echo RAM `0xE000..=0xFDFF` also shows in the work RAM
/// `0x2000` below.
pub proof fn law_echo_ram(b: BusView, address: u16, value: u8)
    requires
        b.wf(),
        0xE000 <= address <= 0xFDFF,
        !b.in_boot_rom((address - 0x2000) as u16),
    ensures
        b.write_byte(address, value) is Some,
        b.write_byte(address, value)->0.read_byte((address - 0x2000) as u16) == Some(value),
{
}

/// A write to a RAM address leaves every other RAM address as it was.
pub proof fn law_ram_write_frame(b: BusView, address: u16, other: u16, value: u8)
    requires
        b.wf(),
        b.ram_index(address) is Some,
        b.ram_index(other) is Some,
        other != address,
        !(0xE000 <= address <= 0xFDFF && other == address - 0x2000),
    ensures
        b.write(address, value).read(other) == b.read(other),
{
}

/// A write to `0xFF50` unmaps the boot ROM: the cartridge answers below
/// `0x0100` from then on.
pub proof fn law_boot_rom_unmapped(b: BusView, value: u8)
    requires
        b.wf(),
    ensures
        b.write_byte(BOOT_ROM_DISABLE, value) is Some,
        b.write_byte(BOOT_ROM_DISABLE, value)->0.boot_rom is None,
        b.write_byte(BOOT_ROM_DISABLE, value)->0.cartridge == b.cartridge,
{
}

/// Writes keep the bus well formed.
pub proof fn law_write_keeps_wf(b: BusView, address: u16, value: u8)
    requires
        b.wf(),
        b.write_defined(address),
    ensures
        b.write(address, value).wf(),
{
}

/// The video memory and the input/output registers can always be read.
pub proof fn law_video_memory_readable(b: BusView, address: u16)
    requires
        b.wf(),
        0x8000 <= address <= 0x9FFF || 0xFF00 <= address <= 0xFF7F,
    ensures
        b.read_byte(address) is Some,
{
    if b.cartridge.mbc is Mbc1 && 0xFF00 <= address <= 0xFF7F {
        let m = b.cartridge.mbc->Mbc1_0;
        assert(!(exists|i: int| 0 <= i < m.ram.len() && (#[trigger] m.ram[i]).region.contains(address)));
    }
}

} // verus!
