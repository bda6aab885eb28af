//! The first cartridge model: the game's read-only memory in banks of
//! 16 KiB, the header types, and bank controllers that map the memory areas
//! without holding the game's bytes.
use vstd::prelude::*;
use crate::mem::memory::{Access, MemView, RegionView, find_in_range};
use crate::memory::memory::{MapsMemory, Memory};
use crate::util::slices::vec_range_mut;

verus! {

/// The size of one bank.
pub const ROM_BANK_SIZE: usize = 0x4000;

/// The header of a cartridge.
pub struct CartridgeHeader {
    pub title: String,
    pub manufacturer: String,
    pub licensee_code: u8,
    pub old_licensee_code: u8,
    pub cartridge_type: CardridgeType,
    pub rom_size: RomSize,
    pub ram_size: RamSize,
    pub destination: String,
    pub version: u8,
    pub checksum: [u8; 24],
    pub global_checksum: u16,
}

/// The kinds of cartridge by bank controller and extras.
#[derive(PartialEq, Eq, Structural, Copy, Clone, Debug)]
pub enum CardridgeType {
    MBCNone { ram: bool, battery: bool },
    MBC1 { ram: bool, battery: bool },
    MBC2 { battery: bool },
    MMM01 { ram: bool, battery: bool },
    MBC3 { timer: bool, ram: bool, battery: bool },
    MBC5 { ram: bool, battery: bool, rumble: bool },
    MBC6,
    MBC7,
    PocketCamera,
    BandaiTama5,
    HuC3,
    HuC1,
}

/// The sizes of the read-only memory.
#[derive(PartialEq, Eq, Structural, Copy, Clone, Debug)]
pub enum RomSize {
    KB32,
    KB64,
    KB128,
    KB256,
    KB512,
    MB1,
    MB2,
    MB4,
    MB8,
    MB1p1,
    MB1p2,
    MB1p5,
}

/// The sizes of the cartridge RAM.
#[derive(PartialEq, Eq, Structural, Copy, Clone, Debug)]
pub enum RamSize {
    NoRam,
    KB2,
    KB8,
    KB32,
    KB64,
    KB128,
}

/// The number of banks that the first bank controller maps, bank 0 included,
/// for the sizes it handles.
pub open spec fn mbc1_rom_banks(size: RomSize) -> int {
    match size {
        RomSize::KB32 => 1,
        RomSize::KB64 => 4,
        RomSize::KB128 => 8,
        RomSize::KB256 => 16,
        RomSize::KB512 => 32,
        RomSize::MB1 => 63,
        _ => 125,
    }
}

/// The ROM sizes that the first bank controller handles.
pub open spec fn mbc1_rom_size_supported(size: RomSize) -> bool {
    match size {
        RomSize::KB32 | RomSize::KB64 | RomSize::KB128 | RomSize::KB256 | RomSize::KB512
        | RomSize::MB1 | RomSize::MB2 => true,
        _ => false,
    }
}

/// The RAM banks as the first bank controller lays them out: `(banks, size)`
/// where each bank spans `0xA000..=0xA000 + size`.
pub open spec fn mbc1_ram_banks(ram: bool, size: RamSize) -> (int, int) {
    if !ram {
        (0, 0)
    } else {
        match size {
            RamSize::KB2 => (1, 0x800),
            RamSize::KB8 => (1, 0x2000),
            RamSize::KB32 => (4, 0x2000),
            _ => (0, 0),
        }
    }
}

/// The RAM sizes that the first bank controller handles.
pub open spec fn mbc1_ram_size_supported(ram: bool, size: RamSize) -> bool {
    ram ==> match size {
        RamSize::NoRam | RamSize::KB2 | RamSize::KB8 | RamSize::KB32 => true,
        _ => false,
    }
}

/// A controller without banks: the read-only memory and, with RAM, the RAM.
pub struct MBCNone {
    memory: Vec<Memory>,
}

/// The areas of a controller without banks: `0x0000..=0x7FFF` read-only,
/// with RAM also `0xA000..=0xBFFF` read-write, all zero.
pub open spec fn mbc_none_areas(ram: bool) -> Seq<MemView> {
    let rom = MemView { access: Access::ReadOnly, region: RegionView::filled(Seq::empty(), 0x0000, 0x7FFF) };
    let ram_area = MemView { access: Access::ReadWrite, region: RegionView::filled(Seq::empty(), 0xA000, 0xBFFF) };
    if ram { seq![rom, ram_area] } else { seq![rom] }
}

impl MBCNone {
    pub closed spec fn areas(&self) -> Seq<MemView> {
        self.memory@.map_values(|m: Memory| m@)
    }

    spec fn wf(&self) -> bool {
        forall|i: int| 0 <= i < self.memory@.len() ==> (#[trigger] self.memory@[i]).wf()
    }

    fn new(ram: bool) -> (r: MBCNone)
        ensures
            r.areas() == mbc_none_areas(ram),
            r.wf(),
    {
        let empty: Vec<u8> = Vec::new();
        let mut memory: Vec<Memory> = Vec::new();
        memory.push(Memory::new_read_only(empty.as_slice(), 0x0000, 0x7FFF));
        if ram {
            memory.push(Memory::new_read_write(empty.as_slice(), 0xA000, 0xBFFF));
        }
        let r = MBCNone { memory };
        assert(r.areas() =~= mbc_none_areas(ram));
        r
    }

    /// Reads the area that holds `address`; one must.
    fn read(&self, address: u16) -> (r: Result<u8, ()>)
        requires
            self.wf(),
            exists|i: int| 0 <= i < self.memory@.len() && (#[trigger] self.memory@[i]).in_range(address),
        ensures
            exists|i: int| 0 <= i < self.memory@.len() && (#[trigger] self.memory@[i]).in_range(address)
                && (forall|j: int| 0 <= j < i ==> !(#[trigger] self.memory@[j]).in_range(address))
                && r == self.memory@[i].read_spec(address),
    {
        let index = find_in_range(&self.memory, address);
        match index {
            Some(i) => self.memory[i].read(address),
            None => Err(()),
        }
    }

    /// Writes the area that holds `address`; one must. A read-only area
    /// answers `Err` and keeps its bytes.
    fn write(&mut self, address: u16, value: u8) -> (r: Result<(), ()>)
        requires
            old(self).wf(),
            exists|i: int| 0 <= i < old(self).memory@.len() && (#[trigger] old(self).memory@[i]).in_range(address),
        ensures
            final(self).wf(),
            final(self).memory@.len() == old(self).memory@.len(),
            exists|i: int| 0 <= i < old(self).memory@.len() && (#[trigger] old(self).memory@[i]).in_range(address)
                && (forall|j: int| 0 <= j < i ==> !(#[trigger] old(self).memory@[j]).in_range(address))
                && r == old(self).memory@[i].write_spec(address, value)
                && old(self).memory@[i].written(&final(self).memory@[i], address, value)
                && (forall|j: int| 0 <= j < old(self).memory@.len() && j != i ==> final(self).memory@[j] == old(self).memory@[j]),
    {
        let index = find_in_range(&self.memory, address);
        match index {
            Some(i) => {
                let ghost before = self.memory@;
                let mut memory = self.memory.remove(i);
                let r = memory.write(address, value);
                self.memory.insert(i, memory);
                assert(forall|j: int| 0 <= j < before.len() && j != i ==> self.memory@[j] == before[j]);
                r
            },
            None => Err(()),
        }
    }
}

/// What the first bank controller of this model is.
pub struct Mbc1State {
    pub rom: Seq<MemView>,
    pub ram: Seq<MemView>,
    pub ram_enable: u8,
    pub rom_bank_number: u8,
    pub ram_bank_number: u8,
    pub mode_select: u8,
}

impl Mbc1State {
    pub open spec fn wf(self) -> bool {
        &&& self.rom.len() >= 1
        &&& self.rom[0].access == Access::ReadOnly && self.rom[0].region.from == 0 && self.rom[0].region.to == 0x3FFF
            && self.rom[0].region.wf()
        &&& forall|i: int| 1 <= i < self.rom.len() ==> (#[trigger] self.rom[i]).access == Access::ReadOnly
            && self.rom[i].region.from == 0x4000 && self.rom[i].region.to == 0x7FFF && self.rom[i].region.wf()
        &&& forall|i: int| 0 <= i < self.ram.len() ==> (#[trigger] self.ram[i]).access == Access::ReadWrite
            && self.ram[i].region.from == 0xA000 && self.ram[i].region.wf()
    }

    /// The bank that `0x4000..=0x7FFF` shows: bit 0 of the bank number is
    /// forced to one, and in mode 0 the RAM enable value shifted left by
    /// five is or-ed in.
    pub open spec fn selected_rom_bank(self) -> u8 {
        let bank = self.rom_bank_number | 1u8;
        if self.mode_select == 0 { ((self.ram_enable << 5u8) as u8) | bank } else { bank }
    }

    /// The RAM bank that reads see: the RAM bank number in mode 1, else bank 0.
    pub open spec fn selected_ram_bank(self) -> u8 {
        if self.mode_select == 1 { self.ram_bank_number } else { 0 }
    }

    pub open spec fn ram_enabled(self) -> bool {
        self.ram_enable & 0x0Au8 == 0x0Au8
    }

    /// A read at `address` returns rather than stops the emulator.
    pub open spec fn read_defined(self, address: u16) -> bool {
        ||| address <= 0x3FFF
        ||| 0x4000 <= address <= 0x7FFF && (self.selected_rom_bank() as int) < self.rom.len()
            && self.rom[self.selected_rom_bank() as int].region.contains(address)
        ||| 0xA000 <= address <= 0xBFFF && (self.ram_enabled() ==> (self.selected_ram_bank() as int) < self.ram.len()
            && self.ram[self.selected_ram_bank() as int].region.contains(address))
    }

    pub open spec fn read(self, address: u16) -> Result<u8, ()> {
        if address <= 0x3FFF {
            Ok(self.rom[0].region.get(address))
        } else if address <= 0x7FFF {
            Ok(self.rom[self.selected_rom_bank() as int].region.get(address))
        } else if self.ram_enabled() {
            Ok(self.ram[self.selected_ram_bank() as int].region.get(address))
        } else {
            Err(())
        }
    }

    /// A write returns rather than stops the emulator: only the registers
    /// below `0x8000` can be written.
    pub open spec fn write_defined(self, address: u16) -> bool {
        address <= 0x7FFF
    }

    /// The registers after a write below `0x8000`.
    pub open spec fn write(self, address: u16, value: u8) -> Mbc1State {
        if address <= 0x1FFF {
            Mbc1State { ram_enable: value, ..self }
        } else if address <= 0x3FFF {
            Mbc1State { rom_bank_number: value & 0b11111u8, ..self }
        } else if address <= 0x5FFF {
            Mbc1State { ram_bank_number: value & 0b11u8, ..self }
        } else {
            Mbc1State { mode_select: value & 0b1u8, ..self }
        }
    }
}

/// The state of a new first bank controller: `mbc1_rom_banks` zeroed
/// read-only banks (bank 0 first), the RAM banks zeroed, all registers zero.
pub open spec fn mbc1_initial(ram: bool, rom_size: RomSize, ram_size: RamSize) -> Mbc1State {
    Mbc1State {
        rom: Seq::new(mbc1_rom_banks(rom_size) as nat, |i: int| if i == 0 {
            MemView { access: Access::ReadOnly, region: RegionView::filled(Seq::empty(), 0x0000, 0x3FFF) }
        } else {
            MemView { access: Access::ReadOnly, region: RegionView::filled(Seq::empty(), 0x4000, 0x7FFF) }
        }),
        ram: Seq::new(mbc1_ram_banks(ram, ram_size).0 as nat, |i: int|
            MemView { access: Access::ReadWrite, region: RegionView::filled(Seq::empty(), 0xA000, (0xA000 + mbc1_ram_banks(ram, ram_size).1) as u16) }),
        ram_enable: 0,
        rom_bank_number: 0,
        ram_bank_number: 0,
        mode_select: 0,
    }
}

/// The first memory bank controller of this model: zeroed banks, switched
/// through its registers.
pub struct MBC1 {
    rom: Vec<Memory>,
    ram: Vec<Memory>,
    ram_enable: u8,
    rom_bank_number: u8,
    ram_bank_number: u8,
    mode_select: u8,
}

impl View for MBC1 {
    type V = Mbc1State;

    closed spec fn view(&self) -> Mbc1State {
        Mbc1State {
            rom: self.rom@.map_values(|m: Memory| m@),
            ram: self.ram@.map_values(|m: Memory| m@),
            ram_enable: self.ram_enable,
            rom_bank_number: self.rom_bank_number,
            ram_bank_number: self.ram_bank_number,
            mode_select: self.mode_select,
        }
    }
}

impl MBC1 {
    pub closed spec fn wf(&self) -> bool {
        &&& self@.wf()
        &&& forall|i: int| 0 <= i < self.rom@.len() ==> (#[trigger] self.rom@[i]).wf()
        &&& forall|i: int| 0 <= i < self.ram@.len() ==> (#[trigger] self.ram@[i]).wf()
    }

    /// A controller for `rom_size` and, with RAM, `ram_size`: bank 0 and
    /// the switchable banks zeroed, the RAM banks zeroed, all registers zero.
    pub fn new(ram: bool, rom_size: RomSize, ram_size: RamSize) -> (r: MBC1)
        requires
            mbc1_rom_size_supported(rom_size),
            mbc1_ram_size_supported(ram, ram_size),
        ensures
            r.wf(),
            r@ == mbc1_initial(ram, rom_size, ram_size),
    {
        let empty: Vec<u8> = Vec::new();
        let mut memory_rom: Vec<Memory> = Vec::new();
        let mut memory_ram: Vec<Memory> = Vec::new();
        let rom_banks: usize = match rom_size {
            RomSize::KB32 => 1,
            RomSize::KB64 => 4,
            RomSize::KB128 => 8,
            RomSize::KB256 => 16,
            RomSize::KB512 => 32,
            RomSize::MB1 => 63,
            _ => 125,
        };
        memory_rom.push(Memory::new_read_only(empty.as_slice(), 0x0000, 0x3FFF));
        let mut i: usize = 1;
        while i < rom_banks
            invariant
                1 <= i <= rom_banks,
                rom_banks == mbc1_rom_banks(rom_size),
                memory_rom@.len() == i,
                memory_rom@[0]@ == (MemView { access: Access::ReadOnly, region: RegionView::filled(Seq::empty(), 0x0000, 0x3FFF) }),
                forall|k: int| 1 <= k < i ==> (#[trigger] memory_rom@[k])@
                    == (MemView { access: Access::ReadOnly, region: RegionView::filled(Seq::empty(), 0x4000, 0x7FFF) }),
                forall|k: int| 0 <= k < i ==> (#[trigger] memory_rom@[k]).wf(),
                empty@ == Seq::<u8>::empty(),
            decreases rom_banks - i,
        {
            memory_rom.push(Memory::new_read_only(empty.as_slice(), 0x4000, 0x7FFF));
            i = i + 1;
        }
        let (ram_banks, bank_size): (usize, u16) = if ram {
            match ram_size {
                RamSize::NoRam => (0, 0),
                RamSize::KB2 => (1, 0x800),
                RamSize::KB8 => (1, 0x2000),
                _ => (4, 0x2000),
            }
        } else {
            (0, 0)
        };
        let mut j: usize = 0;
        while j < ram_banks
            invariant
                j <= ram_banks,
                (ram_banks as int, bank_size as int) == mbc1_ram_banks(ram, ram_size),
                bank_size <= 0x2000,
                memory_ram@.len() == j,
                forall|k: int| 0 <= k < j ==> (#[trigger] memory_ram@[k])@
                    == (MemView { access: Access::ReadWrite, region: RegionView::filled(Seq::empty(), 0xA000, (0xA000 + bank_size) as u16) }),
                forall|k: int| 0 <= k < j ==> (#[trigger] memory_ram@[k]).wf(),
                empty@ == Seq::<u8>::empty(),
            decreases ram_banks - j,
        {
            memory_ram.push(Memory::new_read_write(empty.as_slice(), 0xA000, 0xA000 + bank_size));
            j = j + 1;
        }
        let r = MBC1 { rom: memory_rom, ram: memory_ram, ram_enable: 0, rom_bank_number: 0, ram_bank_number: 0, mode_select: 0 };
        assert(r@.rom =~= mbc1_initial(ram, rom_size, ram_size).rom);
        assert(r@.ram =~= mbc1_initial(ram, rom_size, ram_size).ram);
        r
    }

    /// Reads `address` through the selected banks.
    pub fn read(&self, address: u16) -> (r: Result<u8, ()>)
        requires
            self.wf(),
            self@.read_defined(address),
        ensures
            r == self@.read(address),
    {
        if address <= 0x3FFF {
            proof { assert(self.rom@[0]@ == self@.rom[0]); }
            self.rom[0].read(address)
        } else if address <= 0x7FFF {
            let mut bank = self.rom_bank_number | 1;
            if self.mode_select == 0 {
                bank = (self.ram_enable << 5u8) | bank;
            }
            proof { assert(self.rom@[bank as int]@ == self@.rom[bank as int]); }
            self.rom[bank as usize].read(address)
        } else {
            if (self.ram_enable & 0x0A) == 0x0A {
                let bank = if self.mode_select == 1 { self.ram_bank_number } else { 0 };
                proof { assert(self.ram@[bank as int]@ == self@.ram[bank as int]); }
                self.ram[bank as usize].read(address)
            } else {
                Err(())
            }
        }
    }

    /// Writes the register that `address` selects.
    pub fn write(&mut self, address: u16, value: u8) -> (r: Result<(), ()>)
        requires
            old(self).wf(),
            old(self)@.write_defined(address),
        ensures
            final(self).wf(),
            final(self)@ == old(self)@.write(address, value),
            r is Ok,
    {
        if address <= 0x1FFF {
            self.ram_enable = value;
        } else if address <= 0x3FFF {
            self.rom_bank_number = value & 0b11111;
        } else if address <= 0x5FFF {
            self.ram_bank_number = value & 0b11;
        } else {
            self.mode_select = value & 0b1;
        }
        Ok(())
    }
}

/// The controller that a header asks for.
pub enum BankController {
    Plain(MBCNone),
    Mbc1(MBC1),
}

/// Builds the controller of a cartridge.
pub struct MemoryBankController {}

/// The kinds of cartridge that `MemoryBankController::create` builds.
pub open spec fn controller_supported(header: CartridgeHeader) -> bool {
    match header.cartridge_type {
        CardridgeType::MBCNone { .. } => true,
        CardridgeType::MBC1 { ram, .. } => mbc1_rom_size_supported(header.rom_size)
            && mbc1_ram_size_supported(ram, header.ram_size),
        _ => false,
    }
}

/// A built controller: without banks, or the first bank controller with its state.
pub enum ControllerView {
    Plain(Seq<MemView>),
    Mbc1(Mbc1State),
}

impl BankController {
    pub closed spec fn view(&self) -> ControllerView {
        match self {
            BankController::Plain(m) => ControllerView::Plain(m.areas()),
            BankController::Mbc1(m) => ControllerView::Mbc1(m@),
        }
    }
}

impl MemoryBankController {
    /// The controller of a cartridge with `header`: the plain one for
    /// cartridges without bank controller, the first bank controller for
    /// its kinds.
    pub fn create(header: CartridgeHeader) -> (r: BankController)
        requires
            controller_supported(header),
        ensures
            match header.cartridge_type {
                CardridgeType::MBCNone { ram, .. } => r.view() == ControllerView::Plain(mbc_none_areas(ram)),
                CardridgeType::MBC1 { ram, .. } => r.view() == ControllerView::Mbc1(mbc1_initial(ram, header.rom_size, header.ram_size)),
                _ => false,
            },
    {
        let rom_size = header.rom_size;
        let ram_size = header.ram_size;
        match header.cartridge_type {
            CardridgeType::MBCNone { ram, .. } => BankController::Plain(MBCNone::new(ram)),
            CardridgeType::MBC1 { ram, .. } => BankController::Mbc1(MBC1::new(ram, rom_size, ram_size)),
            _ => BankController::Plain(MBCNone::new(false)),
        }
    }
}

/// A cartridge of this model: its read-only memory and a plain controller.
pub struct Cartridge {
    rom: ROM,
    mbc: MBCNone,
}

/// The game's bytes padded with zero to two banks.
pub open spec fn padded(game: Seq<u8>) -> Seq<u8> {
    if game.len() >= 0x8000 {
        game
    } else {
        Seq::new(0x8000, |i: int| if i < game.len() { game[i] } else { 0u8 })
    }
}

/// Bank `index` starts within the data and its end fits in `usize`.
pub open spec fn bank_in_data(index: int, len: int) -> bool {
    &&& (index + 1) * 0x4000 <= usize::MAX
    &&& index * 0x4000 <= len
}

/// The end of bank `index`: a whole bank, or the end of the data.
pub open spec fn bank_end(index: int, len: int) -> int {
    if len >= (index + 1) * 0x4000 { (index + 1) * 0x4000 } else { len }
}

/// The end of the slice that `bank_mut` gives: the start of the bank plus
/// one bank size as its code computes it (`index + 1 * ROM_BANK_SIZE`), or
/// the end of the data.
pub open spec fn bank_mut_end(index: int, len: int) -> int {
    if len >= (index + 1) * 0x4000 { index + 0x4000 } else { len }
}

/// The read-only memory of a game.
pub struct ROM {
    data: Vec<u8>,
}

impl View for ROM {
    type V = Seq<u8>;

    closed spec fn view(&self) -> Seq<u8> {
        self.data@
    }
}

impl ROM {
    /// The game's bytes, padded with zero to two banks.
    pub fn new(game: Vec<u8>) -> (r: ROM)
        ensures
            r@ == padded(game@),
    {
        let mut data: Vec<u8> = Vec::new();
        let mut i: usize = 0;
        while i < ROM_BANK_SIZE * 2
            invariant
                i <= ROM_BANK_SIZE * 2,
                data@.len() == i,
                forall|j: int| 0 <= j < i ==> data@[j] == (if j < game@.len() { game@[j] } else { 0u8 }),
            decreases ROM_BANK_SIZE * 2 - i,
        {
            if i < game.len() {
                data.push(game[i]);
            } else {
                data.push(0);
            }
            i = i + 1;
        }
        while i < game.len()
            invariant
                ROM_BANK_SIZE * 2 <= i,
                i <= game@.len() || i == ROM_BANK_SIZE * 2,
                data@.len() == i,
                forall|j: int| 0 <= j < i ==> data@[j] == (if j < game@.len() { game@[j] } else { 0u8 }),
            decreases game@.len() - i,
        {
            data.push(game[i]);
            i = i + 1;
        }
        let r = ROM { data };
        assert(r@ =~= padded(game@));
        r
    }

    /// The bytes of bank `index`: a whole bank, or up to the end of the data.
    pub fn bank(&self, index: usize) -> (r: &[u8])
        requires
            bank_in_data(index as int, self@.len() as int),
        ensures
            r@ == self@.subrange(index * 0x4000, bank_end(index as int, self@.len() as int)),
    {
        let start_slice = index * ROM_BANK_SIZE;
        let end_slice = if self.data.len() >= (index + 1) * ROM_BANK_SIZE {
            (index + 1) * ROM_BANK_SIZE
        } else {
            self.data.len()
        };
        vstd::slice::slice_subrange(self.data.as_slice(), start_slice, end_slice)
    }

    /// The bytes of bank `index`, borrowed for writing; a whole bank ends at
    /// `index + ROM_BANK_SIZE`, so bank 0 alone is whole.
    pub fn bank_mut(&mut self, index: usize) -> (r: &mut [u8])
        requires
            bank_in_data(index as int, old(self)@.len() as int),
            index * 0x4000 <= bank_mut_end(index as int, old(self)@.len() as int),
        ensures
            ({
                let start = index * 0x4000;
                let end = bank_mut_end(index as int, old(self)@.len() as int);
                &&& r@ == old(self)@.subrange(start, end)
                &&& final(r)@.len() == end - start
                &&& final(self)@ == old(self)@.subrange(0, start) + final(r)@ + old(self)@.subrange(end, old(self)@.len() as int)
            }),
    {
        let start_slice = index * ROM_BANK_SIZE;
        let end_slice = if self.data.len() >= (index + 1) * ROM_BANK_SIZE {
            index + 1 * ROM_BANK_SIZE
        } else {
            self.data.len()
        };
        vec_range_mut(&mut self.data, start_slice, end_slice)
    }
}

} // verus!
