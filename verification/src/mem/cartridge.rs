//! The cartridge: its header, and the memory bank controller that maps its
//! read-only memory and its RAM into the address space.
use vstd::prelude::*;
use vstd::utf8::{decode_utf8, valid_utf8};
use super::memory::{find_in_range, Access, MapsMemory, MemView, Memory, RegionView};
use crate::util::text::string_from_utf8;

verus! {

/// The length of the title: the bytes up to the first zero, at most all of them.
pub open spec fn title_length(bytes: Seq<u8>, i: int) -> int
    decreases bytes.len() - i,
{
    if i >= bytes.len() {
        bytes.len() as int
    } else if bytes[i] == 0 {
        i
    } else {
        title_length(bytes, i + 1)
    }
}

/// The bytes of the title: those of `0x134..0x144` before the first zero.
pub open spec fn title_bytes(rom: Seq<u8>) -> Seq<u8> {
    let field = rom.subrange(0x134, 0x144);
    field.take(title_length(field, 0))
}

/// The title: its bytes decoded as UTF-8, or empty where they are not UTF-8.
pub open spec fn title_of(rom: Seq<u8>) -> Seq<char> {
    if valid_utf8(title_bytes(rom)) {
        decode_utf8(title_bytes(rom))
    } else {
        Seq::empty()
    }
}

/// The kind of memory bank controller, and what else the cartridge holds.
#[derive(Copy, Clone, Debug)]
pub enum CartridgeType {
    MBCNone { ram: bool, battery: bool },
    MBC1 { ram: bool, battery: bool },
    MBC2 { battery: bool },
    MMM01 { ram: bool, battery: bool },
    MBC3 { timer: bool, ram: bool, battery: bool },
}

/// The cartridge type codes that the header may hold.
pub open spec fn cartridge_type_supported(code: u8) -> bool {
    code == 0x00 || code == 0x01 || code == 0x02 || code == 0x03 || code == 0x05 || code == 0x06
        || code == 0x0C || code == 0x0D || code == 0x0F || code == 0x10 || code == 0x11 || code == 0x12
        || code == 0x13
}

/// The cartridge type that `code` stands for.
pub open spec fn cartridge_type_for(code: u8) -> CartridgeType {
    if code == 0x00 {
        CartridgeType::MBCNone { ram: false, battery: false }
    } else if code == 0x01 {
        CartridgeType::MBC1 { ram: false, battery: false }
    } else if code == 0x02 {
        CartridgeType::MBC1 { ram: true, battery: false }
    } else if code == 0x03 {
        CartridgeType::MBC1 { ram: true, battery: true }
    } else if code == 0x05 {
        CartridgeType::MBC2 { battery: false }
    } else if code == 0x06 {
        CartridgeType::MBC2 { battery: true }
    } else if code == 0x0C {
        CartridgeType::MMM01 { ram: true, battery: false }
    } else if code == 0x0D {
        CartridgeType::MMM01 { ram: true, battery: true }
    } else if code == 0x0F {
        CartridgeType::MBC3 { timer: true, ram: false, battery: true }
    } else if code == 0x10 {
        CartridgeType::MBC3 { timer: true, ram: true, battery: true }
    } else if code == 0x11 {
        CartridgeType::MBC3 { timer: false, ram: false, battery: false }
    } else if code == 0x12 {
        CartridgeType::MBC3 { timer: false, ram: true, battery: false }
    } else {
        CartridgeType::MBC3 { timer: false, ram: true, battery: true }
    }
}

impl CartridgeType {
    pub fn new(code: u8) -> (r: CartridgeType)
        requires
            cartridge_type_supported(code),
        ensures
            r == cartridge_type_for(code),
    {
        match code {
            0x00 => CartridgeType::MBCNone { ram: false, battery: false },
            0x01 => CartridgeType::MBC1 { ram: false, battery: false },
            0x02 => CartridgeType::MBC1 { ram: true, battery: false },
            0x03 => CartridgeType::MBC1 { ram: true, battery: true },
            0x05 => CartridgeType::MBC2 { battery: false },
            0x06 => CartridgeType::MBC2 { battery: true },
            0x0C => CartridgeType::MMM01 { ram: true, battery: false },
            0x0D => CartridgeType::MMM01 { ram: true, battery: true },
            0x0F => CartridgeType::MBC3 { timer: true, ram: false, battery: true },
            0x10 => CartridgeType::MBC3 { timer: true, ram: true, battery: true },
            0x11 => CartridgeType::MBC3 { timer: false, ram: false, battery: false },
            0x12 => CartridgeType::MBC3 { timer: false, ram: true, battery: false },
            _ => CartridgeType::MBC3 { timer: false, ram: true, battery: true },
        }
    }
}

/// The size of the cartridge's read-only memory.
#[derive(Copy, Clone, Debug)]
pub enum RomSize {
    KB32,
    KB64,
    KB128,
    KB256,
    KB512,
    KB1024,
    KB2048,
    KB4096,
    KB8192,
}

impl RomSize {
    /// The header code of the size.
    pub open spec fn code(self) -> u8 {
        match self {
            RomSize::KB32 => 0x00,
            RomSize::KB64 => 0x01,
            RomSize::KB128 => 0x02,
            RomSize::KB256 => 0x03,
            RomSize::KB512 => 0x04,
            RomSize::KB1024 => 0x05,
            RomSize::KB2048 => 0x06,
            RomSize::KB4096 => 0x07,
            RomSize::KB8192 => 0x08,
        }
    }

    pub fn new(code: u8) -> (r: RomSize)
        requires
            code <= 0x08,
        ensures
            r.code() == code,
    {
        match code {
            0x00 => RomSize::KB32,
            0x01 => RomSize::KB64,
            0x02 => RomSize::KB128,
            0x03 => RomSize::KB256,
            0x04 => RomSize::KB512,
            0x05 => RomSize::KB1024,
            0x06 => RomSize::KB2048,
            0x07 => RomSize::KB4096,
            _ => RomSize::KB8192,
        }
    }
}

/// The size of the cartridge's RAM.
#[derive(Copy, Clone, Debug)]
pub enum RamSize {
    NoRam,
    KB2,
    KB8,
    KB32,
    KB64,
    KB128,
}

impl RamSize {
    /// The header code of the size.
    pub open spec fn code(self) -> u8 {
        match self {
            RamSize::NoRam => 0x00,
            RamSize::KB2 => 0x01,
            RamSize::KB8 => 0x02,
            RamSize::KB32 => 0x03,
            RamSize::KB128 => 0x04,
            RamSize::KB64 => 0x05,
        }
    }

    pub fn new(code: u8) -> (r: RamSize)
        requires
            code <= 0x05,
        ensures
            r.code() == code,
    {
        match code {
            0x00 => RamSize::NoRam,
            0x01 => RamSize::KB2,
            0x02 => RamSize::KB8,
            0x03 => RamSize::KB32,
            0x04 => RamSize::KB128,
            _ => RamSize::KB64,
        }
    }
}

/// What the header of a cartridge says.
pub struct HeaderView {
    pub title: Seq<char>,
    pub manufacturer: Seq<char>,
    pub licensee_code: u16,
    pub old_licensee_code: u8,
    pub cartridge_type: CartridgeType,
    pub rom_size: RomSize,
    pub ram_size: RamSize,
    pub destination: Seq<char>,
    pub version: u8,
    pub checksum: u8,
    pub global_checksum: u16,
}

/// The header codes of `rom` are all known.
pub open spec fn header_supported(rom: Seq<u8>) -> bool {
    &&& rom.len() >= 0x150
    &&& cartridge_type_supported(rom[0x147])
    &&& rom[0x148] <= 0x08
    &&& rom[0x149] <= 0x05
}

/// The header that the bytes `0x134..0x150` of `rom` describe.
pub open spec fn header_of(rom: Seq<u8>) -> HeaderView {
    HeaderView {
        title: title_of(rom),
        manufacturer: Seq::empty(),
        licensee_code: (rom[0x144] as int * 256 + rom[0x145] as int) as u16,
        old_licensee_code: rom[0x14B],
        cartridge_type: cartridge_type_for(rom[0x147]),
        rom_size: choose|s: RomSize| s.code() == rom[0x148],
        ram_size: choose|s: RamSize| s.code() == rom[0x149],
        destination: Seq::empty(),
        version: rom[0x14C],
        checksum: rom[0x14D],
        global_checksum: (rom[0x14E] as int * 256 + rom[0x14F] as int) as u16,
    }
}

/// The header of a cartridge.
#[derive(Debug)]
pub struct CartridgeHeader {
    title: String,
    manufacturer: String,
    licensee_code: u16,
    old_licensee_code: u8,
    cartridge_type: CartridgeType,
    rom_size: RomSize,
    ram_size: RamSize,
    destination: String,
    version: u8,
    checksum: u8,
    global_checksum: u16,
}

impl View for CartridgeHeader {
    type V = HeaderView;

    closed spec fn view(&self) -> HeaderView {
        HeaderView {
            title: self.title@,
            manufacturer: self.manufacturer@,
            licensee_code: self.licensee_code,
            old_licensee_code: self.old_licensee_code,
            cartridge_type: self.cartridge_type,
            rom_size: self.rom_size,
            ram_size: self.ram_size,
            destination: self.destination@,
            version: self.version,
            checksum: self.checksum,
            global_checksum: self.global_checksum,
        }
    }
}

impl CartridgeHeader {
    pub fn new(rom: &[u8]) -> (r: CartridgeHeader)
        requires
            header_supported(rom@),
        ensures
            r@ == header_of(rom@),
    {
        proof {
            let (a, b, c, d) = (rom@[0x144], rom@[0x145], rom@[0x14E], rom@[0x14F]);
            assert(((a as u16) << 8u16) as int + (b as u16) as int <= 0xFFFF) by (bit_vector);
            assert(((c as u16) << 8u16) as int + (d as u16) as int <= 0xFFFF) by (bit_vector);
        }
        let title = Self::extract_title(rom);
        let manufacturer = String::new();
        let licensee_code = ((rom[0x144] as u16) << 8) + (rom[0x145] as u16);
        let cartridge_type = CartridgeType::new(rom[0x147]);
        let rom_size = RomSize::new(rom[0x148]);
        let ram_size = RamSize::new(rom[0x149]);
        let destination = String::new();
        let old_licensee_code = rom[0x14B];
        let version = rom[0x14C];
        let checksum = rom[0x14D];
        let global_checksum = ((rom[0x14E] as u16) << 8) + (rom[0x14F] as u16);
        proof {
            let (a, b, c, d) = (rom@[0x144], rom@[0x145], rom@[0x14E], rom@[0x14F]);
            assert(((a as u16) << 8u16) + (b as u16) == (a as u16) * 256 + (b as u16)) by (bit_vector);
            assert(((c as u16) << 8u16) + (d as u16) == (c as u16) * 256 + (d as u16)) by (bit_vector);
        }
        let header = CartridgeHeader {
            title,
            manufacturer,
            licensee_code,
            old_licensee_code,
            cartridge_type,
            rom_size,
            ram_size,
            destination,
            version,
            checksum,
            global_checksum,
        };
        header
    }

    fn extract_title(rom: &[u8]) -> (r: String)
        requires
            rom@.len() >= 0x144,
        ensures
            r@ == title_of(rom@),
    {
        let ghost field = rom@.subrange(0x134, 0x144);
        let mut title: Vec<u8> = Vec::new();
        let mut i: usize = 0x134;
        let mut stop = false;
        while i < 0x144 && !stop
            invariant
                rom@.len() >= 0x144,
                field == rom@.subrange(0x134, 0x144),
                0x134 <= i <= 0x144,
                title@ == field.take(i - 0x134),
                forall|j: int| 0 <= j < i - 0x134 ==> field[j] != 0,
                stop ==> i < 0x144 && field[i - 0x134] == 0,
            decreases 0x144 - i, if stop { 0int } else { 1int },
        {
            let character = rom[i];
            if character == 0 {
                stop = true;
            } else {
                title.push(character);
                assert(title@ =~= field.take(i + 1 - 0x134));
                i = i + 1;
            }
        }
        proof { Self::lemma_title_length(field, i - 0x134, 0); }
        match string_from_utf8(title) {
            Some(s) => s,
            None => String::new(),
        }
    }

    /// The title length is the first index from `i` on that holds a zero,
    /// when all bytes from `i` to `k` are nonzero.
    proof fn lemma_title_length(field: Seq<u8>, k: int, i: int)
        requires
            0 <= i <= k <= field.len(),
            k < field.len() ==> field[k] == 0,
            forall|j: int| i <= j < k ==> field[j] != 0,
        ensures
            title_length(field, i) == k,
        decreases k - i,
    {
        if i < k {
            Self::lemma_title_length(field, k, i + 1);
        }
    }

    pub fn title(&self) -> (r: &str)
        ensures
            r@ == self@.title,
    {
        self.title.as_str()
    }
}

/// The bytes of a game with its header.
pub struct Rom {
    pub data: Vec<u8>,
    pub header: CartridgeHeader,
}

/// The views of a sequence of memories.
pub open spec fn views(memories: Seq<Memory>) -> Seq<MemView> {
    memories.map_values(|m: Memory| m@)
}

/// A read-only memory over `from..=to` that holds `values` from its start.
pub open spec fn rom_view(values: Seq<u8>, from: u16, to: u16) -> MemView {
    MemView { access: Access::ReadOnly, region: RegionView::filled(values, from, to) }
}

/// A read-write memory over `from..=to` that holds zero.
pub open spec fn ram_view(from: u16, to: u16) -> MemView {
    MemView { access: Access::ReadWrite, region: RegionView::filled(Seq::empty(), from, to) }
}

// ------------------------------------------------------------------------
// Cartridges without a memory bank controller
// ------------------------------------------------------------------------

/// The memories of a cartridge without bank controller: 32 KiB of read-only
/// memory at `0x0000..=0x7FFF` and, where it has RAM, 8 KiB at `0xA000..=0xBFFF`.
pub open spec fn mbc_none_layout(data: Seq<u8>, ram: bool) -> Seq<MemView> {
    let rom = seq![rom_view(data.subrange(0, 0x8000), 0x0000, 0x7FFF)];
    if ram { rom.push(ram_view(0xA000, 0xBFFF)) } else { rom }
}

/// The memory of a cartridge without bank controller.
pub struct MbcNone {
    memory: Vec<Memory>,
}

impl View for MbcNone {
    type V = Seq<MemView>;

    closed spec fn view(&self) -> Seq<MemView> {
        views(self.memory@)
    }
}

/// A cartridge without bank controller: its read-only memory first, then its RAM.
pub open spec fn mbc_none_wf(v: Seq<MemView>) -> bool {
    &&& v.len() == 1 || v.len() == 2
    &&& v[0].access == Access::ReadOnly
    &&& v[0].region.from == 0x0000 && v[0].region.to == 0x7FFF && v[0].region.wf()
    &&& v.len() == 2 ==> v[1].access == Access::ReadWrite && v[1].region.from == 0xA000 && v[1].region.to == 0xBFFF
        && v[1].region.wf()
}

pub open spec fn mbc_none_in_range(v: Seq<MemView>, address: u16) -> bool {
    v[0].region.contains(address) || (v.len() == 2 && v[1].region.contains(address))
}

pub open spec fn mbc_none_read(v: Seq<MemView>, address: u16) -> Result<u8, ()> {
    if v[0].region.contains(address) { Ok(v[0].region.get(address)) } else { Ok(v[1].region.get(address)) }
}

impl MbcNone {
    pub fn new(rom: &Rom, ram: bool) -> (r: MbcNone)
        requires
            rom.data@.len() >= 0x8000,
        ensures
            r@ == mbc_none_layout(rom.data@, ram),
            r.wf(),
    {
        let mut memory: Vec<Memory> = Vec::new();
        let end = if rom.data.len() >= 0x7FFF { 0x7FFF } else { rom.data.len() };
        memory.push(Memory::new_read_only(vstd::slice::slice_subrange(rom.data.as_slice(), 0x0000, end + 1), 0x0000, 0x7FFF));
        if ram {
            let empty: Vec<u8> = Vec::new();
            memory.push(Memory::new_read_write(empty.as_slice(), 0xA000, 0xBFFF));
        }
        let r = MbcNone { memory };
        assert(r.memory@[0]@ == rom_view(rom.data@.subrange(0, 0x8000), 0x0000, 0x7FFF));
        assert(views(r.memory@)[0] == r.memory@[0]@);
        if ram {
            assert(views(r.memory@)[1] == r.memory@[1]@);
        }
        assert(r@ =~= mbc_none_layout(rom.data@, ram));
        r
    }
}

impl MapsMemory for MbcNone {
    open spec fn wf(&self) -> bool {
        mbc_none_wf(self@)
    }

    open spec fn read_defined(&self, address: u16) -> bool {
        mbc_none_in_range(self@, address)
    }

    open spec fn read_spec(&self, address: u16) -> Result<u8, ()> {
        mbc_none_read(self@, address)
    }

    open spec fn write_defined(&self, address: u16, value: u8) -> bool {
        true
    }

    open spec fn write_spec(&self, address: u16, value: u8) -> Result<(), ()> {
        Ok(())
    }

    open spec fn written(&self, after: &Self, address: u16, value: u8) -> bool {
        after@ == self@
    }

    open spec fn in_range(&self, address: u16) -> bool {
        mbc_none_in_range(self@, address)
    }

    fn read(&self, address: u16) -> (r: Result<u8, ()>) {
        let index = find_in_range(&self.memory, address);
        match index {
            Some(i) => self.memory[i].read(address),
            None => {
                assert(self.memory@[0].in_range(address));
                Err(())
            },
        }
    }

    fn write(&mut self, _address: u16, _value: u8) -> (r: Result<(), ()>) {
        Ok(())
    }

    fn is_in_range(&self, address: u16) -> (r: bool) {
        proof {
            assert(self.memory@[0]@ == self@[0]);
            if self@.len() == 2 {
                assert(self.memory@[1]@ == self@[1]);
            }
        }
        find_in_range(&self.memory, address).is_some()
    }
}

// ------------------------------------------------------------------------
// Cartridges with the first memory bank controller
// ------------------------------------------------------------------------

/// The number of switchable banks that a read-only memory of `size` has.
pub open spec fn rom_banks(size: RomSize) -> int {
    match size {
        RomSize::KB32 => 1,
        RomSize::KB64 => 4,
        RomSize::KB128 => 8,
        RomSize::KB256 => 16,
        RomSize::KB512 => 32,
        RomSize::KB1024 => 63,
        RomSize::KB2048 => 125,
        _ => 0,
    }
}

/// The sizes that the first bank controller handles.
pub open spec fn mbc1_rom_size_supported(size: RomSize) -> bool {
    !(size is KB4096) && !(size is KB8192)
}

/// The number of RAM banks and the distance from the first address of a
/// bank to its last one.
pub open spec fn ram_layout(ram: bool, size: RamSize) -> (int, int) {
    if ram {
        match size {
            RamSize::KB2 => (1, 0x800),
            RamSize::KB8 => (1, 0x2000),
            RamSize::KB32 => (4, 0x2000),
            _ => (0, 0),
        }
    } else {
        (0, 0)
    }
}

pub open spec fn mbc1_ram_size_supported(ram: bool, size: RamSize) -> bool {
    ram ==> !(size is KB64) && !(size is KB128)
}

/// Where bank `i` of data of length `len` starts: at `i` banks, or at the end
/// of the data where the data is shorter.
pub open spec fn bank_start(len: int, i: int) -> int {
    if len >= 0x4000 * i { 0x4000 * i } else { len }
}

/// The last index of bank `i`: one bank on from its start, or the last byte.
pub open spec fn bank_last(len: int, i: int) -> int {
    if len >= bank_start(len, i) + 0x3FFF { bank_start(len, i) + 0x3FFF } else { len - 1 }
}

/// The bytes of bank `i`.
pub open spec fn bank_bytes(data: Seq<u8>, i: int) -> Seq<u8> {
    data.subrange(bank_start(data.len() as int, i), bank_last(data.len() as int, i) + 1)
}

/// Slicing bank `i` out of data of length `len` stays in the data (a bank
/// whose last index would be the last byte but one is out of it).
pub open spec fn bank_slicable(len: int, i: int) -> bool {
    len != bank_start(len, i) + 0x3FFF
}

/// The read-only banks of the first bank controller: bank 0 at
/// `0x0000..=0x3FFF`, then `banks` switchable banks at `0x4000..=0x7FFF`.
pub open spec fn mbc1_rom_layout(data: Seq<u8>, banks: int) -> Seq<MemView> {
    Seq::new((banks + 1) as nat, |i: int|
        if i == 0 {
            rom_view(bank_bytes(data, 0), 0x0000, 0x3FFF)
        } else {
            rom_view(bank_bytes(data, i), 0x4000, 0x7FFF)
        })
}

/// The RAM banks of the first bank controller, each from `0xA000` on.
pub open spec fn mbc1_ram_layout(ram: bool, size: RamSize) -> Seq<MemView> {
    let (banks, bank_size) = ram_layout(ram, size);
    Seq::new(banks as nat, |i: int| ram_view(0xA000, (0xA000 + bank_size) as u16))
}

/// The state of the first memory bank controller.
pub struct Mbc1View {
    pub rom: Seq<MemView>,
    pub ram: Seq<MemView>,
    pub ram_enable: u8,
    pub rom_bank_number: u8,
    pub ram_bank_number: u8,
    pub mode_select: u8,
}

impl Mbc1View {
    pub open spec fn wf(self) -> bool {
        &&& self.rom.len() >= 1
        &&& self.rom[0].access == Access::ReadOnly && self.rom[0].region.from == 0x0000 && self.rom[0].region.to == 0x3FFF
            && self.rom[0].region.wf()
        &&& forall|i: int| 1 <= i < self.rom.len() ==> (#[trigger] self.rom[i]).access == Access::ReadOnly
            && self.rom[i].region.from == 0x4000 && self.rom[i].region.to == 0x7FFF && self.rom[i].region.wf()
        &&& forall|i: int| 0 <= i < self.ram.len() ==> (#[trigger] self.ram[i]).access == Access::ReadWrite
            && self.ram[i].region.from == 0xA000 && self.ram[i].region.to <= 0xC000 && self.ram[i].region.wf()
        &&& 1 <= self.rom_bank_number <= 0x1F
        &&& self.ram_bank_number <= 0x03
        &&& self.mode_select <= 1
    }

    /// The bank that `0x4000..=0x7FFF` shows: in mode 0 the RAM bank number
    /// gives bits 5 and 6 of the bank number.
    pub open spec fn selected_rom_bank(self) -> int {
        if self.mode_select == 0 {
            self.rom_bank_number + self.ram_bank_number * 32
        } else {
            self.rom_bank_number as int
        }
    }

    /// The RAM bank that reads see: the RAM bank number in mode 1, else bank 0.
    pub open spec fn selected_ram_bank(self) -> int {
        if self.mode_select == 1 { self.ram_bank_number as int } else { 0 }
    }

    pub open spec fn ram_enabled(self) -> bool {
        self.ram_enable & 0x0A == 0x0A
    }

    pub open spec fn read_defined(self, address: u16) -> bool {
        ||| address <= 0x3FFF
        ||| 0x4000 <= address <= 0x7FFF && self.selected_rom_bank() < self.rom.len()
        ||| 0xA000 <= address <= 0xBFFF && (self.ram_enabled() ==> self.selected_ram_bank() < self.ram.len()
            && self.ram[self.selected_ram_bank()].region.contains(address))
    }

    pub open spec fn read(self, address: u16) -> Result<u8, ()> {
        if address <= 0x3FFF {
            Ok(self.rom[0].region.get(address))
        } else if address <= 0x7FFF {
            Ok(self.rom[self.selected_rom_bank()].region.get(address))
        } else if self.ram_enabled() {
            Ok(self.ram[self.selected_ram_bank()].region.get(address))
        } else {
            Err(())
        }
    }

    pub open spec fn write_defined(self, address: u16) -> bool {
        address <= 0x7FFF || (self.ram_bank_number < self.ram.len()
            && self.ram[self.ram_bank_number as int].region.contains(address))
    }

    /// What a write leaves: the registers of the controller below `0x8000`,
    /// else the byte in the RAM bank that the RAM bank number selects.
    pub open spec fn write(self, address: u16, value: u8) -> Mbc1View {
        if address <= 0x1FFF {
            Mbc1View { ram_enable: value, ..self }
        } else if address <= 0x3FFF {
            Mbc1View { rom_bank_number: if value % 32 == 0 { 1 } else { value % 32 }, ..self }
        } else if address <= 0x5FFF {
            Mbc1View { ram_bank_number: value % 4, ..self }
        } else if address <= 0x7FFF {
            Mbc1View { mode_select: value % 2, ..self }
        } else {
            let bank = self.ram_bank_number as int;
            Mbc1View {
                ram: self.ram.update(bank, MemView { access: Access::ReadWrite, region: self.ram[bank].region.store(address, value) }),
                ..self
            }
        }
    }

    pub open spec fn in_range(self, address: u16) -> bool {
        ||| address <= 0x3FFF
        ||| 0x4000 <= address <= 0x7FFF && self.rom.len() > 1
        ||| exists|i: int| 0 <= i < self.ram.len() && (#[trigger] self.ram[i]).region.contains(address)
    }
}

/// The memory of a cartridge with the first memory bank controller.
pub struct Mbc1 {
    rom: Vec<Memory>,
    ram: Vec<Memory>,
    ram_enable: u8,
    rom_bank_number: u8,
    ram_bank_number: u8,
    mode_select: u8,
}

impl View for Mbc1 {
    type V = Mbc1View;

    closed spec fn view(&self) -> Mbc1View {
        Mbc1View {
            rom: views(self.rom@),
            ram: views(self.ram@),
            ram_enable: self.ram_enable,
            rom_bank_number: self.rom_bank_number,
            ram_bank_number: self.ram_bank_number,
            mode_select: self.mode_select,
        }
    }
}

/// `Mbc1::new` slices every bank inside the data.
pub open spec fn mbc1_new_defined(len: int, banks: int) -> bool {
    &&& len >= 1
    &&& forall|i: int| 0 <= i <= banks ==> #[trigger] bank_slicable(len, i)
}

impl Mbc1 {
    pub fn new(rom: &Rom, ram: bool, rom_size: RomSize, ram_size: RamSize) -> (r: Mbc1)
        requires
            mbc1_rom_size_supported(rom_size),
            mbc1_ram_size_supported(ram, ram_size),
            mbc1_new_defined(rom.data@.len() as int, rom_banks(rom_size)),
        ensures
            r@ == (Mbc1View {
                rom: mbc1_rom_layout(rom.data@, rom_banks(rom_size)),
                ram: mbc1_ram_layout(ram, ram_size),
                ram_enable: 0,
                rom_bank_number: 1,
                ram_bank_number: 0,
                mode_select: 0,
            }),
            r.wf(),
    {
        let ghost data = rom.data@;
        let len = rom.data.len();
        let mut memory_rom: Vec<Memory> = Vec::new();
        let mut memory_ram: Vec<Memory> = Vec::new();
        let banks: usize = match rom_size {
            RomSize::KB32 => 1,
            RomSize::KB64 => 4,
            RomSize::KB128 => 8,
            RomSize::KB256 => 16,
            RomSize::KB512 => 32,
            RomSize::KB1024 => 63,
            _ => 125,
        };
        assert(bank_slicable(len as int, 0));
        let end = if len >= 0x3FFF { 0x3FFF } else { len - 1 };
        let bank0 = Memory::new_read_only(vstd::slice::slice_subrange(rom.data.as_slice(), 0x0000, end + 1), 0x0000, 0x3FFF);
        memory_rom.push(bank0);
        let mut i: usize = 1;
        while i <= banks
            invariant
                1 <= i <= banks + 1,
                banks == rom_banks(rom_size),
                banks <= 125,
                len == data.len(),
                data == rom.data@,
                mbc1_new_defined(len as int, banks as int),
                memory_rom@.len() == i,
                forall|k: int| 0 <= k < i ==> (#[trigger] memory_rom@[k])@ == mbc1_rom_layout(data, banks as int)[k],
                forall|k: int| 0 <= k < memory_rom@.len() ==> (#[trigger] memory_rom@[k]).wf(),
            decreases banks + 1 - i,
        {
            assert(bank_slicable(len as int, i as int));
            let start = if len >= 0x4000 * i { 0x4000 * i } else { len };
            let end = if len >= start + 0x3FFF { start + 0x3FFF } else { len - 1 };
            let banki = Memory::new_read_only(vstd::slice::slice_subrange(rom.data.as_slice(), start, end + 1), 0x4000, 0x7FFF);
            memory_rom.push(banki);
            i = i + 1;
        }
        let (ram_banks, bank_size): (usize, u16) = if ram {
            match ram_size {
                RamSize::NoRam => (0, 0),
                RamSize::KB2 => (1, 0x800),
                RamSize::KB8 => (1, 0x2000),
                _ => (4, 0x2000),
            }
        } else {
            (0, 0)
        };
        let mut j: usize = 0;
        while j < ram_banks
            invariant
                j <= ram_banks,
                (ram_banks as int, bank_size as int) == ram_layout(ram, ram_size),
                bank_size <= 0x2000,
                memory_ram@.len() == j,
                forall|k: int| 0 <= k < j ==> (#[trigger] memory_ram@[k])@ == mbc1_ram_layout(ram, ram_size)[k],
                forall|k: int| 0 <= k < memory_ram@.len() ==> (#[trigger] memory_ram@[k]).wf(),
            decreases ram_banks - j,
        {
            let empty: Vec<u8> = Vec::new();
            memory_ram.push(Memory::new_read_write(empty.as_slice(), 0xA000, 0xA000 + bank_size));
            j = j + 1;
        }
        let r = Mbc1 {
            rom: memory_rom,
            ram: memory_ram,
            ram_enable: 0,
            rom_bank_number: 1,
            ram_bank_number: 0,
            mode_select: 0,
        };
        assert(views(r.rom@) =~= mbc1_rom_layout(data, banks as int));
        assert(views(r.ram@) =~= mbc1_ram_layout(ram, ram_size));
        r
    }
}

impl Mbc1 {
    /// Whether `read(address)` can be made.
    pub fn can_read(&self, address: u16) -> (r: bool)
        requires
            self@.wf(),
        ensures
            r == self@.read_defined(address),
    {
        if address <= 0x3FFF {
            true
        } else if address <= 0x7FFF {
            let mut bank = self.rom_bank_number;
            if self.mode_select == 0 {
                let (n, m) = (self.rom_bank_number, self.ram_bank_number);
                assert(n | (m << 5u8) == n + m * 32) by (bit_vector)
                    requires n <= 0x1F, m <= 3;
                bank |= self.ram_bank_number << 5;
            }
            proof { assert(views(self.rom@).len() == self.rom@.len()); }
            (bank as usize) < self.rom.len()
        } else if 0xA000 <= address && address <= 0xBFFF {
            if (self.ram_enable & 0x0A) == 0x0A {
                let bank = if self.mode_select == 1 { self.ram_bank_number } else { 0 };
                proof { assert(views(self.ram@).len() == self.ram@.len()); }
                if (bank as usize) < self.ram.len() {
                    proof { assert(self.ram@[bank as int]@ == self@.ram[bank as int]); }
                    self.ram[bank as usize].is_in_range(address)
                } else {
                    false
                }
            } else {
                true
            }
        } else {
            false
        }
    }

    /// Whether `write(address, value)` can be made.
    pub fn can_write(&self, address: u16) -> (r: bool)
        requires
            self@.wf(),
        ensures
            r == self@.write_defined(address),
    {
        if address <= 0x7FFF {
            true
        } else {
            let bank = self.ram_bank_number;
            proof { assert(views(self.ram@).len() == self.ram@.len()); }
            if (bank as usize) < self.ram.len() {
                proof { assert(self.ram@[bank as int]@ == self@.ram[bank as int]); }
                self.ram[bank as usize].is_in_range(address)
            } else {
                false
            }
        }
    }
}

impl MapsMemory for Mbc1 {
    open spec fn wf(&self) -> bool {
        self@.wf()
    }

    open spec fn read_defined(&self, address: u16) -> bool {
        self@.read_defined(address)
    }

    open spec fn read_spec(&self, address: u16) -> Result<u8, ()> {
        self@.read(address)
    }

    open spec fn write_defined(&self, address: u16, value: u8) -> bool {
        self@.write_defined(address)
    }

    open spec fn write_spec(&self, address: u16, value: u8) -> Result<(), ()> {
        Ok(())
    }

    open spec fn written(&self, after: &Self, address: u16, value: u8) -> bool {
        after@ == self@.write(address, value)
    }

    open spec fn in_range(&self, address: u16) -> bool {
        self@.in_range(address)
    }

    fn read(&self, address: u16) -> (r: Result<u8, ()>) {
        proof { assert(self.rom@[0]@ == self@.rom[0]); }
        if address <= 0x3FFF {
            self.rom[0].read(address)
        } else if address <= 0x7FFF {
            let mut bank = self.rom_bank_number;
            if self.mode_select == 0 {
                let (n, m) = (self.rom_bank_number, self.ram_bank_number);
                assert(n | (m << 5u8) == n + m * 32) by (bit_vector)
                    requires n <= 0x1F, m <= 3;
                bank |= self.ram_bank_number << 5;
            }
            proof { assert(self.rom@[bank as int]@ == self@.rom[bank as int]); }
            self.rom[bank as usize].read(address)
        } else {
            if (self.ram_enable & 0x0A) == 0x0A {
                let bank = if self.mode_select == 1 { self.ram_bank_number } else { 0 };
                proof { assert(self.ram@[bank as int]@ == self@.ram[bank as int]); }
                self.ram[bank as usize].read(address)
            } else {
                Err(())
            }
        }
    }

    fn write(&mut self, address: u16, value: u8) -> (r: Result<(), ()>) {
        proof {
            assert((value & 0b11111) == value % 32) by (bit_vector);
            assert((value & 0b11) == value % 4) by (bit_vector);
            assert((value & 0b1) == value % 2) by (bit_vector);
        }
        if address <= 0x1FFF {
            self.ram_enable = value;
            Ok(())
        } else if address <= 0x3FFF {
            self.rom_bank_number = value & 0b11111;
            if self.rom_bank_number == 0 {
                self.rom_bank_number = 1
            }
            Ok(())
        } else if address <= 0x5FFF {
            self.ram_bank_number = value & 0b11;
            Ok(())
        } else if address <= 0x7FFF {
            self.mode_select = value & 0b1;
            Ok(())
        } else {
            let bank = self.ram_bank_number;
            let ghost old_ram = self.ram@;
            proof { assert(self.ram@[bank as int]@ == self@.ram[bank as int]); }
            let mut memory = self.ram.remove(bank as usize);
            let r = memory.write(address, value);
            self.ram.insert(bank as usize, memory);
            assert(self.ram@ =~= old_ram.update(bank as int, self.ram@[bank as int]));
            assert(views(self.ram@) =~= views(old_ram).update(bank as int, self.ram@[bank as int]@));
            r
        }
    }

    fn is_in_range(&self, address: u16) -> (r: bool) {
        proof {
            assert forall|i: int| 0 <= i < self.rom@.len() implies (#[trigger] self.rom@[i]).wf() by {
                assert(views(self.rom@)[i] == self.rom@[i]@);
            }
            assert forall|i: int| 0 <= i < self.ram@.len() implies (#[trigger] self.ram@[i]).wf() by {
                assert(views(self.ram@)[i] == self.ram@[i]@);
            }
        }
        let rom = find_in_range(&self.rom, address).is_some();
        let ram = find_in_range(&self.ram, address).is_some();
        proof {
            if rom {
                let i = choose|i: int| 0 <= i < self.rom@.len() && self.rom@[i].in_range(address);
                assert(self@.rom[i] == self.rom@[i]@);
            }
            if address <= 0x3FFF {
                assert(self@.rom[0] == self.rom@[0]@);
            }
            if 0x4000 <= address <= 0x7FFF && self@.rom.len() > 1 {
                assert(self@.rom[1] == self.rom@[1]@);
            }
            if ram {
                let i = choose|i: int| 0 <= i < self.ram@.len() && self.ram@[i].in_range(address);
                assert(self@.ram[i] == self.ram@[i]@);
            }
            if exists|i: int| 0 <= i < self@.ram.len() && (#[trigger] self@.ram[i]).region.contains(address) {
                let i = choose|i: int| 0 <= i < self@.ram.len() && (#[trigger] self@.ram[i]).region.contains(address);
                assert(self@.ram[i] == self.ram@[i]@);
            }
        }
        ram || rom
    }
}

// ------------------------------------------------------------------------
// The controller of a cartridge, and the cartridge
// ------------------------------------------------------------------------

/// The memory of a cartridge, by the kind of its bank controller.
pub enum Mbc {
    Plain(MbcNone),
    Mbc1(Mbc1),
}

/// What the memory of a cartridge holds.
pub enum MbcView {
    Plain(Seq<MemView>),
    Mbc1(Mbc1View),
}

impl View for Mbc {
    type V = MbcView;

    open spec fn view(&self) -> MbcView {
        match self {
            Mbc::Plain(m) => MbcView::Plain(m@),
            Mbc::Mbc1(m) => MbcView::Mbc1(m@),
        }
    }
}

impl MbcView {
    pub open spec fn wf(self) -> bool {
        match self {
            MbcView::Plain(v) => mbc_none_wf(v),
            MbcView::Mbc1(v) => v.wf(),
        }
    }

    pub open spec fn read_defined(self, address: u16) -> bool {
        match self {
            MbcView::Plain(v) => mbc_none_in_range(v, address),
            MbcView::Mbc1(v) => v.read_defined(address),
        }
    }

    pub open spec fn read(self, address: u16) -> Result<u8, ()> {
        match self {
            MbcView::Plain(v) => mbc_none_read(v, address),
            MbcView::Mbc1(v) => v.read(address),
        }
    }

    pub open spec fn write_defined(self, address: u16) -> bool {
        match self {
            MbcView::Plain(v) => true,
            MbcView::Mbc1(v) => v.write_defined(address),
        }
    }

    /// What a write leaves: nothing changes without a bank controller.
    pub open spec fn write(self, address: u16, value: u8) -> MbcView {
        match self {
            MbcView::Plain(v) => MbcView::Plain(v),
            MbcView::Mbc1(v) => MbcView::Mbc1(v.write(address, value)),
        }
    }

    pub open spec fn in_range(self, address: u16) -> bool {
        match self {
            MbcView::Plain(v) => mbc_none_in_range(v, address),
            MbcView::Mbc1(v) => v.in_range(address),
        }
    }
}

impl Mbc {
    /// Whether `read(address)` can be made.
    pub fn can_read(&self, address: u16) -> (r: bool)
        requires
            self@.wf(),
        ensures
            r == self@.read_defined(address),
    {
        match self {
            Mbc::Plain(m) => m.is_in_range(address),
            Mbc::Mbc1(m) => m.can_read(address),
        }
    }

    /// Whether `write(address, value)` can be made.
    pub fn can_write(&self, address: u16) -> (r: bool)
        requires
            self@.wf(),
        ensures
            r == self@.write_defined(address),
    {
        match self {
            Mbc::Plain(m) => true,
            Mbc::Mbc1(m) => m.can_write(address),
        }
    }
}

impl MapsMemory for Mbc {
    open spec fn wf(&self) -> bool {
        self@.wf()
    }

    open spec fn read_defined(&self, address: u16) -> bool {
        self@.read_defined(address)
    }

    open spec fn read_spec(&self, address: u16) -> Result<u8, ()> {
        self@.read(address)
    }

    open spec fn write_defined(&self, address: u16, value: u8) -> bool {
        self@.write_defined(address)
    }

    open spec fn write_spec(&self, address: u16, value: u8) -> Result<(), ()> {
        Ok(())
    }

    open spec fn written(&self, after: &Self, address: u16, value: u8) -> bool {
        after@ == self@.write(address, value)
    }

    open spec fn in_range(&self, address: u16) -> bool {
        self@.in_range(address)
    }

    fn read(&self, address: u16) -> (r: Result<u8, ()>) {
        match self {
            Mbc::Plain(m) => m.read(address),
            Mbc::Mbc1(m) => m.read(address),
        }
    }

    fn write(&mut self, address: u16, value: u8) -> (r: Result<(), ()>) {
        match self {
            Mbc::Plain(m) => m.write(address, value),
            Mbc::Mbc1(m) => m.write(address, value),
        }
    }

    fn is_in_range(&self, address: u16) -> (r: bool) {
        match self {
            Mbc::Plain(m) => m.is_in_range(address),
            Mbc::Mbc1(m) => m.is_in_range(address),
        }
    }
}

/// The controllers that the emulator builds: none, or the first one, with
/// the sizes that it handles and data that it can slice into banks.
pub open spec fn controller_defined(data: Seq<u8>, header: HeaderView) -> bool {
    match header.cartridge_type {
        CartridgeType::MBCNone { .. } => data.len() >= 0x8000,
        CartridgeType::MBC1 { ram, .. } => {
            &&& mbc1_rom_size_supported(header.rom_size)
            &&& mbc1_ram_size_supported(ram, header.ram_size)
            &&& mbc1_new_defined(data.len() as int, rom_banks(header.rom_size))
        },
        _ => false,
    }
}

/// The memory that the controller of a cartridge with `data` and `header` starts with.
pub open spec fn controller_for(data: Seq<u8>, header: HeaderView) -> MbcView {
    match header.cartridge_type {
        CartridgeType::MBC1 { ram, .. } => MbcView::Mbc1(Mbc1View {
            rom: mbc1_rom_layout(data, rom_banks(header.rom_size)),
            ram: mbc1_ram_layout(ram, header.ram_size),
            ram_enable: 0,
            rom_bank_number: 1,
            ram_bank_number: 0,
            mode_select: 0,
        }),
        CartridgeType::MBCNone { ram, .. } => MbcView::Plain(mbc_none_layout(data, ram)),
        _ => MbcView::Plain(Seq::empty()),
    }
}

/// Builds the memory bank controller that a cartridge's header asks for.
pub struct MemoryBankController {}

impl MemoryBankController {
    pub fn create_rom_memory(rom: &Rom) -> (r: Mbc)
        requires
            controller_defined(rom.data@, rom.header@),
        ensures
            r@ == controller_for(rom.data@, rom.header@),
            r.wf(),
    {
        let rom_size = rom.header.rom_size;
        let ram_size = rom.header.ram_size;
        match rom.header.cartridge_type {
            CartridgeType::MBCNone { ram, .. } => Mbc::Plain(MbcNone::new(rom, ram)),
            CartridgeType::MBC1 { ram, .. } => Mbc::Mbc1(Mbc1::new(rom, ram, rom_size, ram_size)),
            _ => {
                assert(false);
                Mbc::Plain(MbcNone { memory: Vec::new() })
            },
        }
    }
}

/// The games that the emulator can load: a known header and a controller
/// that it builds.
pub open spec fn cartridge_supported(game: Seq<u8>) -> bool {
    header_supported(game) && controller_defined(game, header_of(game))
}

/// What a cartridge is: its header and the memory of its controller.
pub struct CartridgeView {
    pub header: HeaderView,
    pub mbc: MbcView,
}

/// A game cartridge.
pub struct Cartridge {
    mbc: Mbc,
    header: CartridgeHeader,
}

impl View for Cartridge {
    type V = CartridgeView;

    closed spec fn view(&self) -> CartridgeView {
        CartridgeView { header: self.header@, mbc: self.mbc@ }
    }
}

impl Cartridge {
    /// The cartridge that holds `game`.
    pub fn new(game: Vec<u8>) -> (r: Cartridge)
        requires
            cartridge_supported(game@),
        ensures
            r@ == (CartridgeView { header: header_of(game@), mbc: controller_for(game@, header_of(game@)) }),
            r.wf(),
    {
        let mut data: Vec<u8> = Vec::new();
        let mut i: usize = 0;
        while i < game.len()
            invariant
                i <= game@.len(),
                data@ == game@.take(i as int),
            decreases game@.len() - i,
        {
            data.push(game[i]);
            assert(data@ =~= game@.take(i + 1));
            i = i + 1;
        }
        assert(data@ =~= game@);
        let header = CartridgeHeader::new(data.as_slice());
        proof { Self::lemma_sizes_unique(game@); }
        let rom = Rom { data, header };
        let mbc = MemoryBankController::create_rom_memory(&rom);
        Cartridge { mbc, header: rom.header }
    }

    /// Whether `Cartridge::new` can build a cartridge of `game`: a known
    /// header, and a controller that handles its sizes and can slice its banks.
    #[verifier::loop_isolation(false)]
    pub fn supported(game: &Vec<u8>) -> (r: bool)
        ensures
            r == cartridge_supported(game@),
    {
        if game.len() < 0x150 {
            return false;
        }
        let code = game[0x147];
        let known = code == 0x00 || code == 0x01 || code == 0x02 || code == 0x03 || code == 0x05 || code == 0x06
            || code == 0x0C || code == 0x0D || code == 0x0F || code == 0x10 || code == 0x11 || code == 0x12
            || code == 0x13;
        if !known || game[0x148] > 0x08 || game[0x149] > 0x05 {
            return false;
        }
        let header = CartridgeHeader::new(game.as_slice());
        proof { Self::lemma_sizes_unique(game@); }
        match header.cartridge_type {
            CartridgeType::MBCNone { .. } => game.len() >= 0x8000,
            CartridgeType::MBC1 { ram, .. } => {
                let banks: usize = match header.rom_size {
                    RomSize::KB32 => 1,
                    RomSize::KB64 => 4,
                    RomSize::KB128 => 8,
                    RomSize::KB256 => 16,
                    RomSize::KB512 => 32,
                    RomSize::KB1024 => 63,
                    RomSize::KB2048 => 125,
                    _ => return false,
                };
                let ram_handled = match header.ram_size {
                    RamSize::KB64 | RamSize::KB128 => !ram,
                    _ => true,
                };
                if !ram_handled {
                    return false;
                }
                let len = game.len();
                assert(header@ == header_of(game@));
                assert(banks as int == rom_banks(header_of(game@).rom_size));
                let mut i: usize = 0;
                while i <= banks
                    invariant
                        i <= banks + 1,
                        banks <= 125,
                        banks as int == rom_banks(header_of(game@).rom_size),
                        len == game@.len(),
                        forall|j: int| 0 <= j < i ==> #[trigger] bank_slicable(len as int, j),
                    decreases banks + 1 - i,
                {
                    if len >= 0x4000 * i && len == 0x4000 * i + 0x3FFF {
                        assert(!bank_slicable(len as int, i as int));
                        assert(!mbc1_new_defined(len as int, rom_banks(header_of(game@).rom_size)));
                        return false;
                    }
                    i = i + 1;
                }
                true
            },
            _ => false,
        }
    }

    /// The size codes of a header name one size each.
    proof fn lemma_sizes_unique(rom: Seq<u8>)
        requires
            header_supported(rom),
        ensures
            forall|s: RomSize| s.code() == rom[0x148] ==> s == header_of(rom).rom_size,
            forall|s: RamSize| s.code() == rom[0x149] ==> s == header_of(rom).ram_size,
    {
        assert(RomSize::KB32.code() == 0 && RomSize::KB64.code() == 1 && RomSize::KB128.code() == 2);
        let witness = if rom[0x148] == 0 { RomSize::KB32 } else if rom[0x148] == 1 { RomSize::KB64 }
            else if rom[0x148] == 2 { RomSize::KB128 } else if rom[0x148] == 3 { RomSize::KB256 }
            else if rom[0x148] == 4 { RomSize::KB512 } else if rom[0x148] == 5 { RomSize::KB1024 }
            else if rom[0x148] == 6 { RomSize::KB2048 } else if rom[0x148] == 7 { RomSize::KB4096 }
            else { RomSize::KB8192 };
        assert(witness.code() == rom[0x148]);
        let witness2 = if rom[0x149] == 0 { RamSize::NoRam } else if rom[0x149] == 1 { RamSize::KB2 }
            else if rom[0x149] == 2 { RamSize::KB8 } else if rom[0x149] == 3 { RamSize::KB32 }
            else if rom[0x149] == 4 { RamSize::KB128 } else { RamSize::KB64 };
        assert(witness2.code() == rom[0x149]);
    }

    /// Whether a read at `address` can be made.
    pub fn can_read(&self, address: u16) -> (r: bool)
        requires
            self.wf(),
        ensures
            r == self@.mbc.read_defined(address),
    {
        self.mbc.can_read(address)
    }

    /// Whether a write at `address` can be made.
    pub fn can_write(&self, address: u16) -> (r: bool)
        requires
            self.wf(),
        ensures
            r == self@.mbc.write_defined(address),
    {
        self.mbc.can_write(address)
    }

    /// The title that the header holds.
    pub fn title(&self) -> (r: &str)
        ensures
            r@ == self@.header.title,
    {
        self.header.title()
    }
}

impl MapsMemory for Cartridge {
    open spec fn wf(&self) -> bool {
        self@.mbc.wf()
    }

    open spec fn read_defined(&self, address: u16) -> bool {
        self@.mbc.read_defined(address)
    }

    open spec fn read_spec(&self, address: u16) -> Result<u8, ()> {
        self@.mbc.read(address)
    }

    open spec fn write_defined(&self, address: u16, value: u8) -> bool {
        self@.mbc.write_defined(address)
    }

    open spec fn write_spec(&self, address: u16, value: u8) -> Result<(), ()> {
        Ok(())
    }

    open spec fn written(&self, after: &Self, address: u16, value: u8) -> bool {
        after@ == (CartridgeView { mbc: self@.mbc.write(address, value), ..self@ })
    }

    open spec fn in_range(&self, address: u16) -> bool {
        self@.mbc.in_range(address)
    }

    fn read(&self, address: u16) -> (r: Result<u8, ()>) {
        self.mbc.read(address)
    }

    fn write(&mut self, address: u16, value: u8) -> (r: Result<(), ()>) {
        self.mbc.write(address, value)
    }

    fn is_in_range(&self, address: u16) -> (r: bool) {
        self.mbc.is_in_range(address)
    }
}

/// The switchable area never shows bank 0: whatever is written to the bank
/// register, the bank number stays between 1 and `0x1F`.
pub proof fn law_rom_bank_never_zero(m: Mbc1View, address: u16, value: u8)
    requires
        m.wf(),
        address <= 0x7FFF,
    ensures
        m.write(address, value).wf(),
        m.write(address, value).selected_rom_bank() >= 1,
        0x2000 <= address <= 0x3FFF && value % 32 != 0 ==> m.write(address, value).rom_bank_number == value % 32,
{
}

/// With RAM enabled, a byte written to the RAM reads back, wherever reads
/// and writes go to the same bank: in mode 1, or with bank 0 selected (in
/// mode 0 reads go to bank 0 and writes to the selected bank).
pub proof fn law_cartridge_ram_read_after_write(m: Mbc1View, address: u16, value: u8)
    requires
        m.wf(),
        m.ram_enabled(),
        m.mode_select == 1 || m.ram_bank_number == 0,
        0xA000 <= address <= 0xBFFF,
        m.write_defined(address),
    ensures
        m.write(address, value).read_defined(address),
        m.write(address, value).read(address) == Ok::<u8, ()>(value),
{
}

/// Without a bank controller writes change nothing.
pub proof fn law_plain_cartridge_ignores_writes(m: MbcView, address: u16, value: u8)
    requires
        m is Plain,
    ensures
        m.write(address, value) == m,
{
}

/// Whether a cartridge type names RAM on the cartridge.
pub open spec fn type_has_ram(t: CartridgeType) -> bool {
    match t {
        CartridgeType::MBCNone { ram, .. } => ram,
        CartridgeType::MBC1 { ram, .. } => ram,
        CartridgeType::MBC2 { .. } => false,
        CartridgeType::MMM01 { ram, .. } => ram,
        CartridgeType::MBC3 { ram, .. } => ram,
    }
}

/// Whether a cartridge type names a battery.
pub open spec fn type_has_battery(t: CartridgeType) -> bool {
    match t {
        CartridgeType::MBCNone { battery, .. } => battery,
        CartridgeType::MBC1 { battery, .. } => battery,
        CartridgeType::MBC2 { battery } => battery,
        CartridgeType::MMM01 { battery, .. } => battery,
        CartridgeType::MBC3 { battery, .. } => battery,
    }
}

/// The cartridge type codes of the header: `0x01..=0x03` name the first
/// bank controller, `0x00` none; RAM comes with `0x02`, `0x03`, `0x0C`,
/// `0x0D`, `0x10`, `0x12` and `0x13`; a battery with `0x03`, `0x06`, `0x0D`,
/// `0x0F`, `0x10` and `0x13`.
pub proof fn law_cartridge_type_codes(code: u8)
    requires
        cartridge_type_supported(code),
    ensures
        (cartridge_type_for(code) is MBC1) <==> (0x01 <= code <= 0x03),
        (cartridge_type_for(code) is MBCNone) <==> (code == 0x00),
        type_has_ram(cartridge_type_for(code)) <==> (code == 0x02 || code == 0x03 || code == 0x0C || code == 0x0D
            || code == 0x10 || code == 0x12 || code == 0x13),
        type_has_battery(cartridge_type_for(code)) <==> (code == 0x03 || code == 0x06 || code == 0x0D || code == 0x0F
            || code == 0x10 || code == 0x13),
{
}

/// The RAM that a header's RAM size code announces, in bytes: 2 KiB for
/// `0x01`, 8 KiB for `0x02`, 32 KiB (four banks of 8 KiB) for `0x03`.
pub open spec fn announced_ram_bytes(code: u8) -> int {
    if code == 0x01 { 0x800 } else if code == 0x02 { 0x2000 } else if code == 0x03 { 0x8000 } else { 0 }
}

/// On a cartridge with the first bank controller and RAM (type `0x02` or
/// `0x03`), the RAM spans the size that its header announces: with the RAM
/// enabled, bank `bank` selected and mode 1, every address of the bank from
/// `0xA000` on, up to the announced size or the 8 KiB of a bank, can be
/// written, and a read there gives back the byte written.
pub proof fn law_cartridge_ram_spans_announced_size(game: Seq<u8>, bank: u8, address: u16, value: u8)
    requires
        cartridge_supported(game),
        game[0x147] == 0x02 || game[0x147] == 0x03,
        0x01 <= game[0x149] <= 0x03,
        (bank as int + 1) * 0x2000 <= announced_ram_bytes(game[0x149]) || (bank == 0 && game[0x149] == 0x01),
        0xA000 <= address,
        address < 0xA000 + (if announced_ram_bytes(game[0x149]) < 0x2000 { announced_ram_bytes(game[0x149]) } else { 0x2000 }),
    ensures
        ({
            let m = controller_for(game, header_of(game));
            let ready = m.write(0x0000, 0x0A).write(0x4000, bank).write(0x6000, 1);
            &&& m is Mbc1
            &&& ready.write_defined(address)
            &&& ready.write(address, value).read_defined(address)
            &&& ready.write(address, value).read(address) == Ok::<u8, ()>(value)
        }),
{
    let code = game[0x149];
    let header = header_of(game);
    let size = header.ram_size;
    if code == 0x01 {
        assert(RamSize::KB2.code() == code);
    } else if code == 0x02 {
        assert(RamSize::KB8.code() == code);
    } else {
        assert(RamSize::KB32.code() == code);
    }
    assert(size.code() == code);
    assert(code == 0x01 ==> size == RamSize::KB2);
    assert(code == 0x02 ==> size == RamSize::KB8);
    assert(code == 0x03 ==> size == RamSize::KB32);
    let view = Mbc1View {
        rom: mbc1_rom_layout(game, rom_banks(header.rom_size)),
        ram: mbc1_ram_layout(true, size),
        ram_enable: 0,
        rom_bank_number: 1,
        ram_bank_number: 0,
        mode_select: 0,
    };
    assert(controller_for(game, header) == MbcView::Mbc1(view));
    let ready = view.write(0x0000, 0x0A).write(0x4000, bank).write(0x6000, 1);
    assert(0x0Au8 & 0x0Au8 == 0x0Au8) by (bit_vector);
    assert(ready.ram_enabled());
    assert(ready.mode_select == 1);
    assert(ready.ram_bank_number == bank);
    assert(ready.ram[bank as int].region.contains(address));
    assert(ready.write_defined(address));
    law_cartridge_ram_read_after_write(ready, address, value);
}

} // verus!
