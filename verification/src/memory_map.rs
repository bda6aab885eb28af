//! The first memory map: every area of the address space as a byte array
//! of its own, the game's read-only memory in banks, and the boot ROM below
//! `0x0100` while the boot sequence runs.
use vstd::prelude::*;
use crate::rom::{ROM, bank_defined, bank_end};

verus! {

/// The register whose write ends or restarts the boot sequence.
pub const BOOT_ADDRESS: u16 = 0xFF50;
/// The serial control register: writing `0x81` sends the byte at `0xFF01`.
pub const SERIAL_CONTROL: u16 = 0xFF02;

/// The areas of the address space.
#[derive(PartialEq, Eq, Structural, Copy, Clone, Debug)]
pub enum Area {
    Boot,
    RomBank0,
    RomBank1N,
    Vram,
    Ram,
    Wram0,
    Wram1N,
    EchoRam,
    SpriteAttribTable,
    IoRegisters,
    Hram,
    InterruptsEnable,
}

/// The bytes of every area.
pub struct MapView {
    pub rom: Seq<u8>,
    pub boot: Seq<u8>,
    pub vram: Seq<u8>,
    pub ram: Seq<u8>,
    pub wram_0: Seq<u8>,
    pub wram_1n: Seq<Seq<u8>>,
    pub echo_ram: Seq<u8>,
    pub sprite_attrib_table: Seq<u8>,
    pub io_registers: Seq<u8>,
    pub hram: Seq<u8>,
    pub interrupts_enable_register: Seq<u8>,
    pub selected_rom_bank: usize,
    pub selected_wram_bank: usize,
    pub boot_sequence: bool,
}

/// The area that holds `address` for writes, and its first address; the
/// switchable ROM and the unusable area have none.
pub open spec fn write_area(address: u16) -> Option<(Area, u16)> {
    if address <= 0x3FFF {
        Some((Area::RomBank0, 0x0000))
    } else if address <= 0x7FFF {
        None
    } else if address <= 0x9FFF {
        Some((Area::Vram, 0x8000))
    } else if address <= 0xBFFF {
        Some((Area::Ram, 0xA000))
    } else if address <= 0xCFFF {
        Some((Area::Wram0, 0xC000))
    } else if address <= 0xDFFF {
        Some((Area::Wram1N, 0xD000))
    } else if address <= 0xFDFF {
        Some((Area::EchoRam, 0xE000))
    } else if address <= 0xFE9F {
        Some((Area::SpriteAttribTable, 0xFE00))
    } else if address <= 0xFEFF {
        None
    } else if address <= 0xFF7F {
        Some((Area::IoRegisters, 0xFF00))
    } else if address <= 0xFFFE {
        Some((Area::Hram, 0xFF80))
    } else {
        Some((Area::InterruptsEnable, 0xFFFF))
    }
}

impl MapView {
    pub open spec fn wf(self) -> bool {
        &&& self.rom.len() >= 0x8000
        &&& self.vram.len() == 0x2000
        &&& self.ram.len() == 0x2000
        &&& self.wram_0.len() == 0x1000
        &&& forall|i: int| 0 <= i < self.wram_1n.len() ==> (#[trigger] self.wram_1n[i]).len() == 0x1000
        &&& self.echo_ram.len() == 0x1E00
        &&& self.sprite_attrib_table.len() == 0x00A0
        &&& self.io_registers.len() == 0x0080
        &&& self.hram.len() == 0x007F
        &&& self.interrupts_enable_register.len() == 0x0001
    }

    /// The area that holds `address` for reads, and its first address: the
    /// boot ROM below `0x0100` during the boot sequence, the selected ROM
    /// bank at `0x4000..=0x7FFF`; the unusable area has none.
    pub open spec fn read_area(self, address: u16) -> Option<(Area, u16)> {
        if address <= 0x00FF && self.boot_sequence {
            Some((Area::Boot, 0x0000))
        } else if 0x4000 <= address <= 0x7FFF {
            Some((Area::RomBank1N, 0x4000))
        } else {
            write_area(address)
        }
    }

    /// The area can be taken: its ROM bank or work RAM bank exists.
    pub open spec fn area_defined(self, area: Area) -> bool {
        match area {
            Area::RomBank0 => bank_defined(0, self.rom.len() as int),
            Area::RomBank1N => bank_defined(self.selected_rom_bank as int, self.rom.len() as int),
            Area::Wram1N => self.selected_wram_bank < self.wram_1n.len(),
            _ => true,
        }
    }

    /// The bytes of an area: a ROM bank as `ROM::bank` slices it, the
    /// selected work RAM bank.
    pub open spec fn area_bytes(self, area: Area) -> Seq<u8> {
        match area {
            Area::Boot => self.boot,
            Area::RomBank0 => self.rom.subrange(0, bank_end(0, self.rom.len() as int)),
            Area::RomBank1N => self.rom.subrange(
                self.selected_rom_bank * 0x4000,
                bank_end(self.selected_rom_bank as int, self.rom.len() as int),
            ),
            Area::Vram => self.vram,
            Area::Ram => self.ram,
            Area::Wram0 => self.wram_0,
            Area::Wram1N => self.wram_1n[self.selected_wram_bank as int],
            Area::EchoRam => self.echo_ram,
            Area::SpriteAttribTable => self.sprite_attrib_table,
            Area::IoRegisters => self.io_registers,
            Area::Hram => self.hram,
            Area::InterruptsEnable => self.interrupts_enable_register,
        }
    }

    /// The byte `offset` bytes after the start of the area of `address` can
    /// be read.
    pub open spec fn offset_readable(self, address: u16, offset: int) -> bool {
        match self.read_area(address) {
            Some((area, start)) => self.area_defined(area)
                && address - start + offset < self.area_bytes(area).len(),
            None => false,
        }
    }

    /// The byte `offset` bytes after `address`, read inside the area of `address`.
    pub open spec fn byte_after(self, address: u16, offset: int) -> u8 {
        let (area, start) = self.read_area(address)->0;
        self.area_bytes(area)[address - start + offset]
    }

    /// A read at `address` returns rather than stops the emulator.
    pub open spec fn read_defined(self, address: u16) -> bool {
        self.offset_readable(address, 0)
    }

    /// What a read at `address` gives.
    pub open spec fn read(self, address: u16) -> u8 {
        self.byte_after(address, 0)
    }

    /// A write at `address` returns rather than stops the emulator.
    pub open spec fn write_defined(self, address: u16) -> bool {
        address == BOOT_ADDRESS || address == SERIAL_CONTROL || match write_area(address) {
            Some((area, start)) => self.area_defined(area) && address - start < self.area_bytes(area).len(),
            None => false,
        }
    }

    /// What a write leaves: `0xFF50` sets the boot sequence to whether the
    /// value is zero, `0xFF02` stores nothing, everything else stores the byte.
    pub open spec fn write(self, address: u16, value: u8) -> MapView {
        if address == BOOT_ADDRESS {
            MapView { boot_sequence: value == 0, ..self }
        } else if address == SERIAL_CONTROL {
            self
        } else {
            let (area, start) = write_area(address)->0;
            let i = address - start;
            match area {
                Area::RomBank0 => MapView { rom: self.rom.update(i, value), ..self },
                Area::Vram => MapView { vram: self.vram.update(i, value), ..self },
                Area::Ram => MapView { ram: self.ram.update(i, value), ..self },
                Area::Wram0 => MapView { wram_0: self.wram_0.update(i, value), ..self },
                Area::Wram1N => MapView {
                    wram_1n: self.wram_1n.update(
                        self.selected_wram_bank as int,
                        self.wram_1n[self.selected_wram_bank as int].update(i, value),
                    ),
                    ..self
                },
                Area::EchoRam => MapView { echo_ram: self.echo_ram.update(i, value), ..self },
                Area::SpriteAttribTable => MapView { sprite_attrib_table: self.sprite_attrib_table.update(i, value), ..self },
                Area::IoRegisters => MapView { io_registers: self.io_registers.update(i, value), ..self },
                Area::Hram => MapView { hram: self.hram.update(i, value), ..self },
                _ => MapView { interrupts_enable_register: self.interrupts_enable_register.update(i, value), ..self },
            }
        }
    }

    /// The byte that a write sends to the serial port: the byte at `0xFF01`
    /// when `0x81` is written to `0xFF02`.
    pub open spec fn sent(self, address: u16, value: u8) -> Option<u8> {
        if address == SERIAL_CONTROL && value == 0x81 { Some(self.io_registers[1]) } else { None }
    }
}

/// Writes keep the map well formed: every area keeps its size.
pub proof fn law_write_keeps_wf(m: MapView, address: u16, value: u8)
    requires
        m.wf(),
        m.write_defined(address),
    ensures
        m.write(address, value).wf(),
{
    let after = m.write(address, value);
    if address != BOOT_ADDRESS && address != SERIAL_CONTROL && write_area(address) == Some((Area::Wram1N, 0xD000u16)) {
        assert forall|i: int| 0 <= i < after.wram_1n.len() implies (#[trigger] after.wram_1n[i]).len() == 0x1000 by {
            if i == m.selected_wram_bank as int {
                assert(after.wram_1n[i] == m.wram_1n[i].update(address - 0xD000, value));
            }
        }
    }
}

/// What a write to the RAM or the registers stores, a read at the same
/// address gives back.
pub proof fn law_read_after_write(m: MapView, address: u16, value: u8)
    requires
        m.wf(),
        0x8000 <= address,
        address != BOOT_ADDRESS,
        address != SERIAL_CONTROL,
        m.write_defined(address),
        m.read_area(address) == write_area(address),
    ensures
        m.write(address, value).read_defined(address),
        m.write(address, value).read(address) == value,
{
}

/// A value pushed below `sp` pops back from `sp - 2`, where both stack
/// bytes lie in the video, cartridge or work RAM (`0x8000..=0xFDFF`) or in
/// the high RAM (`0xFF80..=0xFFFE`): the push can be made, and the pop reads
/// the high byte at `sp - 1` and the low byte at `sp - 2`.
pub proof fn law_pop_after_push(m: MapView, value: u16, sp: u16)
    requires
        m.wf(),
        (0x8002 <= sp <= 0xFDFF + 1) || (0xFF82 <= sp <= 0xFFFE + 1),
        m.write_defined((sp - 1) as u16),
        m.write_defined((sp - 2) as u16),
    ensures
        m.write((sp - 1) as u16, (value / 256) as u8).write_defined((sp - 2) as u16),
        ({
            let after = m.write((sp - 1) as u16, (value / 256) as u8).write((sp - 2) as u16, (value % 256) as u8);
            &&& after.wf()
            &&& after.read_defined((sp - 2) as u16)
            &&& after.read_defined((sp - 1) as u16)
            &&& crate::processor::registers::pair(after.read((sp - 1) as u16), after.read((sp - 2) as u16)) == value
        }),
{
    let hi = (value / 256) as u8;
    let lo = (value % 256) as u8;
    let mid = m.write((sp - 1) as u16, hi);
    law_write_keeps_wf(m, (sp - 1) as u16, hi);
    law_read_after_write(m, (sp - 1) as u16, hi);
    assert(mid.write_defined((sp - 2) as u16));
    let after = mid.write((sp - 2) as u16, lo);
    law_write_keeps_wf(mid, (sp - 2) as u16, lo);
    law_read_after_write(mid, (sp - 2) as u16, lo);
    assert(after.read_defined((sp - 1) as u16));
    assert(after.read((sp - 1) as u16) == hi);
    assert(hi as int * 256 + lo as int == value as int);
}

/// The writes of the boot state, first to last.
pub open spec fn boot_state() -> Seq<(u16, u8)> {
    crate::processor::cpu::boot_state_writes()
}

/// The map after the writes of `writes`, first to last.
pub open spec fn apply_writes(m: MapView, writes: Seq<(u16, u8)>) -> MapView
    decreases writes.len(),
{
    if writes.len() == 0 {
        m
    } else {
        apply_writes(m, writes.drop_last()).write(writes.last().0, writes.last().1)
    }
}

/// `len` zero bytes.
pub open spec fn zeros(len: nat) -> Seq<u8> {
    Seq::new(len, |i: int| 0u8)
}

/// The map of a new `Memory`, before the boot state is written.
pub open spec fn initial_map(rom: Seq<u8>, boot: Seq<u8>, boot_sequence: bool) -> MapView {
    MapView {
        rom,
        boot,
        vram: zeros(0x2000),
        ram: zeros(0x2000),
        wram_0: zeros(0x1000),
        wram_1n: seq![zeros(0x1000), zeros(0x1000)],
        echo_ram: zeros(0x1E00),
        sprite_attrib_table: zeros(0x00A0),
        io_registers: zeros(0x0080),
        hram: zeros(0x007F),
        interrupts_enable_register: zeros(0x0001),
        selected_rom_bank: 1,
        selected_wram_bank: 1,
        boot_sequence,
    }
}

/// The whole address space as byte arrays.
pub struct Memory {
    rom: ROM,
    boot: Vec<u8>,
    vram: Vec<u8>,
    ram: Vec<u8>,
    wram_0: Vec<u8>,
    wram_1n: Vec<Vec<u8>>,
    echo_ram: Vec<u8>,
    sprite_attrib_table: Vec<u8>,
    io_registers: Vec<u8>,
    hram: Vec<u8>,
    interrupts_enable_register: Vec<u8>,
    selected_rom_bank: usize,
    selected_wram_bank: usize,
    boot_sequence: bool,
}

impl View for Memory {
    type V = MapView;

    closed spec fn view(&self) -> MapView {
        MapView {
            rom: self.rom@,
            boot: self.boot@,
            vram: self.vram@,
            ram: self.ram@,
            wram_0: self.wram_0@,
            wram_1n: self.wram_1n@.map_values(|bank: Vec<u8>| bank@),
            echo_ram: self.echo_ram@,
            sprite_attrib_table: self.sprite_attrib_table@,
            io_registers: self.io_registers@,
            hram: self.hram@,
            interrupts_enable_register: self.interrupts_enable_register@,
            selected_rom_bank: self.selected_rom_bank,
            selected_wram_bank: self.selected_wram_bank,
            boot_sequence: self.boot_sequence,
        }
    }
}

/// `len` zero bytes.
fn zeroed(len: usize) -> (r: Vec<u8>)
    ensures
        r@ == zeros(len as nat),
{
    let mut v: Vec<u8> = Vec::new();
    let mut i: usize = 0;
    while i < len
        invariant
            i <= len,
            v@ == zeros(i as nat),
        decreases len - i,
    {
        v.push(0);
        assert(v@ =~= zeros((i + 1) as nat));
        i = i + 1;
    }
    v
}

impl Memory {
    /// The map over `rom` with the boot ROM `boot`; without the boot
    /// sequence the input/output registers and the interrupt enable
    /// register take what the boot sequence leaves.
    pub fn new(rom: ROM, boot_sequence: bool, boot: Vec<u8>) -> (r: Memory)
        requires
            rom@.len() >= 0x8000,
        ensures
            r@.wf(),
            r@ == (if boot_sequence { initial_map(rom@, boot@, true) } else { apply_writes(initial_map(rom@, boot@, false), boot_state()) }),
    {
        let mut wram_1n: Vec<Vec<u8>> = Vec::new();
        wram_1n.push(zeroed(0x1000));
        wram_1n.push(zeroed(0x1000));
        let memory = Memory {
            rom,
            boot,
            vram: zeroed(0x2000),
            ram: zeroed(0x2000),
            wram_0: zeroed(0x1000),
            wram_1n,
            echo_ram: zeroed(0x1E00),
            sprite_attrib_table: zeroed(0x00A0),
            io_registers: zeroed(0x0080),
            hram: zeroed(0x007F),
            interrupts_enable_register: zeroed(0x0001),
            selected_rom_bank: 1,
            selected_wram_bank: 1,
            boot_sequence,
        };
        assert(memory@.wram_1n =~= seq![zeros(0x1000), zeros(0x1000)]);
        assert(memory@ == initial_map(memory.rom@, memory.boot@, boot_sequence));
        Self::init_memory(memory, boot_sequence)
    }

    /// Without the boot sequence, writes what it would have left.
    fn init_memory(memory: Memory, boot_sequence: bool) -> (r: Memory)
        requires
            memory@.wf(),
            memory@.io_registers.len() == 0x80,
        ensures
            r@.wf(),
            r@ == (if boot_sequence { memory@ } else { apply_writes(memory@, boot_state()) }),
    {
        let mut memory = memory;
        if !boot_sequence {
            let addresses: [u16; 31] = [
                0xFF05, 0xFF06, 0xFF07, 0xFF10, 0xFF11, 0xFF12, 0xFF14, 0xFF16, 0xFF17, 0xFF19,
                0xFF1A, 0xFF1B, 0xFF1C, 0xFF1E, 0xFF20, 0xFF21, 0xFF22, 0xFF23, 0xFF24, 0xFF25,
                0xFF26, 0xFF40, 0xFF42, 0xFF43, 0xFF45, 0xFF47, 0xFF48, 0xFF49, 0xFF4A, 0xFF4B,
                0xFFFF,
            ];
            let values: [u8; 31] = [
                0x00, 0x00, 0x00, 0x80, 0xBF, 0xF3, 0xBF, 0x3F, 0x00, 0xBF,
                0x7F, 0xFF, 0x9F, 0xBF, 0xFF, 0x00, 0x00, 0xBF, 0x77, 0xF3,
                0xF1, 0x91, 0x00, 0x00, 0x00, 0xFC, 0xFF, 0xFF, 0x00, 0x00,
                0x00,
            ];
            let ghost writes = boot_state();
            assert(forall|k: int| 0 <= k < 31 ==> (#[trigger] writes[k]) == (addresses@[k], values@[k]));
            let ghost start = memory@;
            let mut i: usize = 0;
            while i < 31
                invariant
                    i <= 31,
                    memory@.wf(),
                    writes == boot_state(),
                    addresses@.len() == 31,
                    values@.len() == 31,
                    forall|k: int| 0 <= k < 31 ==> (#[trigger] writes[k]) == (addresses@[k], values@[k]),
                    memory@ == apply_writes(start, writes.take(i as int)),
                decreases 31 - i,
            {
                let address = addresses[i];
                let value = values[i];
                memory.write(address, value);
                proof {
                    assert(writes.take(i + 1).drop_last() =~= writes.take(i as int));
                    assert(writes.take(i + 1).last() == writes[i as int]);
                }
                i = i + 1;
            }
            assert(writes.take(31) =~= writes);
        }
        memory
    }

    /// The byte at `index` of an area.
    fn area_byte(&self, area: Area, index: usize) -> (r: u8)
        requires
            self@.wf(),
            self@.area_defined(area),
            index < self@.area_bytes(area).len(),
        ensures
            r == self@.area_bytes(area)[index as int],
    {
        match area {
            Area::Boot => self.boot[index],
            Area::RomBank0 => {
                let bank = self.rom.bank(0);
                bank[index]
            },
            Area::RomBank1N => {
                let bank = self.rom.bank(self.selected_rom_bank);
                bank[index]
            },
            Area::Vram => self.vram[index],
            Area::Ram => self.ram[index],
            Area::Wram0 => self.wram_0[index],
            Area::Wram1N => {
                proof { assert(self.wram_1n@[self.selected_wram_bank as int]@ == self@.wram_1n[self.selected_wram_bank as int]); }
                self.wram_1n[self.selected_wram_bank][index]
            },
            Area::EchoRam => self.echo_ram[index],
            Area::SpriteAttribTable => self.sprite_attrib_table[index],
            Area::IoRegisters => self.io_registers[index],
            Area::Hram => self.hram[index],
            Area::InterruptsEnable => self.interrupts_enable_register[index],
        }
    }

    /// The area that holds `address` for reads and its first address.
    fn map_memory_area(&self, address: u16) -> (r: (Area, u16))
        requires
            self@.read_area(address) is Some,
        ensures
            r == self@.read_area(address)->0,
    {
        if address <= 0x00FF && self.boot_sequence {
            (Area::Boot, 0x0000)
        } else if 0x4000 <= address && address <= 0x7FFF {
            (Area::RomBank1N, 0x4000)
        } else {
            Self::map_memory_area_mut(address)
        }
    }

    /// The area that holds `address` for writes and its first address.
    fn map_memory_area_mut(address: u16) -> (r: (Area, u16))
        requires
            write_area(address) is Some,
        ensures
            r == write_area(address)->0,
    {
        if address <= 0x3FFF {
            (Area::RomBank0, 0x0000)
        } else if address <= 0x9FFF {
            (Area::Vram, 0x8000)
        } else if address <= 0xBFFF {
            (Area::Ram, 0xA000)
        } else if address <= 0xCFFF {
            (Area::Wram0, 0xC000)
        } else if address <= 0xDFFF {
            (Area::Wram1N, 0xD000)
        } else if address <= 0xFDFF {
            (Area::EchoRam, 0xE000)
        } else if address <= 0xFE9F {
            (Area::SpriteAttribTable, 0xFE00)
        } else if address <= 0xFF7F {
            (Area::IoRegisters, 0xFF00)
        } else if address <= 0xFFFE {
            (Area::Hram, 0xFF80)
        } else {
            (Area::InterruptsEnable, 0xFFFF)
        }
    }

    /// The byte at `address`.
    pub fn read(&self, address: u16) -> (r: u8)
        requires
            self@.wf(),
            self@.read_defined(address),
        ensures
            r == self@.read(address),
    {
        let (area, offset) = self.map_memory_area(address);
        self.area_byte(area, (address - offset) as usize)
    }

    /// The byte after `address`, inside the area of `address`.
    pub fn following_u8(&self, address: u16) -> (r: u8)
        requires
            self@.wf(),
            self@.offset_readable(address, 1),
        ensures
            r == self@.byte_after(address, 1),
    {
        let (area, offset) = self.map_memory_area(address);
        self.area_byte(area, (address - offset) as usize + 1)
    }

    /// The 16-bit value in the two bytes after `address`, inside the area of
    /// `address`, the low byte first.
    pub fn following_u16(&self, address: u16) -> (r: u16)
        requires
            self@.wf(),
            self@.offset_readable(address, 2),
        ensures
            r == crate::processor::registers::pair(self@.byte_after(address, 2), self@.byte_after(address, 1)),
    {
        let (area, offset) = self.map_memory_area(address);
        let hi = self.area_byte(area, (address - offset) as usize + 2);
        let lo = self.area_byte(area, (address - offset) as usize + 1);
        hi as u16 * 256 + lo as u16
    }

    /// Writes `value` at `address` and returns the byte that the write sends
    /// to the serial port, if it sends one.
    pub fn write(&mut self, address: u16, value: u8) -> (r: Option<u8>)
        requires
            old(self)@.wf(),
            old(self)@.write_defined(address),
        ensures
            final(self)@.wf(),
            final(self)@ == old(self)@.write(address, value),
            r == old(self)@.sent(address, value),
    {
        if address == BOOT_ADDRESS {
            if value != 0 {
                self.boot_sequence = false
            } else {
                self.boot_sequence = true
            }
            None
        } else if address == SERIAL_CONTROL {
            if value == 0x81 {
                let (area, offset) = self.map_memory_area(address);
                Some(self.area_byte(area, (0xFF01 - offset) as usize))
            } else {
                None
            }
        } else {
            let (area, offset) = Self::map_memory_area_mut(address);
            let index = (address - offset) as usize;
            match area {
                Area::RomBank0 => {
                    let ghost old_rom = self.rom@;
                    let bank = self.rom.bank_mut(0);
                    bank[index] = value;
                    proof {
                        assert(self.rom@ =~= old_rom.update(index as int, value));
                    }
                },
                Area::Vram => self.vram.set(index, value),
                Area::Ram => self.ram.set(index, value),
                Area::Wram0 => self.wram_0.set(index, value),
                Area::Wram1N => {
                    let bank_index = self.selected_wram_bank;
                    let ghost before = self.wram_1n@;
                    proof { assert(self.wram_1n@[bank_index as int]@ == old(self)@.wram_1n[bank_index as int]); }
                    let mut bank = self.wram_1n.remove(bank_index);
                    bank.set(index, value);
                    self.wram_1n.insert(bank_index, bank);
                    proof {
                        assert(self.wram_1n@ =~= before.update(bank_index as int, self.wram_1n@[bank_index as int]));
                        assert(self@.wram_1n =~= old(self)@.wram_1n.update(
                            bank_index as int,
                            old(self)@.wram_1n[bank_index as int].update(index as int, value),
                        ));
                    }
                },
                Area::EchoRam => self.echo_ram.set(index, value),
                Area::SpriteAttribTable => self.sprite_attrib_table.set(index, value),
                Area::IoRegisters => self.io_registers.set(index, value),
                Area::Hram => self.hram.set(index, value),
                _ => self.interrupts_enable_register.set(index, value),
            }
            proof { law_write_keeps_wf(old(self)@, address, value); }
            None
        }
    }

    /// Pushes `value` below the stack pointer `sp`: the high byte at
    /// `sp - 1`, the low byte at `sp - 2`.
    pub fn push_u16_stack(&mut self, value: u16, sp: u16)
        requires
            old(self)@.wf(),
            sp >= 2,
            old(self)@.write_defined((sp - 1) as u16),
            old(self)@.write((sp - 1) as u16, (value / 256) as u8).write_defined((sp - 2) as u16),
        ensures
            final(self)@ == old(self)@.write((sp - 1) as u16, (value / 256) as u8).write((sp - 2) as u16, (value % 256) as u8),
    {
        self.write(sp - 1, (value / 256) as u8);
        self.write(sp - 2, (value % 256) as u8);
    }

    /// The 16-bit value at the stack pointer `sp`, the low byte first.
    pub fn pop_u16_stack(&self, sp: u16) -> (r: u16)
        requires
            self@.wf(),
            sp < 0xFFFF,
            self@.read_defined(sp),
            self@.read_defined((sp + 1) as u16),
        ensures
            r == crate::processor::registers::pair(self@.read((sp + 1) as u16), self@.read(sp)),
    {
        let val_lo = self.read(sp);
        let val_hi = self.read(sp + 1);
        val_hi as u16 * 256 + val_lo as u16
    }
}

} // verus!
