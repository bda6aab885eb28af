//! The processor: its registers, its interrupt state, the bus it reads and
//! writes through and the cycles it still waits before the next instruction.
use vstd::prelude::*;
use crate::mem::memory::{MapsMemory, MemView};
use crate::mem::cartridge::{Cartridge, CartridgeView};
use crate::processor::registers::{Registers, RegsView, initial_registers, pair};
use crate::processor::interrupt_controller::InterruptController;
use crate::processor::bus::{Bus, BusView, initial_bus, initial_ram};
use crate::processor::opcodes::{exec_spec, try_execute};

verus! {

/// What the instructions see and change: the registers, the interrupt state
/// and the bus.
pub struct MachineView {
    pub registers: RegsView,
    pub interrupt: InterruptController,
    pub bus: BusView,
}

impl MachineView {
    /// The byte at `address`, where a read gives one.
    pub open spec fn read(self, address: u16) -> Option<u8> {
        self.bus.read_byte(address)
    }

    /// The machine after writing `value` at `address`, where the write succeeds.
    pub open spec fn write(self, address: u16, value: u8) -> Option<MachineView> {
        match self.bus.write_byte(address, value) {
            Some(bus) => Some(MachineView { bus, ..self }),
            None => None,
        }
    }

    pub open spec fn with_registers(self, registers: RegsView) -> MachineView {
        MachineView { registers, ..self }
    }

    /// The byte after `address`; there is none after `0xFFFF`.
    pub open spec fn following(self, address: u16) -> Option<u8> {
        if address < 0xFFFF { self.read((address + 1) as u16) } else { None }
    }

    /// The 16-bit value in the two bytes after `address`, the low byte first.
    pub open spec fn following_u16(self, address: u16) -> Option<u16> {
        if address < 0xFFFE {
            match (self.read((address + 1) as u16), self.read((address + 2) as u16)) {
                (Some(lo), Some(hi)) => Some(pair(hi, lo)),
                _ => None,
            }
        } else {
            None
        }
    }

    /// The machine after pushing `value` below `sp`: the high byte at
    /// `sp - 1`, then the low byte at `sp - 2`.
    pub open spec fn push(self, value: u16, sp: u16) -> Option<MachineView> {
        if sp < 2 {
            None
        } else {
            match self.write((sp - 1) as u16, (value / 256) as u8) {
                Some(s) => s.write((sp - 2) as u16, (value % 256) as u8),
                None => None,
            }
        }
    }

    /// The 16-bit value at `sp`, the low byte first.
    pub open spec fn pop(self, sp: u16) -> Option<u16> {
        if sp < 0xFFFF {
            match (self.read(sp), self.read((sp + 1) as u16)) {
                (Some(lo), Some(hi)) => Some(pair(hi, lo)),
                _ => None,
            }
        } else {
            None
        }
    }
}

/// `after` is the processor that an instruction left, which returned `r`
/// cycles (at least 4), where `spec` says what the instruction does (`None`:
/// it stops the emulator).
pub open spec fn outcome(spec: Option<(MachineView, u8)>, before: CPU, after: CPU, r: Option<u8>) -> bool {
    &&& after.wf()
    &&& after.cpu_wait_cycles == before.cpu_wait_cycles
    &&& match r {
        Some(cycles) => cycles >= 4 && spec == Some((after.machine(), cycles)),
        None => spec is None,
    }
}

/// The values that the input/output registers and the interrupt enable
/// register hold after the boot sequence, in the order they are written.
pub open spec fn boot_state_writes() -> Seq<(u16, u8)> {
    seq![
        (0xFF05u16, 0x00u8), (0xFF06, 0x00), (0xFF07, 0x00), (0xFF10, 0x80), (0xFF11, 0xBF),
        (0xFF12, 0xF3), (0xFF14, 0xBF), (0xFF16, 0x3F), (0xFF17, 0x00), (0xFF19, 0xBF),
        (0xFF1A, 0x7F), (0xFF1B, 0xFF), (0xFF1C, 0x9F), (0xFF1E, 0xBF), (0xFF20, 0xFF),
        (0xFF21, 0x00), (0xFF22, 0x00), (0xFF23, 0xBF), (0xFF24, 0x77), (0xFF25, 0xF3),
        (0xFF26, 0xF1), (0xFF40, 0x91), (0xFF42, 0x00), (0xFF43, 0x00), (0xFF45, 0x00),
        (0xFF47, 0xFC), (0xFF48, 0xFF), (0xFF49, 0xFF), (0xFF4A, 0x00), (0xFF4B, 0x00),
        (0xFFFF, 0x00),
    ]
}

/// The bus after the writes of `writes`, first to last.
pub open spec fn apply_writes(bus: BusView, writes: Seq<(u16, u8)>) -> BusView
    decreases writes.len(),
{
    if writes.len() == 0 {
        bus
    } else {
        apply_writes(bus, writes.drop_last()).write(writes.last().0, writes.last().1)
    }
}

/// The boot ROM that the bus maps for the bytes of `boot_rom`.
pub open spec fn boot_view(boot_rom: Option<Vec<u8>>) -> Option<MemView> {
    match boot_rom {
        Some(b) => Some(MemView {
            access: crate::mem::memory::Access::ReadOnly,
            region: crate::mem::memory::RegionView::filled(b@, 0x0000, b@.len() as u16),
        }),
        None => None,
    }
}

/// One step of the processor in state `s`, waiting `wait` more cycles: the
/// pixel processing unit ticks; when the wait is over the instruction at PC
/// runs and its cycles are added to the wait; the wait goes down by one.
/// `None` where the step stops the emulator.
pub open spec fn step_spec(s: MachineView, wait: i64) -> Option<(MachineView, i64)> {
    let (ppu, io_registers) = s.bus.ppu.step(s.bus.io_registers);
    let s1 = MachineView { bus: BusView { ppu, io_registers, ..s.bus }, ..s };
    if wait <= 0 {
        let pc = s1.registers.pc;
        match s1.read(pc) {
            Some(opcode) => match exec_spec(opcode, pc, s1) {
                Some((s2, cycles)) => Some((s2, (wait + cycles - 1) as i64)),
                None => None,
            },
            None => None,
        }
    } else {
        Some((s1, (wait - 1) as i64))
    }
}

/// `n` steps one after another; `None` where one of them stops the emulator.
pub open spec fn run_steps(s: MachineView, wait: i64, n: nat) -> Option<(MachineView, i64)>
    decreases n,
{
    if n == 0 {
        Some((s, wait))
    } else {
        match run_steps(s, wait, (n - 1) as nat) {
            Some((s1, wait1)) => step_spec(s1, wait1),
            None => None,
        }
    }
}

/// The bus of a new processor over `cartridge`: with a boot ROM the bus as
/// it starts, without one after the writes of the boot state.
pub open spec fn initial_bus_for(cartridge: CartridgeView, boot_rom: Option<Vec<u8>>) -> BusView {
    if boot_rom is Some {
        initial_bus(cartridge, boot_view(boot_rom))
    } else {
        apply_writes(initial_bus(cartridge, None), boot_state_writes())
    }
}

/// The processor.
pub struct CPU {
    pub registers: Registers,
    pub interrupt: InterruptController,
    pub bus: Bus,
    pub cpu_wait_cycles: i64,
}

impl CPU {
    pub open spec fn wf(&self) -> bool {
        self.bus.wf()
    }

    /// What the instructions see of the processor.
    pub open spec fn machine(&self) -> MachineView {
        MachineView { registers: self.registers@, interrupt: self.interrupt, bus: self.bus@ }
    }

    /// A processor over `cartridge`. With a boot ROM the registers start at
    /// zero and the boot ROM runs first; without one the registers and the
    /// input/output registers hold what the boot sequence leaves.
    pub fn new(interrupt: InterruptController, cartridge: Cartridge, boot_rom: Option<Vec<u8>>) -> (r: CPU)
        requires
            cartridge.wf(),
            boot_rom matches Some(b) ==> b@.len() < 0xFFFF,
        ensures
            r.wf(),
            r.registers@ == initial_registers(boot_rom is Some),
            r.interrupt == interrupt,
            r.cpu_wait_cycles == 0,
            r.bus@ == initial_bus_for(cartridge@, boot_rom),
    {
        let boot_sequence = boot_rom.is_some();
        let bus = Bus::new(cartridge, boot_rom);
        let mut cpu = CPU { registers: Registers::new(boot_sequence), interrupt, bus, cpu_wait_cycles: 0 };
        cpu.init_boot_state(boot_sequence);
        cpu
    }

    /// The work RAM, its echo, the high RAM and the interrupt enable register,
    /// all zero.
    pub fn init_memory() -> (r: Vec<crate::memory::memory::Memory>)
        ensures
            r@.map_values(|m: crate::memory::memory::Memory| m@) == initial_ram(),
    {
        Bus::init_memory()
    }

    /// Without the boot sequence, writes what it would have left in the
    /// input/output registers and the interrupt enable register.
    fn init_boot_state(&mut self, boot_sequence: bool)
        requires
            old(self).wf(),
            old(self).bus@.memory == initial_ram(),
            old(self).bus@.io_registers.region.from == 0xFF00,
        ensures
            final(self).wf(),
            final(self).registers == old(self).registers,
            final(self).interrupt == old(self).interrupt,
            final(self).cpu_wait_cycles == old(self).cpu_wait_cycles,
            final(self).bus@ == (if boot_sequence { old(self).bus@ } else { apply_writes(old(self).bus@, boot_state_writes()) }),
    {
        if !boot_sequence {
            let addresses: [u16; 31] = [
                0xFF05, 0xFF06, 0xFF07, 0xFF10, 0xFF11, 0xFF12, 0xFF14, 0xFF16, 0xFF17, 0xFF19,
                0xFF1A, 0xFF1B, 0xFF1C, 0xFF1E, 0xFF20, 0xFF21, 0xFF22, 0xFF23, 0xFF24, 0xFF25,
                0xFF26, 0xFF40, 0xFF42, 0xFF43, 0xFF45, 0xFF47, 0xFF48, 0xFF49, 0xFF4A, 0xFF4B,
                0xFFFF,
            ];
            let values: [u8; 31] = [
                0x00, 0x00, 0x00, 0x80, 0xBF, 0xF3, 0xBF, 0x3F, 0x00, 0xBF,
                0x7F, 0xFF, 0x9F, 0xBF, 0xFF, 0x00, 0x00, 0xBF, 0x77, 0xF3,
                0xF1, 0x91, 0x00, 0x00, 0x00, 0xFC, 0xFF, 0xFF, 0x00, 0x00,
                0x00,
            ];
            let ghost writes = boot_state_writes();
            assert(forall|k: int| 0 <= k < 31 ==> (#[trigger] writes[k]) == (addresses@[k], values@[k]));
            let ghost bus0 = self.bus@;
            let mut i: usize = 0;
            while i < 31
                invariant
                    i <= 31,
                    self.wf(),
                    self.registers == old(self).registers,
                    self.interrupt == old(self).interrupt,
                    self.cpu_wait_cycles == old(self).cpu_wait_cycles,
                    bus0 == old(self).bus@,
                    writes == boot_state_writes(),
                    addresses@.len() == 31,
                    values@.len() == 31,
                    forall|k: int| 0 <= k < 31 ==> (#[trigger] writes[k]) == (addresses@[k], values@[k]),
                    self.bus@ == apply_writes(bus0, writes.take(i as int)),
                    self.bus@.memory.len() == 4,
                    self.bus@.io_registers.region.from == 0xFF00,
                    self.bus@.io_registers.region.to == 0xFF7F,
                    self.bus@.memory[3].region.from == 0xFFFF,
                    self.bus@.memory[3].region.to == 0xFFFF,
                decreases 31 - i,
            {
                let address = addresses[i];
                let value = values[i];
                assert(0xFF05 <= address);
                self.bus.write(address, value);
                proof {
                    assert(writes.take(i + 1).drop_last() =~= writes.take(i as int));
                    assert(writes.take(i + 1).last() == writes[i as int]);
                }
                i = i + 1;
            }
            assert(writes.take(31) =~= writes);
        }
    }

    /// One step: a tick of the pixel processing unit, then the next
    /// instruction once the processor waits no more.
    pub fn step(&mut self)
        requires
            old(self).wf(),
            step_spec(old(self).machine(), old(self).cpu_wait_cycles) is Some,
        ensures
            final(self).wf(),
            step_spec(old(self).machine(), old(self).cpu_wait_cycles) == Some((final(self).machine(), final(self).cpu_wait_cycles)),
    {
        let r = self.try_step();
        assert(r is Ok);
    }

    /// One step as `step` makes it; `Err` where the step stops the emulator
    /// (an unsupported opcode, a failed read or write, an address that leaves
    /// the 16-bit range), with the processor then in no state that is stated.
    pub fn try_step(&mut self) -> (r: Result<(), ()>)
        requires
            old(self).wf(),
        ensures
            final(self).wf(),
            match r {
                Ok(()) => step_spec(old(self).machine(), old(self).cpu_wait_cycles)
                    == Some((final(self).machine(), final(self).cpu_wait_cycles)),
                Err(()) => step_spec(old(self).machine(), old(self).cpu_wait_cycles) is None,
            },
    {
        self.bus.tick(&mut self.interrupt);
        if self.cpu_wait_cycles <= 0 {
            let pc = self.registers.pc();
            let opcode = match self.read_byte(pc) {
                Some(opcode) => opcode,
                None => return Err(()),
            };
            match try_execute(opcode, pc, self) {
                Some(cycles) => self.cpu_wait_cycles = self.cpu_wait_cycles + cycles as i64,
                None => return Err(()),
            }
        }
        self.cpu_wait_cycles = self.cpu_wait_cycles - 1;
        Ok(())
    }

    /// The title of the game in the cartridge.
    pub fn game_title(&self) -> (r: &str)
        ensures
            r@ == self.bus@.cartridge.header.title,
    {
        self.bus.game_title()
    }

    /// The byte at `address`, where a read gives one.
    pub fn read_byte(&self, address: u16) -> (r: Option<u8>)
        requires
            self.wf(),
        ensures
            r == self.machine().read(address),
    {
        self.bus.read_byte(address)
    }

    /// Writes `value` at `address` where the write succeeds; elsewhere leaves
    /// the processor as it is and returns `false`.
    pub fn write_byte(&mut self, address: u16, value: u8) -> (r: bool)
        requires
            old(self).wf(),
        ensures
            final(self).wf(),
            final(self).cpu_wait_cycles == old(self).cpu_wait_cycles,
            r == old(self).machine().write(address, value) is Some,
            r ==> final(self).machine() == old(self).machine().write(address, value)->0,
            !r ==> final(self).machine() == old(self).machine(),
    {
        self.bus.write_byte(address, value)
    }

    /// The byte after `address`.
    pub fn following(&self, address: u16) -> (r: Option<u8>)
        requires
            self.wf(),
        ensures
            r == self.machine().following(address),
    {
        if address < 0xFFFF {
            self.read_byte(address + 1)
        } else {
            None
        }
    }

    /// The 16-bit value in the two bytes after `address`, the low byte first.
    pub fn following_u16(&self, address: u16) -> (r: Option<u16>)
        requires
            self.wf(),
        ensures
            r == self.machine().following_u16(address),
    {
        if address < 0xFFFE {
            let hi = self.read_byte(address + 2);
            let lo = self.read_byte(address + 1);
            match (lo, hi) {
                (Some(lo), Some(hi)) => Some(join(hi, lo)),
                _ => None,
            }
        } else {
            None
        }
    }

    /// Pushes `value` below `sp`, the high byte first.
    pub fn push(&mut self, value: u16, sp: u16) -> (r: bool)
        requires
            old(self).wf(),
        ensures
            final(self).wf(),
            final(self).cpu_wait_cycles == old(self).cpu_wait_cycles,
            r == old(self).machine().push(value, sp) is Some,
            r ==> final(self).machine() == old(self).machine().push(value, sp)->0,
    {
        if sp < 2 {
            return false;
        }
        assert(((value >> 8u16) & 0xFF) as u8 == value / 256) by (bit_vector);
        assert((value & 0xFF) as u8 == value % 256) by (bit_vector);
        if !self.write_byte(sp - 1, ((value >> 8) & 0xFF) as u8) {
            return false;
        }
        self.write_byte(sp - 2, (value & 0xFF) as u8)
    }

    /// The 16-bit value at `sp`, the low byte first.
    pub fn pop(&self, sp: u16) -> (r: Option<u16>)
        requires
            self.wf(),
        ensures
            r == self.machine().pop(sp),
    {
        if sp < 0xFFFF {
            let lo = self.read_byte(sp);
            let hi = self.read_byte(sp + 1);
            match (lo, hi) {
                (Some(lo), Some(hi)) => Some(join(hi, lo)),
                _ => None,
            }
        } else {
            None
        }
    }
}

/// The 16-bit value whose high byte is `hi` and low byte is `lo`.
fn join(hi: u8, lo: u8) -> (r: u16)
    ensures
        r == pair(hi, lo),
{
    assert(((hi as u16) << 8u16) as int + lo as int <= 0xFFFF) by (bit_vector);
    assert(((hi as u16) << 8u16) + (lo as u16) == (hi as u16) * 256 + (lo as u16)) by (bit_vector);
    ((hi as u16) << 8) + lo as u16
}

impl MapsMemory for CPU {
    open spec fn wf(&self) -> bool {
        self.bus.wf()
    }

    open spec fn read_defined(&self, address: u16) -> bool {
        self.bus@.read_defined(address)
    }

    open spec fn read_spec(&self, address: u16) -> Result<u8, ()> {
        self.bus@.read(address)
    }

    open spec fn write_defined(&self, address: u16, value: u8) -> bool {
        self.bus@.write_defined(address)
    }

    open spec fn write_spec(&self, address: u16, value: u8) -> Result<(), ()> {
        self.bus@.write_result(address)
    }

    open spec fn written(&self, after: &Self, address: u16, value: u8) -> bool {
        &&& after.bus@ == self.bus@.write(address, value)
        &&& after.registers == self.registers
        &&& after.interrupt == self.interrupt
        &&& after.cpu_wait_cycles == self.cpu_wait_cycles
    }

    open spec fn in_range(&self, address: u16) -> bool {
        self.bus@.in_range(address)
    }

    fn read(&self, address: u16) -> (r: Result<u8, ()>) {
        self.bus.read(address)
    }

    fn write(&mut self, address: u16, value: u8) -> (r: Result<(), ()>) {
        self.bus.write(address, value)
    }

    fn is_in_range(&self, address: u16) -> (r: bool) {
        self.bus.is_in_range(address)
    }
}

/// The two bytes below `sp` lie in the RAM, outside the boot ROM.
pub open spec fn stack_in_ram(b: BusView, sp: u16) -> bool {
    &&& sp >= 2
    &&& b.ram_index((sp - 1) as u16) is Some
    &&& b.ram_index((sp - 2) as u16) is Some
    &&& !b.in_boot_rom((sp - 1) as u16)
    &&& !b.in_boot_rom((sp - 2) as u16)
}

/// A value pushed onto a stack in RAM pops back from the new stack pointer.
pub proof fn law_push_pop(s: MachineView, value: u16, sp: u16)
    requires
        s.bus.wf(),
        stack_in_ram(s.bus, sp),
    ensures
        s.push(value, sp) is Some,
        s.push(value, sp)->0.pop((sp - 2) as u16) == Some(value),
        s.push(value, sp)->0.registers == s.registers,
{
    let hi = (value / 256) as u8;
    let lo = (value % 256) as u8;
    crate::processor::bus::law_ram_read_after_write(s.bus, (sp - 1) as u16, hi);
    let b1 = s.bus.write((sp - 1) as u16, hi);
    crate::processor::bus::law_write_keeps_wf(s.bus, (sp - 1) as u16, hi);
    crate::processor::bus::law_ram_read_after_write(b1, (sp - 2) as u16, lo);
    crate::processor::bus::law_ram_write_frame(b1, (sp - 2) as u16, (sp - 1) as u16, lo);
    crate::processor::registers::law_pair_roundtrip(s.registers, value);
}

} // verus!
