//! The instruction set: decoding an opcode and running the instruction.
//!
//! Each instruction has a spec function that says what it does to the
//! registers, the interrupt state and the bus, and how many cycles it takes;
//! `None` where it stops the emulator (an unsupported opcode, a failed read
//! or write, an address that leaves the 16-bit range).
use vstd::prelude::*;
use crate::processor::registers::{
    Condition, FlagCalculationStatus, FlagCalculations, FlagCalculationsBuilder, RegisterDD, RegisterQQ,
    RegisterR, RegisterSS, Registers, RegsView,
};
use crate::processor::cpu::{CPU, MachineView, outcome};
use crate::processor::interrupt_controller::InterruptController;
use crate::util::bit_op::{self, bit_mask, bit_of, with_bit};

verus! {

/// The instructions, one for each function of the opcode tables.
#[derive(PartialEq, Eq, Structural, Copy, Clone, Debug)]
pub enum Instruction {
    Nop, Stop, Halt, Unsupported, Extended,
    LdRR, LdRN, LdRMhl, LdMhlR, LdMhlN, LdAMbc, LdAMde, LdAMc, LdMcA, LdAMn, LdMnA, LdAMnn, LdMnnA,
    LdAMhli, LdAMhld, LdMbcA, LdMdeA, LdMhliA, LdMhldA,
    LdDdNn, LdSpHl, PushQq, PopQq, LdhlSpE, LdMnnSp,
    AddAR, AddAN, AddAMhl, AdcAR, AdcAN, AdcAMhl, SubAR, SubAN, SubAMhl, SbcAR, SbcAN, SbcAMhl,
    AndR, AndN, AndMhl, OrR, OrN, OrMhl, XorR, XorN, XorMhl, CpR, CpN, CpMhl,
    IncR, IncMhl, DecR, DecMhl, AddHlSs, AddSpE, IncSs, DecSs,
    Rlca, Rla, Rrca, Rra, RlcR, RlcMhl, RlR, RlMhl, RrcR, RrcMhl, RrR, RrMhl,
    SlaR, SlaMhl, SraR, SraMhl, SrlR, SrlMhl, SwapR, SwapMhl,
    BitBR, BitBMhl, SetBR, SetBMhl, ResBR, ResBMhl,
    JpNn, JpCcNn, JrE, JrCcE, JpMhl, CallNn, CallCNn, Ret, Reti, RetC, RstT,
    Daa, Cpl, Scf, Ccf, Ei, Di,
}

/// The instruction that a one-byte opcode names.
pub open spec fn decode(opcode: u8) -> Instruction {
    let row = opcode / 16;
    let col = opcode % 16;
    if opcode < 0x40 {
        if col == 0x0 {
            if row == 0 { Instruction::Nop } else if row == 1 { Instruction::Stop } else { Instruction::JrCcE }
        } else if col == 0x1 {
            Instruction::LdDdNn
        } else if col == 0x2 {
            if row == 0 { Instruction::LdMbcA } else if row == 1 { Instruction::LdMdeA }
            else if row == 2 { Instruction::LdMhliA } else { Instruction::LdMhldA }
        } else if col == 0x3 {
            Instruction::IncSs
        } else if col == 0x4 || col == 0xC {
            if opcode == 0x34 { Instruction::IncMhl } else { Instruction::IncR }
        } else if col == 0x5 || col == 0xD {
            if opcode == 0x35 { Instruction::DecMhl } else { Instruction::DecR }
        } else if col == 0x6 || col == 0xE {
            if opcode == 0x36 { Instruction::LdMhlN } else { Instruction::LdRN }
        } else if col == 0x7 {
            if row == 0 { Instruction::Rlca } else if row == 1 { Instruction::Rla }
            else if row == 2 { Instruction::Daa } else { Instruction::Scf }
        } else if col == 0x8 {
            if row == 0 { Instruction::LdMnnSp } else if row == 1 { Instruction::JrE } else { Instruction::JrCcE }
        } else if col == 0x9 {
            Instruction::AddHlSs
        } else if col == 0xA {
            if row == 0 { Instruction::LdAMbc } else if row == 1 { Instruction::LdAMde }
            else if row == 2 { Instruction::LdAMhli } else { Instruction::LdAMhld }
        } else if col == 0xB {
            Instruction::DecSs
        } else {
            if row == 0 { Instruction::Rrca } else if row == 1 { Instruction::Rra }
            else if row == 2 { Instruction::Cpl } else { Instruction::Ccf }
        }
    } else if opcode < 0x80 {
        if opcode == 0x76 {
            Instruction::Halt
        } else if opcode % 8 == 6 {
            Instruction::LdRMhl
        } else if (opcode / 8) % 8 == 6 {
            Instruction::LdMhlR
        } else {
            Instruction::LdRR
        }
    } else if opcode < 0xC0 {
        let mhl = opcode % 8 == 6;
        let op = (opcode / 8) % 8;
        if op == 0 { if mhl { Instruction::AddAMhl } else { Instruction::AddAR } }
        else if op == 1 { if mhl { Instruction::AdcAMhl } else { Instruction::AdcAR } }
        else if op == 2 { if mhl { Instruction::SubAMhl } else { Instruction::SubAR } }
        else if op == 3 { if mhl { Instruction::SbcAMhl } else { Instruction::SbcAR } }
        else if op == 4 { if mhl { Instruction::AndMhl } else { Instruction::AndR } }
        else if op == 5 { if mhl { Instruction::XorMhl } else { Instruction::XorR } }
        else if op == 6 { if mhl { Instruction::OrMhl } else { Instruction::OrR } }
        else { if mhl { Instruction::CpMhl } else { Instruction::CpR } }
    } else if col == 0x7 || col == 0xF {
        Instruction::RstT
    } else if col == 0x1 {
        Instruction::PopQq
    } else if col == 0x5 {
        Instruction::PushQq
    } else if opcode < 0xE0 && (col == 0x0 || col == 0x8) {
        Instruction::RetC
    } else if opcode < 0xE0 && (col == 0x2 || col == 0xA) {
        Instruction::JpCcNn
    } else if opcode < 0xE0 && (col == 0x4 || col == 0xC) {
        Instruction::CallCNn
    } else if opcode == 0xC3 { Instruction::JpNn }
    else if opcode == 0xC6 { Instruction::AddAN }
    else if opcode == 0xC9 { Instruction::Ret }
    else if opcode == 0xCB { Instruction::Extended }
    else if opcode == 0xCD { Instruction::CallNn }
    else if opcode == 0xCE { Instruction::AdcAN }
    else if opcode == 0xD6 { Instruction::SubAN }
    else if opcode == 0xD9 { Instruction::Reti }
    else if opcode == 0xDE { Instruction::SbcAN }
    else if opcode == 0xE0 { Instruction::LdMnA }
    else if opcode == 0xE2 { Instruction::LdMcA }
    else if opcode == 0xE6 { Instruction::AndN }
    else if opcode == 0xE8 { Instruction::AddSpE }
    else if opcode == 0xE9 { Instruction::JpMhl }
    else if opcode == 0xEA { Instruction::LdMnnA }
    else if opcode == 0xEE { Instruction::XorN }
    else if opcode == 0xF0 { Instruction::LdAMn }
    else if opcode == 0xF2 { Instruction::LdAMc }
    else if opcode == 0xF3 { Instruction::Di }
    else if opcode == 0xF6 { Instruction::OrN }
    else if opcode == 0xF8 { Instruction::LdhlSpE }
    else if opcode == 0xF9 { Instruction::LdSpHl }
    else if opcode == 0xFA { Instruction::LdAMnn }
    else if opcode == 0xFB { Instruction::Ei }
    else if opcode == 0xFE { Instruction::CpN }
    else { Instruction::Unsupported }
}

/// The instruction that the byte after the prefix `0xCB` names. The column
/// `x5` of the last four rows names `PUSH`.
pub open spec fn decode_extended(opcode: u8) -> Instruction {
    let mhl = opcode % 8 == 6;
    if opcode < 0x40 {
        let op = opcode / 8;
        if op == 0 { if mhl { Instruction::RlcMhl } else { Instruction::RlcR } }
        else if op == 1 { if mhl { Instruction::RrcMhl } else { Instruction::RrcR } }
        else if op == 2 { if mhl { Instruction::RlMhl } else { Instruction::RlR } }
        else if op == 3 { if mhl { Instruction::RrMhl } else { Instruction::RrR } }
        else if op == 4 { if mhl { Instruction::SlaMhl } else { Instruction::SlaR } }
        else if op == 5 { if mhl { Instruction::SraMhl } else { Instruction::SraR } }
        else if op == 6 { if mhl { Instruction::SwapMhl } else { Instruction::SwapR } }
        else { if mhl { Instruction::SrlMhl } else { Instruction::SrlR } }
    } else if opcode < 0x80 {
        if mhl { Instruction::BitBMhl } else { Instruction::BitBR }
    } else if opcode < 0xC0 {
        if mhl { Instruction::ResBMhl } else { Instruction::ResBR }
    } else if opcode % 16 == 5 {
        Instruction::PushQq
    } else {
        if mhl { Instruction::SetBMhl } else { Instruction::SetBR }
    }
}

/// The instruction that `opcode` names.
pub fn instruction(opcode: u8) -> (r: Instruction)
    ensures
        r == decode(opcode),
{
    let row = opcode / 16;
    let col = opcode % 16;
    if opcode < 0x40 {
        if col == 0x0 {
            if row == 0 { Instruction::Nop } else if row == 1 { Instruction::Stop } else { Instruction::JrCcE }
        } else if col == 0x1 {
            Instruction::LdDdNn
        } else if col == 0x2 {
            if row == 0 { Instruction::LdMbcA } else if row == 1 { Instruction::LdMdeA }
            else if row == 2 { Instruction::LdMhliA } else { Instruction::LdMhldA }
        } else if col == 0x3 {
            Instruction::IncSs
        } else if col == 0x4 || col == 0xC {
            if opcode == 0x34 { Instruction::IncMhl } else { Instruction::IncR }
        } else if col == 0x5 || col == 0xD {
            if opcode == 0x35 { Instruction::DecMhl } else { Instruction::DecR }
        } else if col == 0x6 || col == 0xE {
            if opcode == 0x36 { Instruction::LdMhlN } else { Instruction::LdRN }
        } else if col == 0x7 {
            if row == 0 { Instruction::Rlca } else if row == 1 { Instruction::Rla }
            else if row == 2 { Instruction::Daa } else { Instruction::Scf }
        } else if col == 0x8 {
            if row == 0 { Instruction::LdMnnSp } else if row == 1 { Instruction::JrE } else { Instruction::JrCcE }
        } else if col == 0x9 {
            Instruction::AddHlSs
        } else if col == 0xA {
            if row == 0 { Instruction::LdAMbc } else if row == 1 { Instruction::LdAMde }
            else if row == 2 { Instruction::LdAMhli } else { Instruction::LdAMhld }
        } else if col == 0xB {
            Instruction::DecSs
        } else {
            if row == 0 { Instruction::Rrca } else if row == 1 { Instruction::Rra }
            else if row == 2 { Instruction::Cpl } else { Instruction::Ccf }
        }
    } else if opcode < 0x80 {
        if opcode == 0x76 {
            Instruction::Halt
        } else if opcode % 8 == 6 {
            Instruction::LdRMhl
        } else if (opcode / 8) % 8 == 6 {
            Instruction::LdMhlR
        } else {
            Instruction::LdRR
        }
    } else if opcode < 0xC0 {
        let mhl = opcode % 8 == 6;
        let op = (opcode / 8) % 8;
        if op == 0 { if mhl { Instruction::AddAMhl } else { Instruction::AddAR } }
        else if op == 1 { if mhl { Instruction::AdcAMhl } else { Instruction::AdcAR } }
        else if op == 2 { if mhl { Instruction::SubAMhl } else { Instruction::SubAR } }
        else if op == 3 { if mhl { Instruction::SbcAMhl } else { Instruction::SbcAR } }
        else if op == 4 { if mhl { Instruction::AndMhl } else { Instruction::AndR } }
        else if op == 5 { if mhl { Instruction::XorMhl } else { Instruction::XorR } }
        else if op == 6 { if mhl { Instruction::OrMhl } else { Instruction::OrR } }
        else { if mhl { Instruction::CpMhl } else { Instruction::CpR } }
    } else if col == 0x7 || col == 0xF {
        Instruction::RstT
    } else if col == 0x1 {
        Instruction::PopQq
    } else if col == 0x5 {
        Instruction::PushQq
    } else if opcode < 0xE0 && (col == 0x0 || col == 0x8) {
        Instruction::RetC
    } else if opcode < 0xE0 && (col == 0x2 || col == 0xA) {
        Instruction::JpCcNn
    } else if opcode < 0xE0 && (col == 0x4 || col == 0xC) {
        Instruction::CallCNn
    } else if opcode == 0xC3 { Instruction::JpNn }
    else if opcode == 0xC6 { Instruction::AddAN }
    else if opcode == 0xC9 { Instruction::Ret }
    else if opcode == 0xCB { Instruction::Extended }
    else if opcode == 0xCD { Instruction::CallNn }
    else if opcode == 0xCE { Instruction::AdcAN }
    else if opcode == 0xD6 { Instruction::SubAN }
    else if opcode == 0xD9 { Instruction::Reti }
    else if opcode == 0xDE { Instruction::SbcAN }
    else if opcode == 0xE0 { Instruction::LdMnA }
    else if opcode == 0xE2 { Instruction::LdMcA }
    else if opcode == 0xE6 { Instruction::AndN }
    else if opcode == 0xE8 { Instruction::AddSpE }
    else if opcode == 0xE9 { Instruction::JpMhl }
    else if opcode == 0xEA { Instruction::LdMnnA }
    else if opcode == 0xEE { Instruction::XorN }
    else if opcode == 0xF0 { Instruction::LdAMn }
    else if opcode == 0xF2 { Instruction::LdAMc }
    else if opcode == 0xF3 { Instruction::Di }
    else if opcode == 0xF6 { Instruction::OrN }
    else if opcode == 0xF8 { Instruction::LdhlSpE }
    else if opcode == 0xF9 { Instruction::LdSpHl }
    else if opcode == 0xFA { Instruction::LdAMnn }
    else if opcode == 0xFB { Instruction::Ei }
    else if opcode == 0xFE { Instruction::CpN }
    else { Instruction::Unsupported }
}

/// The instruction that the byte after the prefix `0xCB` names.
pub fn extended_instruction(opcode: u8) -> (r: Instruction)
    ensures
        r == decode_extended(opcode),
{
    let mhl = opcode % 8 == 6;
    if opcode < 0x40 {
        let op = opcode / 8;
        if op == 0 { if mhl { Instruction::RlcMhl } else { Instruction::RlcR } }
        else if op == 1 { if mhl { Instruction::RrcMhl } else { Instruction::RrcR } }
        else if op == 2 { if mhl { Instruction::RlMhl } else { Instruction::RlR } }
        else if op == 3 { if mhl { Instruction::RrMhl } else { Instruction::RrR } }
        else if op == 4 { if mhl { Instruction::SlaMhl } else { Instruction::SlaR } }
        else if op == 5 { if mhl { Instruction::SraMhl } else { Instruction::SraR } }
        else if op == 6 { if mhl { Instruction::SwapMhl } else { Instruction::SwapR } }
        else { if mhl { Instruction::SrlMhl } else { Instruction::SrlR } }
    } else if opcode < 0x80 {
        if mhl { Instruction::BitBMhl } else { Instruction::BitBR }
    } else if opcode < 0xC0 {
        if mhl { Instruction::ResBMhl } else { Instruction::ResBR }
    } else if opcode % 16 == 5 {
        Instruction::PushQq
    } else {
        if mhl { Instruction::SetBMhl } else { Instruction::SetBR }
    }
}

// ------------------------------------------------------------------------
// Pieces of the specifications
// ------------------------------------------------------------------------

/// The instruction completes with `registers` in `s` after `cycles` cycles.
pub open spec fn done(s: MachineView, registers: RegsView, cycles: u8) -> Option<(MachineView, u8)> {
    Some((s.with_registers(registers), cycles))
}

/// The 8-bit register that bits 5..3 of `opcode` name.
pub open spec fn r_high(opcode: u8) -> RegisterR {
    RegisterR::from_code((opcode / 8) % 8)
}

/// The 8-bit register that bits 2..0 of `opcode` name.
pub open spec fn r_low(opcode: u8) -> RegisterR {
    RegisterR::from_code(opcode % 8)
}

/// The flags of an 8-bit addition: zero, half carry and carry calculated,
/// subtraction cleared.
pub open spec fn add_calculations() -> FlagCalculations {
    FlagCalculations {
        zero: FlagCalculationStatus::Calculate,
        substraction: FlagCalculationStatus::Clear,
        halfcarry: FlagCalculationStatus::Calculate,
        carry: FlagCalculationStatus::Calculate,
    }
}

/// The flags of an 8-bit subtraction: zero, half carry and carry calculated,
/// subtraction set.
pub open spec fn sub_calculations() -> FlagCalculations {
    FlagCalculations {
        zero: FlagCalculationStatus::Calculate,
        substraction: FlagCalculationStatus::SetFlag,
        halfcarry: FlagCalculationStatus::Calculate,
        carry: FlagCalculationStatus::Calculate,
    }
}

/// The zero flag for `value`.
pub open spec fn zero_bit(value: u8) -> u8 {
    if value == 0 { 1 } else { 0 }
}

/// The registers after the 8-bit operation `op` (bits 5..3 of the opcode:
/// ADD, ADC, SUB, SBC, AND, XOR, OR, CP) of A with `value`.
pub open spec fn alu(op: u8, r: RegsView, value: u8) -> RegsView {
    let a = r.a;
    let cy = r.flag_cy();
    if op == 0 {
        RegsView { a: a.wrapping_add(value), ..r.flags_after_add(a, value, 0, add_calculations()) }
    } else if op == 1 {
        RegsView { a: a.wrapping_add(value).wrapping_add(cy), ..r.flags_after_add(a, value, cy, add_calculations()) }
    } else if op == 2 {
        RegsView { a: a.wrapping_sub(value), ..r.flags_after_sub(a, value, 0, sub_calculations()) }
    } else if op == 3 {
        RegsView { a: a.wrapping_sub(value).wrapping_sub(cy), ..r.flags_after_sub(a, value, cy, sub_calculations()) }
    } else if op == 4 {
        RegsView { a: a & value, ..r.with_flags(zero_bit(a & value), 0, 1, 0) }
    } else if op == 5 {
        RegsView { a: a ^ value, ..r.with_flags(zero_bit(a ^ value), 0, 0, 0) }
    } else if op == 6 {
        RegsView { a: a | value, ..r.with_flags(zero_bit(a | value), 0, 0, 0) }
    } else {
        r.flags_after_sub(a, value, 0, sub_calculations())
    }
}

/// The operation with A on the register that bits 2..0 name; one byte, 4 cycles.
pub open spec fn alu_r_spec(op: u8, opcode: u8, pc: u16, s: MachineView) -> Option<(MachineView, u8)> {
    let r = s.registers;
    done(s, alu(op, r, r.read_r(r_low(opcode))).advance_pc(1), 4)
}

/// The operation with A on the byte after the opcode; two bytes, 8 cycles.
pub open spec fn alu_n_spec(op: u8, opcode: u8, pc: u16, s: MachineView) -> Option<(MachineView, u8)> {
    let r = s.registers;
    match s.following(r.pc) {
        Some(n) => done(s, alu(op, r, n).advance_pc(2), 8),
        None => None,
    }
}

/// The operation with A on the byte at HL; one byte, 8 cycles.
pub open spec fn alu_mhl_spec(op: u8, opcode: u8, pc: u16, s: MachineView) -> Option<(MachineView, u8)> {
    let r = s.registers;
    match s.read(r.hl()) {
        Some(v) => done(s, alu(op, r, v).advance_pc(1), 8),
        None => None,
    }
}

/// `a + e` with `e` read as a signed byte, wrapping around.
pub open spec fn add_signed_spec(a: u16, e: u8) -> u16 {
    let offset: int = if e < 128 { e as int } else { e as int - 256 };
    ((a as int + offset) % 65536) as u16
}

/// The flags of the rotations and shifts: carry from `bit`, subtraction
/// and half carry cleared, zero from `result` when `calc_zero` asks for it.
pub open spec fn shift_flags(flags: u8, bit: u8, result: u8, calc_zero: bool) -> u8 {
    with_bit(
        with_bit(with_bit(with_bit(flags, 4, bit), 5, 0), 6, 0),
        7,
        if calc_zero && result == 0 { 1 } else { 0 },
    )
}

/// RLC: bit 7 goes to bit 0 and to the carry.
pub open spec fn rlc_value(v: u8) -> (u8, u8) {
    (((v << 1u8) | ((v >> 7u8) & 1u8)) as u8, (v >> 7u8) & 1u8)
}

/// RL: bit 7 goes to the carry, the carry to bit 0.
pub open spec fn rl_value(v: u8, cy: u8) -> (u8, u8) {
    (((v << 1u8) | cy) as u8, (v >> 7u8) & 1u8)
}

/// RRC: bit 0 goes to bit 7 and to the carry.
pub open spec fn rrc_value(v: u8) -> (u8, u8) {
    (((v >> 1u8) | ((v & 1u8) << 7u8)) as u8, v & 1u8)
}

/// RR: bit 0 goes to the carry, the carry to bit 7.
pub open spec fn rr_value(v: u8, cy: u8) -> (u8, u8) {
    (((v >> 1u8) | (cy << 7u8)) as u8, v & 1u8)
}

/// SLA: shifted left, bit 7 to the carry.
pub open spec fn sla_value(v: u8) -> (u8, u8) {
    ((v << 1u8) as u8, (v >> 7u8) & 1u8)
}

/// SRA: shifted right keeping bit 7, bit 0 to the carry.
pub open spec fn sra_value(v: u8) -> (u8, u8) {
    (((v >> 1u8) | (((v >> 7u8) & 1u8) << 7u8)) as u8, v & 1u8)
}

/// SRL: shifted right, bit 0 to the carry.
pub open spec fn srl_value(v: u8) -> (u8, u8) {
    (v >> 1u8, v & 1u8)
}

/// SWAP: the two nibbles exchanged.
pub open spec fn swap_value(v: u8) -> u8 {
    (((v & 15u8) << 4u8) as u8) | ((v >> 4u8) & 15u8)
}

/// The flags after BIT: zero when bit `bit` of `v` is clear, half carry set,
/// subtraction cleared.
pub open spec fn bit_flags(flags: u8, v: u8, bit: u8) -> u8 {
    with_bit(with_bit(with_bit(flags, 5, 1), 6, 0), 7, if bit_of(v, bit) == 0 { 1 } else { 0 })
}

proof fn lemma_byte_bits(v: u8)
    by (bit_vector)
    ensures
        (v >> 7u8) & 1u8 <= 1,
        v & 1u8 <= 1,
        v & 0x0Fu8 == v % 16,
        (v as u16 & 0xFFu16) as u8 == v,
{
}

// ------------------------------------------------------------------------
// 8-bit transfer and input/output instructions
// ------------------------------------------------------------------------

/// LD r, r' (`01 rrr rrr'`).
pub open spec fn ld_r_r_spec(opcode: u8, pc: u16, s: MachineView) -> Option<(MachineView, u8)> {
    let r = s.registers;
    done(s, r.write_r(r_high(opcode), r.read_r(r_low(opcode))).advance_pc(1), 4)
}

fn ld_r_r(opcode: u8, pc: u16, cpu: &mut CPU) -> (r: Option<u8>)
    requires
        old(cpu).wf(),
        decode(opcode) == Instruction::LdRR,
    ensures
        outcome(ld_r_r_spec(opcode, pc, old(cpu).machine()), *old(cpu), *final(cpu), r),
{
    let target = RegisterR::new((opcode / 8) % 8);
    let source = RegisterR::new(opcode % 8);
    let value = cpu.registers.read_r(source);
    cpu.registers.write_r(target, value);
    cpu.registers.inc_pc(1);
    Some(4)
}

/// LD r, n (`00 rrr 110`, `n`).
pub open spec fn ld_r_n_spec(opcode: u8, pc: u16, s: MachineView) -> Option<(MachineView, u8)> {
    let r = s.registers;
    match s.following(r.pc) {
        Some(n) => done(s, r.write_r(r_high(opcode), n).advance_pc(2), 8),
        None => None,
    }
}

fn ld_r_n(opcode: u8, pc: u16, cpu: &mut CPU) -> (r: Option<u8>)
    requires
        old(cpu).wf(),
        decode(opcode) == Instruction::LdRN,
    ensures
        outcome(ld_r_n_spec(opcode, pc, old(cpu).machine()), *old(cpu), *final(cpu), r),
{
    let pc = cpu.registers.pc();
    let target = RegisterR::new((opcode / 8) % 8);
    match cpu.following(pc) {
        Some(value) => {
            cpu.registers.write_r(target, value);
            cpu.registers.inc_pc(2);
            Some(8)
        },
        None => None,
    }
}

/// LD r, (HL) (`01 rrr 110`).
pub open spec fn ld_r_mhl_spec(opcode: u8, pc: u16, s: MachineView) -> Option<(MachineView, u8)> {
    let r = s.registers;
    match s.read(r.hl()) {
        Some(v) => done(s, r.write_r(r_high(opcode), v).advance_pc(1), 8),
        None => None,
    }
}

fn ld_r_mhl(opcode: u8, pc: u16, cpu: &mut CPU) -> (r: Option<u8>)
    requires
        old(cpu).wf(),
        decode(opcode) == Instruction::LdRMhl,
    ensures
        outcome(ld_r_mhl_spec(opcode, pc, old(cpu).machine()), *old(cpu), *final(cpu), r),
{
    let target = RegisterR::new((opcode / 8) % 8);
    let address = cpu.registers.hl();
    match cpu.read_byte(address) {
        Some(value) => {
            cpu.registers.write_r(target, value);
            cpu.registers.inc_pc(1);
            Some(8)
        },
        None => None,
    }
}

/// The instruction writes `value` at `address`, then completes with
/// `registers` after `cycles` cycles.
pub open spec fn store(s: MachineView, address: u16, value: u8, registers: RegsView, cycles: u8) -> Option<(MachineView, u8)> {
    match s.write(address, value) {
        Some(s2) => done(s2, registers, cycles),
        None => None,
    }
}

/// LD (HL), r (`01 110 rrr`).
pub open spec fn ld_mhl_r_spec(opcode: u8, pc: u16, s: MachineView) -> Option<(MachineView, u8)> {
    let r = s.registers;
    store(s, r.hl(), r.read_r(r_low(opcode)), r.advance_pc(1), 8)
}

fn ld_mhl_r(opcode: u8, pc: u16, cpu: &mut CPU) -> (r: Option<u8>)
    requires
        old(cpu).wf(),
        decode(opcode) == Instruction::LdMhlR,
    ensures
        outcome(ld_mhl_r_spec(opcode, pc, old(cpu).machine()), *old(cpu), *final(cpu), r),
{
    let source = RegisterR::new(opcode % 8);
    let address = cpu.registers.hl();
    let value = cpu.registers.read_r(source);
    if !cpu.write_byte(address, value) {
        return None;
    }
    cpu.registers.inc_pc(1);
    Some(8)
}

/// LD (HL), n (`00 110 110`, `n`).
pub open spec fn ld_mhl_n_spec(opcode: u8, pc: u16, s: MachineView) -> Option<(MachineView, u8)> {
    let r = s.registers;
    match s.following(r.pc) {
        Some(n) => store(s, r.hl(), n, r.advance_pc(2), 12),
        None => None,
    }
}

fn ld_mhl_n(opcode: u8, pc: u16, cpu: &mut CPU) -> (r: Option<u8>)
    requires
        old(cpu).wf(),
    ensures
        outcome(ld_mhl_n_spec(opcode, pc, old(cpu).machine()), *old(cpu), *final(cpu), r),
{
    let pc = cpu.registers.pc();
    let address = cpu.registers.hl();
    let value = match cpu.following(pc) {
        Some(value) => value,
        None => return None,
    };
    if !cpu.write_byte(address, value) {
        return None;
    }
    cpu.registers.inc_pc(2);
    Some(12)
}

/// LD A from the byte at `address`; one byte, 8 cycles.
pub open spec fn load_a(s: MachineView, address: u16) -> Option<(MachineView, u8)> {
    match s.read(address) {
        Some(v) => done(s, s.registers.write_r(RegisterR::A, v).advance_pc(1), 8),
        None => None,
    }
}

/// LD A, (BC) (`00 001 010`).
pub open spec fn ld_a_mbc_spec(opcode: u8, pc: u16, s: MachineView) -> Option<(MachineView, u8)> {
    load_a(s, s.registers.bc())
}

/// LD A, (DE) (`00 011 010`).
pub open spec fn ld_a_mde_spec(opcode: u8, pc: u16, s: MachineView) -> Option<(MachineView, u8)> {
    load_a(s, s.registers.de())
}

/// LD A, (C) (`11 110 010`): the byte at `0xFF00 + C`.
pub open spec fn ld_a_mc_spec(opcode: u8, pc: u16, s: MachineView) -> Option<(MachineView, u8)> {
    load_a(s, (0xFF00 + s.registers.c) as u16)
}

fn ld_a_from(address: u16, cpu: &mut CPU) -> (r: Option<u8>)
    requires
        old(cpu).wf(),
    ensures
        outcome(load_a(old(cpu).machine(), address), *old(cpu), *final(cpu), r),
{
    match cpu.read_byte(address) {
        Some(value) => {
            cpu.registers.set_a(value);
            cpu.registers.inc_pc(1);
            Some(8)
        },
        None => None,
    }
}

fn ld_a_mbc(opcode: u8, pc: u16, cpu: &mut CPU) -> (r: Option<u8>)
    requires
        old(cpu).wf(),
    ensures
        outcome(ld_a_mbc_spec(opcode, pc, old(cpu).machine()), *old(cpu), *final(cpu), r),
{
    let address = cpu.registers.bc();
    ld_a_from(address, cpu)
}

fn ld_a_mde(opcode: u8, pc: u16, cpu: &mut CPU) -> (r: Option<u8>)
    requires
        old(cpu).wf(),
    ensures
        outcome(ld_a_mde_spec(opcode, pc, old(cpu).machine()), *old(cpu), *final(cpu), r),
{
    let address = cpu.registers.de();
    ld_a_from(address, cpu)
}

fn ld_a_mc(opcode: u8, pc: u16, cpu: &mut CPU) -> (r: Option<u8>)
    requires
        old(cpu).wf(),
    ensures
        outcome(ld_a_mc_spec(opcode, pc, old(cpu).machine()), *old(cpu), *final(cpu), r),
{
    let address = 0xFF00 + cpu.registers.c() as u16;
    ld_a_from(address, cpu)
}

/// LD (C), A (`11 100 010`): A to `0xFF00 + C`.
pub open spec fn ld_mc_a_spec(opcode: u8, pc: u16, s: MachineView) -> Option<(MachineView, u8)> {
    let r = s.registers;
    store(s, (0xFF00 + r.c) as u16, r.a, r.advance_pc(1), 8)
}

fn ld_mc_a(opcode: u8, pc: u16, cpu: &mut CPU) -> (r: Option<u8>)
    requires
        old(cpu).wf(),
    ensures
        outcome(ld_mc_a_spec(opcode, pc, old(cpu).machine()), *old(cpu), *final(cpu), r),
{
    let address = 0xFF00 + cpu.registers.c() as u16;
    let value = cpu.registers.a();
    if !cpu.write_byte(address, value) {
        return None;
    }
    cpu.registers.inc_pc(1);
    Some(8)
}

/// LD A, (n) (`11 110 000`, `n`): the byte at `0xFF00 + n`.
pub open spec fn ld_a_mn_spec(opcode: u8, pc: u16, s: MachineView) -> Option<(MachineView, u8)> {
    let r = s.registers;
    match s.following(r.pc) {
        Some(n) => match s.read((0xFF00 + n) as u16) {
            Some(v) => done(s, r.write_r(RegisterR::A, v).advance_pc(2), 12),
            None => None,
        },
        None => None,
    }
}

fn ld_a_mn(opcode: u8, pc: u16, cpu: &mut CPU) -> (r: Option<u8>)
    requires
        old(cpu).wf(),
    ensures
        outcome(ld_a_mn_spec(opcode, pc, old(cpu).machine()), *old(cpu), *final(cpu), r),
{
    let pc = cpu.registers.pc();
    let n = match cpu.following(pc) {
        Some(n) => n,
        None => return None,
    };
    let address = 0xFF00 + n as u16;
    match cpu.read_byte(address) {
        Some(value) => {
            cpu.registers.set_a(value);
            cpu.registers.inc_pc(2);
            Some(12)
        },
        None => None,
    }
}

/// LD (n), A (`11 100 000`, `n`): A to `0xFF00 + n`.
pub open spec fn ld_mn_a_spec(opcode: u8, pc: u16, s: MachineView) -> Option<(MachineView, u8)> {
    let r = s.registers;
    match s.following(r.pc) {
        Some(n) => store(s, (0xFF00 + n) as u16, r.a, r.advance_pc(2), 12),
        None => None,
    }
}

fn ld_mn_a(opcode: u8, pc: u16, cpu: &mut CPU) -> (r: Option<u8>)
    requires
        old(cpu).wf(),
    ensures
        outcome(ld_mn_a_spec(opcode, pc, old(cpu).machine()), *old(cpu), *final(cpu), r),
{
    let pc = cpu.registers.pc();
    let value = cpu.registers.a();
    let n = match cpu.following(pc) {
        Some(n) => n,
        None => return None,
    };
    let address = 0xFF00 + n as u16;
    if !cpu.write_byte(address, value) {
        return None;
    }
    cpu.registers.inc_pc(2);
    Some(12)
}

/// LD A, (nn) (`11 111 010`, low byte, high byte).
pub open spec fn ld_a_mnn_spec(opcode: u8, pc: u16, s: MachineView) -> Option<(MachineView, u8)> {
    let r = s.registers;
    match s.following_u16(r.pc) {
        Some(address) => match s.read(address) {
            Some(v) => done(s, r.write_r(RegisterR::A, v).advance_pc(3), 16),
            None => None,
        },
        None => None,
    }
}

fn ld_a_mnn(opcode: u8, pc: u16, cpu: &mut CPU) -> (r: Option<u8>)
    requires
        old(cpu).wf(),
    ensures
        outcome(ld_a_mnn_spec(opcode, pc, old(cpu).machine()), *old(cpu), *final(cpu), r),
{
    let pc = cpu.registers.pc();
    let address = match cpu.following_u16(pc) {
        Some(address) => address,
        None => return None,
    };
    match cpu.read_byte(address) {
        Some(value) => {
            cpu.registers.set_a(value);
            cpu.registers.inc_pc(3);
            Some(16)
        },
        None => None,
    }
}

/// LD (nn), A (`11 101 010`, low byte, high byte).
pub open spec fn ld_mnn_a_spec(opcode: u8, pc: u16, s: MachineView) -> Option<(MachineView, u8)> {
    let r = s.registers;
    match s.following_u16(r.pc) {
        Some(address) => store(s, address, r.a, r.advance_pc(3), 16),
        None => None,
    }
}

fn ld_mnn_a(opcode: u8, pc: u16, cpu: &mut CPU) -> (r: Option<u8>)
    requires
        old(cpu).wf(),
    ensures
        outcome(ld_mnn_a_spec(opcode, pc, old(cpu).machine()), *old(cpu), *final(cpu), r),
{
    let pc = cpu.registers.pc();
    let value = cpu.registers.a();
    let address = match cpu.following_u16(pc) {
        Some(address) => address,
        None => return None,
    };
    if !cpu.write_byte(address, value) {
        return None;
    }
    cpu.registers.inc_pc(3);
    Some(16)
}

/// LD A, (HLI) (`00 101 010`): then HL goes up by one, wrapping.
pub open spec fn ld_a_mhli_spec(opcode: u8, pc: u16, s: MachineView) -> Option<(MachineView, u8)> {
    let r = s.registers;
    match s.read(r.hl()) {
        Some(v) => done(s, r.write_r(RegisterR::A, v).with_hl(r.hl().wrapping_add(1)).advance_pc(1), 8),
        None => None,
    }
}

fn ld_a_mhli(opcode: u8, pc: u16, cpu: &mut CPU) -> (r: Option<u8>)
    requires
        old(cpu).wf(),
    ensures
        outcome(ld_a_mhli_spec(opcode, pc, old(cpu).machine()), *old(cpu), *final(cpu), r),
{
    let address = cpu.registers.hl();
    match cpu.read_byte(address) {
        Some(value) => {
            cpu.registers.set_a(value);
            cpu.registers.set_hl(address.wrapping_add(1));
            cpu.registers.inc_pc(1);
            Some(8)
        },
        None => None,
    }
}

/// LD A, (HLD) (`00 111 010`): then HL goes down by one, wrapping.
pub open spec fn ld_a_mhld_spec(opcode: u8, pc: u16, s: MachineView) -> Option<(MachineView, u8)> {
    let r = s.registers;
    match s.read(r.hl()) {
        Some(v) => done(s, r.write_r(RegisterR::A, v).with_hl(r.hl().wrapping_sub(1)).advance_pc(1), 8),
        None => None,
    }
}

fn ld_a_mhld(opcode: u8, pc: u16, cpu: &mut CPU) -> (r: Option<u8>)
    requires
        old(cpu).wf(),
    ensures
        outcome(ld_a_mhld_spec(opcode, pc, old(cpu).machine()), *old(cpu), *final(cpu), r),
{
    let address = cpu.registers.hl();
    match cpu.read_byte(address) {
        Some(value) => {
            cpu.registers.set_a(value);
            cpu.registers.set_hl(address.wrapping_sub(1));
            cpu.registers.inc_pc(1);
            Some(8)
        },
        None => None,
    }
}

/// LD (BC), A (`00 000 010`).
pub open spec fn ld_mbc_a_spec(opcode: u8, pc: u16, s: MachineView) -> Option<(MachineView, u8)> {
    let r = s.registers;
    store(s, r.bc(), r.a, r.advance_pc(1), 8)
}

/// LD (DE), A (`00 010 010`).
pub open spec fn ld_mde_a_spec(opcode: u8, pc: u16, s: MachineView) -> Option<(MachineView, u8)> {
    let r = s.registers;
    store(s, r.de(), r.a, r.advance_pc(1), 8)
}

fn store_a(address: u16, cpu: &mut CPU) -> (r: Option<u8>)
    requires
        old(cpu).wf(),
    ensures
        outcome(
            store(old(cpu).machine(), address, old(cpu).registers@.a, old(cpu).registers@.advance_pc(1), 8),
            *old(cpu),
            *final(cpu),
            r,
        ),
{
    let value = cpu.registers.a();
    if !cpu.write_byte(address, value) {
        return None;
    }
    cpu.registers.inc_pc(1);
    Some(8)
}

fn ld_mbc_a(opcode: u8, pc: u16, cpu: &mut CPU) -> (r: Option<u8>)
    requires
        old(cpu).wf(),
    ensures
        outcome(ld_mbc_a_spec(opcode, pc, old(cpu).machine()), *old(cpu), *final(cpu), r),
{
    let address = cpu.registers.bc();
    store_a(address, cpu)
}

fn ld_mde_a(opcode: u8, pc: u16, cpu: &mut CPU) -> (r: Option<u8>)
    requires
        old(cpu).wf(),
    ensures
        outcome(ld_mde_a_spec(opcode, pc, old(cpu).machine()), *old(cpu), *final(cpu), r),
{
    let address = cpu.registers.de();
    store_a(address, cpu)
}

/// LD (HLI), A (`00 100 010`): then HL goes up by one; past `0xFFFF` the
/// emulator stops.
pub open spec fn ld_mhli_a_spec(opcode: u8, pc: u16, s: MachineView) -> Option<(MachineView, u8)> {
    let r = s.registers;
    if r.hl() == 0xFFFF {
        None
    } else {
        store(s, r.hl(), r.a, r.with_hl((r.hl() + 1) as u16).advance_pc(1), 8)
    }
}

fn ld_mhli_a(opcode: u8, pc: u16, cpu: &mut CPU) -> (r: Option<u8>)
    requires
        old(cpu).wf(),
    ensures
        outcome(ld_mhli_a_spec(opcode, pc, old(cpu).machine()), *old(cpu), *final(cpu), r),
{
    let value = cpu.registers.a();
    let address = cpu.registers.hl();
    if !cpu.write_byte(address, value) {
        return None;
    }
    if address == 0xFFFF {
        return None;
    }
    cpu.registers.set_hl(address + 1);
    cpu.registers.inc_pc(1);
    Some(8)
}

/// LD (HLD), A (`00 110 010`): then HL goes down by one; below zero the
/// emulator stops.
pub open spec fn ld_mhld_a_spec(opcode: u8, pc: u16, s: MachineView) -> Option<(MachineView, u8)> {
    let r = s.registers;
    if r.hl() == 0 {
        None
    } else {
        store(s, r.hl(), r.a, r.with_hl((r.hl() - 1) as u16).advance_pc(1), 8)
    }
}

fn ld_mhld_a(opcode: u8, pc: u16, cpu: &mut CPU) -> (r: Option<u8>)
    requires
        old(cpu).wf(),
    ensures
        outcome(ld_mhld_a_spec(opcode, pc, old(cpu).machine()), *old(cpu), *final(cpu), r),
{
    let value = cpu.registers.a();
    let address = cpu.registers.hl();
    if !cpu.write_byte(address, value) {
        return None;
    }
    if address == 0 {
        return None;
    }
    cpu.registers.set_hl(address - 1);
    cpu.registers.inc_pc(1);
    Some(8)
}

// ------------------------------------------------------------------------
// 16-bit transfer instructions
// ------------------------------------------------------------------------

/// LD dd, nn (`00 dd0 001`, low byte, high byte).
pub open spec fn ld_dd_nn_spec(opcode: u8, pc: u16, s: MachineView) -> Option<(MachineView, u8)> {
    let r = s.registers;
    match s.following_u16(r.pc) {
        Some(v) => done(s, r.write_dd(RegisterDD::from_code((opcode / 16) % 4), v).advance_pc(3), 12),
        None => None,
    }
}

fn ld_dd_nn(opcode: u8, pc: u16, cpu: &mut CPU) -> (r: Option<u8>)
    requires
        old(cpu).wf(),
    ensures
        outcome(ld_dd_nn_spec(opcode, pc, old(cpu).machine()), *old(cpu), *final(cpu), r),
{
    let pc = cpu.registers.pc();
    let target = RegisterDD::new((opcode / 16) % 4);
    match cpu.following_u16(pc) {
        Some(value) => {
            cpu.registers.write_dd(target, value);
            cpu.registers.inc_pc(3);
            Some(12)
        },
        None => None,
    }
}

/// LD SP, HL (`11 111 001`).
pub open spec fn ld_sp_hl_spec(opcode: u8, pc: u16, s: MachineView) -> Option<(MachineView, u8)> {
    let r = s.registers;
    done(s, r.with_sp(r.hl()).advance_pc(1), 8)
}

fn ld_sp_hl(opcode: u8, pc: u16, cpu: &mut CPU) -> (r: Option<u8>)
    requires
        old(cpu).wf(),
    ensures
        outcome(ld_sp_hl_spec(opcode, pc, old(cpu).machine()), *old(cpu), *final(cpu), r),
{
    let value = cpu.registers.hl();
    cpu.registers.set_sp(value);
    cpu.registers.inc_pc(1);
    Some(8)
}

/// PUSH qq (`11 qq0 101`): the pair below SP, then SP goes down by two.
pub open spec fn push_qq_spec(opcode: u8, pc: u16, s: MachineView) -> Option<(MachineView, u8)> {
    let r = s.registers;
    let value = r.read_qq(RegisterQQ::from_code((opcode / 16) % 4));
    match s.push(value, r.sp) {
        Some(s2) => done(s2, r.with_sp((r.sp - 2) as u16).advance_pc(1), 16),
        None => None,
    }
}

fn push_qq(opcode: u8, pc: u16, cpu: &mut CPU) -> (r: Option<u8>)
    requires
        old(cpu).wf(),
    ensures
        outcome(push_qq_spec(opcode, pc, old(cpu).machine()), *old(cpu), *final(cpu), r),
{
    let register = RegisterQQ::new((opcode / 16) % 4);
    let value = cpu.registers.read_qq(register);
    let sp = cpu.registers.sp();
    if !cpu.push(value, sp) {
        return None;
    }
    cpu.registers.set_sp(sp - 2);
    cpu.registers.inc_pc(1);
    Some(16)
}

/// POP qq (`11 qq0 001`): the pair at SP, then SP goes up by two; past
/// `0xFFFF` the emulator stops.
pub open spec fn pop_qq_spec(opcode: u8, pc: u16, s: MachineView) -> Option<(MachineView, u8)> {
    let r = s.registers;
    match s.pop(r.sp) {
        Some(v) => if r.sp >= 0xFFFE {
            None
        } else {
            done(s, r.write_qq(RegisterQQ::from_code((opcode / 16) % 4), v).with_sp((r.sp + 2) as u16).advance_pc(1), 12)
        },
        None => None,
    }
}

fn pop_qq(opcode: u8, pc: u16, cpu: &mut CPU) -> (r: Option<u8>)
    requires
        old(cpu).wf(),
    ensures
        outcome(pop_qq_spec(opcode, pc, old(cpu).machine()), *old(cpu), *final(cpu), r),
{
    let register = RegisterQQ::new((opcode / 16) % 4);
    let sp = cpu.registers.sp();
    let value = match cpu.pop(sp) {
        Some(value) => value,
        None => return None,
    };
    cpu.registers.write_qq(register, value);
    if sp >= 0xFFFE {
        return None;
    }
    cpu.registers.set_sp(sp + 2);
    cpu.registers.inc_pc(1);
    Some(12)
}

/// `a + e` with `e` read as a signed byte, wrapping around.
fn add_signed(a: u16, e: u8) -> (r: u16)
    ensures
        r == add_signed_spec(a, e),
{
    if e < 128 {
        a.wrapping_add(e as u16)
    } else {
        a.wrapping_sub(256 - e as u16)
    }
}

/// The flags of `SP + e`: zero and subtraction cleared, half carry and carry
/// of the low byte of SP plus `e`.
pub open spec fn sp_add_calculations() -> FlagCalculations {
    FlagCalculations {
        zero: FlagCalculationStatus::Clear,
        substraction: FlagCalculationStatus::Clear,
        halfcarry: FlagCalculationStatus::Calculate,
        carry: FlagCalculationStatus::Calculate,
    }
}

fn sp_add_flags() -> (r: FlagCalculations)
    ensures
        r == sp_add_calculations(),
{
    FlagCalculationsBuilder::new()
        .zero(FlagCalculationStatus::Clear)
        .substraction(FlagCalculationStatus::Clear)
        .halfcarry(FlagCalculationStatus::Calculate)
        .carry(FlagCalculationStatus::Calculate)
        .build()
}

/// LDHL SP, e (`11 111 000`, `e`): HL is SP plus the signed `e`.
pub open spec fn ldhl_sp_e_spec(opcode: u8, pc: u16, s: MachineView) -> Option<(MachineView, u8)> {
    let r = s.registers;
    match s.following(r.pc) {
        Some(e) => done(
            s,
            r.flags_after_add((r.sp % 256) as u8, e, 0, sp_add_calculations()).with_hl(add_signed_spec(r.sp, e)).advance_pc(2),
            12,
        ),
        None => None,
    }
}

fn ldhl_sp_e(opcode: u8, pc: u16, cpu: &mut CPU) -> (r: Option<u8>)
    requires
        old(cpu).wf(),
    ensures
        outcome(ldhl_sp_e_spec(opcode, pc, old(cpu).machine()), *old(cpu), *final(cpu), r),
{
    let pc = cpu.registers.pc();
    let sp = cpu.registers.sp();
    let value = match cpu.following(pc) {
        Some(value) => value,
        None => return None,
    };
    let calculations = sp_add_flags();
    cpu.registers.update_flags_add((sp % 256) as u8, value, 0, calculations);
    let result = add_signed(sp, value);
    cpu.registers.set_hl(result);
    cpu.registers.inc_pc(2);
    Some(12)
}

/// LD (nn), SP (`00 001 000`, low byte, high byte): the low byte of SP at
/// `nn`, the high byte at `nn + 1`; past `0xFFFF` the emulator stops.
pub open spec fn ld_mnn_sp_spec(opcode: u8, pc: u16, s: MachineView) -> Option<(MachineView, u8)> {
    let r = s.registers;
    match s.following_u16(r.pc) {
        Some(address) => match s.write(address, (r.sp % 256) as u8) {
            Some(s2) => if address == 0xFFFF {
                None
            } else {
                store(s2, (address + 1) as u16, (r.sp / 256) as u8, r.advance_pc(3), 20)
            },
            None => None,
        },
        None => None,
    }
}

fn ld_mnn_sp(opcode: u8, pc: u16, cpu: &mut CPU) -> (r: Option<u8>)
    requires
        old(cpu).wf(),
    ensures
        outcome(ld_mnn_sp_spec(opcode, pc, old(cpu).machine()), *old(cpu), *final(cpu), r),
{
    let pc = cpu.registers.pc();
    let address = match cpu.following_u16(pc) {
        Some(address) => address,
        None => return None,
    };
    let value = cpu.registers.sp();
    if !cpu.write_byte(address, (value % 256) as u8) {
        return None;
    }
    if address == 0xFFFF {
        return None;
    }
    if !cpu.write_byte(address + 1, (value / 256) as u8) {
        return None;
    }
    cpu.registers.inc_pc(3);
    Some(20)
}

// ------------------------------------------------------------------------
// 8-bit arithmetic and logical operation instructions
// ------------------------------------------------------------------------

fn add_flags() -> (r: FlagCalculations)
    ensures
        r == add_calculations(),
{
    FlagCalculationsBuilder::new()
        .zero(FlagCalculationStatus::Calculate)
        .substraction(FlagCalculationStatus::Clear)
        .halfcarry(FlagCalculationStatus::Calculate)
        .carry(FlagCalculationStatus::Calculate)
        .build()
}

fn sub_flags() -> (r: FlagCalculations)
    ensures
        r == sub_calculations(),
{
    FlagCalculationsBuilder::new()
        .zero(FlagCalculationStatus::Calculate)
        .substraction(FlagCalculationStatus::SetFlag)
        .halfcarry(FlagCalculationStatus::Calculate)
        .carry(FlagCalculationStatus::Calculate)
        .build()
}

/// ADD A, `value`.
fn add_a(registers: &mut Registers, value: u8)
    ensures
        final(registers)@ == alu(0, old(registers)@, value),
{
    let val_a = registers.a();
    let result = val_a.wrapping_add(value);
    registers.update_flags_add(val_a, value, 0, add_flags());
    registers.set_a(result);
}

/// ADC A, `value`: with the carry.
fn adc_a(registers: &mut Registers, value: u8)
    ensures
        final(registers)@ == alu(1, old(registers)@, value),
{
    let val_a = registers.a();
    let cy_flag = registers.flag_cy();
    let result = val_a.wrapping_add(value).wrapping_add(cy_flag);
    registers.update_flags_add(val_a, value, cy_flag, add_flags());
    registers.set_a(result);
}

/// SUB A, `value`.
fn sub_a(registers: &mut Registers, value: u8)
    ensures
        final(registers)@ == alu(2, old(registers)@, value),
{
    let val_a = registers.a();
    let result = val_a.wrapping_sub(value);
    registers.update_flags_sub(val_a, value, 0, sub_flags());
    registers.set_a(result);
}

/// SBC A, `value`: with the carry as borrow.
fn sbc_a(registers: &mut Registers, value: u8)
    ensures
        final(registers)@ == alu(3, old(registers)@, value),
{
    let val_a = registers.a();
    let cy_flag = registers.flag_cy();
    let result = val_a.wrapping_sub(value).wrapping_sub(cy_flag);
    registers.update_flags_sub(val_a, value, cy_flag, sub_flags());
    registers.set_a(result);
}

/// AND A, `value`.
fn and_a(registers: &mut Registers, value: u8)
    ensures
        final(registers)@ == alu(4, old(registers)@, value),
{
    let result = registers.a() & value;
    registers.set_flags(if result == 0 { 1 } else { 0 }, 0, 1, 0);
    registers.set_a(result);
}

/// XOR A, `value`.
fn xor_a(registers: &mut Registers, value: u8)
    ensures
        final(registers)@ == alu(5, old(registers)@, value),
{
    let result = registers.a() ^ value;
    registers.set_flags(if result == 0 { 1 } else { 0 }, 0, 0, 0);
    registers.set_a(result);
}

/// OR A, `value`.
fn or_a(registers: &mut Registers, value: u8)
    ensures
        final(registers)@ == alu(6, old(registers)@, value),
{
    let result = registers.a() | value;
    registers.set_flags(if result == 0 { 1 } else { 0 }, 0, 0, 0);
    registers.set_a(result);
}

/// CP A, `value`: the flags of the subtraction, A kept.
fn cp_a(registers: &mut Registers, value: u8)
    ensures
        final(registers)@ == alu(7, old(registers)@, value),
{
    let val_a = registers.a();
    registers.update_flags_sub(val_a, value, 0, sub_flags());
}

/// The operation `op` on A and `value`.
fn alu_apply(op: u8, registers: &mut Registers, value: u8)
    ensures
        final(registers)@ == alu(op, old(registers)@, value),
{
    if op == 0 {
        add_a(registers, value)
    } else if op == 1 {
        adc_a(registers, value)
    } else if op == 2 {
        sub_a(registers, value)
    } else if op == 3 {
        sbc_a(registers, value)
    } else if op == 4 {
        and_a(registers, value)
    } else if op == 5 {
        xor_a(registers, value)
    } else if op == 6 {
        or_a(registers, value)
    } else {
        cp_a(registers, value)
    }
}

/// The operation of bits 5..3 of `opcode` on A and the register of bits 2..0.
fn alu_r(opcode: u8, cpu: &mut CPU) -> (r: Option<u8>)
    requires
        old(cpu).wf(),
        opcode % 8 != 6,
    ensures
        outcome(alu_r_spec((opcode / 8) % 8, opcode, 0, old(cpu).machine()), *old(cpu), *final(cpu), r),
{
    let register = RegisterR::new(opcode % 8);
    let value = cpu.registers.read_r(register);
    alu_apply((opcode / 8) % 8, &mut cpu.registers, value);
    cpu.registers.inc_pc(1);
    Some(4)
}

/// The operation of bits 5..3 of `opcode` on A and the byte after the opcode.
fn alu_n(opcode: u8, cpu: &mut CPU) -> (r: Option<u8>)
    requires
        old(cpu).wf(),
    ensures
        outcome(alu_n_spec((opcode / 8) % 8, opcode, 0, old(cpu).machine()), *old(cpu), *final(cpu), r),
{
    let pc = cpu.registers.pc();
    match cpu.following(pc) {
        Some(value) => {
            alu_apply((opcode / 8) % 8, &mut cpu.registers, value);
            cpu.registers.inc_pc(2);
            Some(8)
        },
        None => None,
    }
}

/// The operation of bits 5..3 of `opcode` on A and the byte at HL.
fn alu_mhl(opcode: u8, cpu: &mut CPU) -> (r: Option<u8>)
    requires
        old(cpu).wf(),
    ensures
        outcome(alu_mhl_spec((opcode / 8) % 8, opcode, 0, old(cpu).machine()), *old(cpu), *final(cpu), r),
{
    let hl = cpu.registers.hl();
    match cpu.read_byte(hl) {
        Some(value) => {
            alu_apply((opcode / 8) % 8, &mut cpu.registers, value);
            cpu.registers.inc_pc(1);
            Some(8)
        },
        None => None,
    }
}

/// INC r (`00 rrr 100`): the carry is kept.
pub open spec fn inc_r_spec(opcode: u8, pc: u16, s: MachineView) -> Option<(MachineView, u8)> {
    let r = s.registers;
    let target = r_high(opcode);
    let v = r.read_r(target);
    done(s, r.flags_after_add(v, 1, 0, inc_calculations()).write_r(target, v.wrapping_add(1)).advance_pc(1), 4)
}

/// The flags of INC: zero and half carry calculated, subtraction cleared,
/// carry kept.
pub open spec fn inc_calculations() -> FlagCalculations {
    FlagCalculations {
        zero: FlagCalculationStatus::Calculate,
        substraction: FlagCalculationStatus::Clear,
        halfcarry: FlagCalculationStatus::Calculate,
        carry: FlagCalculationStatus::Ignore,
    }
}

/// The flags of DEC: zero and half carry calculated, subtraction set, carry
/// kept.
pub open spec fn dec_calculations() -> FlagCalculations {
    FlagCalculations {
        zero: FlagCalculationStatus::Calculate,
        substraction: FlagCalculationStatus::SetFlag,
        halfcarry: FlagCalculationStatus::Calculate,
        carry: FlagCalculationStatus::Ignore,
    }
}

fn inc_flags() -> (r: FlagCalculations)
    ensures
        r == inc_calculations(),
{
    FlagCalculationsBuilder::new()
        .zero(FlagCalculationStatus::Calculate)
        .substraction(FlagCalculationStatus::Clear)
        .halfcarry(FlagCalculationStatus::Calculate)
        .build()
}

fn dec_flags() -> (r: FlagCalculations)
    ensures
        r == dec_calculations(),
{
    FlagCalculationsBuilder::new()
        .zero(FlagCalculationStatus::Calculate)
        .substraction(FlagCalculationStatus::SetFlag)
        .halfcarry(FlagCalculationStatus::Calculate)
        .build()
}

fn inc_r(opcode: u8, pc: u16, cpu: &mut CPU) -> (r: Option<u8>)
    requires
        old(cpu).wf(),
        decode(opcode) == Instruction::IncR,
    ensures
        outcome(inc_r_spec(opcode, pc, old(cpu).machine()), *old(cpu), *final(cpu), r),
{
    let register = RegisterR::new((opcode / 8) % 8);
    let value = cpu.registers.read_r(register);
    cpu.registers.update_flags_add(value, 1, 0, inc_flags());
    cpu.registers.write_r(register, value.wrapping_add(1));
    cpu.registers.inc_pc(1);
    Some(4)
}

/// INC (HL) (`00 110 100`).
pub open spec fn inc_mhl_spec(opcode: u8, pc: u16, s: MachineView) -> Option<(MachineView, u8)> {
    let r = s.registers;
    match s.read(r.hl()) {
        Some(v) => store(s, r.hl(), v.wrapping_add(1), r.flags_after_add(v, 1, 0, inc_calculations()).advance_pc(1), 12),
        None => None,
    }
}

fn inc_mhl(opcode: u8, pc: u16, cpu: &mut CPU) -> (r: Option<u8>)
    requires
        old(cpu).wf(),
    ensures
        outcome(inc_mhl_spec(opcode, pc, old(cpu).machine()), *old(cpu), *final(cpu), r),
{
    let address = cpu.registers.hl();
    let value = match cpu.read_byte(address) {
        Some(value) => value,
        None => return None,
    };
    if !cpu.write_byte(address, value.wrapping_add(1)) {
        return None;
    }
    cpu.registers.update_flags_add(value, 1, 0, inc_flags());
    cpu.registers.inc_pc(1);
    Some(12)
}

/// DEC r (`00 rrr 101`): the carry is kept.
pub open spec fn dec_r_spec(opcode: u8, pc: u16, s: MachineView) -> Option<(MachineView, u8)> {
    let r = s.registers;
    let target = r_high(opcode);
    let v = r.read_r(target);
    done(s, r.flags_after_sub(v, 1, 0, dec_calculations()).write_r(target, v.wrapping_sub(1)).advance_pc(1), 4)
}

fn dec_r(opcode: u8, pc: u16, cpu: &mut CPU) -> (r: Option<u8>)
    requires
        old(cpu).wf(),
        decode(opcode) == Instruction::DecR,
    ensures
        outcome(dec_r_spec(opcode, pc, old(cpu).machine()), *old(cpu), *final(cpu), r),
{
    let register = RegisterR::new((opcode / 8) % 8);
    let value = cpu.registers.read_r(register);
    cpu.registers.update_flags_sub(value, 1, 0, dec_flags());
    cpu.registers.write_r(register, value.wrapping_sub(1));
    cpu.registers.inc_pc(1);
    Some(4)
}

/// DEC (HL) (`00 110 101`).
pub open spec fn dec_mhl_spec(opcode: u8, pc: u16, s: MachineView) -> Option<(MachineView, u8)> {
    let r = s.registers;
    match s.read(r.hl()) {
        Some(v) => store(s, r.hl(), v.wrapping_sub(1), r.flags_after_sub(v, 1, 0, dec_calculations()).advance_pc(1), 12),
        None => None,
    }
}

fn dec_mhl(opcode: u8, pc: u16, cpu: &mut CPU) -> (r: Option<u8>)
    requires
        old(cpu).wf(),
    ensures
        outcome(dec_mhl_spec(opcode, pc, old(cpu).machine()), *old(cpu), *final(cpu), r),
{
    let address = cpu.registers.hl();
    let value = match cpu.read_byte(address) {
        Some(value) => value,
        None => return None,
    };
    if !cpu.write_byte(address, value.wrapping_sub(1)) {
        return None;
    }
    cpu.registers.update_flags_sub(value, 1, 0, dec_flags());
    cpu.registers.inc_pc(1);
    Some(12)
}

// ------------------------------------------------------------------------
// 16-bit arithmetic operation instructions
// ------------------------------------------------------------------------

/// The flags of ADD HL, ss: subtraction cleared, half carry (bit 11) and
/// carry calculated, zero kept.
pub open spec fn add_hl_calculations() -> FlagCalculations {
    FlagCalculations {
        zero: FlagCalculationStatus::Ignore,
        substraction: FlagCalculationStatus::Clear,
        halfcarry: FlagCalculationStatus::Calculate,
        carry: FlagCalculationStatus::Calculate,
    }
}

/// All flags kept.
pub open spec fn keep_calculations() -> FlagCalculations {
    FlagCalculations {
        zero: FlagCalculationStatus::Ignore,
        substraction: FlagCalculationStatus::Ignore,
        halfcarry: FlagCalculationStatus::Ignore,
        carry: FlagCalculationStatus::Ignore,
    }
}

/// ADD HL, ss (`00 ss1 001`).
pub open spec fn add_hl_ss_spec(opcode: u8, pc: u16, s: MachineView) -> Option<(MachineView, u8)> {
    let r = s.registers;
    let v = r.read_ss(RegisterSS::from_code((opcode / 16) % 8));
    done(s, r.flags_after_add_u16(r.hl(), v, add_hl_calculations()).with_hl(r.hl().wrapping_add(v)).advance_pc(1), 8)
}

fn add_hl_ss(opcode: u8, pc: u16, cpu: &mut CPU) -> (r: Option<u8>)
    requires
        old(cpu).wf(),
        opcode < 0x40,
    ensures
        outcome(add_hl_ss_spec(opcode, pc, old(cpu).machine()), *old(cpu), *final(cpu), r),
{
    let register = RegisterSS::new((opcode / 16) % 8);
    let value = cpu.registers.read_ss(register);
    let reg_hl_value = cpu.registers.hl();
    let result = reg_hl_value.wrapping_add(value);
    let calculations = FlagCalculationsBuilder::new()
        .substraction(FlagCalculationStatus::Clear)
        .halfcarry(FlagCalculationStatus::Calculate)
        .carry(FlagCalculationStatus::Calculate)
        .build();
    cpu.registers.update_flags_add_u16(reg_hl_value, value, calculations);
    cpu.registers.set_hl(result);
    cpu.registers.inc_pc(1);
    Some(8)
}

/// ADD SP, e (`11 101 000`, `e`): SP plus the signed `e`.
pub open spec fn add_sp_e_spec(opcode: u8, pc: u16, s: MachineView) -> Option<(MachineView, u8)> {
    let r = s.registers;
    match s.following(r.pc) {
        Some(e) => done(
            s,
            r.flags_after_add((r.sp % 256) as u8, e, 0, sp_add_calculations()).with_sp(add_signed_spec(r.sp, e)).advance_pc(2),
            16,
        ),
        None => None,
    }
}

fn add_sp_e(opcode: u8, pc: u16, cpu: &mut CPU) -> (r: Option<u8>)
    requires
        old(cpu).wf(),
    ensures
        outcome(add_sp_e_spec(opcode, pc, old(cpu).machine()), *old(cpu), *final(cpu), r),
{
    let pc = cpu.registers.pc();
    let val_sp = cpu.registers.sp();
    let val_n = match cpu.following(pc) {
        Some(value) => value,
        None => return None,
    };
    let result = add_signed(val_sp, val_n);
    cpu.registers.update_flags_add((val_sp % 256) as u8, val_n, 0, sp_add_flags());
    cpu.registers.set_sp(result);
    cpu.registers.inc_pc(2);
    Some(16)
}

/// INC ss (`00 ss0 011`): no flag changes.
pub open spec fn inc_ss_spec(opcode: u8, pc: u16, s: MachineView) -> Option<(MachineView, u8)> {
    let r = s.registers;
    let register = RegisterSS::from_code((opcode / 16) % 4);
    let v = r.read_ss(register);
    done(s, r.flags_after_add_u16(v, 1, keep_calculations()).write_ss(register, v.wrapping_add(1)).advance_pc(1), 8)
}

fn inc_ss(opcode: u8, pc: u16, cpu: &mut CPU) -> (r: Option<u8>)
    requires
        old(cpu).wf(),
    ensures
        outcome(inc_ss_spec(opcode, pc, old(cpu).machine()), *old(cpu), *final(cpu), r),
{
    let register = RegisterSS::new((opcode / 16) % 4);
    let value = cpu.registers.read_ss(register);
    let calculations = FlagCalculationsBuilder::new().build();
    cpu.registers.update_flags_add_u16(value, 1, calculations);
    cpu.registers.write_ss(register, value.wrapping_add(1));
    cpu.registers.inc_pc(1);
    Some(8)
}

/// DEC ss (`00 ss1 011`): no flag changes.
pub open spec fn dec_ss_spec(opcode: u8, pc: u16, s: MachineView) -> Option<(MachineView, u8)> {
    let r = s.registers;
    let register = RegisterSS::from_code((opcode / 16) % 4);
    let v = r.read_ss(register);
    done(s, r.flags_after_sub_u16(v, 1, keep_calculations()).write_ss(register, v.wrapping_sub(1)).advance_pc(1), 8)
}

fn dec_ss(opcode: u8, pc: u16, cpu: &mut CPU) -> (r: Option<u8>)
    requires
        old(cpu).wf(),
    ensures
        outcome(dec_ss_spec(opcode, pc, old(cpu).machine()), *old(cpu), *final(cpu), r),
{
    let register = RegisterSS::new((opcode / 16) % 4);
    let value = cpu.registers.read_ss(register);
    let calculations = FlagCalculationsBuilder::new().build();
    cpu.registers.update_flags_sub_u16(value, 1, calculations);
    cpu.registers.write_ss(register, value.wrapping_sub(1));
    cpu.registers.inc_pc(1);
    Some(8)
}

// ------------------------------------------------------------------------
// Rotate and shift instructions
// ------------------------------------------------------------------------

/// The flags after a rotation or shift.
fn calc_flags_for_shift_and_rotate(flags: u8, bit_value: u8, calculated_result: u8, calc_zero: bool) -> (r: u8)
    requires
        bit_value <= 1,
    ensures
        r == shift_flags(flags, bit_value, calculated_result, calc_zero),
{
    let mut flags = bit_op::change_bit_to(flags, 4, bit_value);
    flags = bit_op::clear_bit(flags, 5);
    flags = bit_op::clear_bit(flags, 6);
    if calc_zero {
        if calculated_result == 0 {
            bit_op::set_bit(flags, 7)
        } else {
            bit_op::clear_bit(flags, 7)
        }
    } else {
        bit_op::clear_bit(flags, 7)
    }
}

/// The kinds of rotation and shift.
pub open spec fn shifted(kind: u8, v: u8, cy: u8) -> (u8, u8) {
    if kind == 0 { rlc_value(v) }
    else if kind == 1 { rrc_value(v) }
    else if kind == 2 { rl_value(v, cy) }
    else if kind == 3 { rr_value(v, cy) }
    else if kind == 4 { sla_value(v) }
    else if kind == 5 { sra_value(v) }
    else { srl_value(v) }
}

/// The registers after rotating or shifting `v` by `kind` (bits 5..3 of
/// the extended opcode, SWAP excluded): the result and its flags.
pub open spec fn shift_result(kind: u8, r: RegsView, v: u8, calc_zero: bool) -> (RegsView, u8) {
    let (result, bit) = shifted(kind, v, r.flag_cy());
    (r.with_f(shift_flags(r.f, bit, result, calc_zero)), result)
}

/// Rotates or shifts `value` by `kind` and sets the flags.
fn shift(kind: u8, value: u8, calc_zero: bool, registers: &mut Registers) -> (r: u8)
    requires
        kind <= 7,
        kind != 6,
    ensures
        (final(registers)@, r) == shift_result(kind, old(registers)@, value, calc_zero),
{
    proof { lemma_byte_bits(value); }
    let flags = registers.f();
    let cy = registers.flag_cy();
    let bit7 = (value >> 7) & 1;
    let bit0 = value & 1;
    let (result, bit) = if kind == 0 {
        ((value << 1) | bit7, bit7)
    } else if kind == 1 {
        ((value >> 1) | (bit0 << 7), bit0)
    } else if kind == 2 {
        ((value << 1) | cy, bit7)
    } else if kind == 3 {
        ((value >> 1) | (cy << 7), bit0)
    } else if kind == 4 {
        (value << 1, bit7)
    } else if kind == 5 {
        ((value >> 1) | (bit7 << 7), bit0)
    } else {
        (value >> 1, bit0)
    };
    let flags = calc_flags_for_shift_and_rotate(flags, bit, result, calc_zero);
    registers.set_f(flags);
    result
}

/// RLCA, RRCA, RLA, RRA (`00 0kk 111`): the zero flag is cleared.
pub open spec fn rotate_a_spec(kind: u8, s: MachineView) -> Option<(MachineView, u8)> {
    let r = s.registers;
    let (r2, result) = shift_result(kind, r, r.a, false);
    done(s, r2.write_r(RegisterR::A, result).advance_pc(1), 4)
}

fn rotate_a(kind: u8, cpu: &mut CPU) -> (r: Option<u8>)
    requires
        old(cpu).wf(),
        kind <= 3,
    ensures
        outcome(rotate_a_spec(kind, old(cpu).machine()), *old(cpu), *final(cpu), r),
{
    let value = cpu.registers.a();
    let rotated = shift(kind, value, false, &mut cpu.registers);
    cpu.registers.set_a(rotated);
    cpu.registers.inc_pc(1);
    Some(4)
}

/// RLC, RRC, RL, RR, SLA, SRA, SRL r (`11 001 011`, `00 kkk rrr`).
pub open spec fn shift_r_spec(opcode: u8, pc: u16, s: MachineView) -> Option<(MachineView, u8)> {
    let r = s.registers;
    let register = r_low(opcode);
    let (r2, result) = shift_result(opcode / 8, r, r.read_r(register), true);
    done(s, r2.write_r(register, result).advance_pc(2), 8)
}

fn shift_r(opcode: u8, pc: u16, cpu: &mut CPU) -> (r: Option<u8>)
    requires
        old(cpu).wf(),
        opcode < 0x40,
        opcode / 8 != 6,
        opcode % 8 != 6,
    ensures
        outcome(shift_r_spec(opcode, pc, old(cpu).machine()), *old(cpu), *final(cpu), r),
{
    let register = RegisterR::new(opcode % 8);
    let value = cpu.registers.read_r(register);
    let result = shift(opcode / 8, value, true, &mut cpu.registers);
    cpu.registers.write_r(register, result);
    cpu.registers.inc_pc(2);
    Some(8)
}

/// RLC, RRC, RL, RR, SLA, SRA, SRL (HL) (`11 001 011`, `00 kkk 110`): the
/// flags are set, then the result written.
pub open spec fn shift_mhl_spec(opcode: u8, pc: u16, s: MachineView) -> Option<(MachineView, u8)> {
    let r = s.registers;
    match s.read(r.hl()) {
        Some(v) => {
            let (r2, result) = shift_result(opcode / 8, r, v, true);
            store(s, r.hl(), result, r2.advance_pc(2), 16)
        },
        None => None,
    }
}

fn shift_mhl(opcode: u8, pc: u16, cpu: &mut CPU) -> (r: Option<u8>)
    requires
        old(cpu).wf(),
        opcode < 0x40,
        opcode / 8 != 6,
    ensures
        outcome(shift_mhl_spec(opcode, pc, old(cpu).machine()), *old(cpu), *final(cpu), r),
{
    let address = cpu.registers.hl();
    let value = match cpu.read_byte(address) {
        Some(value) => value,
        None => return None,
    };
    let result = shift(opcode / 8, value, true, &mut cpu.registers);
    if !cpu.write_byte(address, result) {
        return None;
    }
    cpu.registers.inc_pc(2);
    Some(16)
}

/// SWAP r (`11 001 011`, `00 110 rrr`).
pub open spec fn swap_r_spec(opcode: u8, pc: u16, s: MachineView) -> Option<(MachineView, u8)> {
    let r = s.registers;
    let register = r_low(opcode);
    let result = swap_value(r.read_r(register));
    done(s, r.with_flags(zero_bit(result), 0, 0, 0).write_r(register, result).advance_pc(2), 8)
}

fn swap(value: u8) -> (r: u8)
    ensures
        r == swap_value(value),
{
    ((value & 0b1111) << 4u8) | (value >> 4u8) & 0b1111
}

fn swap_r(opcode: u8, pc: u16, cpu: &mut CPU) -> (r: Option<u8>)
    requires
        old(cpu).wf(),
        opcode % 8 != 6,
    ensures
        outcome(swap_r_spec(opcode, pc, old(cpu).machine()), *old(cpu), *final(cpu), r),
{
    let register = RegisterR::new(opcode % 8);
    let value = cpu.registers.read_r(register);
    let result = swap(value);
    cpu.registers.set_flags(if result == 0 { 1 } else { 0 }, 0, 0, 0);
    cpu.registers.write_r(register, result);
    cpu.registers.inc_pc(2);
    Some(8)
}

/// SWAP (HL) (`11 001 011`, `00 110 110`).
pub open spec fn swap_mhl_spec(opcode: u8, pc: u16, s: MachineView) -> Option<(MachineView, u8)> {
    let r = s.registers;
    match s.read(r.hl()) {
        Some(v) => store(s, r.hl(), swap_value(v), r.with_flags(zero_bit(swap_value(v)), 0, 0, 0).advance_pc(2), 16),
        None => None,
    }
}

fn swap_mhl(opcode: u8, pc: u16, cpu: &mut CPU) -> (r: Option<u8>)
    requires
        old(cpu).wf(),
    ensures
        outcome(swap_mhl_spec(opcode, pc, old(cpu).machine()), *old(cpu), *final(cpu), r),
{
    let address = cpu.registers.hl();
    let value = match cpu.read_byte(address) {
        Some(value) => value,
        None => return None,
    };
    let result = swap(value);
    cpu.registers.set_flags(if result == 0 { 1 } else { 0 }, 0, 0, 0);
    if !cpu.write_byte(address, result) {
        return None;
    }
    cpu.registers.inc_pc(2);
    Some(16)
}

// ------------------------------------------------------------------------
// Bit operations
// ------------------------------------------------------------------------

/// The flags after testing bit `bit` of `value`.
fn test_bit(flags: u8, value: u8, bit: u8) -> (r: u8)
    requires
        bit <= 7,
    ensures
        r == bit_flags(flags, value, bit),
{
    let bit_value = if ((value >> bit) & 0b1) == 0 { 1 } else { 0 };
    let mut flags = bit_op::set_bit(flags, 5);
    flags = bit_op::clear_bit(flags, 6);
    bit_op::change_bit_to(flags, 7, bit_value)
}

/// BIT b, r (`11 001 011`, `01 bbb rrr`).
pub open spec fn bit_b_r_spec(opcode: u8, pc: u16, s: MachineView) -> Option<(MachineView, u8)> {
    let r = s.registers;
    done(s, r.with_f(bit_flags(r.f, r.read_r(r_low(opcode)), (opcode / 8) % 8)).advance_pc(2), 8)
}

fn bit_b_r(opcode: u8, pc: u16, cpu: &mut CPU) -> (r: Option<u8>)
    requires
        old(cpu).wf(),
        opcode % 8 != 6,
    ensures
        outcome(bit_b_r_spec(opcode, pc, old(cpu).machine()), *old(cpu), *final(cpu), r),
{
    let register = RegisterR::new(opcode % 8);
    let value = cpu.registers.read_r(register);
    let flags = test_bit(cpu.registers.f(), value, (opcode / 8) % 8);
    cpu.registers.set_f(flags);
    cpu.registers.inc_pc(2);
    Some(8)
}

/// BIT b, (HL) (`11 001 011`, `01 bbb 110`).
pub open spec fn bit_b_mhl_spec(opcode: u8, pc: u16, s: MachineView) -> Option<(MachineView, u8)> {
    let r = s.registers;
    match s.read(r.hl()) {
        Some(v) => done(s, r.with_f(bit_flags(r.f, v, (opcode / 8) % 8)).advance_pc(2), 12),
        None => None,
    }
}

fn bit_b_mhl(opcode: u8, pc: u16, cpu: &mut CPU) -> (r: Option<u8>)
    requires
        old(cpu).wf(),
    ensures
        outcome(bit_b_mhl_spec(opcode, pc, old(cpu).machine()), *old(cpu), *final(cpu), r),
{
    let address = cpu.registers.hl();
    let value = match cpu.read_byte(address) {
        Some(value) => value,
        None => return None,
    };
    let flags = test_bit(cpu.registers.f(), value, (opcode / 8) % 8);
    cpu.registers.set_f(flags);
    cpu.registers.inc_pc(2);
    Some(12)
}

/// `v` with bit `bit` set (`set`) or cleared.
pub open spec fn set_res_value(v: u8, bit: u8, set: bool) -> u8 {
    if set { v | bit_mask(bit) } else { v & !bit_mask(bit) }
}

/// SET and RES b, r (`11 001 011`, `11 bbb rrr` and `10 bbb rrr`).
pub open spec fn set_res_r_spec(opcode: u8, pc: u16, s: MachineView) -> Option<(MachineView, u8)> {
    let r = s.registers;
    let register = r_low(opcode);
    done(s, r.write_r(register, set_res_value(r.read_r(register), (opcode / 8) % 8, opcode >= 0xC0)).advance_pc(2), 8)
}

fn set_res_r(opcode: u8, pc: u16, cpu: &mut CPU) -> (r: Option<u8>)
    requires
        old(cpu).wf(),
        opcode % 8 != 6,
    ensures
        outcome(set_res_r_spec(opcode, pc, old(cpu).machine()), *old(cpu), *final(cpu), r),
{
    let register = RegisterR::new(opcode % 8);
    let value = cpu.registers.read_r(register);
    let bit = (opcode / 8) % 8;
    let result = if opcode >= 0xC0 { bit_op::set_bit(value, bit) } else { bit_op::clear_bit(value, bit) };
    cpu.registers.write_r(register, result);
    cpu.registers.inc_pc(2);
    Some(8)
}

/// SET and RES b, (HL) (`11 001 011`, `11 bbb 110` and `10 bbb 110`).
pub open spec fn set_res_mhl_spec(opcode: u8, pc: u16, s: MachineView) -> Option<(MachineView, u8)> {
    let r = s.registers;
    match s.read(r.hl()) {
        Some(v) => store(s, r.hl(), set_res_value(v, (opcode / 8) % 8, opcode >= 0xC0), r.advance_pc(2), 16),
        None => None,
    }
}

fn set_res_mhl(opcode: u8, pc: u16, cpu: &mut CPU) -> (r: Option<u8>)
    requires
        old(cpu).wf(),
    ensures
        outcome(set_res_mhl_spec(opcode, pc, old(cpu).machine()), *old(cpu), *final(cpu), r),
{
    let address = cpu.registers.hl();
    let value = match cpu.read_byte(address) {
        Some(value) => value,
        None => return None,
    };
    let bit = (opcode / 8) % 8;
    let result = if opcode >= 0xC0 { bit_op::set_bit(value, bit) } else { bit_op::clear_bit(value, bit) };
    if !cpu.write_byte(address, result) {
        return None;
    }
    cpu.registers.inc_pc(2);
    Some(16)
}

// ------------------------------------------------------------------------
// Jump, call and return instructions
// ------------------------------------------------------------------------

/// The condition that bits 4..3 of `opcode` name.
pub open spec fn condition(opcode: u8) -> Condition {
    Condition::from_code((opcode / 8) % 4)
}

/// JP nn (`11 000 011`, low byte, high byte).
pub open spec fn jp_nn_spec(opcode: u8, pc: u16, s: MachineView) -> Option<(MachineView, u8)> {
    match s.following_u16(pc) {
        Some(address) => done(s, s.registers.with_pc(address), 16),
        None => None,
    }
}

fn jp_nn(opcode: u8, pc: u16, cpu: &mut CPU) -> (r: Option<u8>)
    requires
        old(cpu).wf(),
    ensures
        outcome(jp_nn_spec(opcode, pc, old(cpu).machine()), *old(cpu), *final(cpu), r),
{
    match cpu.following_u16(pc) {
        Some(address) => {
            cpu.registers.set_pc(address);
            Some(16)
        },
        None => None,
    }
}

/// JP cc, nn (`11 0cc 010`, low byte, high byte).
pub open spec fn jp_cc_nn_spec(opcode: u8, pc: u16, s: MachineView) -> Option<(MachineView, u8)> {
    let r = s.registers;
    match s.following_u16(pc) {
        Some(address) => if r.check_condition(condition(opcode)) {
            done(s, r.with_pc(address), 16)
        } else {
            done(s, r.advance_pc(3), 12)
        },
        None => None,
    }
}

fn jp_cc_nn(opcode: u8, pc: u16, cpu: &mut CPU) -> (r: Option<u8>)
    requires
        old(cpu).wf(),
    ensures
        outcome(jp_cc_nn_spec(opcode, pc, old(cpu).machine()), *old(cpu), *final(cpu), r),
{
    let condition = Condition::new((opcode / 8) % 4);
    let address = match cpu.following_u16(pc) {
        Some(address) => address,
        None => return None,
    };
    if cpu.registers.check_condition(condition) {
        cpu.registers.set_pc(address);
        Some(16)
    } else {
        cpu.registers.inc_pc(3);
        Some(12)
    }
}

/// JR e (`00 011 000`, `e`): to `pc + 2 + e`, `e` signed.
pub open spec fn jr_e_spec(opcode: u8, pc: u16, s: MachineView) -> Option<(MachineView, u8)> {
    match s.following(pc) {
        Some(e) => done(s, s.registers.with_pc(add_signed_spec(pc, e).wrapping_add(2)), 12),
        None => None,
    }
}

fn jr_e(opcode: u8, pc: u16, cpu: &mut CPU) -> (r: Option<u8>)
    requires
        old(cpu).wf(),
    ensures
        outcome(jr_e_spec(opcode, pc, old(cpu).machine()), *old(cpu), *final(cpu), r),
{
    match cpu.following(pc) {
        Some(value) => {
            let target = add_signed(pc, value);
            cpu.registers.set_pc(target.wrapping_add(2));
            Some(12)
        },
        None => None,
    }
}

/// JR cc, e (`00 1cc 000`, `e`).
pub open spec fn jr_cc_e_spec(opcode: u8, pc: u16, s: MachineView) -> Option<(MachineView, u8)> {
    let r = s.registers;
    match s.following(pc) {
        Some(e) => if r.check_condition(condition(opcode)) {
            done(s, r.with_pc(add_signed_spec(pc, e).wrapping_add(2)), 12)
        } else {
            done(s, r.advance_pc(2), 8)
        },
        None => None,
    }
}

fn jr_cc_e(opcode: u8, pc: u16, cpu: &mut CPU) -> (r: Option<u8>)
    requires
        old(cpu).wf(),
    ensures
        outcome(jr_cc_e_spec(opcode, pc, old(cpu).machine()), *old(cpu), *final(cpu), r),
{
    let condition = Condition::new((opcode / 8) % 4);
    let value = match cpu.following(pc) {
        Some(value) => value,
        None => return None,
    };
    if cpu.registers.check_condition(condition) {
        let target = add_signed(pc, value);
        cpu.registers.set_pc(target.wrapping_add(2));
        Some(12)
    } else {
        cpu.registers.inc_pc(2);
        Some(8)
    }
}

/// JP (HL) (`11 101 001`).
pub open spec fn jp_mhl_spec(opcode: u8, pc: u16, s: MachineView) -> Option<(MachineView, u8)> {
    done(s, s.registers.with_pc(s.registers.hl()), 4)
}

fn jp_mhl(opcode: u8, pc: u16, cpu: &mut CPU) -> (r: Option<u8>)
    requires
        old(cpu).wf(),
    ensures
        outcome(jp_mhl_spec(opcode, pc, old(cpu).machine()), *old(cpu), *final(cpu), r),
{
    let address = cpu.registers.hl();
    cpu.registers.set_pc(address);
    Some(4)
}

/// The call to `address`: the return address `pc + 3` pushed below SP,
/// SP down by two.
pub open spec fn call_spec(s: MachineView, pc: u16, address: u16) -> Option<(MachineView, u8)> {
    let r = s.registers;
    match s.push(pc.wrapping_add(3), r.sp) {
        Some(s2) => done(s2, r.with_sp((r.sp - 2) as u16).with_pc(address), 24),
        None => None,
    }
}

fn call(pc: u16, address: u16, cpu: &mut CPU) -> (r: Option<u8>)
    requires
        old(cpu).wf(),
    ensures
        outcome(call_spec(old(cpu).machine(), pc, address), *old(cpu), *final(cpu), r),
{
    let sp = cpu.registers.sp();
    if !cpu.push(pc.wrapping_add(3), sp) {
        return None;
    }
    cpu.registers.set_sp(sp - 2);
    cpu.registers.set_pc(address);
    Some(24)
}

/// CALL nn (`11 001 101`, low byte, high byte).
pub open spec fn call_nn_spec(opcode: u8, pc: u16, s: MachineView) -> Option<(MachineView, u8)> {
    match s.following_u16(pc) {
        Some(address) => call_spec(s, pc, address),
        None => None,
    }
}

fn call_nn(opcode: u8, pc: u16, cpu: &mut CPU) -> (r: Option<u8>)
    requires
        old(cpu).wf(),
    ensures
        outcome(call_nn_spec(opcode, pc, old(cpu).machine()), *old(cpu), *final(cpu), r),
{
    match cpu.following_u16(pc) {
        Some(address) => call(pc, address, cpu),
        None => None,
    }
}

/// CALL cc, nn (`11 0cc 100`, low byte, high byte).
pub open spec fn call_c_nn_spec(opcode: u8, pc: u16, s: MachineView) -> Option<(MachineView, u8)> {
    let r = s.registers;
    match s.following_u16(pc) {
        Some(address) => if r.check_condition(condition(opcode)) {
            call_spec(s, pc, address)
        } else {
            done(s, r.advance_pc(3), 12)
        },
        None => None,
    }
}

fn call_c_nn(opcode: u8, pc: u16, cpu: &mut CPU) -> (r: Option<u8>)
    requires
        old(cpu).wf(),
    ensures
        outcome(call_c_nn_spec(opcode, pc, old(cpu).machine()), *old(cpu), *final(cpu), r),
{
    let condition = Condition::new((opcode / 8) % 4);
    let address = match cpu.following_u16(pc) {
        Some(address) => address,
        None => return None,
    };
    if cpu.registers.check_condition(condition) {
        call(pc, address, cpu)
    } else {
        cpu.registers.inc_pc(3);
        Some(12)
    }
}

/// RET (`11 001 001`): the address at SP, SP up by two; past `0xFFFF` the
/// emulator stops.
pub open spec fn ret_spec(opcode: u8, pc: u16, s: MachineView) -> Option<(MachineView, u8)> {
    let r = s.registers;
    match s.pop(r.sp) {
        Some(address) => if r.sp >= 0xFFFE { None } else { done(s, r.with_sp((r.sp + 2) as u16).with_pc(address), 16) },
        None => None,
    }
}

fn ret(opcode: u8, pc: u16, cpu: &mut CPU) -> (r: Option<u8>)
    requires
        old(cpu).wf(),
    ensures
        outcome(ret_spec(opcode, pc, old(cpu).machine()), *old(cpu), *final(cpu), r),
{
    let sp = cpu.registers.sp();
    let address = match cpu.pop(sp) {
        Some(address) => address,
        None => return None,
    };
    if sp >= 0xFFFE {
        return None;
    }
    cpu.registers.set_sp(sp + 2);
    cpu.registers.set_pc(address);
    Some(16)
}

/// RETI (`11 011 001`): RET, and interrupts enabled.
pub open spec fn reti_spec(opcode: u8, pc: u16, s: MachineView) -> Option<(MachineView, u8)> {
    match ret_spec(opcode, pc, s) {
        Some((s2, cycles)) => Some((MachineView { interrupt: InterruptController { master_enable: true, ..s2.interrupt }, ..s2 }, cycles)),
        None => None,
    }
}

fn reti(opcode: u8, pc: u16, cpu: &mut CPU) -> (r: Option<u8>)
    requires
        old(cpu).wf(),
    ensures
        outcome(reti_spec(opcode, pc, old(cpu).machine()), *old(cpu), *final(cpu), r),
{
    let r = ret(opcode, pc, cpu);
    if r.is_none() {
        return None;
    }
    cpu.interrupt.master_enable = true;
    r
}

/// RET cc (`11 0cc 000`): SP goes up by two, wrapping.
pub open spec fn ret_c_spec(opcode: u8, pc: u16, s: MachineView) -> Option<(MachineView, u8)> {
    let r = s.registers;
    if r.check_condition(condition(opcode)) {
        match s.pop(r.sp) {
            Some(address) => done(s, r.with_sp(r.sp.wrapping_add(2)).with_pc(address), 20),
            None => None,
        }
    } else {
        done(s, r.advance_pc(1), 8)
    }
}

fn ret_c(opcode: u8, pc: u16, cpu: &mut CPU) -> (r: Option<u8>)
    requires
        old(cpu).wf(),
    ensures
        outcome(ret_c_spec(opcode, pc, old(cpu).machine()), *old(cpu), *final(cpu), r),
{
    let sp = cpu.registers.sp();
    let condition = Condition::new((opcode / 8) % 4);
    if cpu.registers.check_condition(condition) {
        let address = match cpu.pop(sp) {
            Some(address) => address,
            None => return None,
        };
        cpu.registers.set_sp(sp.wrapping_add(2));
        cpu.registers.set_pc(address);
        Some(20)
    } else {
        cpu.registers.inc_pc(1);
        Some(8)
    }
}

/// RST t (`11 ttt 111`): a call to `8 * t` with return address `pc + 1`.
pub open spec fn rst_t_spec(opcode: u8, pc: u16, s: MachineView) -> Option<(MachineView, u8)> {
    let r = s.registers;
    match s.push(pc.wrapping_add(1), r.sp) {
        Some(s2) => done(s2, r.with_sp(r.sp.wrapping_sub(2)).with_pc((((opcode / 8) % 8) * 8) as u16), 16),
        None => None,
    }
}

fn rst_t(opcode: u8, pc: u16, cpu: &mut CPU) -> (r: Option<u8>)
    requires
        old(cpu).wf(),
    ensures
        outcome(rst_t_spec(opcode, pc, old(cpu).machine()), *old(cpu), *final(cpu), r),
{
    let operand = (opcode / 8) % 8;
    let address: u16 = match operand {
        0 => 0x0000,
        1 => 0x0008,
        2 => 0x0010,
        3 => 0x0018,
        4 => 0x0020,
        5 => 0x0028,
        6 => 0x0030,
        _ => 0x0038,
    };
    let sp = cpu.registers.sp();
    if !cpu.push(pc.wrapping_add(1), sp) {
        return None;
    }
    cpu.registers.set_sp(sp.wrapping_sub(2));
    cpu.registers.set_pc(address);
    Some(16)
}

// ------------------------------------------------------------------------
// General-purpose arithmetic and processor control instructions
// ------------------------------------------------------------------------

/// DAA (`00 100 111`): A adjusted to binary-coded decimal after an addition
/// (N clear) or a subtraction (N set).
pub open spec fn daa_spec(opcode: u8, pc: u16, s: MachineView) -> Option<(MachineView, u8)> {
    let r = s.registers;
    let n = r.flag_n();
    let h = r.flag_h();
    let a = r.a;
    let (a1, cy) = if n == 0 && (r.flag_cy() == 1 || a > 0x99) {
        (a.wrapping_add(0x60), 1u8)
    } else if n != 0 && r.flag_cy() == 1 {
        (a.wrapping_sub(0x60), 1u8)
    } else {
        (a, r.flag_cy())
    };
    let a2 = if n == 0 && (h == 1 || a1 % 16 > 9) {
        a1.wrapping_add(6)
    } else if n != 0 && h == 1 {
        a1.wrapping_sub(6)
    } else {
        a1
    };
    done(s, r.with_flags(zero_bit(a2), n, 0, cy).write_r(RegisterR::A, a2).advance_pc(1), 4)
}

fn daa(opcode: u8, pc: u16, cpu: &mut CPU) -> (r: Option<u8>)
    requires
        old(cpu).wf(),
    ensures
        outcome(daa_spec(opcode, pc, old(cpu).machine()), *old(cpu), *final(cpu), r),
{
    let flag_n = cpu.registers.flag_n();
    let mut flag_cy = cpu.registers.flag_cy();
    let flag_h = cpu.registers.flag_h();
    let mut register_a = cpu.registers.a();
    proof { lemma_byte_bits(register_a); }
    if flag_n == 0 {
        if flag_cy == 1 || register_a > 0x99 {
            register_a = register_a.wrapping_add(0x60);
            flag_cy = 1;
        }
        proof { lemma_byte_bits(register_a); }
        if flag_h == 1 || (register_a & 0x0f) > 0x09 {
            register_a = register_a.wrapping_add(0x6);
        }
    } else {
        if flag_cy == 1 {
            register_a = register_a.wrapping_sub(0x60);
        }
        if flag_h == 1 {
            register_a = register_a.wrapping_sub(0x6);
        }
    }
    let flag_z = if register_a == 0 { 1 } else { 0 };
    cpu.registers.set_flags(flag_z, flag_n, 0, flag_cy);
    cpu.registers.set_a(register_a);
    cpu.registers.inc_pc(1);
    Some(4)
}

/// CPL (`00 101 111`): A complemented, subtraction and half carry set.
pub open spec fn cpl_spec(opcode: u8, pc: u16, s: MachineView) -> Option<(MachineView, u8)> {
    let r = s.registers;
    done(s, r.with_f(with_bit(with_bit(r.f, 5, 1), 6, 1)).write_r(RegisterR::A, !r.a).advance_pc(1), 4)
}

fn cpl(opcode: u8, pc: u16, cpu: &mut CPU) -> (r: Option<u8>)
    requires
        old(cpu).wf(),
    ensures
        outcome(cpl_spec(opcode, pc, old(cpu).machine()), *old(cpu), *final(cpu), r),
{
    let value = cpu.registers.read_r(RegisterR::A);
    let result = !value;
    let mut flags = cpu.registers.f();
    flags = bit_op::set_bit(flags, 5);
    flags = bit_op::set_bit(flags, 6);
    cpu.registers.set_f(flags);
    cpu.registers.write_r(RegisterR::A, result);
    cpu.registers.inc_pc(1);
    Some(4)
}

/// SCF (`00 110 111`): carry set, subtraction and half carry cleared.
pub open spec fn scf_spec(opcode: u8, pc: u16, s: MachineView) -> Option<(MachineView, u8)> {
    let r = s.registers;
    done(s, r.with_f(with_bit(with_bit(with_bit(r.f, 4, 1), 5, 0), 6, 0)).advance_pc(1), 4)
}

fn scf(opcode: u8, pc: u16, cpu: &mut CPU) -> (r: Option<u8>)
    requires
        old(cpu).wf(),
    ensures
        outcome(scf_spec(opcode, pc, old(cpu).machine()), *old(cpu), *final(cpu), r),
{
    let mut flags = cpu.registers.f();
    flags = bit_op::set_bit(flags, 4);
    flags = bit_op::clear_bit(flags, 5);
    flags = bit_op::clear_bit(flags, 6);
    cpu.registers.set_f(flags);
    cpu.registers.inc_pc(1);
    Some(4)
}

/// CCF (`00 111 111`): carry flipped, subtraction and half carry cleared.
pub open spec fn ccf_spec(opcode: u8, pc: u16, s: MachineView) -> Option<(MachineView, u8)> {
    let r = s.registers;
    done(s, r.with_f(with_bit(with_bit(r.f ^ bit_mask(4), 5, 0), 6, 0)).advance_pc(1), 4)
}

fn ccf(opcode: u8, pc: u16, cpu: &mut CPU) -> (r: Option<u8>)
    requires
        old(cpu).wf(),
    ensures
        outcome(ccf_spec(opcode, pc, old(cpu).machine()), *old(cpu), *final(cpu), r),
{
    let mut flags = cpu.registers.f();
    flags = bit_op::toggle_bit(flags, 4);
    flags = bit_op::clear_bit(flags, 5);
    flags = bit_op::clear_bit(flags, 6);
    cpu.registers.set_f(flags);
    cpu.registers.inc_pc(1);
    Some(4)
}

/// NOP (`00 000 000`) and HALT (`01 110 110`): one byte, 4 cycles.
pub open spec fn nop_spec(opcode: u8, pc: u16, s: MachineView) -> Option<(MachineView, u8)> {
    done(s, s.registers.advance_pc(1), 4)
}

fn nop(opcode: u8, pc: u16, cpu: &mut CPU) -> (r: Option<u8>)
    requires
        old(cpu).wf(),
    ensures
        outcome(nop_spec(opcode, pc, old(cpu).machine()), *old(cpu), *final(cpu), r),
{
    cpu.registers.inc_pc(1);
    Some(4)
}

/// EI (`11 111 011`) and DI (`11 110 011`): interrupts enabled or disabled.
pub open spec fn set_ime_spec(enable: bool, s: MachineView) -> Option<(MachineView, u8)> {
    Some((
        MachineView {
            interrupt: InterruptController { master_enable: enable, ..s.interrupt },
            registers: s.registers.advance_pc(1),
            ..s
        },
        4,
    ))
}

fn set_ime(enable: bool, cpu: &mut CPU) -> (r: Option<u8>)
    requires
        old(cpu).wf(),
    ensures
        outcome(set_ime_spec(enable, old(cpu).machine()), *old(cpu), *final(cpu), r),
{
    cpu.interrupt.master_enable = enable;
    cpu.registers.inc_pc(1);
    Some(4)
}

// ------------------------------------------------------------------------
// Running an instruction
// ------------------------------------------------------------------------

/// What `instruction` does, with `opcode` the byte that named it and `pc`
/// the address of the instruction.
pub open spec fn instruction_spec(instruction: Instruction, opcode: u8, pc: u16, s: MachineView) -> Option<(MachineView, u8)> {
    match instruction {
        Instruction::Nop => nop_spec(opcode, pc, s),
        Instruction::Halt => nop_spec(opcode, pc, s),
        Instruction::Stop => None,
        Instruction::Unsupported => None,
        Instruction::Extended => None,
        Instruction::LdRR => ld_r_r_spec(opcode, pc, s),
        Instruction::LdRN => ld_r_n_spec(opcode, pc, s),
        Instruction::LdRMhl => ld_r_mhl_spec(opcode, pc, s),
        Instruction::LdMhlR => ld_mhl_r_spec(opcode, pc, s),
        Instruction::LdMhlN => ld_mhl_n_spec(opcode, pc, s),
        Instruction::LdAMbc => ld_a_mbc_spec(opcode, pc, s),
        Instruction::LdAMde => ld_a_mde_spec(opcode, pc, s),
        Instruction::LdAMc => ld_a_mc_spec(opcode, pc, s),
        Instruction::LdMcA => ld_mc_a_spec(opcode, pc, s),
        Instruction::LdAMn => ld_a_mn_spec(opcode, pc, s),
        Instruction::LdMnA => ld_mn_a_spec(opcode, pc, s),
        Instruction::LdAMnn => ld_a_mnn_spec(opcode, pc, s),
        Instruction::LdMnnA => ld_mnn_a_spec(opcode, pc, s),
        Instruction::LdAMhli => ld_a_mhli_spec(opcode, pc, s),
        Instruction::LdAMhld => ld_a_mhld_spec(opcode, pc, s),
        Instruction::LdMbcA => ld_mbc_a_spec(opcode, pc, s),
        Instruction::LdMdeA => ld_mde_a_spec(opcode, pc, s),
        Instruction::LdMhliA => ld_mhli_a_spec(opcode, pc, s),
        Instruction::LdMhldA => ld_mhld_a_spec(opcode, pc, s),
        Instruction::LdDdNn => ld_dd_nn_spec(opcode, pc, s),
        Instruction::LdSpHl => ld_sp_hl_spec(opcode, pc, s),
        Instruction::PushQq => push_qq_spec(opcode, pc, s),
        Instruction::PopQq => pop_qq_spec(opcode, pc, s),
        Instruction::LdhlSpE => ldhl_sp_e_spec(opcode, pc, s),
        Instruction::LdMnnSp => ld_mnn_sp_spec(opcode, pc, s),
        Instruction::AddAR | Instruction::AdcAR | Instruction::SubAR | Instruction::SbcAR
        | Instruction::AndR | Instruction::XorR | Instruction::OrR | Instruction::CpR
            => alu_r_spec((opcode / 8) % 8, opcode, pc, s),
        Instruction::AddAN | Instruction::AdcAN | Instruction::SubAN | Instruction::SbcAN
        | Instruction::AndN | Instruction::XorN | Instruction::OrN | Instruction::CpN
            => alu_n_spec((opcode / 8) % 8, opcode, pc, s),
        Instruction::AddAMhl | Instruction::AdcAMhl | Instruction::SubAMhl | Instruction::SbcAMhl
        | Instruction::AndMhl | Instruction::XorMhl | Instruction::OrMhl | Instruction::CpMhl
            => alu_mhl_spec((opcode / 8) % 8, opcode, pc, s),
        Instruction::IncR => inc_r_spec(opcode, pc, s),
        Instruction::IncMhl => inc_mhl_spec(opcode, pc, s),
        Instruction::DecR => dec_r_spec(opcode, pc, s),
        Instruction::DecMhl => dec_mhl_spec(opcode, pc, s),
        Instruction::AddHlSs => add_hl_ss_spec(opcode, pc, s),
        Instruction::AddSpE => add_sp_e_spec(opcode, pc, s),
        Instruction::IncSs => inc_ss_spec(opcode, pc, s),
        Instruction::DecSs => dec_ss_spec(opcode, pc, s),
        Instruction::Rlca => rotate_a_spec(0, s),
        Instruction::Rrca => rotate_a_spec(1, s),
        Instruction::Rla => rotate_a_spec(2, s),
        Instruction::Rra => rotate_a_spec(3, s),
        Instruction::RlcR | Instruction::RrcR | Instruction::RlR | Instruction::RrR
        | Instruction::SlaR | Instruction::SraR | Instruction::SrlR => shift_r_spec(opcode, pc, s),
        Instruction::RlcMhl | Instruction::RrcMhl | Instruction::RlMhl | Instruction::RrMhl
        | Instruction::SlaMhl | Instruction::SraMhl | Instruction::SrlMhl => shift_mhl_spec(opcode, pc, s),
        Instruction::SwapR => swap_r_spec(opcode, pc, s),
        Instruction::SwapMhl => swap_mhl_spec(opcode, pc, s),
        Instruction::BitBR => bit_b_r_spec(opcode, pc, s),
        Instruction::BitBMhl => bit_b_mhl_spec(opcode, pc, s),
        Instruction::SetBR | Instruction::ResBR => set_res_r_spec(opcode, pc, s),
        Instruction::SetBMhl | Instruction::ResBMhl => set_res_mhl_spec(opcode, pc, s),
        Instruction::JpNn => jp_nn_spec(opcode, pc, s),
        Instruction::JpCcNn => jp_cc_nn_spec(opcode, pc, s),
        Instruction::JrE => jr_e_spec(opcode, pc, s),
        Instruction::JrCcE => jr_cc_e_spec(opcode, pc, s),
        Instruction::JpMhl => jp_mhl_spec(opcode, pc, s),
        Instruction::CallNn => call_nn_spec(opcode, pc, s),
        Instruction::CallCNn => call_c_nn_spec(opcode, pc, s),
        Instruction::Ret => ret_spec(opcode, pc, s),
        Instruction::Reti => reti_spec(opcode, pc, s),
        Instruction::RetC => ret_c_spec(opcode, pc, s),
        Instruction::RstT => rst_t_spec(opcode, pc, s),
        Instruction::Daa => daa_spec(opcode, pc, s),
        Instruction::Cpl => cpl_spec(opcode, pc, s),
        Instruction::Scf => scf_spec(opcode, pc, s),
        Instruction::Ccf => ccf_spec(opcode, pc, s),
        Instruction::Ei => set_ime_spec(true, s),
        Instruction::Di => set_ime_spec(false, s),
    }
}

/// What running `opcode` at `pc` does: the prefix `0xCB` takes the next
/// byte as the opcode of the extended table.
#[verifier::opaque]
pub open spec fn exec_spec(opcode: u8, pc: u16, s: MachineView) -> Option<(MachineView, u8)> {
    if decode(opcode) == Instruction::Extended {
        match s.following(pc) {
            Some(extended) => instruction_spec(decode_extended(extended), extended, pc, s),
            None => None,
        }
    } else {
        instruction_spec(decode(opcode), opcode, pc, s)
    }
}

fn run(instruction: Instruction, opcode: u8, pc: u16, cpu: &mut CPU) -> (r: Option<u8>)
    requires
        old(cpu).wf(),
        (instruction == decode(opcode) && instruction != Instruction::Extended) || instruction == decode_extended(opcode),
    ensures
        outcome(instruction_spec(instruction, opcode, pc, old(cpu).machine()), *old(cpu), *final(cpu), r),
{
    match instruction {
        Instruction::Nop | Instruction::Halt => nop(opcode, pc, cpu),
        Instruction::Stop | Instruction::Unsupported | Instruction::Extended => None,
        Instruction::LdRR => ld_r_r(opcode, pc, cpu),
        Instruction::LdRN => ld_r_n(opcode, pc, cpu),
        Instruction::LdRMhl => ld_r_mhl(opcode, pc, cpu),
        Instruction::LdMhlR => ld_mhl_r(opcode, pc, cpu),
        Instruction::LdMhlN => ld_mhl_n(opcode, pc, cpu),
        Instruction::LdAMbc => ld_a_mbc(opcode, pc, cpu),
        Instruction::LdAMde => ld_a_mde(opcode, pc, cpu),
        Instruction::LdAMc => ld_a_mc(opcode, pc, cpu),
        Instruction::LdMcA => ld_mc_a(opcode, pc, cpu),
        Instruction::LdAMn => ld_a_mn(opcode, pc, cpu),
        Instruction::LdMnA => ld_mn_a(opcode, pc, cpu),
        Instruction::LdAMnn => ld_a_mnn(opcode, pc, cpu),
        Instruction::LdMnnA => ld_mnn_a(opcode, pc, cpu),
        Instruction::LdAMhli => ld_a_mhli(opcode, pc, cpu),
        Instruction::LdAMhld => ld_a_mhld(opcode, pc, cpu),
        Instruction::LdMbcA => ld_mbc_a(opcode, pc, cpu),
        Instruction::LdMdeA => ld_mde_a(opcode, pc, cpu),
        Instruction::LdMhliA => ld_mhli_a(opcode, pc, cpu),
        Instruction::LdMhldA => ld_mhld_a(opcode, pc, cpu),
        Instruction::LdDdNn => ld_dd_nn(opcode, pc, cpu),
        Instruction::LdSpHl => ld_sp_hl(opcode, pc, cpu),
        Instruction::PushQq => push_qq(opcode, pc, cpu),
        Instruction::PopQq => pop_qq(opcode, pc, cpu),
        Instruction::LdhlSpE => ldhl_sp_e(opcode, pc, cpu),
        Instruction::LdMnnSp => ld_mnn_sp(opcode, pc, cpu),
        Instruction::AddAR | Instruction::AdcAR | Instruction::SubAR | Instruction::SbcAR
        | Instruction::AndR | Instruction::XorR | Instruction::OrR | Instruction::CpR => alu_r(opcode, cpu),
        Instruction::AddAN | Instruction::AdcAN | Instruction::SubAN | Instruction::SbcAN
        | Instruction::AndN | Instruction::XorN | Instruction::OrN | Instruction::CpN => alu_n(opcode, cpu),
        Instruction::AddAMhl | Instruction::AdcAMhl | Instruction::SubAMhl | Instruction::SbcAMhl
        | Instruction::AndMhl | Instruction::XorMhl | Instruction::OrMhl | Instruction::CpMhl => alu_mhl(opcode, cpu),
        Instruction::IncR => inc_r(opcode, pc, cpu),
        Instruction::IncMhl => inc_mhl(opcode, pc, cpu),
        Instruction::DecR => dec_r(opcode, pc, cpu),
        Instruction::DecMhl => dec_mhl(opcode, pc, cpu),
        Instruction::AddHlSs => add_hl_ss(opcode, pc, cpu),
        Instruction::AddSpE => add_sp_e(opcode, pc, cpu),
        Instruction::IncSs => inc_ss(opcode, pc, cpu),
        Instruction::DecSs => dec_ss(opcode, pc, cpu),
        Instruction::Rlca => rotate_a(0, cpu),
        Instruction::Rrca => rotate_a(1, cpu),
        Instruction::Rla => rotate_a(2, cpu),
        Instruction::Rra => rotate_a(3, cpu),
        Instruction::RlcR | Instruction::RrcR | Instruction::RlR | Instruction::RrR
        | Instruction::SlaR | Instruction::SraR | Instruction::SrlR => shift_r(opcode, pc, cpu),
        Instruction::RlcMhl | Instruction::RrcMhl | Instruction::RlMhl | Instruction::RrMhl
        | Instruction::SlaMhl | Instruction::SraMhl | Instruction::SrlMhl => shift_mhl(opcode, pc, cpu),
        Instruction::SwapR => swap_r(opcode, pc, cpu),
        Instruction::SwapMhl => swap_mhl(opcode, pc, cpu),
        Instruction::BitBR => bit_b_r(opcode, pc, cpu),
        Instruction::BitBMhl => bit_b_mhl(opcode, pc, cpu),
        Instruction::SetBR | Instruction::ResBR => set_res_r(opcode, pc, cpu),
        Instruction::SetBMhl | Instruction::ResBMhl => set_res_mhl(opcode, pc, cpu),
        Instruction::JpNn => jp_nn(opcode, pc, cpu),
        Instruction::JpCcNn => jp_cc_nn(opcode, pc, cpu),
        Instruction::JrE => jr_e(opcode, pc, cpu),
        Instruction::JrCcE => jr_cc_e(opcode, pc, cpu),
        Instruction::JpMhl => jp_mhl(opcode, pc, cpu),
        Instruction::CallNn => call_nn(opcode, pc, cpu),
        Instruction::CallCNn => call_c_nn(opcode, pc, cpu),
        Instruction::Ret => ret(opcode, pc, cpu),
        Instruction::Reti => reti(opcode, pc, cpu),
        Instruction::RetC => ret_c(opcode, pc, cpu),
        Instruction::RstT => rst_t(opcode, pc, cpu),
        Instruction::Daa => daa(opcode, pc, cpu),
        Instruction::Cpl => cpl(opcode, pc, cpu),
        Instruction::Scf => scf(opcode, pc, cpu),
        Instruction::Ccf => ccf(opcode, pc, cpu),
        Instruction::Ei => set_ime(true, cpu),
        Instruction::Di => set_ime(false, cpu),
    }
}

/// Runs the instruction `opcode` at `pc` and returns its cycles, or `None`
/// where the instruction stops the emulator.
pub fn try_execute(opcode: u8, pc: u16, cpu: &mut CPU) -> (r: Option<u8>)
    requires
        old(cpu).wf(),
    ensures
        outcome(exec_spec(opcode, pc, old(cpu).machine()), *old(cpu), *final(cpu), r),
{
    reveal(exec_spec);
    let instruction = instruction(opcode);
    if instruction == Instruction::Extended {
        match cpu.following(pc) {
            Some(extended) => run(extended_instruction(extended), extended, pc, cpu),
            None => None,
        }
    } else {
        run(instruction, opcode, pc, cpu)
    }
}

/// Runs the instruction `opcode` at `pc` and returns the cycles it takes.
pub fn execute(opcode: u8, pc: u16, cpu: &mut CPU) -> (r: u8)
    requires
        old(cpu).wf(),
        exec_spec(opcode, pc, old(cpu).machine()) is Some,
    ensures
        final(cpu).wf(),
        final(cpu).cpu_wait_cycles == old(cpu).cpu_wait_cycles,
        exec_spec(opcode, pc, old(cpu).machine()) == Some((final(cpu).machine(), r)),
{
    try_execute(opcode, pc, cpu).unwrap()
}

// ------------------------------------------------------------------------
// Laws of the instruction set
// ------------------------------------------------------------------------

/// The opcodes that no instruction has stop the emulator, whatever the state.
pub proof fn law_unsupported_opcodes_stop(opcode: u8, pc: u16, s: MachineView)
    requires
        opcode == 0xD3 || opcode == 0xDB || opcode == 0xDD || opcode == 0xE3 || opcode == 0xE4
            || opcode == 0xEB || opcode == 0xEC || opcode == 0xED || opcode == 0xF4 || opcode == 0xFC
            || opcode == 0xFD || opcode == 0x10,
    ensures
        exec_spec(opcode, pc, s) is None,
{
    reveal(exec_spec);
}

/// POP qq after PUSH qq (with the stack in RAM) gives the register pair and
/// the stack pointer back.
pub proof fn law_push_then_pop(push: u8, s: MachineView)
    requires
        push == 0xC5 || push == 0xD5 || push == 0xE5 || push == 0xF5,
        s.bus.wf(),
        crate::processor::cpu::stack_in_ram(s.bus, s.registers.sp),
    ensures
        ({
            let register = RegisterQQ::from_code((push / 16) % 4);
            let pushed = push_qq_spec(push, 0, s);
            let (s2, _) = pushed->0;
            let popped = pop_qq_spec((push - 4) as u8, 0, s2);
            let (s3, _) = popped->0;
            &&& pushed is Some
            &&& popped is Some
            &&& s3.registers.read_qq(register) == s.registers.read_qq(register)
            &&& s3.registers.sp == s.registers.sp
        }),
{
    let r = s.registers;
    let register = RegisterQQ::from_code((push / 16) % 4);
    crate::processor::cpu::law_push_pop(s, r.read_qq(register), r.sp);
    let s2 = s.push(r.read_qq(register), r.sp)->0;
    let r2 = r.with_sp((r.sp - 2) as u16).advance_pc(1);
    crate::processor::registers::law_pair_roundtrip(r2, r.read_qq(register));
}

/// CP compares without changing A: the zero flag is set exactly when A
/// equals the operand, the carry exactly when A is below it.
pub proof fn law_compare_keeps_a(r: RegsView, value: u8)
    ensures
        alu(7, r, value).a == r.a,
        alu(7, r, value).flag_z() == (if r.a == value { 1u8 } else { 0u8 }),
        alu(7, r, value).flag_cy() == (if r.a < value { 1u8 } else { 0u8 }),
        alu(7, r, value).flag_n() == 1,
{
}

/// INC and DEC on a register keep the carry flag, and the result wraps.
pub proof fn law_inc_dec_keep_carry(r: RegsView, value: u8)
    ensures
        r.flags_after_add(value, 1, 0, inc_calculations()).flag_cy() == r.flag_cy(),
        r.flags_after_sub(value, 1, 0, dec_calculations()).flag_cy() == r.flag_cy(),
        r.flags_after_add(value, 1, 0, inc_calculations()).flag_z() == (if value == 255 { 1u8 } else { 0u8 }),
        r.flags_after_sub(value, 1, 0, dec_calculations()).flag_z() == (if value == 1 { 1u8 } else { 0u8 }),
{
}

/// A byte of two binary-coded decimal digits.
pub open spec fn is_bcd(x: u8) -> bool {
    x / 16 <= 9 && x % 16 <= 9
}

/// The number, 0 to 99, that a byte of two decimal digits stands for.
pub open spec fn bcd_value(x: u8) -> int {
    (x / 16) as int * 10 + (x % 16) as int
}

/// The byte of two decimal digits for a number 0 to 99.
pub open spec fn bcd_byte(n: int) -> u8 {
    ((n / 10) * 16 + n % 10) as u8
}

/// DAA after a subtraction of two decimal bytes gives their decimal
/// difference, modulo 100, with the carry as the borrow: A holds `x - y`
/// (wrapping), N is set, H holds the borrow out of the low digit and CY
/// the borrow out of the byte, as SUB leaves them.
pub proof fn law_daa_after_subtraction(x: u8, y: u8, pc: u16, s: MachineView)
    requires
        is_bcd(x),
        is_bcd(y),
        s.registers.a as int == (if x >= y { x - y } else { x - y + 256 }),
        s.registers.flag_n() == 1,
        s.registers.flag_h() == (if x % 16 < y % 16 { 1u8 } else { 0u8 }),
        s.registers.flag_cy() == (if x < y { 1u8 } else { 0u8 }),
    ensures
        ({
            let (after, cycles) = daa_spec(0x27, pc, s)->0;
            &&& daa_spec(0x27, pc, s) is Some
            &&& after.registers.a == bcd_byte((bcd_value(x) - bcd_value(y) + 100) % 100)
            &&& after.registers.flag_cy() == (if bcd_value(x) < bcd_value(y) { 1u8 } else { 0u8 })
            &&& after.registers.flag_z() == (if bcd_value(x) == bcd_value(y) { 1u8 } else { 0u8 })
            &&& after.registers.flag_n() == 1
        }),
{
    let r = s.registers;
    let a = r.a;
    let a1: u8 = if r.flag_cy() == 1 { a.wrapping_sub(0x60) } else { a };
    let a2: u8 = if r.flag_h() == 1 { a1.wrapping_sub(6) } else { a1 };
    lemma_daa_sub_digits(x, y, a, a1, a2);
    let cy = r.flag_cy();
    assert(r.flag_cy() <= 1);
    crate::processor::registers::law_flags_roundtrip(r, zero_bit(a2), 1, 0, cy);
}

/// The digit arithmetic of DAA after a subtraction.
proof fn lemma_daa_sub_digits(x: u8, y: u8, a: u8, a1: u8, a2: u8)
    requires
        is_bcd(x),
        is_bcd(y),
        a as int == (if x >= y { x - y } else { x - y + 256 }),
        a1 == (if x < y { a.wrapping_sub(0x60) } else { a }),
        a2 == (if x % 16 < y % 16 { a1.wrapping_sub(6) } else { a1 }),
    ensures
        a2 == bcd_byte((bcd_value(x) - bcd_value(y) + 100) % 100),
        (x < y) == (bcd_value(x) < bcd_value(y)),
        (a2 == 0) == (bcd_value(x) == bcd_value(y)),
{
    let xh = (x / 16) as int;
    let xl = (x % 16) as int;
    let yh = (y / 16) as int;
    let yl = (y % 16) as int;
    lemma_digits(x);
    lemma_digits(y);
    // The two digits of the result and the decimal difference they stand for.
    let (hi, lo): (int, int) = if xl >= yl {
        if xh >= yh { (xh - yh, xl - yl) } else { (10 + xh - yh, xl - yl) }
    } else {
        if xh > yh { (xh - yh - 1, 10 + xl - yl) } else { (9 + xh - yh, 10 + xl - yl) }
    };
    assert(a2 as int == hi * 16 + lo);
    assert((bcd_value(x) - bcd_value(y) + 100) % 100 == hi * 10 + lo) by {
        vstd::arithmetic::div_mod::lemma_fundamental_div_mod_converse(
            bcd_value(x) - bcd_value(y) + 100, 100, if xh * 10 + xl >= yh * 10 + yl { 1 } else { 0 }, hi * 10 + lo);
    }
    vstd::arithmetic::div_mod::lemma_fundamental_div_mod_converse(hi * 10 + lo, 10, hi, lo);
}

/// The two hexadecimal digits of a byte.
proof fn lemma_digits(x: u8)
    ensures
        x as int == (x / 16) as int * 16 + (x % 16) as int,
        (x % 16) < 16,
{
}

/// DAA after an addition of two decimal bytes gives their decimal sum,
/// modulo 100, with the carry set exactly when the sum reaches 100: A holds
/// `x + y` (wrapping), N is clear, H holds the carry out of the low digit
/// and CY the carry out of the byte, as ADD leaves them.
pub proof fn law_daa_after_addition(x: u8, y: u8, pc: u16, s: MachineView)
    requires
        is_bcd(x),
        is_bcd(y),
        s.registers.a as int == (x + y) % 256,
        s.registers.flag_n() == 0,
        s.registers.flag_h() == (if x % 16 + y % 16 > 15 { 1u8 } else { 0u8 }),
        s.registers.flag_cy() == (if x + y > 255 { 1u8 } else { 0u8 }),
    ensures
        ({
            let (after, cycles) = daa_spec(0x27, pc, s)->0;
            &&& daa_spec(0x27, pc, s) is Some
            &&& after.registers.a == bcd_byte((bcd_value(x) + bcd_value(y)) % 100)
            &&& after.registers.flag_cy() == (if bcd_value(x) + bcd_value(y) >= 100 { 1u8 } else { 0u8 })
            &&& after.registers.flag_n() == 0
        }),
{
    let r = s.registers;
    let a = r.a;
    let up = r.flag_cy() == 1 || a > 0x99;
    let a1: u8 = if up { a.wrapping_add(0x60) } else { a };
    let a2: u8 = if r.flag_h() == 1 || a1 % 16 > 9 { a1.wrapping_add(6) } else { a1 };
    lemma_daa_add_digits(x, y, a, up, a1, a2);
    let cy: u8 = if up { 1 } else { r.flag_cy() };
    assert(r.flag_cy() <= 1);
    crate::processor::registers::law_flags_roundtrip(r, zero_bit(a2), 0, 0, cy);
}

/// The digit arithmetic of DAA after an addition.
proof fn lemma_daa_add_digits(x: u8, y: u8, a: u8, up: bool, a1: u8, a2: u8)
    requires
        is_bcd(x),
        is_bcd(y),
        a as int == (x + y) % 256,
        up == (x + y > 255 || a > 0x99),
        a1 == (if up { a.wrapping_add(0x60) } else { a }),
        a2 == (if x % 16 + y % 16 > 15 || a1 % 16 > 9 { a1.wrapping_add(6) } else { a1 }),
    ensures
        a2 == bcd_byte((bcd_value(x) + bcd_value(y)) % 100),
        up == (bcd_value(x) + bcd_value(y) >= 100),
{
    let xh = (x / 16) as int;
    let xl = (x % 16) as int;
    let yh = (y / 16) as int;
    let yl = (y % 16) as int;
    lemma_digits(x);
    lemma_digits(y);
    let big = xh + yh;
    let low = xl + yl;
    // The sum in hexadecimal digits: `high` sixteens and `nib` units.
    let (high, nib): (int, int) = if low >= 16 { (big + 1, low - 16) } else { (big, low) };
    assert(x as int + y as int == high * 16 + nib);
    assert(a as int == if high >= 16 { (high - 16) * 16 + nib } else { high * 16 + nib });
    assert(up == (high >= 10 || (high == 9 && nib > 9)));
    // After the correction of the high digit.
    let h1: int = if up { if high + 6 >= 16 { high + 6 - 16 } else { high + 6 } } else { if high >= 16 { high - 16 } else { high } };
    assert(a1 as int == h1 * 16 + nib);
    vstd::arithmetic::div_mod::lemma_fundamental_div_mod_converse(a1 as int, 16, h1, nib);
    // The decimal digits of the result.
    let carry_low: int = if low >= 10 { 1 } else { 0 };
    let lo = low - 10 * carry_low;
    let dec_high = big + carry_low;
    let hi = if dec_high >= 10 { dec_high - 10 } else { dec_high };
    assert(up == (dec_high >= 10));
    assert(a2 as int == hi * 16 + lo);
    assert((bcd_value(x) + bcd_value(y)) % 100 == hi * 10 + lo) by {
        vstd::arithmetic::div_mod::lemma_fundamental_div_mod_converse(
            bcd_value(x) + bcd_value(y), 100, if dec_high >= 10 { 1 } else { 0 }, hi * 10 + lo);
    }
    vstd::arithmetic::div_mod::lemma_fundamental_div_mod_converse(hi * 10 + lo, 10, hi, lo);
}

/// An opcode without the `0xCB` prefix runs the instruction it decodes to.
proof fn lemma_exec_spec_unprefixed(opcode: u8, pc: u16, s: MachineView)
    requires
        decode(opcode) != Instruction::Extended,
    ensures
        exec_spec(opcode, pc, s) == instruction_spec(decode(opcode), opcode, pc, s),
{
    reveal(exec_spec);
}

/// ADD SP, e reads its operand as a signed byte: SP grows by `e` for `e`
/// below `0x80` and shrinks by `256 - e` otherwise, modulo 65536; PC moves
/// past the two bytes of the instruction and it takes 16 cycles.
pub proof fn law_add_sp_signed(pc: u16, s: MachineView)
    requires
        s.following(s.registers.pc) is Some,
    ensures
        ({
            let e = s.following(s.registers.pc)->0;
            let (after, cycles) = exec_spec(0xE8, pc, s)->0;
            &&& exec_spec(0xE8, pc, s) is Some
            &&& cycles == 16
            &&& e < 0x80 ==> after.registers.sp as int == if s.registers.sp as int + e as int <= 0xFFFF {
                s.registers.sp as int + e as int
            } else {
                s.registers.sp as int + e as int - 0x10000
            }
            &&& e >= 0x80 ==> after.registers.sp as int == if s.registers.sp as int >= 256 - e as int {
                s.registers.sp as int - (256 - e as int)
            } else {
                s.registers.sp as int + 0x10000 - (256 - e as int)
            }
            &&& after.registers.pc as int == (s.registers.pc as int + 2) % 65536
        }),
{
    lemma_decode_add_sp();
    lemma_exec_spec_unprefixed(0xE8, pc, s);
    lemma_add_sp_instruction(pc, s);
    let e = s.following(s.registers.pc)->0;
    let sp = s.registers.sp as int;
    let offset: int = if e < 128 { e as int } else { e as int - 256 };
    if sp + offset < 0 {
        vstd::arithmetic::div_mod::lemma_fundamental_div_mod_converse(sp + offset, 65536, -1, sp + offset + 65536);
    } else if sp + offset <= 0xFFFF {
        vstd::arithmetic::div_mod::lemma_fundamental_div_mod_converse(sp + offset, 65536, 0, sp + offset);
    } else {
        vstd::arithmetic::div_mod::lemma_fundamental_div_mod_converse(sp + offset, 65536, 1, sp + offset - 65536);
    }
}

/// `0xE8` decodes to ADD SP, e.
proof fn lemma_decode_add_sp()
    ensures
        decode(0xE8) == Instruction::AddSpE,
{
}

/// What ADD SP, e leaves of SP and PC, and its cycles.
proof fn lemma_add_sp_instruction(pc: u16, s: MachineView)
    requires
        s.following(s.registers.pc) is Some,
    ensures
        ({
            let e = s.following(s.registers.pc)->0;
            let (after, cycles) = instruction_spec(Instruction::AddSpE, 0xE8, pc, s)->0;
            &&& instruction_spec(Instruction::AddSpE, 0xE8, pc, s) is Some
            &&& cycles == 16
            &&& after.registers.sp == add_signed_spec(s.registers.sp, e)
            &&& after.registers.pc as int == (s.registers.pc as int + 2) % 65536
        }),
{
    assert(instruction_spec(Instruction::AddSpE, 0xE8, pc, s) == add_sp_e_spec(0xE8, pc, s));
}

} // verus!
