//! The register file of the processor.
//!
//! The eight 8-bit registers A, F, B, C, D, E, H and L can also be read and
//! written in pairs as AF, BC, DE and HL, the first register of a pair being
//! the high byte. F holds the flags: Z (bit 7), N (bit 6), H (bit 5) and
//! CY (bit 4).
use vstd::prelude::*;
use crate::util::bit_op::{self, bit_of, with_bit};

verus! {

/// The contents of the register file.
pub struct RegsView {
    pub a: u8,
    pub f: u8,
    pub b: u8,
    pub c: u8,
    pub d: u8,
    pub e: u8,
    pub h: u8,
    pub l: u8,
    pub sp: u16,
    pub pc: u16,
}

/// The 16-bit value whose high byte is `hi` and low byte is `lo`.
pub open spec fn pair(hi: u8, lo: u8) -> u16 {
    (hi as int * 256 + lo as int) as u16
}

/// The high byte of `value`.
pub open spec fn high_byte(value: u16) -> u8 {
    (value as int / 256) as u8
}

/// The low byte of `value`.
pub open spec fn low_byte(value: u16) -> u8 {
    (value as int % 256) as u8
}

/// Bit 7..4 of a flags byte set from the four flag bits, bits 3..0 kept from `low`.
pub open spec fn flags_byte(z: u8, n: u8, h: u8, cy: u8, low: u8) -> u8 {
    (z * 128 + n * 64 + h * 32 + cy * 16 + low % 16) as u8
}

/// The flag bit that a status gives: `computed` when it asks for a calculation.
pub open spec fn status_bit(status: FlagCalculationStatus, computed: bool, old_bit: u8) -> u8 {
    match status {
        FlagCalculationStatus::SetFlag => 1,
        FlagCalculationStatus::Clear => 0,
        FlagCalculationStatus::Ignore => old_bit,
        FlagCalculationStatus::Calculate => if computed { 1 } else { 0 },
    }
}

/// Like `status_bit`, but `Clear` sets the flag as `Set` does (the zero flag of
/// the 8-bit flag updates behaves so).
pub open spec fn status_bit_clear_sets(status: FlagCalculationStatus, computed: bool, old_bit: u8) -> u8 {
    match status {
        FlagCalculationStatus::Clear => 1,
        _ => status_bit(status, computed, old_bit),
    }
}

impl RegsView {
    pub open spec fn af(self) -> u16 {
        pair(self.a, self.f)
    }

    pub open spec fn bc(self) -> u16 {
        pair(self.b, self.c)
    }

    pub open spec fn de(self) -> u16 {
        pair(self.d, self.e)
    }

    pub open spec fn hl(self) -> u16 {
        pair(self.h, self.l)
    }

    pub open spec fn flag_z(self) -> u8 {
        (self.f / 128) % 2
    }

    pub open spec fn flag_n(self) -> u8 {
        (self.f / 64) % 2
    }

    pub open spec fn flag_h(self) -> u8 {
        (self.f / 32) % 2
    }

    pub open spec fn flag_cy(self) -> u8 {
        (self.f / 16) % 2
    }

    pub open spec fn read_r(self, target: RegisterR) -> u8 {
        match target {
            RegisterR::A => self.a,
            RegisterR::B => self.b,
            RegisterR::C => self.c,
            RegisterR::D => self.d,
            RegisterR::E => self.e,
            RegisterR::H => self.h,
            RegisterR::L => self.l,
        }
    }

    pub open spec fn write_r(self, target: RegisterR, value: u8) -> RegsView {
        match target {
            RegisterR::A => RegsView { a: value, ..self },
            RegisterR::B => RegsView { b: value, ..self },
            RegisterR::C => RegsView { c: value, ..self },
            RegisterR::D => RegsView { d: value, ..self },
            RegisterR::E => RegsView { e: value, ..self },
            RegisterR::H => RegsView { h: value, ..self },
            RegisterR::L => RegsView { l: value, ..self },
        }
    }

    pub open spec fn with_f(self, value: u8) -> RegsView {
        RegsView { f: value, ..self }
    }

    pub open spec fn with_af(self, value: u16) -> RegsView {
        RegsView { a: high_byte(value), f: low_byte(value), ..self }
    }

    pub open spec fn with_bc(self, value: u16) -> RegsView {
        RegsView { b: high_byte(value), c: low_byte(value), ..self }
    }

    pub open spec fn with_de(self, value: u16) -> RegsView {
        RegsView { d: high_byte(value), e: low_byte(value), ..self }
    }

    pub open spec fn with_hl(self, value: u16) -> RegsView {
        RegsView { h: high_byte(value), l: low_byte(value), ..self }
    }

    pub open spec fn with_sp(self, value: u16) -> RegsView {
        RegsView { sp: value, ..self }
    }

    pub open spec fn with_pc(self, value: u16) -> RegsView {
        RegsView { pc: value, ..self }
    }

    /// The program counter moved forward by `n`, wrapping around.
    pub open spec fn advance_pc(self, n: u16) -> RegsView {
        RegsView { pc: ((self.pc as int + n as int) % 65536) as u16, ..self }
    }

    pub open spec fn write_dd(self, target: RegisterDD, value: u16) -> RegsView {
        match target {
            RegisterDD::BC => self.with_bc(value),
            RegisterDD::DE => self.with_de(value),
            RegisterDD::HL => self.with_hl(value),
            RegisterDD::SP => self.with_sp(value),
        }
    }

    pub open spec fn read_qq(self, target: RegisterQQ) -> u16 {
        match target {
            RegisterQQ::AF => self.af(),
            RegisterQQ::BC => self.bc(),
            RegisterQQ::DE => self.de(),
            RegisterQQ::HL => self.hl(),
        }
    }

    pub open spec fn write_qq(self, target: RegisterQQ, value: u16) -> RegsView {
        match target {
            RegisterQQ::AF => self.with_af(value),
            RegisterQQ::BC => self.with_bc(value),
            RegisterQQ::DE => self.with_de(value),
            RegisterQQ::HL => self.with_hl(value),
        }
    }

    pub open spec fn read_ss(self, target: RegisterSS) -> u16 {
        match target {
            RegisterSS::BC => self.bc(),
            RegisterSS::DE => self.de(),
            RegisterSS::HL => self.hl(),
            RegisterSS::SP => self.sp,
        }
    }

    pub open spec fn write_ss(self, target: RegisterSS, value: u16) -> RegsView {
        match target {
            RegisterSS::BC => self.with_bc(value),
            RegisterSS::DE => self.with_de(value),
            RegisterSS::HL => self.with_hl(value),
            RegisterSS::SP => self.with_sp(value),
        }
    }

    pub open spec fn check_condition(self, condition: Condition) -> bool {
        match condition {
            Condition::C => self.flag_cy() == 1,
            Condition::NC => self.flag_cy() == 0,
            Condition::NZ => self.flag_z() == 0,
            Condition::Z => self.flag_z() == 1,
        }
    }

    /// The register file with the four flags replaced, the low nibble of F kept.
    pub open spec fn with_flags(self, z: u8, n: u8, h: u8, cy: u8) -> RegsView {
        self.with_f(flags_byte(z, n, h, cy, self.f))
    }

    /// The flags that `set_flags_add` leaves.
    pub open spec fn flags_add(
        self,
        operand1: u8,
        operand2: u8,
        z: FlagCalculationStatus,
        n: FlagCalculationStatus,
        h: FlagCalculationStatus,
        cy: FlagCalculationStatus,
    ) -> RegsView {
        self.with_flags(
            status_bit_clear_sets(z, (operand1 as int + operand2 as int) % 256 == 0, self.flag_z()),
            status_bit(n, true, self.flag_n()),
            status_bit(h, operand1 as int % 16 + operand2 as int % 16 >= 16, self.flag_h()),
            status_bit(cy, operand1 as int + operand2 as int >= 256, self.flag_cy()),
        )
    }

    /// The flags that `set_flags_sub` leaves.
    pub open spec fn flags_sub(
        self,
        operand1: u8,
        operand2: u8,
        z: FlagCalculationStatus,
        n: FlagCalculationStatus,
        h: FlagCalculationStatus,
        cy: FlagCalculationStatus,
    ) -> RegsView {
        self.with_flags(
            status_bit_clear_sets(z, operand1 == operand2, self.flag_z()),
            status_bit(n, true, self.flag_n()),
            status_bit(h, operand1 as int % 16 < operand2 as int % 16, self.flag_h()),
            status_bit(cy, operand1 < operand2, self.flag_cy()),
        )
    }

    /// The flags that `set_flags_add_with_carry` leaves: each calculated flag
    /// adds its own previous bit as the carry.
    pub open spec fn flags_add_with_carry(
        self,
        operand1: u8,
        operand2: u8,
        z: FlagCalculationStatus,
        n: FlagCalculationStatus,
        h: FlagCalculationStatus,
        cy: FlagCalculationStatus,
    ) -> RegsView {
        self.with_flags(
            status_bit_clear_sets(z, (operand1 as int + operand2 as int + self.flag_z()) % 256 == 0, self.flag_z()),
            status_bit(n, true, self.flag_n()),
            status_bit(h, operand1 as int % 16 + operand2 as int % 16 + self.flag_h() >= 16, self.flag_h()),
            status_bit(cy, operand1 as int + operand2 as int + self.flag_cy() >= 256, self.flag_cy()),
        )
    }

    /// The flags that `set_flags_sub_with_carry` leaves: each calculated flag
    /// subtracts its own previous bit as the borrow.
    pub open spec fn flags_sub_with_carry(
        self,
        operand1: u8,
        operand2: u8,
        z: FlagCalculationStatus,
        n: FlagCalculationStatus,
        h: FlagCalculationStatus,
        cy: FlagCalculationStatus,
    ) -> RegsView {
        self.with_flags(
            status_bit_clear_sets(z, (operand1 as int - operand2 as int - self.flag_z()) % 256 == 0, self.flag_z()),
            status_bit(n, true, self.flag_n()),
            status_bit(h, operand1 as int % 16 - operand2 as int % 16 - self.flag_h() < 0, self.flag_h()),
            status_bit(cy, operand1 < (operand2 as int + self.flag_cy()) % 256, self.flag_cy()),
        )
    }

    /// The flags that `set_flags_add_u16` leaves.
    pub open spec fn flags_add_u16(
        self,
        operand1: u16,
        operand2: u16,
        z: FlagCalculationStatus,
        n: FlagCalculationStatus,
        h: FlagCalculationStatus,
        cy: FlagCalculationStatus,
    ) -> RegsView {
        self.with_flags(
            status_bit(z, (operand1 as int + operand2 as int) % 65536 == 0, self.flag_z()),
            status_bit(n, true, self.flag_n()),
            status_bit(h, operand1 as int % 4096 + operand2 as int % 4096 >= 4096, self.flag_h()),
            status_bit(cy, operand1 as int + operand2 as int >= 65536, self.flag_cy()),
        )
    }

    /// The flags that `set_flags_sub_u16` leaves.
    pub open spec fn flags_sub_u16(
        self,
        operand1: u16,
        operand2: u16,
        z: FlagCalculationStatus,
        n: FlagCalculationStatus,
        h: FlagCalculationStatus,
        cy: FlagCalculationStatus,
    ) -> RegsView {
        self.with_flags(
            status_bit(z, operand1 == operand2, self.flag_z()),
            status_bit(n, true, self.flag_n()),
            status_bit(h, operand1 as int % 4096 < operand2 as int % 4096, self.flag_h()),
            status_bit(cy, operand1 < operand2, self.flag_cy()),
        )
    }

    /// The flags set as `calculations` asks, `zc`, `hc` and `cc` being the
    /// calculated zero, half carry and carry conditions.
    pub open spec fn apply_calculations(self, calculations: FlagCalculations, zc: bool, hc: bool, cc: bool) -> RegsView {
        self.with_flags(
            status_bit(calculations.zero, zc, self.flag_z()),
            status_bit(calculations.substraction, true, self.flag_n()),
            status_bit(calculations.halfcarry, hc, self.flag_h()),
            status_bit(calculations.carry, cc, self.flag_cy()),
        )
    }

    /// The flags of the 8-bit addition `operand1 + operand2 + carry`.
    pub open spec fn flags_after_add(self, operand1: u8, operand2: u8, carry: u8, calculations: FlagCalculations) -> RegsView {
        self.apply_calculations(
            calculations,
            (operand1 as int + operand2 as int + carry as int) % 256 == 0,
            operand1 as int % 16 + operand2 as int % 16 + carry as int >= 16,
            operand1 as int + operand2 as int + carry as int >= 256,
        )
    }

    /// The flags of the 8-bit subtraction `operand1 - operand2 - carry`.
    pub open spec fn flags_after_sub(self, operand1: u8, operand2: u8, carry: u8, calculations: FlagCalculations) -> RegsView {
        self.apply_calculations(
            calculations,
            (operand1 as int - operand2 as int - carry as int) % 256 == 0,
            operand1 as int % 16 < operand2 as int % 16 + carry as int,
            operand1 < operand2 as int + carry as int,
        )
    }

    /// The flags of the 16-bit addition `operand1 + operand2`.
    pub open spec fn flags_after_add_u16(self, operand1: u16, operand2: u16, calculations: FlagCalculations) -> RegsView {
        self.apply_calculations(
            calculations,
            (operand1 as int + operand2 as int) % 65536 == 0,
            operand1 as int % 4096 + operand2 as int % 4096 >= 4096,
            operand1 as int + operand2 as int >= 65536,
        )
    }

    /// The flags of the 16-bit subtraction `operand1 - operand2`.
    pub open spec fn flags_after_sub_u16(self, operand1: u16, operand2: u16, calculations: FlagCalculations) -> RegsView {
        self.apply_calculations(
            calculations,
            operand1 == operand2,
            operand1 as int % 4096 < operand2 as int % 4096,
            operand1 < operand2,
        )
    }
}

/// The register file.
#[derive(Clone, Copy, Debug)]
pub struct Registers {
    a: u8,
    f: u8,
    b: u8,
    c: u8,
    d: u8,
    e: u8,
    h: u8,
    l: u8,
    sp: u16,
    pc: u16,
}

impl View for Registers {
    type V = RegsView;

    closed spec fn view(&self) -> RegsView {
        RegsView {
            a: self.a,
            f: self.f,
            b: self.b,
            c: self.c,
            d: self.d,
            e: self.e,
            h: self.h,
            l: self.l,
            sp: self.sp,
            pc: self.pc,
        }
    }
}

/// The register file after power-on: all zero when the boot sequence runs,
/// else the values that the boot sequence leaves.
pub open spec fn initial_registers(boot_sequence: bool) -> RegsView {
    if boot_sequence {
        RegsView { a: 0, f: 0, b: 0, c: 0, d: 0, e: 0, h: 0, l: 0, sp: 0, pc: 0 }
    } else {
        RegsView { a: 0x01, f: 0xB0, b: 0x00, c: 0x13, d: 0x00, e: 0xD8, h: 0x01, l: 0x4D, sp: 0xFFFE, pc: 0x0100 }
    }
}

/// Each register pair reads back the value written to it, and its first
/// register holds the high byte, its second the low byte.
pub proof fn law_pair_roundtrip(r: RegsView, value: u16)
    ensures
        r.with_af(value).af() == value,
        r.with_bc(value).bc() == value,
        r.with_de(value).de() == value,
        r.with_hl(value).hl() == value,
        r.with_bc(value).b == high_byte(value) && r.with_bc(value).c == low_byte(value),
        r.with_de(value).d == high_byte(value) && r.with_de(value).e == low_byte(value),
        r.with_hl(value).h == high_byte(value) && r.with_hl(value).l == low_byte(value),
        r.with_af(value).a == high_byte(value) && r.with_af(value).f == low_byte(value),
{
}

/// Writing the two registers of a pair one by one gives the pair of the two
/// bytes, the first register being the high byte.
pub proof fn law_pair_from_registers(r: RegsView, hi: u8, lo: u8)
    ensures
        r.write_r(RegisterR::B, hi).write_r(RegisterR::C, lo).bc() == pair(hi, lo),
        r.write_r(RegisterR::D, hi).write_r(RegisterR::E, lo).de() == pair(hi, lo),
        r.write_r(RegisterR::H, hi).write_r(RegisterR::L, lo).hl() == pair(hi, lo),
        r.write_r(RegisterR::A, hi).with_f(lo).af() == pair(hi, lo),
        high_byte(pair(hi, lo)) == hi,
        low_byte(pair(hi, lo)) == lo,
{
}

/// Writing a register changes that register and no other.
pub proof fn law_write_r_frame(r: RegsView, target: RegisterR, other: RegisterR, value: u8)
    ensures
        r.write_r(target, value).read_r(target) == value,
        other != target ==> r.write_r(target, value).read_r(other) == r.read_r(other),
        r.write_r(target, value).f == r.f,
        r.write_r(target, value).sp == r.sp,
        r.write_r(target, value).pc == r.pc,
{
}

/// Setting the four flags gives the flags read back, the low nibble of F
/// kept.
pub proof fn law_flags_roundtrip(r: RegsView, z: u8, n: u8, h: u8, cy: u8)
    requires
        z <= 1,
        n <= 1,
        h <= 1,
        cy <= 1,
    ensures
        r.with_flags(z, n, h, cy).flag_z() == z,
        r.with_flags(z, n, h, cy).flag_n() == n,
        r.with_flags(z, n, h, cy).flag_h() == h,
        r.with_flags(z, n, h, cy).flag_cy() == cy,
        r.with_flags(z, n, h, cy).f % 16 == r.f % 16,
{
}

proof fn lemma_pair(hi: u8, lo: u8)
    ensures
        ((hi as u16) << 8u16) | (lo as u16) == pair(hi, lo),
{
    assert(((hi as u16) << 8u16) | (lo as u16) == (hi as u16) * 256 + (lo as u16)) by (bit_vector);
}

proof fn lemma_split(value: u16)
    ensures
        (value >> 8u16) as u8 == high_byte(value),
        value as u8 == low_byte(value),
{
    assert((value >> 8u16) as u8 == value / 256) by (bit_vector);
    assert(value as u8 == value % 256) by (bit_vector);
}

proof fn lemma_flag_bits(f: u8)
    by (bit_vector)
    ensures
        (f >> 7u8) & 1 == (f / 128) % 2,
        (f >> 6u8) & 1 == (f / 64) % 2,
        (f >> 5u8) & 1 == (f / 32) % 2,
        (f >> 4u8) & 1 == (f / 16) % 2,
        bit_of(f, 7) == (f / 128) % 2,
        bit_of(f, 6) == (f / 64) % 2,
        bit_of(f, 5) == (f / 32) % 2,
        bit_of(f, 4) == (f / 16) % 2,
{
}

/// Replacing bits 7, 6, 5 and 4 one after another leaves the other bits to
/// the later steps and gives the flags byte.
proof fn lemma_flag_update(f: u8, z: u8, n: u8, h: u8, cy: u8)
    by (bit_vector)
    requires
        z <= 1,
        n <= 1,
        h <= 1,
        cy <= 1,
    ensures
        bit_of(with_bit(f, 7, z), 6) == bit_of(f, 6),
        bit_of(with_bit(with_bit(f, 7, z), 6, n), 5) == bit_of(f, 5),
        bit_of(with_bit(with_bit(with_bit(f, 7, z), 6, n), 5, h), 4) == bit_of(f, 4),
        with_bit(with_bit(with_bit(with_bit(f, 7, z), 6, n), 5, h), 4, cy) == flags_byte(z, n, h, cy, f),
{
}

/// Writing a bit's own value back leaves the byte unchanged.
proof fn lemma_with_own_bit(f: u8, bit: u8)
    by (bit_vector)
    requires
        bit <= 7,
    ensures
        with_bit(f, bit, bit_of(f, bit)) == f,
        bit_of(f, bit) <= 1,
{
}

impl Registers {
    pub fn new(boot_sequence: bool) -> (r: Registers)
        ensures
            r@ == initial_registers(boot_sequence),
    {
        if boot_sequence {
            Registers { a: 0, f: 0, b: 0, c: 0, d: 0, e: 0, h: 0, l: 0, sp: 0x0000, pc: 0x0000 }
        } else {
            Registers { a: 0x01, f: 0xB0, b: 0x00, c: 0x13, d: 0x00, e: 0xD8, h: 0x01, l: 0x4D, sp: 0xFFFE, pc: 0x0100 }
        }
    }

    pub fn read_r(&self, target: RegisterR) -> (r: u8)
        ensures
            r == self@.read_r(target),
    {
        match target {
            RegisterR::A => self.a(),
            RegisterR::B => self.b(),
            RegisterR::C => self.c(),
            RegisterR::D => self.d(),
            RegisterR::E => self.e(),
            RegisterR::H => self.h(),
            RegisterR::L => self.l(),
        }
    }

    pub fn write_r(&mut self, target: RegisterR, value: u8)
        ensures
            final(self)@ == old(self)@.write_r(target, value),
    {
        match target {
            RegisterR::A => self.set_a(value),
            RegisterR::B => self.set_b(value),
            RegisterR::C => self.set_c(value),
            RegisterR::D => self.set_d(value),
            RegisterR::E => self.set_e(value),
            RegisterR::H => self.set_h(value),
            RegisterR::L => self.set_l(value),
        }
    }

    pub fn write_dd(&mut self, target: RegisterDD, value: u16)
        ensures
            final(self)@ == old(self)@.write_dd(target, value),
    {
        match target {
            RegisterDD::BC => self.set_bc(value),
            RegisterDD::DE => self.set_de(value),
            RegisterDD::HL => self.set_hl(value),
            RegisterDD::SP => self.set_sp(value),
        }
    }

    pub fn read_qq(&self, target: RegisterQQ) -> (r: u16)
        ensures
            r == self@.read_qq(target),
    {
        match target {
            RegisterQQ::AF => self.af(),
            RegisterQQ::BC => self.bc(),
            RegisterQQ::DE => self.de(),
            RegisterQQ::HL => self.hl(),
        }
    }

    pub fn write_qq(&mut self, target: RegisterQQ, value: u16)
        ensures
            final(self)@ == old(self)@.write_qq(target, value),
    {
        match target {
            RegisterQQ::AF => self.set_af(value),
            RegisterQQ::BC => self.set_bc(value),
            RegisterQQ::DE => self.set_de(value),
            RegisterQQ::HL => self.set_hl(value),
        }
    }

    pub fn read_ss(&self, target: RegisterSS) -> (r: u16)
        ensures
            r == self@.read_ss(target),
    {
        match target {
            RegisterSS::BC => self.bc(),
            RegisterSS::DE => self.de(),
            RegisterSS::HL => self.hl(),
            RegisterSS::SP => self.sp(),
        }
    }

    pub fn write_ss(&mut self, target: RegisterSS, value: u16)
        ensures
            final(self)@ == old(self)@.write_ss(target, value),
    {
        match target {
            RegisterSS::BC => self.set_bc(value),
            RegisterSS::DE => self.set_de(value),
            RegisterSS::HL => self.set_hl(value),
            RegisterSS::SP => self.set_sp(value),
        }
    }

    pub fn a(&self) -> (r: u8)
        ensures
            r == self@.a,
    {
        self.a
    }

    pub fn b(&self) -> (r: u8)
        ensures
            r == self@.b,
    {
        self.b
    }

    pub fn c(&self) -> (r: u8)
        ensures
            r == self@.c,
    {
        self.c
    }

    pub fn d(&self) -> (r: u8)
        ensures
            r == self@.d,
    {
        self.d
    }

    pub fn e(&self) -> (r: u8)
        ensures
            r == self@.e,
    {
        self.e
    }

    pub fn f(&self) -> (r: u8)
        ensures
            r == self@.f,
    {
        self.f
    }

    pub fn h(&self) -> (r: u8)
        ensures
            r == self@.h,
    {
        self.h
    }

    pub fn l(&self) -> (r: u8)
        ensures
            r == self@.l,
    {
        self.l
    }

    pub fn af(&self) -> (r: u16)
        ensures
            r == self@.af(),
    {
        proof { lemma_pair(self.a, self.f); }
        ((self.a as u16) << 8) | (self.f as u16)
    }

    pub fn bc(&self) -> (r: u16)
        ensures
            r == self@.bc(),
    {
        proof { lemma_pair(self.b, self.c); }
        ((self.b as u16) << 8) | (self.c as u16)
    }

    pub fn de(&self) -> (r: u16)
        ensures
            r == self@.de(),
    {
        proof { lemma_pair(self.d, self.e); }
        ((self.d as u16) << 8) | (self.e as u16)
    }

    pub fn hl(&self) -> (r: u16)
        ensures
            r == self@.hl(),
    {
        proof { lemma_pair(self.h, self.l); }
        ((self.h as u16) << 8) | (self.l as u16)
    }

    pub fn sp(&self) -> (r: u16)
        ensures
            r == self@.sp,
    {
        self.sp
    }

    pub fn pc(&self) -> (r: u16)
        ensures
            r == self@.pc,
    {
        self.pc
    }

    pub fn set_a(&mut self, value: u8)
        ensures
            final(self)@ == old(self)@.write_r(RegisterR::A, value),
    {
        self.a = value;
    }

    pub fn set_b(&mut self, value: u8)
        ensures
            final(self)@ == old(self)@.write_r(RegisterR::B, value),
    {
        self.b = value;
    }

    pub fn set_c(&mut self, value: u8)
        ensures
            final(self)@ == old(self)@.write_r(RegisterR::C, value),
    {
        self.c = value;
    }

    pub fn set_d(&mut self, value: u8)
        ensures
            final(self)@ == old(self)@.write_r(RegisterR::D, value),
    {
        self.d = value;
    }

    pub fn set_e(&mut self, value: u8)
        ensures
            final(self)@ == old(self)@.write_r(RegisterR::E, value),
    {
        self.e = value;
    }

    pub fn set_f(&mut self, value: u8)
        ensures
            final(self)@ == old(self)@.with_f(value),
    {
        self.f = value;
    }

    pub fn set_h(&mut self, value: u8)
        ensures
            final(self)@ == old(self)@.write_r(RegisterR::H, value),
    {
        self.h = value;
    }

    pub fn set_l(&mut self, value: u8)
        ensures
            final(self)@ == old(self)@.write_r(RegisterR::L, value),
    {
        self.l = value;
    }

    pub fn set_af(&mut self, value: u16)
        ensures
            final(self)@ == old(self)@.with_af(value),
    {
        proof { lemma_split(value); }
        self.a = (value >> 8) as u8;
        self.f = value as u8;
    }

    pub fn set_bc(&mut self, value: u16)
        ensures
            final(self)@ == old(self)@.with_bc(value),
    {
        proof { lemma_split(value); }
        self.b = (value >> 8) as u8;
        self.c = value as u8;
    }

    pub fn set_de(&mut self, value: u16)
        ensures
            final(self)@ == old(self)@.with_de(value),
    {
        proof { lemma_split(value); }
        self.d = (value >> 8) as u8;
        self.e = value as u8;
    }

    pub fn set_hl(&mut self, value: u16)
        ensures
            final(self)@ == old(self)@.with_hl(value),
    {
        proof { lemma_split(value); }
        self.h = (value >> 8) as u8;
        self.l = value as u8;
    }

    pub fn set_sp(&mut self, value: u16)
        ensures
            final(self)@ == old(self)@.with_sp(value),
    {
        self.sp = value;
    }

    pub fn set_pc(&mut self, value: u16)
        ensures
            final(self)@ == old(self)@.with_pc(value),
    {
        self.pc = value;
    }

    pub fn inc_pc(&mut self, value: u16)
        ensures
            final(self)@ == old(self)@.advance_pc(value),
    {
        self.pc = self.pc.wrapping_add(value);
    }

    pub fn check_condition(&self, condition: Condition) -> (r: bool)
        ensures
            r == self@.check_condition(condition),
    {
        proof { lemma_flag_bits(self.f); }
        match condition {
            Condition::C => (self.f() >> 4) & 0b1 == 0b1,
            Condition::NC => (self.f() >> 4) & 0b1 == 0b0,
            Condition::NZ => (self.f() >> 7) & 0b1 == 0b0,
            Condition::Z => (self.f() >> 7) & 0b1 == 0b1,
        }
    }

    pub fn flag_cy(&self) -> (r: u8)
        ensures
            r == self@.flag_cy(),
    {
        proof { lemma_flag_bits(self.f); }
        (self.f() >> 4) & 1
    }

    pub fn flag_h(&self) -> (r: u8)
        ensures
            r == self@.flag_h(),
    {
        proof { lemma_flag_bits(self.f); }
        (self.f() >> 5) & 1
    }

    pub fn flag_n(&self) -> (r: u8)
        ensures
            r == self@.flag_n(),
    {
        proof { lemma_flag_bits(self.f); }
        (self.f() >> 6) & 1
    }

    pub fn flag_z(&self) -> (r: u8)
        ensures
            r == self@.flag_z(),
    {
        proof { lemma_flag_bits(self.f); }
        (self.f() >> 7) & 1
    }

    pub fn set_flags(&mut self, z: u8, n: u8, h: u8, cy: u8)
        requires
            z <= 1,
            n <= 1,
            h <= 1,
            cy <= 1,
        ensures
            final(self)@ == old(self)@.with_flags(z, n, h, cy),
    {
        let f0 = self.f();
        let mut flags = self.f();
        flags = bit_op::change_bit_to(flags, 7, z);
        flags = bit_op::change_bit_to(flags, 6, n);
        flags = bit_op::change_bit_to(flags, 5, h);
        flags = bit_op::change_bit_to(flags, 4, cy);
        proof { lemma_flag_update(f0, z, n, h, cy); }
        self.set_f(flags);
    }

    pub fn set_flags_add(
        &mut self,
        operand1: u8,
        operand2: u8,
        z: FlagCalculationStatus,
        n: FlagCalculationStatus,
        h: FlagCalculationStatus,
        cy: FlagCalculationStatus,
    )
        ensures
            final(self)@ == old(self)@.flags_add(operand1, operand2, z, n, h, cy),
    {
        let f0 = self.f();
        let mut flags = self.f();
        flags = Registers::calculate_flag_z(FlagCalculationOperation::Add, operand1, operand2, z, flags);
        flags = Registers::calculate_flag_n(n, flags);
        flags = Registers::calculate_flag_h(FlagCalculationOperation::Add, operand1, operand2, h, flags);
        flags = Registers::calculate_flag_cy(FlagCalculationOperation::Add, operand1, operand2, cy, flags);
        proof { Self::lemma_four_flags(f0, z, n, h, cy, true, (operand1 as int + operand2 as int) % 256 == 0, operand1 as int % 16 + operand2 as int % 16 >= 16, operand1 as int + operand2 as int >= 256); }
        self.set_f(flags);
    }

    pub fn set_flags_add_with_carry(
        &mut self,
        operand1: u8,
        operand2: u8,
        z: FlagCalculationStatus,
        n: FlagCalculationStatus,
        h: FlagCalculationStatus,
        cy: FlagCalculationStatus,
    )
        ensures
            final(self)@ == old(self)@.flags_add_with_carry(operand1, operand2, z, n, h, cy),
    {
        let f0 = self.f();
        let mut flags = self.f();
        flags = Registers::calculate_flag_z_with_carry(FlagCalculationOperation::Add, operand1, operand2, z, flags);
        flags = Registers::calculate_flag_n(n, flags);
        flags = Registers::calculate_flag_h_with_carry(FlagCalculationOperation::Add, operand1, operand2, h, flags);
        flags = Registers::calculate_flag_cy_with_carry(FlagCalculationOperation::Add, operand1, operand2, cy, flags);
        proof { Self::lemma_four_flags(f0, z, n, h, cy, true, (operand1 as int + operand2 as int + bit_of(f0, 7)) % 256 == 0, operand1 as int % 16 + operand2 as int % 16 + bit_of(f0, 5) >= 16, operand1 as int + operand2 as int + bit_of(f0, 4) >= 256); }
        self.set_f(flags);
    }

    pub fn set_flags_sub(
        &mut self,
        operand1: u8,
        operand2: u8,
        z: FlagCalculationStatus,
        n: FlagCalculationStatus,
        h: FlagCalculationStatus,
        cy: FlagCalculationStatus,
    )
        ensures
            final(self)@ == old(self)@.flags_sub(operand1, operand2, z, n, h, cy),
    {
        let f0 = self.f();
        let mut flags = self.f();
        flags = Registers::calculate_flag_z(FlagCalculationOperation::Sub, operand1, operand2, z, flags);
        flags = Registers::calculate_flag_n(n, flags);
        flags = Registers::calculate_flag_h(FlagCalculationOperation::Sub, operand1, operand2, h, flags);
        flags = Registers::calculate_flag_cy(FlagCalculationOperation::Sub, operand1, operand2, cy, flags);
        proof { Self::lemma_four_flags(f0, z, n, h, cy, true, operand1 == operand2, operand1 as int % 16 < operand2 as int % 16, operand1 < operand2); }
        self.set_f(flags);
    }

    pub fn set_flags_sub_with_carry(
        &mut self,
        operand1: u8,
        operand2: u8,
        z: FlagCalculationStatus,
        n: FlagCalculationStatus,
        h: FlagCalculationStatus,
        cy: FlagCalculationStatus,
    )
        ensures
            final(self)@ == old(self)@.flags_sub_with_carry(operand1, operand2, z, n, h, cy),
    {
        let f0 = self.f();
        let mut flags = self.f();
        flags = Registers::calculate_flag_z_with_carry(FlagCalculationOperation::Sub, operand1, operand2, z, flags);
        flags = Registers::calculate_flag_n(n, flags);
        flags = Registers::calculate_flag_h_with_carry(FlagCalculationOperation::Sub, operand1, operand2, h, flags);
        flags = Registers::calculate_flag_cy_with_carry(FlagCalculationOperation::Sub, operand1, operand2, cy, flags);
        proof { Self::lemma_four_flags(f0, z, n, h, cy, true, (operand1 as int - operand2 as int - bit_of(f0, 7)) % 256 == 0, operand1 as int % 16 - operand2 as int % 16 - bit_of(f0, 5) < 0, operand1 < (operand2 as int + bit_of(f0, 4)) % 256); }
        self.set_f(flags);
    }

    pub fn set_flags_add_u16(
        &mut self,
        operand1: u16,
        operand2: u16,
        z: FlagCalculationStatus,
        n: FlagCalculationStatus,
        h: FlagCalculationStatus,
        cy: FlagCalculationStatus,
    )
        ensures
            final(self)@ == old(self)@.flags_add_u16(operand1, operand2, z, n, h, cy),
    {
        let f0 = self.f();
        let mut flags = self.f();
        flags = Registers::calculate_flag_z_u16(FlagCalculationOperation::Add, operand1, operand2, z, flags);
        flags = Registers::calculate_flag_n(n, flags);
        flags = Registers::calculate_flag_h_u16(FlagCalculationOperation::Add, operand1, operand2, h, flags);
        flags = Registers::calculate_flag_cy_u16(FlagCalculationOperation::Add, operand1, operand2, cy, flags);
        proof { Self::lemma_four_flags(f0, z, n, h, cy, false, (operand1 as int + operand2 as int) % 65536 == 0, operand1 as int % 4096 + operand2 as int % 4096 >= 4096, operand1 as int + operand2 as int >= 65536); }
        self.set_f(flags);
    }

    pub fn set_flags_sub_u16(
        &mut self,
        operand1: u16,
        operand2: u16,
        z: FlagCalculationStatus,
        n: FlagCalculationStatus,
        h: FlagCalculationStatus,
        cy: FlagCalculationStatus,
    )
        ensures
            final(self)@ == old(self)@.flags_sub_u16(operand1, operand2, z, n, h, cy),
    {
        let f0 = self.f();
        let mut flags = self.f();
        flags = Registers::calculate_flag_z_u16(FlagCalculationOperation::Sub, operand1, operand2, z, flags);
        flags = Registers::calculate_flag_n(n, flags);
        flags = Registers::calculate_flag_h_u16(FlagCalculationOperation::Sub, operand1, operand2, h, flags);
        flags = Registers::calculate_flag_cy_u16(FlagCalculationOperation::Sub, operand1, operand2, cy, flags);
        proof { Self::lemma_four_flags(f0, z, n, h, cy, false, operand1 == operand2, operand1 as int % 4096 < operand2 as int % 4096, operand1 < operand2); }
        self.set_f(flags);
    }

    /// Sets the flags that `calculations` names from the conditions given.
    fn apply_calculations(&mut self, calculations: FlagCalculations, zc: bool, hc: bool, cc: bool)
        ensures
            final(self)@ == old(self)@.apply_calculations(calculations, zc, hc, cc),
    {
        let f0 = self.f();
        let mut flags = self.f();
        flags = Registers::apply_status(calculations.zero, zc, flags, 7);
        flags = Registers::apply_status(calculations.substraction, true, flags, 6);
        flags = Registers::apply_status(calculations.halfcarry, hc, flags, 5);
        flags = Registers::apply_status(calculations.carry, cc, flags, 4);
        proof {
            Self::lemma_four_flags(f0, calculations.zero, calculations.substraction, calculations.halfcarry, calculations.carry, false, zc, hc, cc);
        }
        self.set_f(flags);
    }

    /// Sets the flags of the 8-bit addition `operand1 + operand2 + carry`.
    pub fn update_flags_add(&mut self, operand1: u8, operand2: u8, carry: u8, calculations: FlagCalculations)
        requires
            carry <= 1,
        ensures
            final(self)@ == old(self)@.flags_after_add(operand1, operand2, carry, calculations),
    {
        let sum = operand1 as u16 + operand2 as u16 + carry as u16;
        let zc = sum % 256 == 0;
        let hc = (operand1 % 16) + (operand2 % 16) + carry >= 16;
        let cc = sum >= 256;
        self.apply_calculations(calculations, zc, hc, cc);
    }

    /// Sets the flags of the 8-bit subtraction `operand1 - operand2 - carry`.
    pub fn update_flags_sub(&mut self, operand1: u8, operand2: u8, carry: u8, calculations: FlagCalculations)
        requires
            carry <= 1,
        ensures
            final(self)@ == old(self)@.flags_after_sub(operand1, operand2, carry, calculations),
    {
        let result = operand1.wrapping_sub(operand2).wrapping_sub(carry);
        let zc = result == 0;
        let hc = (operand1 % 16) < (operand2 % 16) + carry;
        let cc = (operand1 as u16) < operand2 as u16 + carry as u16;
        self.apply_calculations(calculations, zc, hc, cc);
    }

    /// Sets the flags of the 16-bit addition `operand1 + operand2`.
    pub fn update_flags_add_u16(&mut self, operand1: u16, operand2: u16, calculations: FlagCalculations)
        ensures
            final(self)@ == old(self)@.flags_after_add_u16(operand1, operand2, calculations),
    {
        let zc = operand1.wrapping_add(operand2) == 0;
        let hc = (operand1 % 4096) + (operand2 % 4096) >= 4096;
        let cc = operand1.checked_add(operand2).is_none();
        self.apply_calculations(calculations, zc, hc, cc);
    }

    /// Sets the flags of the 16-bit subtraction `operand1 - operand2`.
    pub fn update_flags_sub_u16(&mut self, operand1: u16, operand2: u16, calculations: FlagCalculations)
        ensures
            final(self)@ == old(self)@.flags_after_sub_u16(operand1, operand2, calculations),
    {
        let zc = operand1 == operand2;
        let hc = (operand1 % 4096) < (operand2 % 4096);
        let cc = operand1 < operand2;
        self.apply_calculations(calculations, zc, hc, cc);
    }

    /// Bits 7..4 replaced one after another by status bits give the flags byte.
    proof fn lemma_four_flags(
        f: u8,
        z: FlagCalculationStatus,
        n: FlagCalculationStatus,
        h: FlagCalculationStatus,
        cy: FlagCalculationStatus,
        zero_clear_sets: bool,
        zc: bool,
        hc: bool,
        cc: bool,
    )
        ensures
            ({
                let zb = if zero_clear_sets { status_bit_clear_sets(z, zc, bit_of(f, 7)) } else { status_bit(z, zc, bit_of(f, 7)) };
                let f1 = with_bit(f, 7, zb);
                let nb = status_bit(n, true, bit_of(f1, 6));
                let f2 = with_bit(f1, 6, nb);
                let hb = status_bit(h, hc, bit_of(f2, 5));
                let f3 = with_bit(f2, 5, hb);
                let cb = status_bit(cy, cc, bit_of(f3, 4));
                &&& with_bit(f3, 4, cb) == flags_byte(
                    zb,
                    status_bit(n, true, (f / 64) % 2),
                    status_bit(h, hc, (f / 32) % 2),
                    status_bit(cy, cc, (f / 16) % 2),
                    f,
                )
                &&& zb == if zero_clear_sets { status_bit_clear_sets(z, zc, (f / 128) % 2) } else { status_bit(z, zc, (f / 128) % 2) }
                &&& bit_of(f1, 6) == bit_of(f, 6)
                &&& bit_of(f2, 5) == bit_of(f, 5)
                &&& bit_of(f3, 4) == bit_of(f, 4)
            }),
            bit_of(f, 7) == (f / 128) % 2,
            bit_of(f, 5) == (f / 32) % 2,
            bit_of(f, 4) == (f / 16) % 2,
    {
        lemma_flag_bits(f);
        lemma_with_own_bit(f, 7);
        lemma_with_own_bit(f, 6);
        lemma_with_own_bit(f, 5);
        lemma_with_own_bit(f, 4);
        let zb = if zero_clear_sets { status_bit_clear_sets(z, zc, bit_of(f, 7)) } else { status_bit(z, zc, bit_of(f, 7)) };
        let nb = status_bit(n, true, bit_of(f, 6));
        let hb = status_bit(h, hc, bit_of(f, 5));
        let cb = status_bit(cy, cc, bit_of(f, 4));
        lemma_flag_update(f, zb, nb, hb, cb);
    }

    /// Applies a flag status to bit `bit` of `flags`.
    fn apply_status(status: FlagCalculationStatus, computed: bool, flags: u8, bit: u8) -> (r: u8)
        requires
            bit <= 7,
        ensures
            r == with_bit(flags, bit, status_bit(status, computed, bit_of(flags, bit))),
    {
        proof { lemma_with_own_bit(flags, bit); }
        match status {
            FlagCalculationStatus::SetFlag => bit_op::set_bit(flags, bit),
            FlagCalculationStatus::Clear => bit_op::clear_bit(flags, bit),
            FlagCalculationStatus::Ignore => flags,
            FlagCalculationStatus::Calculate => {
                if computed {
                    bit_op::set_bit(flags, bit)
                } else {
                    bit_op::clear_bit(flags, bit)
                }
            },
        }
    }

    fn calculate_flag_z(
        operation: FlagCalculationOperation,
        operand1: u8,
        operand2: u8,
        z: FlagCalculationStatus,
        flags: u8,
    ) -> (r: u8)
        ensures
            r == with_bit(flags, 7, status_bit_clear_sets(z, match operation {
                FlagCalculationOperation::Add => (operand1 as int + operand2 as int) % 256 == 0,
                FlagCalculationOperation::Sub => operand1 == operand2,
            }, bit_of(flags, 7))),
    {
        match z {
            FlagCalculationStatus::Clear => bit_op::set_bit(flags, 7),
            _ => {
                let result = match operation {
                    FlagCalculationOperation::Add => operand1.wrapping_add(operand2),
                    FlagCalculationOperation::Sub => operand1.wrapping_sub(operand2),
                };
                Registers::apply_status(z, result == 0, flags, 7)
            },
        }
    }

    fn calculate_flag_n(n: FlagCalculationStatus, flags: u8) -> (r: u8)
        ensures
            r == with_bit(flags, 6, status_bit(n, true, bit_of(flags, 6))),
    {
        Registers::apply_status(n, true, flags, 6)
    }

    fn calculate_flag_h(
        operation: FlagCalculationOperation,
        operand1: u8,
        operand2: u8,
        h: FlagCalculationStatus,
        flags: u8,
    ) -> (r: u8)
        ensures
            r == with_bit(flags, 5, status_bit(h, match operation {
                FlagCalculationOperation::Add => operand1 as int % 16 + operand2 as int % 16 >= 16,
                FlagCalculationOperation::Sub => operand1 as int % 16 < operand2 as int % 16,
            }, bit_of(flags, 5))),
    {
        let computed = match operation {
            FlagCalculationOperation::Add => (operand1 % 16) + (operand2 % 16) >= 16,
            FlagCalculationOperation::Sub => (operand1 % 16) < (operand2 % 16),
        };
        Registers::apply_status(h, computed, flags, 5)
    }

    fn calculate_flag_cy(
        operation: FlagCalculationOperation,
        operand1: u8,
        operand2: u8,
        cy: FlagCalculationStatus,
        flags: u8,
    ) -> (r: u8)
        ensures
            r == with_bit(flags, 4, status_bit(cy, match operation {
                FlagCalculationOperation::Add => operand1 as int + operand2 as int >= 256,
                FlagCalculationOperation::Sub => operand1 < operand2,
            }, bit_of(flags, 4))),
    {
        let computed = match operation {
            FlagCalculationOperation::Add => operand1.checked_add(operand2).is_none(),
            FlagCalculationOperation::Sub => operand1 < operand2,
        };
        Registers::apply_status(cy, computed, flags, 4)
    }

    fn calculate_flag_z_u16(
        operation: FlagCalculationOperation,
        operand1: u16,
        operand2: u16,
        z: FlagCalculationStatus,
        flags: u8,
    ) -> (r: u8)
        ensures
            r == with_bit(flags, 7, status_bit(z, match operation {
                FlagCalculationOperation::Add => (operand1 as int + operand2 as int) % 65536 == 0,
                FlagCalculationOperation::Sub => operand1 == operand2,
            }, bit_of(flags, 7))),
    {
        let result = match operation {
            FlagCalculationOperation::Add => operand1.wrapping_add(operand2),
            FlagCalculationOperation::Sub => operand1.wrapping_sub(operand2),
        };
        Registers::apply_status(z, result == 0, flags, 7)
    }

    fn calculate_flag_h_u16(
        operation: FlagCalculationOperation,
        operand1: u16,
        operand2: u16,
        h: FlagCalculationStatus,
        flags: u8,
    ) -> (r: u8)
        ensures
            r == with_bit(flags, 5, status_bit(h, match operation {
                FlagCalculationOperation::Add => operand1 as int % 4096 + operand2 as int % 4096 >= 4096,
                FlagCalculationOperation::Sub => operand1 as int % 4096 < operand2 as int % 4096,
            }, bit_of(flags, 5))),
    {
        let computed = match operation {
            FlagCalculationOperation::Add => (operand1 % 4096) + (operand2 % 4096) >= 4096,
            FlagCalculationOperation::Sub => (operand1 % 4096) < (operand2 % 4096),
        };
        Registers::apply_status(h, computed, flags, 5)
    }

    fn calculate_flag_cy_u16(
        operation: FlagCalculationOperation,
        operand1: u16,
        operand2: u16,
        cy: FlagCalculationStatus,
        flags: u8,
    ) -> (r: u8)
        ensures
            r == with_bit(flags, 4, status_bit(cy, match operation {
                FlagCalculationOperation::Add => operand1 as int + operand2 as int >= 65536,
                FlagCalculationOperation::Sub => operand1 < operand2,
            }, bit_of(flags, 4))),
    {
        let computed = match operation {
            FlagCalculationOperation::Add => operand1.checked_add(operand2).is_none(),
            FlagCalculationOperation::Sub => operand1 < operand2,
        };
        Registers::apply_status(cy, computed, flags, 4)
    }

    fn calculate_flag_z_with_carry(
        operation: FlagCalculationOperation,
        operand1: u8,
        operand2: u8,
        z: FlagCalculationStatus,
        flags: u8,
    ) -> (r: u8)
        ensures
            r == with_bit(flags, 7, status_bit_clear_sets(z, match operation {
                FlagCalculationOperation::Add => (operand1 as int + operand2 as int + bit_of(flags, 7)) % 256 == 0,
                FlagCalculationOperation::Sub => (operand1 as int - operand2 as int - bit_of(flags, 7)) % 256 == 0,
            }, bit_of(flags, 7))),
    {
        proof { lemma_with_own_bit(flags, 7); }
        let flag_z = (flags >> 7) & 1;
        assert(flag_z == bit_of(flags, 7));
        match z {
            FlagCalculationStatus::Clear => bit_op::set_bit(flags, 7),
            _ => {
                let result = match operation {
                    FlagCalculationOperation::Add => operand1.wrapping_add(operand2).wrapping_add(flag_z),
                    FlagCalculationOperation::Sub => operand1.wrapping_sub(operand2).wrapping_sub(flag_z),
                };
                Registers::apply_status(z, result == 0, flags, 7)
            },
        }
    }

    fn calculate_flag_h_with_carry(
        operation: FlagCalculationOperation,
        operand1: u8,
        operand2: u8,
        h: FlagCalculationStatus,
        flags: u8,
    ) -> (r: u8)
        ensures
            r == with_bit(flags, 5, status_bit(h, match operation {
                FlagCalculationOperation::Add => operand1 as int % 16 + operand2 as int % 16 + bit_of(flags, 5) >= 16,
                FlagCalculationOperation::Sub => operand1 as int % 16 - operand2 as int % 16 - bit_of(flags, 5) < 0,
            }, bit_of(flags, 5))),
    {
        proof { lemma_with_own_bit(flags, 5); }
        let flag_h = (flags >> 5) & 1;
        assert(flag_h == bit_of(flags, 5));
        let computed = match operation {
            FlagCalculationOperation::Add => (operand1 % 16) + (operand2 % 16) + flag_h >= 16,
            FlagCalculationOperation::Sub => (operand1 % 16) < (operand2 % 16) + flag_h,
        };
        Registers::apply_status(h, computed, flags, 5)
    }

    fn calculate_flag_cy_with_carry(
        operation: FlagCalculationOperation,
        operand1: u8,
        operand2: u8,
        cy: FlagCalculationStatus,
        flags: u8,
    ) -> (r: u8)
        ensures
            r == with_bit(flags, 4, status_bit(cy, match operation {
                FlagCalculationOperation::Add => operand1 as int + operand2 as int + bit_of(flags, 4) >= 256,
                FlagCalculationOperation::Sub => operand1 < (operand2 as int + bit_of(flags, 4)) % 256,
            }, bit_of(flags, 4))),
    {
        proof { lemma_with_own_bit(flags, 4); }
        let flag_cy = (flags >> 4) & 1;
        assert(flag_cy == bit_of(flags, 4));
        let computed = match operation {
            FlagCalculationOperation::Add => {
                match operand1.checked_add(operand2) {
                    None => true,
                    Some(sum) => sum.checked_add(flag_cy).is_none(),
                }
            },
            FlagCalculationOperation::Sub => operand1 < operand2.wrapping_add(flag_cy),
        };
        Registers::apply_status(cy, computed, flags, 4)
    }
}

/// What a flag update does to one flag.
#[derive(Debug, Copy, Clone)]
pub enum FlagCalculationStatus {
    SetFlag,
    Clear,
    Ignore,
    Calculate,
}

/// The operation whose result the calculated flags describe.
#[derive(Debug, Copy, Clone)]
pub enum FlagCalculationOperation {
    Add,
    Sub,
}

/// An 8-bit register as encoded in an opcode.
#[derive(Debug, Copy, Clone)]
pub enum RegisterR {
    A,
    B,
    C,
    D,
    E,
    H,
    L,
}

impl RegisterR {
    /// The three-bit code of the register.
    pub open spec fn code(self) -> u8 {
        match self {
            RegisterR::A => 0b111,
            RegisterR::B => 0b000,
            RegisterR::C => 0b001,
            RegisterR::D => 0b010,
            RegisterR::E => 0b011,
            RegisterR::H => 0b100,
            RegisterR::L => 0b101,
        }
    }

    /// The register whose code is `value`.
    pub open spec fn from_code(value: u8) -> RegisterR {
        match value {
            0b111 => RegisterR::A,
            0b000 => RegisterR::B,
            0b001 => RegisterR::C,
            0b010 => RegisterR::D,
            0b011 => RegisterR::E,
            0b100 => RegisterR::H,
            _ => RegisterR::L,
        }
    }

    pub fn new(value: u8) -> (r: RegisterR)
        requires
            value <= 0b111,
            value != 0b110,
        ensures
            r.code() == value,
            r == RegisterR::from_code(value),
    {
        match value {
            0b111 => RegisterR::A,
            0b000 => RegisterR::B,
            0b001 => RegisterR::C,
            0b010 => RegisterR::D,
            0b011 => RegisterR::E,
            0b100 => RegisterR::H,
            _ => RegisterR::L,
        }
    }
}

/// A 16-bit register that an opcode loads.
#[derive(Debug, Copy, Clone)]
pub enum RegisterDD {
    BC,
    DE,
    HL,
    SP,
}

impl RegisterDD {
    /// The two-bit code of the register.
    pub open spec fn code(self) -> u8 {
        match self {
            RegisterDD::BC => 0b00,
            RegisterDD::DE => 0b01,
            RegisterDD::HL => 0b10,
            RegisterDD::SP => 0b11,
        }
    }

    /// The register whose code is `value`.
    pub open spec fn from_code(value: u8) -> RegisterDD {
        match value {
            0b00 => RegisterDD::BC,
            0b01 => RegisterDD::DE,
            0b10 => RegisterDD::HL,
            _ => RegisterDD::SP,
        }
    }

    pub fn new(value: u8) -> (r: RegisterDD)
        requires
            value <= 0b11,
        ensures
            r.code() == value,
            r == RegisterDD::from_code(value),
    {
        match value {
            0b00 => RegisterDD::BC,
            0b01 => RegisterDD::DE,
            0b10 => RegisterDD::HL,
            _ => RegisterDD::SP,
        }
    }
}

/// A 16-bit register that the stack instructions move.
#[derive(Debug, Copy, Clone)]
pub enum RegisterQQ {
    BC,
    DE,
    HL,
    AF,
}

impl RegisterQQ {
    /// The two-bit code of the register.
    pub open spec fn code(self) -> u8 {
        match self {
            RegisterQQ::BC => 0b00,
            RegisterQQ::DE => 0b01,
            RegisterQQ::HL => 0b10,
            RegisterQQ::AF => 0b11,
        }
    }

    /// The register whose code is `value`.
    pub open spec fn from_code(value: u8) -> RegisterQQ {
        match value {
            0b00 => RegisterQQ::BC,
            0b01 => RegisterQQ::DE,
            0b10 => RegisterQQ::HL,
            _ => RegisterQQ::AF,
        }
    }

    pub fn new(value: u8) -> (r: RegisterQQ)
        requires
            value <= 0b11,
        ensures
            r.code() == value,
            r == RegisterQQ::from_code(value),
    {
        match value {
            0b00 => RegisterQQ::BC,
            0b01 => RegisterQQ::DE,
            0b10 => RegisterQQ::HL,
            _ => RegisterQQ::AF,
        }
    }
}

/// A 16-bit register of the 16-bit arithmetic.
#[derive(Debug, Copy, Clone)]
pub enum RegisterSS {
    BC,
    DE,
    HL,
    SP,
}

impl RegisterSS {
    /// The two-bit code of the register.
    pub open spec fn code(self) -> u8 {
        match self {
            RegisterSS::BC => 0b00,
            RegisterSS::DE => 0b01,
            RegisterSS::HL => 0b10,
            RegisterSS::SP => 0b11,
        }
    }

    /// The register whose code is `value`.
    pub open spec fn from_code(value: u8) -> RegisterSS {
        match value {
            0b00 => RegisterSS::BC,
            0b01 => RegisterSS::DE,
            0b10 => RegisterSS::HL,
            _ => RegisterSS::SP,
        }
    }

    pub fn new(value: u8) -> (r: RegisterSS)
        requires
            value <= 0b11,
        ensures
            r.code() == value,
            r == RegisterSS::from_code(value),
    {
        match value {
            0b00 => RegisterSS::BC,
            0b01 => RegisterSS::DE,
            0b10 => RegisterSS::HL,
            _ => RegisterSS::SP,
        }
    }
}

/// A jump condition on the flags.
#[derive(Debug, Copy, Clone)]
pub enum Condition {
    NZ,
    Z,
    NC,
    C,
}

impl Condition {
    /// The two-bit code of the condition.
    pub open spec fn code(self) -> u8 {
        match self {
            Condition::NZ => 0b00,
            Condition::Z => 0b01,
            Condition::NC => 0b10,
            Condition::C => 0b11,
        }
    }

    /// The condition whose code is `value`.
    pub open spec fn from_code(value: u8) -> Condition {
        match value {
            0b00 => Condition::NZ,
            0b01 => Condition::Z,
            0b10 => Condition::NC,
            _ => Condition::C,
        }
    }

    pub fn new(value: u8) -> (r: Condition)
        requires
            value <= 0b11,
        ensures
            r.code() == value,
            r == Condition::from_code(value),
    {
        match value {
            0b00 => Condition::NZ,
            0b01 => Condition::Z,
            0b10 => Condition::NC,
            _ => Condition::C,
        }
    }
}

/// Which flags an arithmetic instruction sets, clears, keeps or calculates.
#[derive(Debug, Copy, Clone)]
pub struct FlagCalculations {
    pub zero: FlagCalculationStatus,
    pub substraction: FlagCalculationStatus,
    pub halfcarry: FlagCalculationStatus,
    pub carry: FlagCalculationStatus,
}

/// Builds a `FlagCalculations`; a flag that is not named is kept.
#[derive(Debug, Copy, Clone)]
pub struct FlagCalculationsBuilder {
    pub calculations: FlagCalculations,
}

impl FlagCalculationsBuilder {
    pub fn new() -> (r: FlagCalculationsBuilder)
        ensures
            r.calculations == (FlagCalculations {
                zero: FlagCalculationStatus::Ignore,
                substraction: FlagCalculationStatus::Ignore,
                halfcarry: FlagCalculationStatus::Ignore,
                carry: FlagCalculationStatus::Ignore,
            }),
    {
        FlagCalculationsBuilder {
            calculations: FlagCalculations {
                zero: FlagCalculationStatus::Ignore,
                substraction: FlagCalculationStatus::Ignore,
                halfcarry: FlagCalculationStatus::Ignore,
                carry: FlagCalculationStatus::Ignore,
            },
        }
    }

    pub fn zero(self, status: FlagCalculationStatus) -> (r: FlagCalculationsBuilder)
        ensures
            r.calculations == (FlagCalculations { zero: status, ..self.calculations }),
    {
        FlagCalculationsBuilder { calculations: FlagCalculations { zero: status, ..self.calculations } }
    }

    pub fn substraction(self, status: FlagCalculationStatus) -> (r: FlagCalculationsBuilder)
        ensures
            r.calculations == (FlagCalculations { substraction: status, ..self.calculations }),
    {
        FlagCalculationsBuilder { calculations: FlagCalculations { substraction: status, ..self.calculations } }
    }

    pub fn halfcarry(self, status: FlagCalculationStatus) -> (r: FlagCalculationsBuilder)
        ensures
            r.calculations == (FlagCalculations { halfcarry: status, ..self.calculations }),
    {
        FlagCalculationsBuilder { calculations: FlagCalculations { halfcarry: status, ..self.calculations } }
    }

    pub fn carry(self, status: FlagCalculationStatus) -> (r: FlagCalculationsBuilder)
        ensures
            r.calculations == (FlagCalculations { carry: status, ..self.calculations }),
    {
        FlagCalculationsBuilder { calculations: FlagCalculations { carry: status, ..self.calculations } }
    }

    pub fn build(self) -> (r: FlagCalculations)
        ensures
            r == self.calculations,
    {
        self.calculations
    }
}

} // verus!
