//! Register file tests: initial values and the pairs of 8-bit registers.
use rustboy::processor::registers::Registers;

#[test]
fn everything_setup_after_initialization_with_boot_sequence() {
    let registers = Registers::new(true);
    assert_eq!(registers.af(), 0);
    assert_eq!(registers.bc(), 0);
    assert_eq!(registers.de(), 0);
    assert_eq!(registers.hl(), 0);
    assert_eq!(registers.a(), 0);
    assert_eq!(registers.b(), 0);
    assert_eq!(registers.c(), 0);
    assert_eq!(registers.d(), 0);
    assert_eq!(registers.e(), 0);
    assert_eq!(registers.f(), 0);
    assert_eq!(registers.h(), 0);
    assert_eq!(registers.l(), 0);
    assert_eq!(registers.pc(), 0x0);
    assert_eq!(registers.sp(), 0x0);
}

#[test]
fn everything_setup_after_initialization() {
    let registers = Registers::new(false);
    assert_eq!(registers.af(), 0x01B0);
    assert_eq!(registers.bc(), 0x0013);
    assert_eq!(registers.de(), 0x00D8);
    assert_eq!(registers.hl(), 0x014D);
    assert_eq!(registers.a(), 0x01);
    assert_eq!(registers.b(), 0x00);
    assert_eq!(registers.c(), 0x13);
    assert_eq!(registers.d(), 0x00);
    assert_eq!(registers.e(), 0xD8);
    assert_eq!(registers.f(), 0xB0);
    assert_eq!(registers.h(), 0x01);
    assert_eq!(registers.l(), 0x4D);
    assert_eq!(registers.pc(), 0x100);
    assert_eq!(registers.sp(), 0xFFFE);
}

#[test]
fn set_af_correct() {
    let mut registers = Registers::new(false);
    registers.set_af(0xABCD);
    assert_eq!(registers.af(), 0xABCD);
    assert_eq!(registers.a(), 0xAB);
    assert_eq!(registers.f(), 0xCD);
}

#[test]
fn set_af_singles_correct() {
    let mut registers = Registers::new(false);
    registers.set_a(0xAB);
    registers.set_f(0xCD);
    assert_eq!(registers.af(), 0xABCD);
    assert_eq!(registers.a(), 0xAB);
    assert_eq!(registers.f(), 0xCD);
}

#[test]
fn set_a_singles_correct() {
    let mut registers = Registers::new(false);
    registers.set_a(0xAB);
    assert_eq!(registers.af(), 0xABB0);
    assert_eq!(registers.a(), 0xAB);
    assert_eq!(registers.f(), 0xB0);
}

#[test]
fn set_f_singles_correct() {
    let mut registers = Registers::new(false);
    registers.set_f(0xCD);
    assert_eq!(registers.af(), 0x01CD);
    assert_eq!(registers.a(), 0x01);
    assert_eq!(registers.f(), 0xCD);
}

#[test]
fn set_bc_correct() {
    let mut registers = Registers::new(false);
    registers.set_bc(0xABCD);
    assert_eq!(registers.bc(), 0xABCD);
    assert_eq!(registers.b(), 0xAB);
    assert_eq!(registers.c(), 0xCD);
}

#[test]
fn set_bc_singles_correct() {
    let mut registers = Registers::new(false);
    registers.set_b(0xAB);
    registers.set_c(0xCD);
    assert_eq!(registers.bc(), 0xABCD);
    assert_eq!(registers.b(), 0xAB);
    assert_eq!(registers.c(), 0xCD);
}

#[test]
fn set_b_singles_correct() {
    let mut registers = Registers::new(false);
    registers.set_b(0xAB);
    assert_eq!(registers.bc(), 0xAB13);
    assert_eq!(registers.b(), 0xAB);
    assert_eq!(registers.c(), 0x13);
}

#[test]
fn set_c_singles_correct() {
    let mut registers = Registers::new(false);
    registers.set_c(0xCD);
    assert_eq!(registers.bc(), 0x00CD);
    assert_eq!(registers.b(), 0x00);
    assert_eq!(registers.c(), 0xCD);
}

#[test]
fn set_de_correct() {
    let mut registers = Registers::new(false);
    registers.set_de(0xABCD);
    assert_eq!(registers.de(), 0xABCD);
    assert_eq!(registers.d(), 0xAB);
    assert_eq!(registers.e(), 0xCD);
}

#[test]
fn set_de_singles_correct() {
    let mut registers = Registers::new(false);
    registers.set_d(0xAB);
    registers.set_e(0xCD);
    assert_eq!(registers.de(), 0xABCD);
    assert_eq!(registers.d(), 0xAB);
    assert_eq!(registers.e(), 0xCD);
}

#[test]
fn set_d_singles_correct() {
    let mut registers = Registers::new(false);
    registers.set_d(0xAB);
    assert_eq!(registers.de(), 0xABD8);
    assert_eq!(registers.d(), 0xAB);
    assert_eq!(registers.e(), 0xD8);
}

#[test]
fn set_e_singles_correct() {
    let mut registers = Registers::new(false);
    registers.set_e(0xCD);
    assert_eq!(registers.de(), 0x00CD);
    assert_eq!(registers.d(), 0x00);
    assert_eq!(registers.e(), 0xCD);
}

#[test]
fn set_hl_correct() {
    let mut registers = Registers::new(false);
    registers.set_hl(0xABCD);
    assert_eq!(registers.hl(), 0xABCD);
    assert_eq!(registers.h(), 0xAB);
    assert_eq!(registers.l(), 0xCD);
}

#[test]
fn set_hl_singles_correct() {
    let mut registers = Registers::new(false);
    registers.set_h(0xAB);
    registers.set_l(0xCD);
    assert_eq!(registers.hl(), 0xABCD);
    assert_eq!(registers.h(), 0xAB);
    assert_eq!(registers.l(), 0xCD);
}

#[test]
fn set_h_singles_correct() {
    let mut registers = Registers::new(false);
    registers.set_h(0xAB);
    assert_eq!(registers.hl(), 0xAB4D);
    assert_eq!(registers.h(), 0xAB);
    assert_eq!(registers.l(), 0x4D);
}

#[test]
fn set_l_singles_correct() {
    let mut registers = Registers::new(false);
    registers.set_l(0xCD);
    assert_eq!(registers.hl(), 0x01CD);
    assert_eq!(registers.h(), 0x01);
    assert_eq!(registers.l(), 0xCD);
}

#[test]
fn set_sp_and_pc() {
    let mut registers = Registers::new(false);
    registers.set_sp(0xABCD);
    registers.set_pc(0x1234);
    assert_eq!(registers.sp(), 0xABCD);
    assert_eq!(registers.pc(), 0x1234);
}
