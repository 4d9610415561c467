use gb_core::system::System;

fn make_system() -> System {
    let mut rom = vec![0u8; 0x8000];
    rom[0x147] = 0;
    System::new(None, rom).unwrap()
}

/// Writes a program into work RAM and points PC at it.
fn load_program(sys: &mut System, program: &[u8]) {
    let base: u16 = 0xC000;
    for (i, b) in program.iter().enumerate() {
        sys.cpu.mmu.write(base + i as u16, *b);
    }
    sys.cpu.registers.pc = base;
}

#[test]
fn daa_after_add() {
    // ADD A,0x15 with A=0x45 gives 0x5A; DAA folds it to 0x60 with Z=0 H=0 C=0.
    let mut sys = make_system();
    load_program(&mut sys, &[0xC6, 0x15, 0x27]);
    sys.cpu.registers.a = 0x45;
    let c1 = sys.cpu.step();
    assert_eq!(c1, 8);
    assert_eq!(sys.cpu.registers.a, 0x5A);
    sys.cpu.step();
    assert_eq!(sys.cpu.registers.a, 0x60);
    assert!(!sys.cpu.registers.f.zero);
    assert!(!sys.cpu.registers.f.half_carry);
    assert!(!sys.cpu.registers.f.carry);
}

#[test]
fn daa_after_sub() {
    // SUB 0x06 with A=0x00 gives 0xFA with N=1 C=1; DAA yields 0x94 with C=1.
    let mut sys = make_system();
    load_program(&mut sys, &[0xD6, 0x06, 0x27]);
    sys.cpu.registers.a = 0x00;
    sys.cpu.step();
    assert_eq!(sys.cpu.registers.a, 0xFA);
    assert!(sys.cpu.registers.f.subtract);
    assert!(sys.cpu.registers.f.carry);
    sys.cpu.step();
    assert_eq!(sys.cpu.registers.a, 0x94);
    assert!(sys.cpu.registers.f.carry);
}

#[test]
fn ld_hl_sp_plus_offset() {
    // LD HL,SP+0xFE with SP=0x000F: HL=0x000D, H=1, C=1, Z=0, N=0.
    let mut sys = make_system();
    load_program(&mut sys, &[0xF8, 0xFE]);
    sys.cpu.registers.sp = 0x000F;
    let clocks = sys.cpu.step();
    assert_eq!(clocks, 12);
    assert_eq!(sys.cpu.registers.read_u16(gb_core::registers::Reg16::HL), 0x000D);
    assert!(sys.cpu.registers.f.half_carry);
    assert!(sys.cpu.registers.f.carry);
    assert!(!sys.cpu.registers.f.zero);
    assert!(!sys.cpu.registers.f.subtract);
}

#[test]
fn ld_hl_sp_plus_offset_no_carry() {
    // LD HL,SP+0xFE with SP=0x0000: HL=0xFFFE, H=0, C=0.
    let mut sys = make_system();
    load_program(&mut sys, &[0xF8, 0xFE]);
    sys.cpu.registers.sp = 0x0000;
    sys.cpu.step();
    assert_eq!(sys.cpu.registers.read_u16(gb_core::registers::Reg16::HL), 0xFFFE);
    assert!(!sys.cpu.registers.f.half_carry);
    assert!(!sys.cpu.registers.f.carry);
}

#[test]
fn rotates_carry_is_bit_shifted_out() {
    // RLC B with B=0x80: result 0x01, C=1, Z=0; then SRL B: 0x00, C=1, Z=1.
    let mut sys = make_system();
    load_program(&mut sys, &[0xCB, 0x00, 0xCB, 0x38]);
    sys.cpu.registers.b = 0x80;
    let clocks = sys.cpu.step();
    assert_eq!(clocks, 8);
    assert_eq!(sys.cpu.registers.b, 0x01);
    assert!(sys.cpu.registers.f.carry);
    assert!(!sys.cpu.registers.f.zero);
    assert!(!sys.cpu.registers.f.subtract);
    assert!(!sys.cpu.registers.f.half_carry);
    sys.cpu.step();
    assert_eq!(sys.cpu.registers.b, 0x00);
    assert!(sys.cpu.registers.f.carry);
    assert!(sys.cpu.registers.f.zero);
}

#[test]
fn accumulator_rotates_force_z_clear() {
    // RLCA with A=0x00 keeps A=0 but Z stays 0.
    let mut sys = make_system();
    load_program(&mut sys, &[0x07]);
    sys.cpu.registers.a = 0x00;
    sys.cpu.registers.f.zero = true;
    sys.cpu.step();
    assert_eq!(sys.cpu.registers.a, 0x00);
    assert!(!sys.cpu.registers.f.zero);
}

#[test]
fn bit_test_sets_half_carry_keeps_carry() {
    // BIT 7,B with B=0x00: Z=1, N=0, H=1, C kept.
    let mut sys = make_system();
    load_program(&mut sys, &[0xCB, 0x78]);
    sys.cpu.registers.b = 0x00;
    sys.cpu.registers.f.carry = true;
    sys.cpu.step();
    assert!(sys.cpu.registers.f.zero);
    assert!(!sys.cpu.registers.f.subtract);
    assert!(sys.cpu.registers.f.half_carry);
    assert!(sys.cpu.registers.f.carry);
}

#[test]
fn res_and_set_touch_no_flags() {
    let mut sys = make_system();
    load_program(&mut sys, &[0xCB, 0x87, 0xCB, 0xC7]);
    sys.cpu.registers.a = 0xFF;
    let before = sys.cpu.registers.read_u8(gb_core::registers::Reg8::F);
    sys.cpu.step();
    assert_eq!(sys.cpu.registers.a, 0xFE);
    sys.cpu.step();
    assert_eq!(sys.cpu.registers.a, 0xFF);
    assert_eq!(sys.cpu.registers.read_u8(gb_core::registers::Reg8::F), before);
}

#[test]
fn loads_do_not_write_flags() {
    // LD B,C and LD (HL),A leave F bitwise unchanged.
    let mut sys = make_system();
    load_program(&mut sys, &[0x41, 0x77]);
    sys.cpu.registers.write_u16(gb_core::registers::Reg16::HL, 0xC100);
    sys.cpu.registers.f.zero = true;
    sys.cpu.registers.f.carry = true;
    let before = sys.cpu.registers.read_u8(gb_core::registers::Reg8::F);
    sys.cpu.step();
    sys.cpu.step();
    assert_eq!(sys.cpu.registers.read_u8(gb_core::registers::Reg8::F), before);
}

#[test]
fn adc_and_sbc_carry_chain() {
    // ADC A,0xFF with A=0x01 and C=1: result 0x01 with C=1, H=1.
    let mut sys = make_system();
    load_program(&mut sys, &[0xCE, 0xFF, 0xDE, 0x00]);
    sys.cpu.registers.a = 0x01;
    sys.cpu.registers.f.carry = true;
    sys.cpu.step();
    assert_eq!(sys.cpu.registers.a, 0x01);
    assert!(sys.cpu.registers.f.carry);
    assert!(sys.cpu.registers.f.half_carry);
    assert!(!sys.cpu.registers.f.zero);
    // SBC A,0x00 with C=1: 0x01 - 0 - 1 = 0x00, Z=1, C=0.
    sys.cpu.step();
    assert_eq!(sys.cpu.registers.a, 0x00);
    assert!(sys.cpu.registers.f.zero);
    assert!(!sys.cpu.registers.f.carry);
}

#[test]
fn add_hl_keeps_zero_flag() {
    // ADD HL,BC: Z unchanged, H from bit 12, C from 16-bit overflow.
    let mut sys = make_system();
    load_program(&mut sys, &[0x09]);
    sys.cpu.registers.write_u16(gb_core::registers::Reg16::HL, 0x8FFF);
    sys.cpu.registers.write_u16(gb_core::registers::Reg16::BC, 0x7001);
    sys.cpu.registers.f.zero = true;
    sys.cpu.step();
    assert_eq!(sys.cpu.registers.read_u16(gb_core::registers::Reg16::HL), 0x0000);
    assert!(sys.cpu.registers.f.zero);
    assert!(sys.cpu.registers.f.half_carry);
    assert!(sys.cpu.registers.f.carry);
    assert!(!sys.cpu.registers.f.subtract);
}

#[test]
fn inc_dec_keep_carry() {
    // INC A with A=0x0F: H=1; DEC A back: H from low nibble; C never touched.
    let mut sys = make_system();
    load_program(&mut sys, &[0x3C, 0x3D]);
    sys.cpu.registers.a = 0x0F;
    sys.cpu.registers.f.carry = true;
    sys.cpu.step();
    assert_eq!(sys.cpu.registers.a, 0x10);
    assert!(sys.cpu.registers.f.half_carry);
    assert!(sys.cpu.registers.f.carry);
    sys.cpu.step();
    assert_eq!(sys.cpu.registers.a, 0x0F);
    assert!(sys.cpu.registers.f.subtract);
    assert!(sys.cpu.registers.f.carry);
}

#[test]
fn conditional_jump_cycle_costs() {
    // JR NZ with Z=1 is not taken (8 clocks); with Z=0 taken (12 clocks).
    let mut sys = make_system();
    load_program(&mut sys, &[0x20, 0x05]);
    sys.cpu.registers.f.zero = true;
    assert_eq!(sys.cpu.step(), 8);
    assert_eq!(sys.cpu.registers.pc, 0xC002);
    load_program(&mut sys, &[0x20, 0x05]);
    sys.cpu.registers.f.zero = false;
    assert_eq!(sys.cpu.step(), 12);
    assert_eq!(sys.cpu.registers.pc, 0xC007);
}

#[test]
fn jr_backward_offset() {
    let mut sys = make_system();
    load_program(&mut sys, &[0x18, 0xFE]);  // JR -2: back to itself
    assert_eq!(sys.cpu.step(), 12);
    assert_eq!(sys.cpu.registers.pc, 0xC000);
}

#[test]
fn illegal_opcode_is_a_four_cycle_noop() {
    let mut sys = make_system();
    load_program(&mut sys, &[0xD3]);
    let f_before = sys.cpu.registers.read_u8(gb_core::registers::Reg8::F);
    let a_before = sys.cpu.registers.a;
    assert_eq!(sys.cpu.step(), 4);
    assert_eq!(sys.cpu.registers.pc, 0xC001);
    assert_eq!(sys.cpu.registers.a, a_before);
    assert_eq!(sys.cpu.registers.read_u8(gb_core::registers::Reg8::F), f_before);
}

#[test]
fn cpl_scf_ccf() {
    let mut sys = make_system();
    load_program(&mut sys, &[0x2F, 0x37, 0x3F]);
    sys.cpu.registers.a = 0x35;
    sys.cpu.step();
    assert_eq!(sys.cpu.registers.a, 0xCA);
    assert!(sys.cpu.registers.f.subtract);
    assert!(sys.cpu.registers.f.half_carry);
    sys.cpu.step();
    assert!(sys.cpu.registers.f.carry);
    assert!(!sys.cpu.registers.f.subtract);
    sys.cpu.step();
    assert!(!sys.cpu.registers.f.carry);
}

#[test]
fn ldi_ldd_move_hl() {
    let mut sys = make_system();
    load_program(&mut sys, &[0x22, 0x3A]);  // LDI (HL),A then LDD A,(HL)
    sys.cpu.registers.write_u16(gb_core::registers::Reg16::HL, 0xC200);
    sys.cpu.registers.a = 0x9C;
    sys.cpu.step();
    assert_eq!(sys.cpu.mmu.read(0xC200), 0x9C);
    assert_eq!(sys.cpu.registers.read_u16(gb_core::registers::Reg16::HL), 0xC201);
    sys.cpu.mmu.write(0xC201, 0x33);
    sys.cpu.step();
    assert_eq!(sys.cpu.registers.a, 0x33);
    assert_eq!(sys.cpu.registers.read_u16(gb_core::registers::Reg16::HL), 0xC200);
}

#[test]
fn zero_page_loads() {
    // LDH (n),A writes 0xFF00+n; LD A,(0xFF00+C) reads it back.
    let mut sys = make_system();
    load_program(&mut sys, &[0xE0, 0x80, 0xF2]);
    sys.cpu.registers.a = 0x42;
    sys.cpu.step();
    assert_eq!(sys.cpu.mmu.read(0xFF80), 0x42);
    sys.cpu.registers.c = 0x80;
    sys.cpu.registers.a = 0x00;
    sys.cpu.step();
    assert_eq!(sys.cpu.registers.a, 0x42);
}
