use gb_core::instructions::{Instruction, Opcode};
use gb_core::registers::Reg16;
use gb_core::system::System;

fn make_system() -> System {
    let mut rom = vec![0u8; 0x8000];
    rom[0x147] = 0;
    System::new(None, rom).unwrap()
}

fn load_program(sys: &mut System, program: &[u8]) {
    let base: u16 = 0xC000;
    for (i, b) in program.iter().enumerate() {
        sys.cpu.mmu.write(base + i as u16, *b);
    }
    sys.cpu.registers.pc = base;
}

#[test]
fn ld16_immediate_words() {
    let mut sys = make_system();
    load_program(&mut sys, &[0x01, 0x34, 0x12, 0x31, 0xFE, 0xDF]);
    assert_eq!(sys.cpu.step(), 12);  // LD BC,0x1234
    assert_eq!(sys.cpu.registers.read_u16(Reg16::BC), 0x1234);
    assert_eq!(sys.cpu.step(), 12);  // LD SP,0xDFFE
    assert_eq!(sys.cpu.registers.sp, 0xDFFE);
}

#[test]
fn and_or_xor_flags() {
    let mut sys = make_system();
    load_program(&mut sys, &[0xE6, 0x0F, 0xF6, 0x55, 0xAF]);
    sys.cpu.registers.a = 0xF0;
    sys.cpu.step();  // AND 0x0F -> 0x00
    assert_eq!(sys.cpu.registers.a, 0x00);
    assert!(sys.cpu.registers.f.zero);
    assert!(sys.cpu.registers.f.half_carry);
    assert!(!sys.cpu.registers.f.carry);
    assert!(!sys.cpu.registers.f.subtract);
    sys.cpu.step();  // OR 0x55 -> 0x55
    assert_eq!(sys.cpu.registers.a, 0x55);
    assert!(!sys.cpu.registers.f.zero);
    assert!(!sys.cpu.registers.f.half_carry);
    sys.cpu.step();  // XOR A -> 0x00
    assert_eq!(sys.cpu.registers.a, 0x00);
    assert!(sys.cpu.registers.f.zero);
}

#[test]
fn cp_compares_without_writing() {
    let mut sys = make_system();
    load_program(&mut sys, &[0xFE, 0x20]);
    sys.cpu.registers.a = 0x10;
    sys.cpu.step();
    assert_eq!(sys.cpu.registers.a, 0x10);
    assert!(!sys.cpu.registers.f.zero);
    assert!(sys.cpu.registers.f.subtract);
    assert!(!sys.cpu.registers.f.half_carry);
    assert!(sys.cpu.registers.f.carry);
}

#[test]
fn inc_memory_operand() {
    let mut sys = make_system();
    load_program(&mut sys, &[0x34]);  // INC (HL)
    sys.cpu.registers.write_u16(Reg16::HL, 0xC150);
    sys.cpu.mmu.write(0xC150, 0x0F);
    assert_eq!(sys.cpu.step(), 12);
    assert_eq!(sys.cpu.mmu.read(0xC150), 0x10);
    assert!(sys.cpu.registers.f.half_carry);
    assert!(!sys.cpu.registers.f.zero);
}

#[test]
fn stop_advances_past_its_byte() {
    let mut sys = make_system();
    load_program(&mut sys, &[0x10, 0x00]);
    let a = sys.cpu.registers.a;
    assert_eq!(sys.cpu.step(), 4);
    assert_eq!(sys.cpu.registers.pc, 0xC001);
    assert_eq!(sys.cpu.registers.a, a);
}

#[test]
fn descriptors_name_their_opcodes() {
    let nop = Instruction::get_instruction(Opcode::Unprefixed(0x00)).unwrap();
    assert_eq!(nop.mnemonic, "NOP");
    assert_eq!(nop.c_cycles, 4);
    assert_eq!(nop.conditional_c_cycles, None);
    let jr_nz = Instruction::get_instruction(Opcode::Unprefixed(0x20)).unwrap();
    assert_eq!(jr_nz.c_cycles, 8);
    assert_eq!(jr_nz.conditional_c_cycles, Some(12));
    let rlc_b = Instruction::get_instruction(Opcode::Prefixed(0x00)).unwrap();
    assert_eq!(rlc_b.mnemonic, "RLC B");
    assert_eq!(rlc_b.c_cycles, 8);
    assert!(Instruction::get_instruction(Opcode::Unprefixed(0xD3)).is_none());
    assert!(Instruction::get_instruction(Opcode::Unprefixed(0xCB)).is_none());
}

#[test]
fn sra_keeps_sign_bit() {
    let mut sys = make_system();
    load_program(&mut sys, &[0xCB, 0x2F]);  // SRA A
    sys.cpu.registers.a = 0x81;
    sys.cpu.step();
    assert_eq!(sys.cpu.registers.a, 0xC0);
    assert!(sys.cpu.registers.f.carry);
    assert!(!sys.cpu.registers.f.zero);
}

#[test]
fn swap_exchanges_nibbles() {
    let mut sys = make_system();
    load_program(&mut sys, &[0xCB, 0x37]);  // SWAP A
    sys.cpu.registers.a = 0x5A;
    sys.cpu.registers.f.carry = true;
    sys.cpu.step();
    assert_eq!(sys.cpu.registers.a, 0xA5);
    assert!(!sys.cpu.registers.f.carry);
    assert!(!sys.cpu.registers.f.zero);
}

#[test]
fn add_sp_signed_offset() {
    let mut sys = make_system();
    load_program(&mut sys, &[0xE8, 0xFE]);  // ADD SP,-2
    sys.cpu.registers.sp = 0xDFFE;
    assert_eq!(sys.cpu.step(), 16);
    assert_eq!(sys.cpu.registers.sp, 0xDFFC);
}
