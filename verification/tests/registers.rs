use gb_core::registers::{Flags, Reg16, Reg8, Registers};

#[test]
fn power_on_register_state() {
    let r = Registers::new();
    assert_eq!(r.a, 0x11);
    assert_eq!(r.read_u8(Reg8::F), 0x80);
    assert_eq!(r.b, 0x00);
    assert_eq!(r.c, 0x00);
    assert_eq!(r.d, 0xFF);
    assert_eq!(r.e, 0x56);
    assert_eq!(r.h, 0x00);
    assert_eq!(r.l, 0x0D);
    assert_eq!(r.sp, 0xFFFE);
    assert_eq!(r.pc, 0x0100);
}

#[test]
fn pair_write_reads_back() {
    let mut r = Registers::new();
    r.write_u16(Reg16::BC, 0x1234);
    assert_eq!(r.read_u16(Reg16::BC), 0x1234);
    r.write_u16(Reg16::DE, 0xBEEF);
    assert_eq!(r.read_u16(Reg16::DE), 0xBEEF);
    r.write_u16(Reg16::HL, 0x0001);
    assert_eq!(r.read_u16(Reg16::HL), 0x0001);
    r.write_u16(Reg16::SP, 0xFFFF);
    assert_eq!(r.read_u16(Reg16::SP), 0xFFFF);
    r.write_u16(Reg16::PC, 0x8000);
    assert_eq!(r.read_u16(Reg16::PC), 0x8000);
}

#[test]
fn af_write_masks_low_nibble() {
    let mut r = Registers::new();
    r.write_u16(Reg16::AF, 0x12FF);
    assert_eq!(r.read_u16(Reg16::AF), 0x12F0);
    assert!(r.f.zero && r.f.subtract && r.f.half_carry && r.f.carry);
    r.write_u16(Reg16::AF, 0x3407);
    assert_eq!(r.read_u16(Reg16::AF), 0x3400);
}

#[test]
fn flag_register_byte_encoding() {
    let mut r = Registers::new();
    r.write_u8(Reg8::F, 0xB5);
    assert_eq!(r.read_u8(Reg8::F), 0xB0);
    assert!(r.f.zero);
    assert!(!r.f.subtract);
    assert!(r.f.half_carry);
    assert!(r.f.carry);
    let f = Flags { zero: false, subtract: true, half_carry: false, carry: true };
    assert_eq!(f.to_byte(), 0x50);
    assert_eq!(Flags::from_byte(0x50), f);
}

#[test]
fn eight_bit_register_access() {
    let mut r = Registers::new();
    r.write_u8(Reg8::B, 0xAB);
    assert_eq!(r.read_u8(Reg8::B), 0xAB);
    r.write_u8(Reg8::H, 0x12);
    r.write_u8(Reg8::L, 0x34);
    assert_eq!(r.read_u16(Reg16::HL), 0x1234);
}
