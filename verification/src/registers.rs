//! The register file: eight 8-bit registers (A, B, C, D, E, H, L and the flag
//! register F) plus the 16-bit SP and PC. The pairs AF, BC, DE and HL are
//! composite views; writing F through any path keeps only the upper nibble.

use vstd::prelude::*;
use crate::util::{bytes_to_word, lemma_word_decompose, spec_word, word_to_bytes};

verus! {

/// The four condition flags held in bits 7..4 of the F register.
#[derive(Clone, Copy, Debug, PartialEq, Eq, Structural)]
pub struct Flags {
    pub zero: bool,
    pub subtract: bool,
    pub half_carry: bool,
    pub carry: bool,
}

/// The byte encoding of the flag register: Z in bit 7, N in bit 6, H in bit 5,
/// C in bit 4; the low nibble is always zero.
pub open spec fn spec_flags_to_byte(f: Flags) -> u8 {
    (if f.zero { 0x80u8 } else { 0u8 }) | (if f.subtract { 0x40u8 } else { 0u8 })
        | (if f.half_carry { 0x20u8 } else { 0u8 }) | (if f.carry { 0x10u8 } else { 0u8 })
}

/// The flags encoded in bits 7..4 of a byte; the low nibble is ignored.
pub open spec fn spec_flags_from_byte(v: u8) -> Flags {
    Flags {
        zero: v & 0x80 != 0,
        subtract: v & 0x40 != 0,
        half_carry: v & 0x20 != 0,
        carry: v & 0x10 != 0,
    }
}

impl Flags {
    pub fn to_byte(&self) -> (r: u8)
        ensures
            r == spec_flags_to_byte(*self),
    {
        (if self.zero { 0x80u8 } else { 0u8 }) | (if self.subtract { 0x40u8 } else { 0u8 })
            | (if self.half_carry { 0x20u8 } else { 0u8 }) | (if self.carry { 0x10u8 } else { 0u8 })
    }

    pub fn from_byte(v: u8) -> (r: Flags)
        ensures
            r == spec_flags_from_byte(v),
    {
        Flags {
            zero: v & 0x80 != 0,
            subtract: v & 0x40 != 0,
            half_carry: v & 0x20 != 0,
            carry: v & 0x10 != 0,
        }
    }
}

/// Encoding flags and decoding them again is the identity.
pub proof fn lemma_flags_roundtrip(f: Flags)
    ensures
        spec_flags_from_byte(spec_flags_to_byte(f)) == f,
{
    let z = f.zero;
    let n = f.subtract;
    let h = f.half_carry;
    let c = f.carry;
    let b = spec_flags_to_byte(f);
    assert((b & 0x80 != 0) == z && (b & 0x40 != 0) == n && (b & 0x20 != 0) == h && (b & 0x10 != 0)
        == c) by (bit_vector)
        requires
            b == (if z { 0x80u8 } else { 0u8 }) | (if n { 0x40u8 } else { 0u8 })
                | (if h { 0x20u8 } else { 0u8 }) | (if c { 0x10u8 } else { 0u8 }),
    ;
}

/// Decoding a byte and encoding the flags again keeps exactly the upper nibble.
pub proof fn lemma_flags_byte_roundtrip(v: u8)
    ensures
        spec_flags_to_byte(spec_flags_from_byte(v)) == v & 0xF0,
{
    assert((if v & 0x80 != 0 { 0x80u8 } else { 0u8 }) | (if v & 0x40 != 0 { 0x40u8 } else { 0u8 })
        | (if v & 0x20 != 0 { 0x20u8 } else { 0u8 }) | (if v & 0x10 != 0 { 0x10u8 } else { 0u8 })
        == v & 0xF0) by (bit_vector);
}

/// Names for the 8-bit registers.
#[derive(Clone, Copy, Debug, PartialEq, Eq, Structural)]
pub enum Reg8 {
    A,
    B,
    C,
    D,
    E,
    F,
    H,
    L,
}

/// Names for the 16-bit registers and register pairs.
#[derive(Clone, Copy, Debug, PartialEq, Eq, Structural)]
pub enum Reg16 {
    AF,
    BC,
    DE,
    HL,
    SP,
    PC,
}

/// The register file.
#[derive(Clone, Copy, Debug, PartialEq, Eq, Structural)]
pub struct Registers {
    pub a: u8,
    pub b: u8,
    pub c: u8,
    pub d: u8,
    pub e: u8,
    pub f: Flags,
    pub h: u8,
    pub l: u8,
    pub sp: u16,
    pub pc: u16,
}

/// The value an 8-bit register read returns; F reads as its byte encoding.
pub open spec fn spec_reg_read8(r: Registers, reg: Reg8) -> u8 {
    match reg {
        Reg8::A => r.a,
        Reg8::B => r.b,
        Reg8::C => r.c,
        Reg8::D => r.d,
        Reg8::E => r.e,
        Reg8::F => spec_flags_to_byte(r.f),
        Reg8::H => r.h,
        Reg8::L => r.l,
    }
}

/// The register file after an 8-bit register write; a write to F keeps only
/// the upper nibble of the value.
pub open spec fn spec_reg_write8(r: Registers, reg: Reg8, v: u8) -> Registers {
    match reg {
        Reg8::A => Registers { a: v, ..r },
        Reg8::B => Registers { b: v, ..r },
        Reg8::C => Registers { c: v, ..r },
        Reg8::D => Registers { d: v, ..r },
        Reg8::E => Registers { e: v, ..r },
        Reg8::F => Registers { f: spec_flags_from_byte(v), ..r },
        Reg8::H => Registers { h: v, ..r },
        Reg8::L => Registers { l: v, ..r },
    }
}

/// The value a 16-bit read returns: the composite high:low pairs, or SP/PC.
pub open spec fn spec_reg_read16(r: Registers, reg: Reg16) -> u16 {
    match reg {
        Reg16::AF => spec_word(r.a, spec_flags_to_byte(r.f)),
        Reg16::BC => spec_word(r.b, r.c),
        Reg16::DE => spec_word(r.d, r.e),
        Reg16::HL => spec_word(r.h, r.l),
        Reg16::SP => r.sp,
        Reg16::PC => r.pc,
    }
}

/// The register file after a 16-bit write; writing AF keeps only the upper
/// nibble of the low byte.
pub open spec fn spec_reg_write16(r: Registers, reg: Reg16, v: u16) -> Registers {
    match reg {
        Reg16::AF => Registers {
            a: (v >> 8) as u8,
            f: spec_flags_from_byte((v as u8) & 0xF0),
            ..r
        },
        Reg16::BC => Registers { b: (v >> 8) as u8, c: v as u8, ..r },
        Reg16::DE => Registers { d: (v >> 8) as u8, e: v as u8, ..r },
        Reg16::HL => Registers { h: (v >> 8) as u8, l: v as u8, ..r },
        Reg16::SP => Registers { sp: v, ..r },
        Reg16::PC => Registers { pc: v, ..r },
    }
}

impl Registers {
    /// The power-on register state as a value.
    pub open spec fn new_spec() -> Registers {
        Registers {
            a: 0x11,
            b: 0x00,
            c: 0x00,
            d: 0xFF,
            e: 0x56,
            f: Flags { zero: true, subtract: false, half_carry: false, carry: false },
            h: 0x00,
            l: 0x0D,
            pc: 0x100,
            sp: 0xFFFE,
        }
    }

    /// The power-on register state, as the boot ROM of the console variant
    /// this core models leaves it: AF=0x1180, BC=0x0000, DE=0xFF56,
    /// HL=0x000D, SP=0xFFFE, PC=0x0100.
    pub fn new() -> (r: Registers)
        ensures
            r == Registers::new_spec(),
            r.a == 0x11,
            r.b == 0,
            r.c == 0,
            r.d == 0xFF,
            r.e == 0x56,
            r.f == (Flags { zero: true, subtract: false, half_carry: false, carry: false }),
            r.h == 0,
            r.l == 0x0D,
            r.pc == 0x100,
            r.sp == 0xFFFE,
    {
        Registers {
            a: 0x11,
            b: 0x00,
            c: 0x00,
            d: 0xFF,
            e: 0x56,
            f: Flags { zero: true, subtract: false, half_carry: false, carry: false },
            h: 0x00,
            l: 0x0D,
            pc: 0x100,
            sp: 0xFFFE,
        }
    }

    pub fn read_u8(&self, reg: Reg8) -> (v: u8)
        ensures
            v == spec_reg_read8(*self, reg),
    {
        match reg {
            Reg8::A => self.a,
            Reg8::B => self.b,
            Reg8::C => self.c,
            Reg8::D => self.d,
            Reg8::E => self.e,
            Reg8::F => self.f.to_byte(),
            Reg8::H => self.h,
            Reg8::L => self.l,
        }
    }

    pub fn write_u8(&mut self, reg: Reg8, value: u8)
        ensures
            *final(self) == spec_reg_write8(*old(self), reg, value),
    {
        match reg {
            Reg8::A => self.a = value,
            Reg8::B => self.b = value,
            Reg8::C => self.c = value,
            Reg8::D => self.d = value,
            Reg8::E => self.e = value,
            Reg8::F => self.f = Flags::from_byte(value),
            Reg8::H => self.h = value,
            Reg8::L => self.l = value,
        }
    }

    pub fn read_u16(&self, reg: Reg16) -> (v: u16)
        ensures
            v == spec_reg_read16(*self, reg),
    {
        match reg {
            Reg16::AF => self.af(),
            Reg16::BC => self.bc(),
            Reg16::DE => self.de(),
            Reg16::HL => self.hl(),
            Reg16::SP => self.sp,
            Reg16::PC => self.pc,
        }
    }

    pub fn write_u16(&mut self, reg: Reg16, value: u16)
        ensures
            *final(self) == spec_reg_write16(*old(self), reg, value),
    {
        match reg {
            Reg16::AF => self.set_af(value),
            Reg16::BC => self.set_bc(value),
            Reg16::DE => self.set_de(value),
            Reg16::HL => self.set_hl(value),
            Reg16::SP => self.sp = value,
            Reg16::PC => self.pc = value,
        }
    }

    fn af(&self) -> (v: u16)
        ensures
            v == spec_reg_read16(*self, Reg16::AF),
    {
        bytes_to_word(self.a, self.f.to_byte())
    }

    fn bc(&self) -> (v: u16)
        ensures
            v == spec_reg_read16(*self, Reg16::BC),
    {
        bytes_to_word(self.b, self.c)
    }

    fn de(&self) -> (v: u16)
        ensures
            v == spec_reg_read16(*self, Reg16::DE),
    {
        bytes_to_word(self.d, self.e)
    }

    fn hl(&self) -> (v: u16)
        ensures
            v == spec_reg_read16(*self, Reg16::HL),
    {
        bytes_to_word(self.h, self.l)
    }

    fn set_af(&mut self, value: u16)
        ensures
            *final(self) == spec_reg_write16(*old(self), Reg16::AF, value),
    {
        let (a, f) = word_to_bytes(value);
        self.a = a;
        self.f = Flags::from_byte(f & 0xF0);
    }

    fn set_bc(&mut self, value: u16)
        ensures
            *final(self) == spec_reg_write16(*old(self), Reg16::BC, value),
    {
        let (b, c) = word_to_bytes(value);
        self.b = b;
        self.c = c;
    }

    fn set_de(&mut self, value: u16)
        ensures
            *final(self) == spec_reg_write16(*old(self), Reg16::DE, value),
    {
        let (d, e) = word_to_bytes(value);
        self.d = d;
        self.e = e;
    }

    fn set_hl(&mut self, value: u16)
        ensures
            *final(self) == spec_reg_write16(*old(self), Reg16::HL, value),
    {
        let (h, l) = word_to_bytes(value);
        self.h = h;
        self.l = l;
    }
}

/// Reading a pair right after writing it returns the written value, except
/// that AF reads back with the low nibble of F cleared.
pub proof fn lemma_write16_read16(r: Registers, reg: Reg16, v: u16)
    ensures
        reg != Reg16::AF ==> spec_reg_read16(spec_reg_write16(r, reg, v), reg) == v,
        reg == Reg16::AF ==> spec_reg_read16(spec_reg_write16(r, reg, v), reg) == v & 0xFFF0,
{
    match reg {
        Reg16::AF => {
            lemma_flags_byte_roundtrip((v as u8) & 0xF0);
            assert(((v as u8) & 0xF0) & 0xF0 == (v as u8) & 0xF0) by (bit_vector);
            assert(spec_word((v >> 8) as u8, (v as u8) & 0xF0) == v & 0xFFF0) by (bit_vector);
        },
        Reg16::BC => {
            crate::util::lemma_word_roundtrip(v);
        },
        Reg16::DE => {
            crate::util::lemma_word_roundtrip(v);
        },
        Reg16::HL => {
            crate::util::lemma_word_roundtrip(v);
        },
        Reg16::SP => {},
        Reg16::PC => {},
    }
}

} // verus!
