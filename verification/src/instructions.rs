//! Opcode decoding: the instruction descriptors (mnemonic and cycle costs)
//! for the unprefixed and the CB-prefixed tables, and the dispatch that
//! executes an opcode against the CPU. The eleven hard-illegal opcodes have
//! no descriptor and execute as four-cycle no-ops rather than locking up.

use vstd::prelude::*;
use crate::cpu::{spec_cpu_wf, Cpu, CpuV, Operand16, Operand8};
use crate::operations;
use crate::operations::{
    spec_add16_op, spec_add_op, spec_add_sp, spec_adc_op, spec_and_op, spec_bit_op, spec_call,
    spec_ccf, spec_cp_op, spec_cpl, spec_daa, spec_dec, spec_dec16, spec_di, spec_ei, spec_halt,
    spec_inc, spec_inc16, spec_jp, spec_jr, spec_ld, spec_ld16, spec_ldd, spec_ldhl, spec_ldi,
    spec_or_op, spec_pop_op, spec_push_op, spec_res_op, spec_ret, spec_reti, spec_rl, spec_rla,
    spec_rlc, spec_rlca, spec_rr, spec_rra, spec_rrc, spec_rrca, spec_rst, spec_sbc_op,
    spec_scf, spec_set_op, spec_sla, spec_sra, spec_srl, spec_sub_op, spec_swap, spec_xor_op,
};
use crate::registers::{Flags, Reg16, Reg8};

verus! {

/// An opcode byte, either from the plain table or following the 0xCB prefix.
#[derive(Clone, Copy, Debug, PartialEq, Eq, Structural)]
pub enum Opcode {
    Unprefixed(u8),
    Prefixed(u8),
}

/// What an instruction's execution reports back for cycle accounting: the
/// base cost, or the conditional (branch-taken) cost.
#[derive(Clone, Copy, Debug, PartialEq, Eq, Structural)]
pub enum Timing {
    Normal,
    Conditionnal,
    Prefixed,
}

/// The branch conditions of jumps, calls and returns.
#[derive(Clone, Copy, Debug, PartialEq, Eq, Structural)]
pub enum Condition {
    Unconditional,
    NotZero,
    Zero,
    NotCarry,
    Carry,
}

/// Whether a condition holds of a flag state.
pub open spec fn spec_cond_eval(cond: Condition, f: Flags) -> bool {
    match cond {
        Condition::Unconditional => true,
        Condition::NotZero => !f.zero,
        Condition::Zero => f.zero,
        Condition::NotCarry => !f.carry,
        Condition::Carry => f.carry,
    }
}

impl Condition {
    pub fn eval(self, cpu: &Cpu) -> (r: bool)
        ensures
            r == spec_cond_eval(self, cpu@.registers.f),
    {
        match self {
            Condition::Unconditional => true,
            Condition::NotZero => !cpu.registers.f.zero,
            Condition::Zero => cpu.registers.f.zero,
            Condition::NotCarry => !cpu.registers.f.carry,
            Condition::Carry => cpu.registers.f.carry,
        }
    }
}

/// A static instruction descriptor: the clock cost, the higher cost charged
/// when a conditional branch is taken, and the mnemonic.
pub struct Instruction {
    pub c_cycles: u8,
    pub conditional_c_cycles: Option<u8>,
    pub mnemonic: &'static str,
}

/// The opcodes that lock up the hardware; this core gives them no descriptor
/// and executes them as no-ops.
pub open spec fn spec_is_illegal_unprefixed(op: u8) -> bool {

    op == 0xD3 || op == 0xDB || op == 0xDD || op == 0xE3 || op == 0xE4 || op == 0xEB || op == 0xEC || op == 0xED || op == 0xF4 || op == 0xFC || op == 0xFD
}

/// Whether an unprefixed opcode has a descriptor: the prefix byte 0xCB and
/// the hard-illegal opcodes have none.
pub open spec fn spec_unprefixed_has_descriptor(op: u8) -> bool {
    !spec_is_illegal_unprefixed(op) && op != 0xCB
}

/// The clock cost of each unprefixed opcode, with the branch-taken cost
/// where one exists; the descriptorless opcodes cost the four-cycle no-op.
#[verifier::opaque]
pub open spec fn spec_unprefixed_cycles(op: u8) -> (u8, Option<u8>) {
    match op {
        0x00 => (4, None),
        0x01 => (12, None),
        0x02 => (8, None),
        0x03 => (8, None),
        0x04 => (4, None),
        0x05 => (4, None),
        0x06 => (8, None),
        0x07 => (4, None),
        0x08 => (20, None),
        0x09 => (8, None),
        0x0A => (8, None),
        0x0B => (8, None),
        0x0C => (4, None),
        0x0D => (4, None),
        0x0E => (8, None),
        0x0F => (4, None),
        0x10 => (4, None),
        0x11 => (12, None),
        0x12 => (8, None),
        0x13 => (8, None),
        0x14 => (4, None),
        0x15 => (4, None),
        0x16 => (8, None),
        0x17 => (4, None),
        0x18 => (12, None),
        0x19 => (8, None),
        0x1A => (8, None),
        0x1B => (8, None),
        0x1C => (4, None),
        0x1D => (4, None),
        0x1E => (8, None),
        0x1F => (4, None),
        0x20 => (8, Some(12)),
        0x21 => (12, None),
        0x22 => (8, None),
        0x23 => (8, None),
        0x24 => (4, None),
        0x25 => (4, None),
        0x26 => (8, None),
        0x27 => (4, None),
        0x28 => (8, Some(12)),
        0x29 => (8, None),
        0x2A => (8, None),
        0x2B => (8, None),
        0x2C => (4, None),
        0x2D => (4, None),
        0x2E => (8, None),
        0x2F => (4, None),
        0x30 => (8, Some(12)),
        0x31 => (12, None),
        0x32 => (8, None),
        0x33 => (8, None),
        0x34 => (12, None),
        0x35 => (12, None),
        0x36 => (12, None),
        0x37 => (4, None),
        0x38 => (8, Some(12)),
        0x39 => (8, None),
        0x3A => (8, None),
        0x3B => (8, None),
        0x3C => (4, None),
        0x3D => (4, None),
        0x3E => (8, None),
        0x3F => (4, None),
        0x40 => (4, None),
        0x41 => (4, None),
        0x42 => (4, None),
        0x43 => (4, None),
        0x44 => (4, None),
        0x45 => (4, None),
        0x46 => (8, None),
        0x47 => (4, None),
        0x48 => (4, None),
        0x49 => (4, None),
        0x4A => (4, None),
        0x4B => (4, None),
        0x4C => (4, None),
        0x4D => (4, None),
        0x4E => (8, None),
        0x4F => (4, None),
        0x50 => (4, None),
        0x51 => (4, None),
        0x52 => (4, None),
        0x53 => (4, None),
        0x54 => (4, None),
        0x55 => (4, None),
        0x56 => (8, None),
        0x57 => (4, None),
        0x58 => (4, None),
        0x59 => (4, None),
        0x5A => (4, None),
        0x5B => (4, None),
        0x5C => (4, None),
        0x5D => (4, None),
        0x5E => (8, None),
        0x5F => (4, None),
        0x60 => (4, None),
        0x61 => (4, None),
        0x62 => (4, None),
        0x63 => (4, None),
        0x64 => (4, None),
        0x65 => (4, None),
        0x66 => (8, None),
        0x67 => (4, None),
        0x68 => (4, None),
        0x69 => (4, None),
        0x6A => (4, None),
        0x6B => (4, None),
        0x6C => (4, None),
        0x6D => (4, None),
        0x6E => (8, None),
        0x6F => (4, None),
        0x70 => (8, None),
        0x71 => (8, None),
        0x72 => (8, None),
        0x73 => (8, None),
        0x74 => (8, None),
        0x75 => (8, None),
        0x76 => (4, None),
        0x77 => (8, None),
        0x78 => (4, None),
        0x79 => (4, None),
        0x7A => (4, None),
        0x7B => (4, None),
        0x7C => (4, None),
        0x7D => (4, None),
        0x7E => (8, None),
        0x7F => (4, None),
        0x80 => (4, None),
        0x81 => (4, None),
        0x82 => (4, None),
        0x83 => (4, None),
        0x84 => (4, None),
        0x85 => (4, None),
        0x86 => (8, None),
        0x87 => (4, None),
        0x88 => (4, None),
        0x89 => (4, None),
        0x8A => (4, None),
        0x8B => (4, None),
        0x8C => (4, None),
        0x8D => (4, None),
        0x8E => (8, None),
        0x8F => (4, None),
        0x90 => (4, None),
        0x91 => (4, None),
        0x92 => (4, None),
        0x93 => (4, None),
        0x94 => (4, None),
        0x95 => (4, None),
        0x96 => (8, None),
        0x97 => (4, None),
        0x98 => (4, None),
        0x99 => (4, None),
        0x9A => (4, None),
        0x9B => (4, None),
        0x9C => (4, None),
        0x9D => (4, None),
        0x9E => (8, None),
        0x9F => (4, None),
        0xA0 => (4, None),
        0xA1 => (4, None),
        0xA2 => (4, None),
        0xA3 => (4, None),
        0xA4 => (4, None),
        0xA5 => (4, None),
        0xA6 => (8, None),
        0xA7 => (4, None),
        0xA8 => (4, None),
        0xA9 => (4, None),
        0xAA => (4, None),
        0xAB => (4, None),
        0xAC => (4, None),
        0xAD => (4, None),
        0xAE => (8, None),
        0xAF => (4, None),
        0xB0 => (4, None),
        0xB1 => (4, None),
        0xB2 => (4, None),
        0xB3 => (4, None),
        0xB4 => (4, None),
        0xB5 => (4, None),
        0xB6 => (8, None),
        0xB7 => (4, None),
        0xB8 => (4, None),
        0xB9 => (4, None),
        0xBA => (4, None),
        0xBB => (4, None),
        0xBC => (4, None),
        0xBD => (4, None),
        0xBE => (8, None),
        0xBF => (4, None),
        0xC0 => (8, Some(20)),
        0xC1 => (12, None),
        0xC2 => (12, Some(16)),
        0xC3 => (16, None),
        0xC4 => (12, Some(24)),
        0xC5 => (16, None),
        0xC6 => (8, None),
        0xC7 => (16, None),
        0xC8 => (8, Some(20)),
        0xC9 => (16, None),
        0xCA => (12, Some(16)),
        0xCC => (12, Some(24)),
        0xCD => (24, None),
        0xCE => (8, None),
        0xCF => (16, None),
        0xD0 => (8, Some(20)),
        0xD1 => (12, None),
        0xD2 => (12, Some(16)),
        0xD4 => (12, Some(24)),
        0xD5 => (16, None),
        0xD6 => (8, None),
        0xD7 => (16, None),
        0xD8 => (8, Some(20)),
        0xD9 => (16, None),
        0xDA => (12, Some(16)),
        0xDC => (12, Some(24)),
        0xDE => (8, None),
        0xDF => (16, None),
        0xE0 => (12, None),
        0xE1 => (12, None),
        0xE2 => (8, None),
        0xE5 => (16, None),
        0xE6 => (8, None),
        0xE7 => (16, None),
        0xE8 => (16, None),
        0xE9 => (4, None),
        0xEA => (16, None),
        0xEE => (8, None),
        0xEF => (16, None),
        0xF0 => (12, None),
        0xF1 => (12, None),
        0xF2 => (8, None),
        0xF3 => (4, None),
        0xF5 => (16, None),
        0xF6 => (8, None),
        0xF7 => (16, None),
        0xF8 => (12, None),
        0xF9 => (8, None),
        0xFA => (16, None),
        0xFB => (4, None),
        0xFE => (8, None),
        0xFF => (16, None),
        _ => (4, None),
    }
}

/// The clock cost of each CB-prefixed opcode.
#[verifier::opaque]
pub open spec fn spec_prefixed_cycles(op: u8) -> (u8, Option<u8>) {
    match op {
        0x00 => (8, None),
        0x01 => (8, None),
        0x02 => (8, None),
        0x03 => (8, None),
        0x04 => (8, None),
        0x05 => (8, None),
        0x06 => (16, None),
        0x07 => (8, None),
        0x08 => (8, None),
        0x09 => (8, None),
        0x0A => (8, None),
        0x0B => (8, None),
        0x0C => (8, None),
        0x0D => (8, None),
        0x0E => (16, None),
        0x0F => (8, None),
        0x10 => (8, None),
        0x11 => (8, None),
        0x12 => (8, None),
        0x13 => (8, None),
        0x14 => (8, None),
        0x15 => (8, None),
        0x16 => (16, None),
        0x17 => (8, None),
        0x18 => (8, None),
        0x19 => (8, None),
        0x1A => (8, None),
        0x1B => (8, None),
        0x1C => (8, None),
        0x1D => (8, None),
        0x1E => (16, None),
        0x1F => (8, None),
        0x20 => (8, None),
        0x21 => (8, None),
        0x22 => (8, None),
        0x23 => (8, None),
        0x24 => (8, None),
        0x25 => (8, None),
        0x26 => (16, None),
        0x27 => (8, None),
        0x28 => (8, None),
        0x29 => (8, None),
        0x2A => (8, None),
        0x2B => (8, None),
        0x2C => (8, None),
        0x2D => (8, None),
        0x2E => (16, None),
        0x2F => (8, None),
        0x30 => (8, None),
        0x31 => (8, None),
        0x32 => (8, None),
        0x33 => (8, None),
        0x34 => (8, None),
        0x35 => (8, None),
        0x36 => (16, None),
        0x37 => (8, None),
        0x38 => (8, None),
        0x39 => (8, None),
        0x3A => (8, None),
        0x3B => (8, None),
        0x3C => (8, None),
        0x3D => (8, None),
        0x3E => (16, None),
        0x3F => (8, None),
        0x40 => (8, None),
        0x41 => (8, None),
        0x42 => (8, None),
        0x43 => (8, None),
        0x44 => (8, None),
        0x45 => (8, None),
        0x46 => (12, None),
        0x47 => (8, None),
        0x48 => (8, None),
        0x49 => (8, None),
        0x4A => (8, None),
        0x4B => (8, None),
        0x4C => (8, None),
        0x4D => (8, None),
        0x4E => (12, None),
        0x4F => (8, None),
        0x50 => (8, None),
        0x51 => (8, None),
        0x52 => (8, None),
        0x53 => (8, None),
        0x54 => (8, None),
        0x55 => (8, None),
        0x56 => (12, None),
        0x57 => (8, None),
        0x58 => (8, None),
        0x59 => (8, None),
        0x5A => (8, None),
        0x5B => (8, None),
        0x5C => (8, None),
        0x5D => (8, None),
        0x5E => (12, None),
        0x5F => (8, None),
        0x60 => (8, None),
        0x61 => (8, None),
        0x62 => (8, None),
        0x63 => (8, None),
        0x64 => (8, None),
        0x65 => (8, None),
        0x66 => (12, None),
        0x67 => (8, None),
        0x68 => (8, None),
        0x69 => (8, None),
        0x6A => (8, None),
        0x6B => (8, None),
        0x6C => (8, None),
        0x6D => (8, None),
        0x6E => (12, None),
        0x6F => (8, None),
        0x70 => (8, None),
        0x71 => (8, None),
        0x72 => (8, None),
        0x73 => (8, None),
        0x74 => (8, None),
        0x75 => (8, None),
        0x76 => (12, None),
        0x77 => (8, None),
        0x78 => (8, None),
        0x79 => (8, None),
        0x7A => (8, None),
        0x7B => (8, None),
        0x7C => (8, None),
        0x7D => (8, None),
        0x7E => (12, None),
        0x7F => (8, None),
        0x80 => (8, None),
        0x81 => (8, None),
        0x82 => (8, None),
        0x83 => (8, None),
        0x84 => (8, None),
        0x85 => (8, None),
        0x86 => (16, None),
        0x87 => (8, None),
        0x88 => (8, None),
        0x89 => (8, None),
        0x8A => (8, None),
        0x8B => (8, None),
        0x8C => (8, None),
        0x8D => (8, None),
        0x8E => (16, None),
        0x8F => (8, None),
        0x90 => (8, None),
        0x91 => (8, None),
        0x92 => (8, None),
        0x93 => (8, None),
        0x94 => (8, None),
        0x95 => (8, None),
        0x96 => (16, None),
        0x97 => (8, None),
        0x98 => (8, None),
        0x99 => (8, None),
        0x9A => (8, None),
        0x9B => (8, None),
        0x9C => (8, None),
        0x9D => (8, None),
        0x9E => (16, None),
        0x9F => (8, None),
        0xA0 => (8, None),
        0xA1 => (8, None),
        0xA2 => (8, None),
        0xA3 => (8, None),
        0xA4 => (8, None),
        0xA5 => (8, None),
        0xA6 => (16, None),
        0xA7 => (8, None),
        0xA8 => (8, None),
        0xA9 => (8, None),
        0xAA => (8, None),
        0xAB => (8, None),
        0xAC => (8, None),
        0xAD => (8, None),
        0xAE => (16, None),
        0xAF => (8, None),
        0xB0 => (8, None),
        0xB1 => (8, None),
        0xB2 => (8, None),
        0xB3 => (8, None),
        0xB4 => (8, None),
        0xB5 => (8, None),
        0xB6 => (16, None),
        0xB7 => (8, None),
        0xB8 => (8, None),
        0xB9 => (8, None),
        0xBA => (8, None),
        0xBB => (8, None),
        0xBC => (8, None),
        0xBD => (8, None),
        0xBE => (16, None),
        0xBF => (8, None),
        0xC0 => (8, None),
        0xC1 => (8, None),
        0xC2 => (8, None),
        0xC3 => (8, None),
        0xC4 => (8, None),
        0xC5 => (8, None),
        0xC6 => (16, None),
        0xC7 => (8, None),
        0xC8 => (8, None),
        0xC9 => (8, None),
        0xCA => (8, None),
        0xCB => (8, None),
        0xCC => (8, None),
        0xCD => (8, None),
        0xCE => (16, None),
        0xCF => (8, None),
        0xD0 => (8, None),
        0xD1 => (8, None),
        0xD2 => (8, None),
        0xD3 => (8, None),
        0xD4 => (8, None),
        0xD5 => (8, None),
        0xD6 => (16, None),
        0xD7 => (8, None),
        0xD8 => (8, None),
        0xD9 => (8, None),
        0xDA => (8, None),
        0xDB => (8, None),
        0xDC => (8, None),
        0xDD => (8, None),
        0xDE => (16, None),
        0xDF => (8, None),
        0xE0 => (8, None),
        0xE1 => (8, None),
        0xE2 => (8, None),
        0xE3 => (8, None),
        0xE4 => (8, None),
        0xE5 => (8, None),
        0xE6 => (16, None),
        0xE7 => (8, None),
        0xE8 => (8, None),
        0xE9 => (8, None),
        0xEA => (8, None),
        0xEB => (8, None),
        0xEC => (8, None),
        0xED => (8, None),
        0xEE => (16, None),
        0xEF => (8, None),
        0xF0 => (8, None),
        0xF1 => (8, None),
        0xF2 => (8, None),
        0xF3 => (8, None),
        0xF4 => (8, None),
        0xF5 => (8, None),
        0xF6 => (16, None),
        0xF7 => (8, None),
        0xF8 => (8, None),
        0xF9 => (8, None),
        0xFA => (8, None),
        0xFB => (8, None),
        0xFC => (8, None),
        0xFD => (8, None),
        0xFE => (16, None),
        _ => (8, None),
    }
}

/// The CPU after an unprefixed opcode executes, with its timing tag; the
/// descriptorless opcodes leave the CPU unchanged. Split into rows of 16.
#[verifier::opaque]
pub open spec fn spec_execute_unprefixed_x00(c: CpuV, op: u8) -> (CpuV, Timing) {
    match op {
        0x00 => (c, Timing::Normal),
        0x01 => spec_ld16(c, Operand16::Reg(Reg16::BC), Operand16::Imm),
        0x02 => spec_ld(c, Operand8::Ind(Reg16::BC), Operand8::Reg(Reg8::A)),
        0x03 => spec_inc16(c, Reg16::BC),
        0x04 => spec_inc(c, Operand8::Reg(Reg8::B)),
        0x05 => spec_dec(c, Operand8::Reg(Reg8::B)),
        0x06 => spec_ld(c, Operand8::Reg(Reg8::B), Operand8::Imm),
        0x07 => spec_rlca(c),
        0x08 => spec_ld16(c, Operand16::IndImm, Operand16::Reg(Reg16::SP)),
        0x09 => spec_add16_op(c, Reg16::HL, Reg16::BC),
        0x0A => spec_ld(c, Operand8::Reg(Reg8::A), Operand8::Ind(Reg16::BC)),
        0x0B => spec_dec16(c, Reg16::BC),
        0x0C => spec_inc(c, Operand8::Reg(Reg8::C)),
        0x0D => spec_dec(c, Operand8::Reg(Reg8::C)),
        0x0E => spec_ld(c, Operand8::Reg(Reg8::C), Operand8::Imm),
        _ => spec_rrca(c),
    }
}

#[verifier::opaque]
pub open spec fn spec_execute_unprefixed_x10(c: CpuV, op: u8) -> (CpuV, Timing) {
    match op {
        0x10 => (c, Timing::Normal),
        0x11 => spec_ld16(c, Operand16::Reg(Reg16::DE), Operand16::Imm),
        0x12 => spec_ld(c, Operand8::Ind(Reg16::DE), Operand8::Reg(Reg8::A)),
        0x13 => spec_inc16(c, Reg16::DE),
        0x14 => spec_inc(c, Operand8::Reg(Reg8::D)),
        0x15 => spec_dec(c, Operand8::Reg(Reg8::D)),
        0x16 => spec_ld(c, Operand8::Reg(Reg8::D), Operand8::Imm),
        0x17 => spec_rla(c),
        0x18 => spec_jr(c, Condition::Unconditional, Operand8::Imm),
        0x19 => spec_add16_op(c, Reg16::HL, Reg16::DE),
        0x1A => spec_ld(c, Operand8::Reg(Reg8::A), Operand8::Ind(Reg16::DE)),
        0x1B => spec_dec16(c, Reg16::DE),
        0x1C => spec_inc(c, Operand8::Reg(Reg8::E)),
        0x1D => spec_dec(c, Operand8::Reg(Reg8::E)),
        0x1E => spec_ld(c, Operand8::Reg(Reg8::E), Operand8::Imm),
        _ => spec_rra(c),
    }
}

#[verifier::opaque]
pub open spec fn spec_execute_unprefixed_x20(c: CpuV, op: u8) -> (CpuV, Timing) {
    match op {
        0x20 => spec_jr(c, Condition::NotZero, Operand8::Imm),
        0x21 => spec_ld16(c, Operand16::Reg(Reg16::HL), Operand16::Imm),
        0x22 => spec_ldi(c, Operand8::Ind(Reg16::HL), Operand8::Reg(Reg8::A), Reg16::HL),
        0x23 => spec_inc16(c, Reg16::HL),
        0x24 => spec_inc(c, Operand8::Reg(Reg8::H)),
        0x25 => spec_dec(c, Operand8::Reg(Reg8::H)),
        0x26 => spec_ld(c, Operand8::Reg(Reg8::H), Operand8::Imm),
        0x27 => spec_daa(c),
        0x28 => spec_jr(c, Condition::Zero, Operand8::Imm),
        0x29 => spec_add16_op(c, Reg16::HL, Reg16::HL),
        0x2A => spec_ldi(c, Operand8::Reg(Reg8::A), Operand8::Ind(Reg16::HL), Reg16::HL),
        0x2B => spec_dec16(c, Reg16::HL),
        0x2C => spec_inc(c, Operand8::Reg(Reg8::L)),
        0x2D => spec_dec(c, Operand8::Reg(Reg8::L)),
        0x2E => spec_ld(c, Operand8::Reg(Reg8::L), Operand8::Imm),
        _ => spec_cpl(c),
    }
}

#[verifier::opaque]
pub open spec fn spec_execute_unprefixed_x30(c: CpuV, op: u8) -> (CpuV, Timing) {
    match op {
        0x30 => spec_jr(c, Condition::NotCarry, Operand8::Imm),
        0x31 => spec_ld16(c, Operand16::Reg(Reg16::SP), Operand16::Imm),
        0x32 => spec_ldd(c, Operand8::Ind(Reg16::HL), Operand8::Reg(Reg8::A), Reg16::HL),
        0x33 => spec_inc16(c, Reg16::SP),
        0x34 => spec_inc(c, Operand8::Ind(Reg16::HL)),
        0x35 => spec_dec(c, Operand8::Ind(Reg16::HL)),
        0x36 => spec_ld(c, Operand8::Ind(Reg16::HL), Operand8::Imm),
        0x37 => spec_scf(c),
        0x38 => spec_jr(c, Condition::Carry, Operand8::Imm),
        0x39 => spec_add16_op(c, Reg16::HL, Reg16::SP),
        0x3A => spec_ldd(c, Operand8::Reg(Reg8::A), Operand8::Ind(Reg16::HL), Reg16::HL),
        0x3B => spec_dec16(c, Reg16::SP),
        0x3C => spec_inc(c, Operand8::Reg(Reg8::A)),
        0x3D => spec_dec(c, Operand8::Reg(Reg8::A)),
        0x3E => spec_ld(c, Operand8::Reg(Reg8::A), Operand8::Imm),
        _ => spec_ccf(c),
    }
}

#[verifier::opaque]
pub open spec fn spec_execute_unprefixed_x40(c: CpuV, op: u8) -> (CpuV, Timing) {
    match op {
        0x40 => spec_ld(c, Operand8::Reg(Reg8::B), Operand8::Reg(Reg8::B)),
        0x41 => spec_ld(c, Operand8::Reg(Reg8::B), Operand8::Reg(Reg8::C)),
        0x42 => spec_ld(c, Operand8::Reg(Reg8::B), Operand8::Reg(Reg8::D)),
        0x43 => spec_ld(c, Operand8::Reg(Reg8::B), Operand8::Reg(Reg8::E)),
        0x44 => spec_ld(c, Operand8::Reg(Reg8::B), Operand8::Reg(Reg8::H)),
        0x45 => spec_ld(c, Operand8::Reg(Reg8::B), Operand8::Reg(Reg8::L)),
        0x46 => spec_ld(c, Operand8::Reg(Reg8::B), Operand8::Ind(Reg16::HL)),
        0x47 => spec_ld(c, Operand8::Reg(Reg8::B), Operand8::Reg(Reg8::A)),
        0x48 => spec_ld(c, Operand8::Reg(Reg8::C), Operand8::Reg(Reg8::B)),
        0x49 => spec_ld(c, Operand8::Reg(Reg8::C), Operand8::Reg(Reg8::C)),
        0x4A => spec_ld(c, Operand8::Reg(Reg8::C), Operand8::Reg(Reg8::D)),
        0x4B => spec_ld(c, Operand8::Reg(Reg8::C), Operand8::Reg(Reg8::E)),
        0x4C => spec_ld(c, Operand8::Reg(Reg8::C), Operand8::Reg(Reg8::H)),
        0x4D => spec_ld(c, Operand8::Reg(Reg8::C), Operand8::Reg(Reg8::L)),
        0x4E => spec_ld(c, Operand8::Reg(Reg8::C), Operand8::Ind(Reg16::HL)),
        _ => spec_ld(c, Operand8::Reg(Reg8::C), Operand8::Reg(Reg8::A)),
    }
}

#[verifier::opaque]
pub open spec fn spec_execute_unprefixed_x50(c: CpuV, op: u8) -> (CpuV, Timing) {
    match op {
        0x50 => spec_ld(c, Operand8::Reg(Reg8::D), Operand8::Reg(Reg8::B)),
        0x51 => spec_ld(c, Operand8::Reg(Reg8::D), Operand8::Reg(Reg8::C)),
        0x52 => spec_ld(c, Operand8::Reg(Reg8::D), Operand8::Reg(Reg8::D)),
        0x53 => spec_ld(c, Operand8::Reg(Reg8::D), Operand8::Reg(Reg8::E)),
        0x54 => spec_ld(c, Operand8::Reg(Reg8::D), Operand8::Reg(Reg8::H)),
        0x55 => spec_ld(c, Operand8::Reg(Reg8::D), Operand8::Reg(Reg8::L)),
        0x56 => spec_ld(c, Operand8::Reg(Reg8::D), Operand8::Ind(Reg16::HL)),
        0x57 => spec_ld(c, Operand8::Reg(Reg8::D), Operand8::Reg(Reg8::A)),
        0x58 => spec_ld(c, Operand8::Reg(Reg8::E), Operand8::Reg(Reg8::B)),
        0x59 => spec_ld(c, Operand8::Reg(Reg8::E), Operand8::Reg(Reg8::C)),
        0x5A => spec_ld(c, Operand8::Reg(Reg8::E), Operand8::Reg(Reg8::D)),
        0x5B => spec_ld(c, Operand8::Reg(Reg8::E), Operand8::Reg(Reg8::E)),
        0x5C => spec_ld(c, Operand8::Reg(Reg8::E), Operand8::Reg(Reg8::H)),
        0x5D => spec_ld(c, Operand8::Reg(Reg8::E), Operand8::Reg(Reg8::L)),
        0x5E => spec_ld(c, Operand8::Reg(Reg8::E), Operand8::Ind(Reg16::HL)),
        _ => spec_ld(c, Operand8::Reg(Reg8::E), Operand8::Reg(Reg8::A)),
    }
}

#[verifier::opaque]
pub open spec fn spec_execute_unprefixed_x60(c: CpuV, op: u8) -> (CpuV, Timing) {
    match op {
        0x60 => spec_ld(c, Operand8::Reg(Reg8::H), Operand8::Reg(Reg8::B)),
        0x61 => spec_ld(c, Operand8::Reg(Reg8::H), Operand8::Reg(Reg8::C)),
        0x62 => spec_ld(c, Operand8::Reg(Reg8::H), Operand8::Reg(Reg8::D)),
        0x63 => spec_ld(c, Operand8::Reg(Reg8::H), Operand8::Reg(Reg8::E)),
        0x64 => spec_ld(c, Operand8::Reg(Reg8::H), Operand8::Reg(Reg8::H)),
        0x65 => spec_ld(c, Operand8::Reg(Reg8::H), Operand8::Reg(Reg8::L)),
        0x66 => spec_ld(c, Operand8::Reg(Reg8::H), Operand8::Ind(Reg16::HL)),
        0x67 => spec_ld(c, Operand8::Reg(Reg8::H), Operand8::Reg(Reg8::A)),
        0x68 => spec_ld(c, Operand8::Reg(Reg8::L), Operand8::Reg(Reg8::B)),
        0x69 => spec_ld(c, Operand8::Reg(Reg8::L), Operand8::Reg(Reg8::C)),
        0x6A => spec_ld(c, Operand8::Reg(Reg8::L), Operand8::Reg(Reg8::D)),
        0x6B => spec_ld(c, Operand8::Reg(Reg8::L), Operand8::Reg(Reg8::E)),
        0x6C => spec_ld(c, Operand8::Reg(Reg8::L), Operand8::Reg(Reg8::H)),
        0x6D => spec_ld(c, Operand8::Reg(Reg8::L), Operand8::Reg(Reg8::L)),
        0x6E => spec_ld(c, Operand8::Reg(Reg8::L), Operand8::Ind(Reg16::HL)),
        _ => spec_ld(c, Operand8::Reg(Reg8::L), Operand8::Reg(Reg8::A)),
    }
}

#[verifier::opaque]
pub open spec fn spec_execute_unprefixed_x70(c: CpuV, op: u8) -> (CpuV, Timing) {
    match op {
        0x70 => spec_ld(c, Operand8::Ind(Reg16::HL), Operand8::Reg(Reg8::B)),
        0x71 => spec_ld(c, Operand8::Ind(Reg16::HL), Operand8::Reg(Reg8::C)),
        0x72 => spec_ld(c, Operand8::Ind(Reg16::HL), Operand8::Reg(Reg8::D)),
        0x73 => spec_ld(c, Operand8::Ind(Reg16::HL), Operand8::Reg(Reg8::E)),
        0x74 => spec_ld(c, Operand8::Ind(Reg16::HL), Operand8::Reg(Reg8::H)),
        0x75 => spec_ld(c, Operand8::Ind(Reg16::HL), Operand8::Reg(Reg8::L)),
        0x76 => spec_halt(c),
        0x77 => spec_ld(c, Operand8::Ind(Reg16::HL), Operand8::Reg(Reg8::A)),
        0x78 => spec_ld(c, Operand8::Reg(Reg8::A), Operand8::Reg(Reg8::B)),
        0x79 => spec_ld(c, Operand8::Reg(Reg8::A), Operand8::Reg(Reg8::C)),
        0x7A => spec_ld(c, Operand8::Reg(Reg8::A), Operand8::Reg(Reg8::D)),
        0x7B => spec_ld(c, Operand8::Reg(Reg8::A), Operand8::Reg(Reg8::E)),
        0x7C => spec_ld(c, Operand8::Reg(Reg8::A), Operand8::Reg(Reg8::H)),
        0x7D => spec_ld(c, Operand8::Reg(Reg8::A), Operand8::Reg(Reg8::L)),
        0x7E => spec_ld(c, Operand8::Reg(Reg8::A), Operand8::Ind(Reg16::HL)),
        _ => spec_ld(c, Operand8::Reg(Reg8::A), Operand8::Reg(Reg8::A)),
    }
}

#[verifier::opaque]
pub open spec fn spec_execute_unprefixed_x80(c: CpuV, op: u8) -> (CpuV, Timing) {
    match op {
        0x80 => spec_add_op(c, Operand8::Reg(Reg8::A), Operand8::Reg(Reg8::B)),
        0x81 => spec_add_op(c, Operand8::Reg(Reg8::A), Operand8::Reg(Reg8::C)),
        0x82 => spec_add_op(c, Operand8::Reg(Reg8::A), Operand8::Reg(Reg8::D)),
        0x83 => spec_add_op(c, Operand8::Reg(Reg8::A), Operand8::Reg(Reg8::E)),
        0x84 => spec_add_op(c, Operand8::Reg(Reg8::A), Operand8::Reg(Reg8::H)),
        0x85 => spec_add_op(c, Operand8::Reg(Reg8::A), Operand8::Reg(Reg8::L)),
        0x86 => spec_add_op(c, Operand8::Reg(Reg8::A), Operand8::Ind(Reg16::HL)),
        0x87 => spec_add_op(c, Operand8::Reg(Reg8::A), Operand8::Reg(Reg8::A)),
        0x88 => spec_adc_op(c, Operand8::Reg(Reg8::A), Operand8::Reg(Reg8::B)),
        0x89 => spec_adc_op(c, Operand8::Reg(Reg8::A), Operand8::Reg(Reg8::C)),
        0x8A => spec_adc_op(c, Operand8::Reg(Reg8::A), Operand8::Reg(Reg8::D)),
        0x8B => spec_adc_op(c, Operand8::Reg(Reg8::A), Operand8::Reg(Reg8::E)),
        0x8C => spec_adc_op(c, Operand8::Reg(Reg8::A), Operand8::Reg(Reg8::H)),
        0x8D => spec_adc_op(c, Operand8::Reg(Reg8::A), Operand8::Reg(Reg8::L)),
        0x8E => spec_adc_op(c, Operand8::Reg(Reg8::A), Operand8::Ind(Reg16::HL)),
        _ => spec_adc_op(c, Operand8::Reg(Reg8::A), Operand8::Reg(Reg8::A)),
    }
}

#[verifier::opaque]
pub open spec fn spec_execute_unprefixed_x90(c: CpuV, op: u8) -> (CpuV, Timing) {
    match op {
        0x90 => spec_sub_op(c, Operand8::Reg(Reg8::A), Operand8::Reg(Reg8::B)),
        0x91 => spec_sub_op(c, Operand8::Reg(Reg8::A), Operand8::Reg(Reg8::C)),
        0x92 => spec_sub_op(c, Operand8::Reg(Reg8::A), Operand8::Reg(Reg8::D)),
        0x93 => spec_sub_op(c, Operand8::Reg(Reg8::A), Operand8::Reg(Reg8::E)),
        0x94 => spec_sub_op(c, Operand8::Reg(Reg8::A), Operand8::Reg(Reg8::H)),
        0x95 => spec_sub_op(c, Operand8::Reg(Reg8::A), Operand8::Reg(Reg8::L)),
        0x96 => spec_sub_op(c, Operand8::Reg(Reg8::A), Operand8::Ind(Reg16::HL)),
        0x97 => spec_sub_op(c, Operand8::Reg(Reg8::A), Operand8::Reg(Reg8::A)),
        0x98 => spec_sbc_op(c, Operand8::Reg(Reg8::A), Operand8::Reg(Reg8::B)),
        0x99 => spec_sbc_op(c, Operand8::Reg(Reg8::A), Operand8::Reg(Reg8::C)),
        0x9A => spec_sbc_op(c, Operand8::Reg(Reg8::A), Operand8::Reg(Reg8::D)),
        0x9B => spec_sbc_op(c, Operand8::Reg(Reg8::A), Operand8::Reg(Reg8::E)),
        0x9C => spec_sbc_op(c, Operand8::Reg(Reg8::A), Operand8::Reg(Reg8::H)),
        0x9D => spec_sbc_op(c, Operand8::Reg(Reg8::A), Operand8::Reg(Reg8::L)),
        0x9E => spec_sbc_op(c, Operand8::Reg(Reg8::A), Operand8::Ind(Reg16::HL)),
        _ => spec_sbc_op(c, Operand8::Reg(Reg8::A), Operand8::Reg(Reg8::A)),
    }
}

#[verifier::opaque]
pub open spec fn spec_execute_unprefixed_xA0(c: CpuV, op: u8) -> (CpuV, Timing) {
    match op {
        0xA0 => spec_and_op(c, Operand8::Reg(Reg8::A), Operand8::Reg(Reg8::B)),
        0xA1 => spec_and_op(c, Operand8::Reg(Reg8::A), Operand8::Reg(Reg8::C)),
        0xA2 => spec_and_op(c, Operand8::Reg(Reg8::A), Operand8::Reg(Reg8::D)),
        0xA3 => spec_and_op(c, Operand8::Reg(Reg8::A), Operand8::Reg(Reg8::E)),
        0xA4 => spec_and_op(c, Operand8::Reg(Reg8::A), Operand8::Reg(Reg8::H)),
        0xA5 => spec_and_op(c, Operand8::Reg(Reg8::A), Operand8::Reg(Reg8::L)),
        0xA6 => spec_and_op(c, Operand8::Reg(Reg8::A), Operand8::Ind(Reg16::HL)),
        0xA7 => spec_and_op(c, Operand8::Reg(Reg8::A), Operand8::Reg(Reg8::A)),
        0xA8 => spec_xor_op(c, Operand8::Reg(Reg8::A), Operand8::Reg(Reg8::B)),
        0xA9 => spec_xor_op(c, Operand8::Reg(Reg8::A), Operand8::Reg(Reg8::C)),
        0xAA => spec_xor_op(c, Operand8::Reg(Reg8::A), Operand8::Reg(Reg8::D)),
        0xAB => spec_xor_op(c, Operand8::Reg(Reg8::A), Operand8::Reg(Reg8::E)),
        0xAC => spec_xor_op(c, Operand8::Reg(Reg8::A), Operand8::Reg(Reg8::H)),
        0xAD => spec_xor_op(c, Operand8::Reg(Reg8::A), Operand8::Reg(Reg8::L)),
        0xAE => spec_xor_op(c, Operand8::Reg(Reg8::A), Operand8::Ind(Reg16::HL)),
        _ => spec_xor_op(c, Operand8::Reg(Reg8::A), Operand8::Reg(Reg8::A)),
    }
}

#[verifier::opaque]
pub open spec fn spec_execute_unprefixed_xB0(c: CpuV, op: u8) -> (CpuV, Timing) {
    match op {
        0xB0 => spec_or_op(c, Operand8::Reg(Reg8::A), Operand8::Reg(Reg8::B)),
        0xB1 => spec_or_op(c, Operand8::Reg(Reg8::A), Operand8::Reg(Reg8::C)),
        0xB2 => spec_or_op(c, Operand8::Reg(Reg8::A), Operand8::Reg(Reg8::D)),
        0xB3 => spec_or_op(c, Operand8::Reg(Reg8::A), Operand8::Reg(Reg8::E)),
        0xB4 => spec_or_op(c, Operand8::Reg(Reg8::A), Operand8::Reg(Reg8::H)),
        0xB5 => spec_or_op(c, Operand8::Reg(Reg8::A), Operand8::Reg(Reg8::L)),
        0xB6 => spec_or_op(c, Operand8::Reg(Reg8::A), Operand8::Ind(Reg16::HL)),
        0xB7 => spec_or_op(c, Operand8::Reg(Reg8::A), Operand8::Reg(Reg8::A)),
        0xB8 => spec_cp_op(c, Operand8::Reg(Reg8::B)),
        0xB9 => spec_cp_op(c, Operand8::Reg(Reg8::C)),
        0xBA => spec_cp_op(c, Operand8::Reg(Reg8::D)),
        0xBB => spec_cp_op(c, Operand8::Reg(Reg8::E)),
        0xBC => spec_cp_op(c, Operand8::Reg(Reg8::H)),
        0xBD => spec_cp_op(c, Operand8::Reg(Reg8::L)),
        0xBE => spec_cp_op(c, Operand8::Ind(Reg16::HL)),
        _ => spec_cp_op(c, Operand8::Reg(Reg8::A)),
    }
}

#[verifier::opaque]
pub open spec fn spec_execute_unprefixed_xC0(c: CpuV, op: u8) -> (CpuV, Timing) {
    match op {
        0xC0 => spec_ret(c, Condition::NotZero),
        0xC1 => spec_pop_op(c, Operand16::Reg(Reg16::BC)),
        0xC2 => spec_jp(c, Condition::NotZero, Operand16::Imm),
        0xC3 => spec_jp(c, Condition::Unconditional, Operand16::Imm),
        0xC4 => spec_call(c, Condition::NotZero, Operand16::Imm),
        0xC5 => spec_push_op(c, Operand16::Reg(Reg16::BC)),
        0xC6 => spec_add_op(c, Operand8::Reg(Reg8::A), Operand8::Imm),
        0xC7 => spec_rst(c, 0),
        0xC8 => spec_ret(c, Condition::Zero),
        0xC9 => spec_ret(c, Condition::Unconditional),
        0xCA => spec_jp(c, Condition::Zero, Operand16::Imm),
        0xCC => spec_call(c, Condition::Zero, Operand16::Imm),
        0xCD => spec_call(c, Condition::Unconditional, Operand16::Imm),
        0xCE => spec_adc_op(c, Operand8::Reg(Reg8::A), Operand8::Imm),
        0xCF => spec_rst(c, 8),
        _ => (c, Timing::Normal),
    }
}

#[verifier::opaque]
pub open spec fn spec_execute_unprefixed_xD0(c: CpuV, op: u8) -> (CpuV, Timing) {
    match op {
        0xD0 => spec_ret(c, Condition::NotCarry),
        0xD1 => spec_pop_op(c, Operand16::Reg(Reg16::DE)),
        0xD2 => spec_jp(c, Condition::NotCarry, Operand16::Imm),
        0xD4 => spec_call(c, Condition::NotCarry, Operand16::Imm),
        0xD5 => spec_push_op(c, Operand16::Reg(Reg16::DE)),
        0xD6 => spec_sub_op(c, Operand8::Reg(Reg8::A), Operand8::Imm),
        0xD7 => spec_rst(c, 16),
        0xD8 => spec_ret(c, Condition::Carry),
        0xD9 => spec_reti(c),
        0xDA => spec_jp(c, Condition::Carry, Operand16::Imm),
        0xDC => spec_call(c, Condition::Carry, Operand16::Imm),
        0xDE => spec_sbc_op(c, Operand8::Reg(Reg8::A), Operand8::Imm),
        0xDF => spec_rst(c, 24),
        _ => (c, Timing::Normal),
    }
}

#[verifier::opaque]
pub open spec fn spec_execute_unprefixed_xE0(c: CpuV, op: u8) -> (CpuV, Timing) {
    match op {
        0xE0 => spec_ld(c, Operand8::ZeroPageImm, Operand8::Reg(Reg8::A)),
        0xE1 => spec_pop_op(c, Operand16::Reg(Reg16::HL)),
        0xE2 => spec_ld(c, Operand8::ZeroPage(Reg8::C), Operand8::Reg(Reg8::A)),
        0xE5 => spec_push_op(c, Operand16::Reg(Reg16::HL)),
        0xE6 => spec_and_op(c, Operand8::Reg(Reg8::A), Operand8::Imm),
        0xE7 => spec_rst(c, 32),
        0xE8 => spec_add_sp(c),
        0xE9 => spec_jp(c, Condition::Unconditional, Operand16::Reg(Reg16::HL)),
        0xEA => spec_ld(c, Operand8::IndImm, Operand8::Reg(Reg8::A)),
        0xEE => spec_xor_op(c, Operand8::Reg(Reg8::A), Operand8::Imm),
        0xEF => spec_rst(c, 40),
        _ => (c, Timing::Normal),
    }
}

#[verifier::opaque]
pub open spec fn spec_execute_unprefixed_xF0(c: CpuV, op: u8) -> (CpuV, Timing) {
    match op {
        0xF0 => spec_ld(c, Operand8::Reg(Reg8::A), Operand8::ZeroPageImm),
        0xF1 => spec_pop_op(c, Operand16::Reg(Reg16::AF)),
        0xF2 => spec_ld(c, Operand8::Reg(Reg8::A), Operand8::ZeroPage(Reg8::C)),
        0xF3 => spec_di(c),
        0xF5 => spec_push_op(c, Operand16::Reg(Reg16::AF)),
        0xF6 => spec_or_op(c, Operand8::Reg(Reg8::A), Operand8::Imm),
        0xF7 => spec_rst(c, 48),
        0xF8 => spec_ldhl(c),
        0xF9 => spec_ld16(c, Operand16::Reg(Reg16::SP), Operand16::Reg(Reg16::HL)),
        0xFA => spec_ld(c, Operand8::Reg(Reg8::A), Operand8::IndImm),
        0xFB => spec_ei(c),
        0xFE => spec_cp_op(c, Operand8::Imm),
        0xFF => spec_rst(c, 56),
        _ => (c, Timing::Normal),
    }
}

pub open spec fn spec_execute_unprefixed(c: CpuV, op: u8) -> (CpuV, Timing) {
    if op < 0x10 {
        spec_execute_unprefixed_x00(c, op)
    } else if op < 0x20 {
        spec_execute_unprefixed_x10(c, op)
    } else if op < 0x30 {
        spec_execute_unprefixed_x20(c, op)
    } else if op < 0x40 {
        spec_execute_unprefixed_x30(c, op)
    } else if op < 0x50 {
        spec_execute_unprefixed_x40(c, op)
    } else if op < 0x60 {
        spec_execute_unprefixed_x50(c, op)
    } else if op < 0x70 {
        spec_execute_unprefixed_x60(c, op)
    } else if op < 0x80 {
        spec_execute_unprefixed_x70(c, op)
    } else if op < 0x90 {
        spec_execute_unprefixed_x80(c, op)
    } else if op < 0xA0 {
        spec_execute_unprefixed_x90(c, op)
    } else if op < 0xB0 {
        spec_execute_unprefixed_xA0(c, op)
    } else if op < 0xC0 {
        spec_execute_unprefixed_xB0(c, op)
    } else if op < 0xD0 {
        spec_execute_unprefixed_xC0(c, op)
    } else if op < 0xE0 {
        spec_execute_unprefixed_xD0(c, op)
    } else if op < 0xF0 {
        spec_execute_unprefixed_xE0(c, op)
    } else {
        spec_execute_unprefixed_xF0(c, op)
    }
}

/// The CPU after a CB-prefixed opcode executes, with its timing tag.
#[verifier::opaque]
pub open spec fn spec_execute_prefixed_x00(c: CpuV, op: u8) -> (CpuV, Timing) {
    match op {
        0x00 => spec_rlc(c, Operand8::Reg(Reg8::B)),
        0x01 => spec_rlc(c, Operand8::Reg(Reg8::C)),
        0x02 => spec_rlc(c, Operand8::Reg(Reg8::D)),
        0x03 => spec_rlc(c, Operand8::Reg(Reg8::E)),
        0x04 => spec_rlc(c, Operand8::Reg(Reg8::H)),
        0x05 => spec_rlc(c, Operand8::Reg(Reg8::L)),
        0x06 => spec_rlc(c, Operand8::Ind(Reg16::HL)),
        0x07 => spec_rlc(c, Operand8::Reg(Reg8::A)),
        0x08 => spec_rrc(c, Operand8::Reg(Reg8::B)),
        0x09 => spec_rrc(c, Operand8::Reg(Reg8::C)),
        0x0A => spec_rrc(c, Operand8::Reg(Reg8::D)),
        0x0B => spec_rrc(c, Operand8::Reg(Reg8::E)),
        0x0C => spec_rrc(c, Operand8::Reg(Reg8::H)),
        0x0D => spec_rrc(c, Operand8::Reg(Reg8::L)),
        0x0E => spec_rrc(c, Operand8::Ind(Reg16::HL)),
        _ => spec_rrc(c, Operand8::Reg(Reg8::A)),
    }
}

#[verifier::opaque]
pub open spec fn spec_execute_prefixed_x10(c: CpuV, op: u8) -> (CpuV, Timing) {
    match op {
        0x10 => spec_rl(c, Operand8::Reg(Reg8::B)),
        0x11 => spec_rl(c, Operand8::Reg(Reg8::C)),
        0x12 => spec_rl(c, Operand8::Reg(Reg8::D)),
        0x13 => spec_rl(c, Operand8::Reg(Reg8::E)),
        0x14 => spec_rl(c, Operand8::Reg(Reg8::H)),
        0x15 => spec_rl(c, Operand8::Reg(Reg8::L)),
        0x16 => spec_rl(c, Operand8::Ind(Reg16::HL)),
        0x17 => spec_rl(c, Operand8::Reg(Reg8::A)),
        0x18 => spec_rr(c, Operand8::Reg(Reg8::B)),
        0x19 => spec_rr(c, Operand8::Reg(Reg8::C)),
        0x1A => spec_rr(c, Operand8::Reg(Reg8::D)),
        0x1B => spec_rr(c, Operand8::Reg(Reg8::E)),
        0x1C => spec_rr(c, Operand8::Reg(Reg8::H)),
        0x1D => spec_rr(c, Operand8::Reg(Reg8::L)),
        0x1E => spec_rr(c, Operand8::Ind(Reg16::HL)),
        _ => spec_rr(c, Operand8::Reg(Reg8::A)),
    }
}

#[verifier::opaque]
pub open spec fn spec_execute_prefixed_x20(c: CpuV, op: u8) -> (CpuV, Timing) {
    match op {
        0x20 => spec_sla(c, Operand8::Reg(Reg8::B)),
        0x21 => spec_sla(c, Operand8::Reg(Reg8::C)),
        0x22 => spec_sla(c, Operand8::Reg(Reg8::D)),
        0x23 => spec_sla(c, Operand8::Reg(Reg8::E)),
        0x24 => spec_sla(c, Operand8::Reg(Reg8::H)),
        0x25 => spec_sla(c, Operand8::Reg(Reg8::L)),
        0x26 => spec_sla(c, Operand8::Ind(Reg16::HL)),
        0x27 => spec_sla(c, Operand8::Reg(Reg8::A)),
        0x28 => spec_sra(c, Operand8::Reg(Reg8::B)),
        0x29 => spec_sra(c, Operand8::Reg(Reg8::C)),
        0x2A => spec_sra(c, Operand8::Reg(Reg8::D)),
        0x2B => spec_sra(c, Operand8::Reg(Reg8::E)),
        0x2C => spec_sra(c, Operand8::Reg(Reg8::H)),
        0x2D => spec_sra(c, Operand8::Reg(Reg8::L)),
        0x2E => spec_sra(c, Operand8::Ind(Reg16::HL)),
        _ => spec_sra(c, Operand8::Reg(Reg8::A)),
    }
}

#[verifier::opaque]
pub open spec fn spec_execute_prefixed_x30(c: CpuV, op: u8) -> (CpuV, Timing) {
    match op {
        0x30 => spec_swap(c, Operand8::Reg(Reg8::B)),
        0x31 => spec_swap(c, Operand8::Reg(Reg8::C)),
        0x32 => spec_swap(c, Operand8::Reg(Reg8::D)),
        0x33 => spec_swap(c, Operand8::Reg(Reg8::E)),
        0x34 => spec_swap(c, Operand8::Reg(Reg8::H)),
        0x35 => spec_swap(c, Operand8::Reg(Reg8::L)),
        0x36 => spec_swap(c, Operand8::Ind(Reg16::HL)),
        0x37 => spec_swap(c, Operand8::Reg(Reg8::A)),
        0x38 => spec_srl(c, Operand8::Reg(Reg8::B)),
        0x39 => spec_srl(c, Operand8::Reg(Reg8::C)),
        0x3A => spec_srl(c, Operand8::Reg(Reg8::D)),
        0x3B => spec_srl(c, Operand8::Reg(Reg8::E)),
        0x3C => spec_srl(c, Operand8::Reg(Reg8::H)),
        0x3D => spec_srl(c, Operand8::Reg(Reg8::L)),
        0x3E => spec_srl(c, Operand8::Ind(Reg16::HL)),
        _ => spec_srl(c, Operand8::Reg(Reg8::A)),
    }
}

#[verifier::opaque]
pub open spec fn spec_execute_prefixed_x40(c: CpuV, op: u8) -> (CpuV, Timing) {
    match op {
        0x40 => spec_bit_op(c, 0, Operand8::Reg(Reg8::B)),
        0x41 => spec_bit_op(c, 0, Operand8::Reg(Reg8::C)),
        0x42 => spec_bit_op(c, 0, Operand8::Reg(Reg8::D)),
        0x43 => spec_bit_op(c, 0, Operand8::Reg(Reg8::E)),
        0x44 => spec_bit_op(c, 0, Operand8::Reg(Reg8::H)),
        0x45 => spec_bit_op(c, 0, Operand8::Reg(Reg8::L)),
        0x46 => spec_bit_op(c, 0, Operand8::Ind(Reg16::HL)),
        0x47 => spec_bit_op(c, 0, Operand8::Reg(Reg8::A)),
        0x48 => spec_bit_op(c, 1, Operand8::Reg(Reg8::B)),
        0x49 => spec_bit_op(c, 1, Operand8::Reg(Reg8::C)),
        0x4A => spec_bit_op(c, 1, Operand8::Reg(Reg8::D)),
        0x4B => spec_bit_op(c, 1, Operand8::Reg(Reg8::E)),
        0x4C => spec_bit_op(c, 1, Operand8::Reg(Reg8::H)),
        0x4D => spec_bit_op(c, 1, Operand8::Reg(Reg8::L)),
        0x4E => spec_bit_op(c, 1, Operand8::Ind(Reg16::HL)),
        _ => spec_bit_op(c, 1, Operand8::Reg(Reg8::A)),
    }
}

#[verifier::opaque]
pub open spec fn spec_execute_prefixed_x50(c: CpuV, op: u8) -> (CpuV, Timing) {
    match op {
        0x50 => spec_bit_op(c, 2, Operand8::Reg(Reg8::B)),
        0x51 => spec_bit_op(c, 2, Operand8::Reg(Reg8::C)),
        0x52 => spec_bit_op(c, 2, Operand8::Reg(Reg8::D)),
        0x53 => spec_bit_op(c, 2, Operand8::Reg(Reg8::E)),
        0x54 => spec_bit_op(c, 2, Operand8::Reg(Reg8::H)),
        0x55 => spec_bit_op(c, 2, Operand8::Reg(Reg8::L)),
        0x56 => spec_bit_op(c, 2, Operand8::Ind(Reg16::HL)),
        0x57 => spec_bit_op(c, 2, Operand8::Reg(Reg8::A)),
        0x58 => spec_bit_op(c, 3, Operand8::Reg(Reg8::B)),
        0x59 => spec_bit_op(c, 3, Operand8::Reg(Reg8::C)),
        0x5A => spec_bit_op(c, 3, Operand8::Reg(Reg8::D)),
        0x5B => spec_bit_op(c, 3, Operand8::Reg(Reg8::E)),
        0x5C => spec_bit_op(c, 3, Operand8::Reg(Reg8::H)),
        0x5D => spec_bit_op(c, 3, Operand8::Reg(Reg8::L)),
        0x5E => spec_bit_op(c, 3, Operand8::Ind(Reg16::HL)),
        _ => spec_bit_op(c, 3, Operand8::Reg(Reg8::A)),
    }
}

#[verifier::opaque]
pub open spec fn spec_execute_prefixed_x60(c: CpuV, op: u8) -> (CpuV, Timing) {
    match op {
        0x60 => spec_bit_op(c, 4, Operand8::Reg(Reg8::B)),
        0x61 => spec_bit_op(c, 4, Operand8::Reg(Reg8::C)),
        0x62 => spec_bit_op(c, 4, Operand8::Reg(Reg8::D)),
        0x63 => spec_bit_op(c, 4, Operand8::Reg(Reg8::E)),
        0x64 => spec_bit_op(c, 4, Operand8::Reg(Reg8::H)),
        0x65 => spec_bit_op(c, 4, Operand8::Reg(Reg8::L)),
        0x66 => spec_bit_op(c, 4, Operand8::Ind(Reg16::HL)),
        0x67 => spec_bit_op(c, 4, Operand8::Reg(Reg8::A)),
        0x68 => spec_bit_op(c, 5, Operand8::Reg(Reg8::B)),
        0x69 => spec_bit_op(c, 5, Operand8::Reg(Reg8::C)),
        0x6A => spec_bit_op(c, 5, Operand8::Reg(Reg8::D)),
        0x6B => spec_bit_op(c, 5, Operand8::Reg(Reg8::E)),
        0x6C => spec_bit_op(c, 5, Operand8::Reg(Reg8::H)),
        0x6D => spec_bit_op(c, 5, Operand8::Reg(Reg8::L)),
        0x6E => spec_bit_op(c, 5, Operand8::Ind(Reg16::HL)),
        _ => spec_bit_op(c, 5, Operand8::Reg(Reg8::A)),
    }
}

#[verifier::opaque]
pub open spec fn spec_execute_prefixed_x70(c: CpuV, op: u8) -> (CpuV, Timing) {
    match op {
        0x70 => spec_bit_op(c, 6, Operand8::Reg(Reg8::B)),
        0x71 => spec_bit_op(c, 6, Operand8::Reg(Reg8::C)),
        0x72 => spec_bit_op(c, 6, Operand8::Reg(Reg8::D)),
        0x73 => spec_bit_op(c, 6, Operand8::Reg(Reg8::E)),
        0x74 => spec_bit_op(c, 6, Operand8::Reg(Reg8::H)),
        0x75 => spec_bit_op(c, 6, Operand8::Reg(Reg8::L)),
        0x76 => spec_bit_op(c, 6, Operand8::Ind(Reg16::HL)),
        0x77 => spec_bit_op(c, 6, Operand8::Reg(Reg8::A)),
        0x78 => spec_bit_op(c, 7, Operand8::Reg(Reg8::B)),
        0x79 => spec_bit_op(c, 7, Operand8::Reg(Reg8::C)),
        0x7A => spec_bit_op(c, 7, Operand8::Reg(Reg8::D)),
        0x7B => spec_bit_op(c, 7, Operand8::Reg(Reg8::E)),
        0x7C => spec_bit_op(c, 7, Operand8::Reg(Reg8::H)),
        0x7D => spec_bit_op(c, 7, Operand8::Reg(Reg8::L)),
        0x7E => spec_bit_op(c, 7, Operand8::Ind(Reg16::HL)),
        _ => spec_bit_op(c, 7, Operand8::Reg(Reg8::A)),
    }
}

#[verifier::opaque]
pub open spec fn spec_execute_prefixed_x80(c: CpuV, op: u8) -> (CpuV, Timing) {
    match op {
        0x80 => spec_res_op(c, 0, Operand8::Reg(Reg8::B)),
        0x81 => spec_res_op(c, 0, Operand8::Reg(Reg8::C)),
        0x82 => spec_res_op(c, 0, Operand8::Reg(Reg8::D)),
        0x83 => spec_res_op(c, 0, Operand8::Reg(Reg8::E)),
        0x84 => spec_res_op(c, 0, Operand8::Reg(Reg8::H)),
        0x85 => spec_res_op(c, 0, Operand8::Reg(Reg8::L)),
        0x86 => spec_res_op(c, 0, Operand8::Ind(Reg16::HL)),
        0x87 => spec_res_op(c, 0, Operand8::Reg(Reg8::A)),
        0x88 => spec_res_op(c, 1, Operand8::Reg(Reg8::B)),
        0x89 => spec_res_op(c, 1, Operand8::Reg(Reg8::C)),
        0x8A => spec_res_op(c, 1, Operand8::Reg(Reg8::D)),
        0x8B => spec_res_op(c, 1, Operand8::Reg(Reg8::E)),
        0x8C => spec_res_op(c, 1, Operand8::Reg(Reg8::H)),
        0x8D => spec_res_op(c, 1, Operand8::Reg(Reg8::L)),
        0x8E => spec_res_op(c, 1, Operand8::Ind(Reg16::HL)),
        _ => spec_res_op(c, 1, Operand8::Reg(Reg8::A)),
    }
}

#[verifier::opaque]
pub open spec fn spec_execute_prefixed_x90(c: CpuV, op: u8) -> (CpuV, Timing) {
    match op {
        0x90 => spec_res_op(c, 2, Operand8::Reg(Reg8::B)),
        0x91 => spec_res_op(c, 2, Operand8::Reg(Reg8::C)),
        0x92 => spec_res_op(c, 2, Operand8::Reg(Reg8::D)),
        0x93 => spec_res_op(c, 2, Operand8::Reg(Reg8::E)),
        0x94 => spec_res_op(c, 2, Operand8::Reg(Reg8::H)),
        0x95 => spec_res_op(c, 2, Operand8::Reg(Reg8::L)),
        0x96 => spec_res_op(c, 2, Operand8::Ind(Reg16::HL)),
        0x97 => spec_res_op(c, 2, Operand8::Reg(Reg8::A)),
        0x98 => spec_res_op(c, 3, Operand8::Reg(Reg8::B)),
        0x99 => spec_res_op(c, 3, Operand8::Reg(Reg8::C)),
        0x9A => spec_res_op(c, 3, Operand8::Reg(Reg8::D)),
        0x9B => spec_res_op(c, 3, Operand8::Reg(Reg8::E)),
        0x9C => spec_res_op(c, 3, Operand8::Reg(Reg8::H)),
        0x9D => spec_res_op(c, 3, Operand8::Reg(Reg8::L)),
        0x9E => spec_res_op(c, 3, Operand8::Ind(Reg16::HL)),
        _ => spec_res_op(c, 3, Operand8::Reg(Reg8::A)),
    }
}

#[verifier::opaque]
pub open spec fn spec_execute_prefixed_xA0(c: CpuV, op: u8) -> (CpuV, Timing) {
    match op {
        0xA0 => spec_res_op(c, 4, Operand8::Reg(Reg8::B)),
        0xA1 => spec_res_op(c, 4, Operand8::Reg(Reg8::C)),
        0xA2 => spec_res_op(c, 4, Operand8::Reg(Reg8::D)),
        0xA3 => spec_res_op(c, 4, Operand8::Reg(Reg8::E)),
        0xA4 => spec_res_op(c, 4, Operand8::Reg(Reg8::H)),
        0xA5 => spec_res_op(c, 4, Operand8::Reg(Reg8::L)),
        0xA6 => spec_res_op(c, 4, Operand8::Ind(Reg16::HL)),
        0xA7 => spec_res_op(c, 4, Operand8::Reg(Reg8::A)),
        0xA8 => spec_res_op(c, 5, Operand8::Reg(Reg8::B)),
        0xA9 => spec_res_op(c, 5, Operand8::Reg(Reg8::C)),
        0xAA => spec_res_op(c, 5, Operand8::Reg(Reg8::D)),
        0xAB => spec_res_op(c, 5, Operand8::Reg(Reg8::E)),
        0xAC => spec_res_op(c, 5, Operand8::Reg(Reg8::H)),
        0xAD => spec_res_op(c, 5, Operand8::Reg(Reg8::L)),
        0xAE => spec_res_op(c, 5, Operand8::Ind(Reg16::HL)),
        _ => spec_res_op(c, 5, Operand8::Reg(Reg8::A)),
    }
}

#[verifier::opaque]
pub open spec fn spec_execute_prefixed_xB0(c: CpuV, op: u8) -> (CpuV, Timing) {
    match op {
        0xB0 => spec_res_op(c, 6, Operand8::Reg(Reg8::B)),
        0xB1 => spec_res_op(c, 6, Operand8::Reg(Reg8::C)),
        0xB2 => spec_res_op(c, 6, Operand8::Reg(Reg8::D)),
        0xB3 => spec_res_op(c, 6, Operand8::Reg(Reg8::E)),
        0xB4 => spec_res_op(c, 6, Operand8::Reg(Reg8::H)),
        0xB5 => spec_res_op(c, 6, Operand8::Reg(Reg8::L)),
        0xB6 => spec_res_op(c, 6, Operand8::Ind(Reg16::HL)),
        0xB7 => spec_res_op(c, 6, Operand8::Reg(Reg8::A)),
        0xB8 => spec_res_op(c, 7, Operand8::Reg(Reg8::B)),
        0xB9 => spec_res_op(c, 7, Operand8::Reg(Reg8::C)),
        0xBA => spec_res_op(c, 7, Operand8::Reg(Reg8::D)),
        0xBB => spec_res_op(c, 7, Operand8::Reg(Reg8::E)),
        0xBC => spec_res_op(c, 7, Operand8::Reg(Reg8::H)),
        0xBD => spec_res_op(c, 7, Operand8::Reg(Reg8::L)),
        0xBE => spec_res_op(c, 7, Operand8::Ind(Reg16::HL)),
        _ => spec_res_op(c, 7, Operand8::Reg(Reg8::A)),
    }
}

#[verifier::opaque]
pub open spec fn spec_execute_prefixed_xC0(c: CpuV, op: u8) -> (CpuV, Timing) {
    match op {
        0xC0 => spec_set_op(c, 0, Operand8::Reg(Reg8::B)),
        0xC1 => spec_set_op(c, 0, Operand8::Reg(Reg8::C)),
        0xC2 => spec_set_op(c, 0, Operand8::Reg(Reg8::D)),
        0xC3 => spec_set_op(c, 0, Operand8::Reg(Reg8::E)),
        0xC4 => spec_set_op(c, 0, Operand8::Reg(Reg8::H)),
        0xC5 => spec_set_op(c, 0, Operand8::Reg(Reg8::L)),
        0xC6 => spec_set_op(c, 0, Operand8::Ind(Reg16::HL)),
        0xC7 => spec_set_op(c, 0, Operand8::Reg(Reg8::A)),
        0xC8 => spec_set_op(c, 1, Operand8::Reg(Reg8::B)),
        0xC9 => spec_set_op(c, 1, Operand8::Reg(Reg8::C)),
        0xCA => spec_set_op(c, 1, Operand8::Reg(Reg8::D)),
        0xCB => spec_set_op(c, 1, Operand8::Reg(Reg8::E)),
        0xCC => spec_set_op(c, 1, Operand8::Reg(Reg8::H)),
        0xCD => spec_set_op(c, 1, Operand8::Reg(Reg8::L)),
        0xCE => spec_set_op(c, 1, Operand8::Ind(Reg16::HL)),
        _ => spec_set_op(c, 1, Operand8::Reg(Reg8::A)),
    }
}

#[verifier::opaque]
pub open spec fn spec_execute_prefixed_xD0(c: CpuV, op: u8) -> (CpuV, Timing) {
    match op {
        0xD0 => spec_set_op(c, 2, Operand8::Reg(Reg8::B)),
        0xD1 => spec_set_op(c, 2, Operand8::Reg(Reg8::C)),
        0xD2 => spec_set_op(c, 2, Operand8::Reg(Reg8::D)),
        0xD3 => spec_set_op(c, 2, Operand8::Reg(Reg8::E)),
        0xD4 => spec_set_op(c, 2, Operand8::Reg(Reg8::H)),
        0xD5 => spec_set_op(c, 2, Operand8::Reg(Reg8::L)),
        0xD6 => spec_set_op(c, 2, Operand8::Ind(Reg16::HL)),
        0xD7 => spec_set_op(c, 2, Operand8::Reg(Reg8::A)),
        0xD8 => spec_set_op(c, 3, Operand8::Reg(Reg8::B)),
        0xD9 => spec_set_op(c, 3, Operand8::Reg(Reg8::C)),
        0xDA => spec_set_op(c, 3, Operand8::Reg(Reg8::D)),
        0xDB => spec_set_op(c, 3, Operand8::Reg(Reg8::E)),
        0xDC => spec_set_op(c, 3, Operand8::Reg(Reg8::H)),
        0xDD => spec_set_op(c, 3, Operand8::Reg(Reg8::L)),
        0xDE => spec_set_op(c, 3, Operand8::Ind(Reg16::HL)),
        _ => spec_set_op(c, 3, Operand8::Reg(Reg8::A)),
    }
}

#[verifier::opaque]
pub open spec fn spec_execute_prefixed_xE0(c: CpuV, op: u8) -> (CpuV, Timing) {
    match op {
        0xE0 => spec_set_op(c, 4, Operand8::Reg(Reg8::B)),
        0xE1 => spec_set_op(c, 4, Operand8::Reg(Reg8::C)),
        0xE2 => spec_set_op(c, 4, Operand8::Reg(Reg8::D)),
        0xE3 => spec_set_op(c, 4, Operand8::Reg(Reg8::E)),
        0xE4 => spec_set_op(c, 4, Operand8::Reg(Reg8::H)),
        0xE5 => spec_set_op(c, 4, Operand8::Reg(Reg8::L)),
        0xE6 => spec_set_op(c, 4, Operand8::Ind(Reg16::HL)),
        0xE7 => spec_set_op(c, 4, Operand8::Reg(Reg8::A)),
        0xE8 => spec_set_op(c, 5, Operand8::Reg(Reg8::B)),
        0xE9 => spec_set_op(c, 5, Operand8::Reg(Reg8::C)),
        0xEA => spec_set_op(c, 5, Operand8::Reg(Reg8::D)),
        0xEB => spec_set_op(c, 5, Operand8::Reg(Reg8::E)),
        0xEC => spec_set_op(c, 5, Operand8::Reg(Reg8::H)),
        0xED => spec_set_op(c, 5, Operand8::Reg(Reg8::L)),
        0xEE => spec_set_op(c, 5, Operand8::Ind(Reg16::HL)),
        _ => spec_set_op(c, 5, Operand8::Reg(Reg8::A)),
    }
}

#[verifier::opaque]
pub open spec fn spec_execute_prefixed_xF0(c: CpuV, op: u8) -> (CpuV, Timing) {
    match op {
        0xF0 => spec_set_op(c, 6, Operand8::Reg(Reg8::B)),
        0xF1 => spec_set_op(c, 6, Operand8::Reg(Reg8::C)),
        0xF2 => spec_set_op(c, 6, Operand8::Reg(Reg8::D)),
        0xF3 => spec_set_op(c, 6, Operand8::Reg(Reg8::E)),
        0xF4 => spec_set_op(c, 6, Operand8::Reg(Reg8::H)),
        0xF5 => spec_set_op(c, 6, Operand8::Reg(Reg8::L)),
        0xF6 => spec_set_op(c, 6, Operand8::Ind(Reg16::HL)),
        0xF7 => spec_set_op(c, 6, Operand8::Reg(Reg8::A)),
        0xF8 => spec_set_op(c, 7, Operand8::Reg(Reg8::B)),
        0xF9 => spec_set_op(c, 7, Operand8::Reg(Reg8::C)),
        0xFA => spec_set_op(c, 7, Operand8::Reg(Reg8::D)),
        0xFB => spec_set_op(c, 7, Operand8::Reg(Reg8::E)),
        0xFC => spec_set_op(c, 7, Operand8::Reg(Reg8::H)),
        0xFD => spec_set_op(c, 7, Operand8::Reg(Reg8::L)),
        0xFE => spec_set_op(c, 7, Operand8::Ind(Reg16::HL)),
        _ => spec_set_op(c, 7, Operand8::Reg(Reg8::A)),
    }
}

pub open spec fn spec_execute_prefixed(c: CpuV, op: u8) -> (CpuV, Timing) {
    if op < 0x10 {
        spec_execute_prefixed_x00(c, op)
    } else if op < 0x20 {
        spec_execute_prefixed_x10(c, op)
    } else if op < 0x30 {
        spec_execute_prefixed_x20(c, op)
    } else if op < 0x40 {
        spec_execute_prefixed_x30(c, op)
    } else if op < 0x50 {
        spec_execute_prefixed_x40(c, op)
    } else if op < 0x60 {
        spec_execute_prefixed_x50(c, op)
    } else if op < 0x70 {
        spec_execute_prefixed_x60(c, op)
    } else if op < 0x80 {
        spec_execute_prefixed_x70(c, op)
    } else if op < 0x90 {
        spec_execute_prefixed_x80(c, op)
    } else if op < 0xA0 {
        spec_execute_prefixed_x90(c, op)
    } else if op < 0xB0 {
        spec_execute_prefixed_xA0(c, op)
    } else if op < 0xC0 {
        spec_execute_prefixed_xB0(c, op)
    } else if op < 0xD0 {
        spec_execute_prefixed_xC0(c, op)
    } else if op < 0xE0 {
        spec_execute_prefixed_xD0(c, op)
    } else if op < 0xF0 {
        spec_execute_prefixed_xE0(c, op)
    } else {
        spec_execute_prefixed_xF0(c, op)
    }
}

#[verifier::rlimit(50)]
fn execute_unprefixed_x00(cpu: &mut Cpu, op: u8) -> (t: Timing)
    requires
        spec_cpu_wf(old(cpu)@),
    ensures
        (final(cpu)@, t) == spec_execute_unprefixed_x00(old(cpu)@, op),
        spec_cpu_wf(final(cpu)@),
{
    proof {
        reveal(spec_execute_unprefixed_x00);
    }
    match op {
        0x00 => operations::nop(),
        0x01 => operations::ld16(cpu, Operand16::Reg(Reg16::BC), Operand16::Imm),
        0x02 => operations::ld(cpu, Operand8::Ind(Reg16::BC), Operand8::Reg(Reg8::A)),
        0x03 => operations::inc16(cpu, Reg16::BC),
        0x04 => operations::inc(cpu, Operand8::Reg(Reg8::B)),
        0x05 => operations::dec(cpu, Operand8::Reg(Reg8::B)),
        0x06 => operations::ld(cpu, Operand8::Reg(Reg8::B), Operand8::Imm),
        0x07 => operations::rlca(cpu),
        0x08 => operations::ld16(cpu, Operand16::IndImm, Operand16::Reg(Reg16::SP)),
        0x09 => operations::add16(cpu, Reg16::HL, Reg16::BC),
        0x0A => operations::ld(cpu, Operand8::Reg(Reg8::A), Operand8::Ind(Reg16::BC)),
        0x0B => operations::dec16(cpu, Reg16::BC),
        0x0C => operations::inc(cpu, Operand8::Reg(Reg8::C)),
        0x0D => operations::dec(cpu, Operand8::Reg(Reg8::C)),
        0x0E => operations::ld(cpu, Operand8::Reg(Reg8::C), Operand8::Imm),
        _ => operations::rrca(cpu),
    }
}

#[verifier::rlimit(50)]
fn execute_unprefixed_x10(cpu: &mut Cpu, op: u8) -> (t: Timing)
    requires
        spec_cpu_wf(old(cpu)@),
    ensures
        (final(cpu)@, t) == spec_execute_unprefixed_x10(old(cpu)@, op),
        spec_cpu_wf(final(cpu)@),
{
    proof {
        reveal(spec_execute_unprefixed_x10);
    }
    match op {
        0x10 => {
                cpu.stop();
                Timing::Normal
            },
        0x11 => operations::ld16(cpu, Operand16::Reg(Reg16::DE), Operand16::Imm),
        0x12 => operations::ld(cpu, Operand8::Ind(Reg16::DE), Operand8::Reg(Reg8::A)),
        0x13 => operations::inc16(cpu, Reg16::DE),
        0x14 => operations::inc(cpu, Operand8::Reg(Reg8::D)),
        0x15 => operations::dec(cpu, Operand8::Reg(Reg8::D)),
        0x16 => operations::ld(cpu, Operand8::Reg(Reg8::D), Operand8::Imm),
        0x17 => operations::rla(cpu),
        0x18 => operations::jr(cpu, Condition::Unconditional, Operand8::Imm),
        0x19 => operations::add16(cpu, Reg16::HL, Reg16::DE),
        0x1A => operations::ld(cpu, Operand8::Reg(Reg8::A), Operand8::Ind(Reg16::DE)),
        0x1B => operations::dec16(cpu, Reg16::DE),
        0x1C => operations::inc(cpu, Operand8::Reg(Reg8::E)),
        0x1D => operations::dec(cpu, Operand8::Reg(Reg8::E)),
        0x1E => operations::ld(cpu, Operand8::Reg(Reg8::E), Operand8::Imm),
        _ => operations::rra(cpu),
    }
}

#[verifier::rlimit(50)]
fn execute_unprefixed_x20(cpu: &mut Cpu, op: u8) -> (t: Timing)
    requires
        spec_cpu_wf(old(cpu)@),
    ensures
        (final(cpu)@, t) == spec_execute_unprefixed_x20(old(cpu)@, op),
        spec_cpu_wf(final(cpu)@),
{
    proof {
        reveal(spec_execute_unprefixed_x20);
    }
    match op {
        0x20 => operations::jr(cpu, Condition::NotZero, Operand8::Imm),
        0x21 => operations::ld16(cpu, Operand16::Reg(Reg16::HL), Operand16::Imm),
        0x22 => operations::ldi(cpu, Operand8::Ind(Reg16::HL), Operand8::Reg(Reg8::A), Reg16::HL),
        0x23 => operations::inc16(cpu, Reg16::HL),
        0x24 => operations::inc(cpu, Operand8::Reg(Reg8::H)),
        0x25 => operations::dec(cpu, Operand8::Reg(Reg8::H)),
        0x26 => operations::ld(cpu, Operand8::Reg(Reg8::H), Operand8::Imm),
        0x27 => operations::daa(cpu),
        0x28 => operations::jr(cpu, Condition::Zero, Operand8::Imm),
        0x29 => operations::add16(cpu, Reg16::HL, Reg16::HL),
        0x2A => operations::ldi(cpu, Operand8::Reg(Reg8::A), Operand8::Ind(Reg16::HL), Reg16::HL),
        0x2B => operations::dec16(cpu, Reg16::HL),
        0x2C => operations::inc(cpu, Operand8::Reg(Reg8::L)),
        0x2D => operations::dec(cpu, Operand8::Reg(Reg8::L)),
        0x2E => operations::ld(cpu, Operand8::Reg(Reg8::L), Operand8::Imm),
        _ => operations::cpl(cpu),
    }
}

#[verifier::rlimit(50)]
fn execute_unprefixed_x30(cpu: &mut Cpu, op: u8) -> (t: Timing)
    requires
        spec_cpu_wf(old(cpu)@),
    ensures
        (final(cpu)@, t) == spec_execute_unprefixed_x30(old(cpu)@, op),
        spec_cpu_wf(final(cpu)@),
{
    proof {
        reveal(spec_execute_unprefixed_x30);
    }
    match op {
        0x30 => operations::jr(cpu, Condition::NotCarry, Operand8::Imm),
        0x31 => operations::ld16(cpu, Operand16::Reg(Reg16::SP), Operand16::Imm),
        0x32 => operations::ldd(cpu, Operand8::Ind(Reg16::HL), Operand8::Reg(Reg8::A), Reg16::HL),
        0x33 => operations::inc16(cpu, Reg16::SP),
        0x34 => operations::inc(cpu, Operand8::Ind(Reg16::HL)),
        0x35 => operations::dec(cpu, Operand8::Ind(Reg16::HL)),
        0x36 => operations::ld(cpu, Operand8::Ind(Reg16::HL), Operand8::Imm),
        0x37 => operations::scf(cpu),
        0x38 => operations::jr(cpu, Condition::Carry, Operand8::Imm),
        0x39 => operations::add16(cpu, Reg16::HL, Reg16::SP),
        0x3A => operations::ldd(cpu, Operand8::Reg(Reg8::A), Operand8::Ind(Reg16::HL), Reg16::HL),
        0x3B => operations::dec16(cpu, Reg16::SP),
        0x3C => operations::inc(cpu, Operand8::Reg(Reg8::A)),
        0x3D => operations::dec(cpu, Operand8::Reg(Reg8::A)),
        0x3E => operations::ld(cpu, Operand8::Reg(Reg8::A), Operand8::Imm),
        _ => operations::ccf(cpu),
    }
}

#[verifier::rlimit(50)]
fn execute_unprefixed_x40(cpu: &mut Cpu, op: u8) -> (t: Timing)
    requires
        spec_cpu_wf(old(cpu)@),
    ensures
        (final(cpu)@, t) == spec_execute_unprefixed_x40(old(cpu)@, op),
        spec_cpu_wf(final(cpu)@),
{
    proof {
        reveal(spec_execute_unprefixed_x40);
    }
    match op {
        0x40 => operations::ld(cpu, Operand8::Reg(Reg8::B), Operand8::Reg(Reg8::B)),
        0x41 => operations::ld(cpu, Operand8::Reg(Reg8::B), Operand8::Reg(Reg8::C)),
        0x42 => operations::ld(cpu, Operand8::Reg(Reg8::B), Operand8::Reg(Reg8::D)),
        0x43 => operations::ld(cpu, Operand8::Reg(Reg8::B), Operand8::Reg(Reg8::E)),
        0x44 => operations::ld(cpu, Operand8::Reg(Reg8::B), Operand8::Reg(Reg8::H)),
        0x45 => operations::ld(cpu, Operand8::Reg(Reg8::B), Operand8::Reg(Reg8::L)),
        0x46 => operations::ld(cpu, Operand8::Reg(Reg8::B), Operand8::Ind(Reg16::HL)),
        0x47 => operations::ld(cpu, Operand8::Reg(Reg8::B), Operand8::Reg(Reg8::A)),
        0x48 => operations::ld(cpu, Operand8::Reg(Reg8::C), Operand8::Reg(Reg8::B)),
        0x49 => operations::ld(cpu, Operand8::Reg(Reg8::C), Operand8::Reg(Reg8::C)),
        0x4A => operations::ld(cpu, Operand8::Reg(Reg8::C), Operand8::Reg(Reg8::D)),
        0x4B => operations::ld(cpu, Operand8::Reg(Reg8::C), Operand8::Reg(Reg8::E)),
        0x4C => operations::ld(cpu, Operand8::Reg(Reg8::C), Operand8::Reg(Reg8::H)),
        0x4D => operations::ld(cpu, Operand8::Reg(Reg8::C), Operand8::Reg(Reg8::L)),
        0x4E => operations::ld(cpu, Operand8::Reg(Reg8::C), Operand8::Ind(Reg16::HL)),
        _ => operations::ld(cpu, Operand8::Reg(Reg8::C), Operand8::Reg(Reg8::A)),
    }
}

#[verifier::rlimit(50)]
fn execute_unprefixed_x50(cpu: &mut Cpu, op: u8) -> (t: Timing)
    requires
        spec_cpu_wf(old(cpu)@),
    ensures
        (final(cpu)@, t) == spec_execute_unprefixed_x50(old(cpu)@, op),
        spec_cpu_wf(final(cpu)@),
{
    proof {
        reveal(spec_execute_unprefixed_x50);
    }
    match op {
        0x50 => operations::ld(cpu, Operand8::Reg(Reg8::D), Operand8::Reg(Reg8::B)),
        0x51 => operations::ld(cpu, Operand8::Reg(Reg8::D), Operand8::Reg(Reg8::C)),
        0x52 => operations::ld(cpu, Operand8::Reg(Reg8::D), Operand8::Reg(Reg8::D)),
        0x53 => operations::ld(cpu, Operand8::Reg(Reg8::D), Operand8::Reg(Reg8::E)),
        0x54 => operations::ld(cpu, Operand8::Reg(Reg8::D), Operand8::Reg(Reg8::H)),
        0x55 => operations::ld(cpu, Operand8::Reg(Reg8::D), Operand8::Reg(Reg8::L)),
        0x56 => operations::ld(cpu, Operand8::Reg(Reg8::D), Operand8::Ind(Reg16::HL)),
        0x57 => operations::ld(cpu, Operand8::Reg(Reg8::D), Operand8::Reg(Reg8::A)),
        0x58 => operations::ld(cpu, Operand8::Reg(Reg8::E), Operand8::Reg(Reg8::B)),
        0x59 => operations::ld(cpu, Operand8::Reg(Reg8::E), Operand8::Reg(Reg8::C)),
        0x5A => operations::ld(cpu, Operand8::Reg(Reg8::E), Operand8::Reg(Reg8::D)),
        0x5B => operations::ld(cpu, Operand8::Reg(Reg8::E), Operand8::Reg(Reg8::E)),
        0x5C => operations::ld(cpu, Operand8::Reg(Reg8::E), Operand8::Reg(Reg8::H)),
        0x5D => operations::ld(cpu, Operand8::Reg(Reg8::E), Operand8::Reg(Reg8::L)),
        0x5E => operations::ld(cpu, Operand8::Reg(Reg8::E), Operand8::Ind(Reg16::HL)),
        _ => operations::ld(cpu, Operand8::Reg(Reg8::E), Operand8::Reg(Reg8::A)),
    }
}

#[verifier::rlimit(50)]
fn execute_unprefixed_x60(cpu: &mut Cpu, op: u8) -> (t: Timing)
    requires
        spec_cpu_wf(old(cpu)@),
    ensures
        (final(cpu)@, t) == spec_execute_unprefixed_x60(old(cpu)@, op),
        spec_cpu_wf(final(cpu)@),
{
    proof {
        reveal(spec_execute_unprefixed_x60);
    }
    match op {
        0x60 => operations::ld(cpu, Operand8::Reg(Reg8::H), Operand8::Reg(Reg8::B)),
        0x61 => operations::ld(cpu, Operand8::Reg(Reg8::H), Operand8::Reg(Reg8::C)),
        0x62 => operations::ld(cpu, Operand8::Reg(Reg8::H), Operand8::Reg(Reg8::D)),
        0x63 => operations::ld(cpu, Operand8::Reg(Reg8::H), Operand8::Reg(Reg8::E)),
        0x64 => operations::ld(cpu, Operand8::Reg(Reg8::H), Operand8::Reg(Reg8::H)),
        0x65 => operations::ld(cpu, Operand8::Reg(Reg8::H), Operand8::Reg(Reg8::L)),
        0x66 => operations::ld(cpu, Operand8::Reg(Reg8::H), Operand8::Ind(Reg16::HL)),
        0x67 => operations::ld(cpu, Operand8::Reg(Reg8::H), Operand8::Reg(Reg8::A)),
        0x68 => operations::ld(cpu, Operand8::Reg(Reg8::L), Operand8::Reg(Reg8::B)),
        0x69 => operations::ld(cpu, Operand8::Reg(Reg8::L), Operand8::Reg(Reg8::C)),
        0x6A => operations::ld(cpu, Operand8::Reg(Reg8::L), Operand8::Reg(Reg8::D)),
        0x6B => operations::ld(cpu, Operand8::Reg(Reg8::L), Operand8::Reg(Reg8::E)),
        0x6C => operations::ld(cpu, Operand8::Reg(Reg8::L), Operand8::Reg(Reg8::H)),
        0x6D => operations::ld(cpu, Operand8::Reg(Reg8::L), Operand8::Reg(Reg8::L)),
        0x6E => operations::ld(cpu, Operand8::Reg(Reg8::L), Operand8::Ind(Reg16::HL)),
        _ => operations::ld(cpu, Operand8::Reg(Reg8::L), Operand8::Reg(Reg8::A)),
    }
}

#[verifier::rlimit(50)]
fn execute_unprefixed_x70(cpu: &mut Cpu, op: u8) -> (t: Timing)
    requires
        spec_cpu_wf(old(cpu)@),
    ensures
        (final(cpu)@, t) == spec_execute_unprefixed_x70(old(cpu)@, op),
        spec_cpu_wf(final(cpu)@),
{
    proof {
        reveal(spec_execute_unprefixed_x70);
    }
    match op {
        0x70 => operations::ld(cpu, Operand8::Ind(Reg16::HL), Operand8::Reg(Reg8::B)),
        0x71 => operations::ld(cpu, Operand8::Ind(Reg16::HL), Operand8::Reg(Reg8::C)),
        0x72 => operations::ld(cpu, Operand8::Ind(Reg16::HL), Operand8::Reg(Reg8::D)),
        0x73 => operations::ld(cpu, Operand8::Ind(Reg16::HL), Operand8::Reg(Reg8::E)),
        0x74 => operations::ld(cpu, Operand8::Ind(Reg16::HL), Operand8::Reg(Reg8::H)),
        0x75 => operations::ld(cpu, Operand8::Ind(Reg16::HL), Operand8::Reg(Reg8::L)),
        0x76 => operations::halt(cpu),
        0x77 => operations::ld(cpu, Operand8::Ind(Reg16::HL), Operand8::Reg(Reg8::A)),
        0x78 => operations::ld(cpu, Operand8::Reg(Reg8::A), Operand8::Reg(Reg8::B)),
        0x79 => operations::ld(cpu, Operand8::Reg(Reg8::A), Operand8::Reg(Reg8::C)),
        0x7A => operations::ld(cpu, Operand8::Reg(Reg8::A), Operand8::Reg(Reg8::D)),
        0x7B => operations::ld(cpu, Operand8::Reg(Reg8::A), Operand8::Reg(Reg8::E)),
        0x7C => operations::ld(cpu, Operand8::Reg(Reg8::A), Operand8::Reg(Reg8::H)),
        0x7D => operations::ld(cpu, Operand8::Reg(Reg8::A), Operand8::Reg(Reg8::L)),
        0x7E => operations::ld(cpu, Operand8::Reg(Reg8::A), Operand8::Ind(Reg16::HL)),
        _ => operations::ld(cpu, Operand8::Reg(Reg8::A), Operand8::Reg(Reg8::A)),
    }
}

#[verifier::rlimit(50)]
fn execute_unprefixed_x80(cpu: &mut Cpu, op: u8) -> (t: Timing)
    requires
        spec_cpu_wf(old(cpu)@),
    ensures
        (final(cpu)@, t) == spec_execute_unprefixed_x80(old(cpu)@, op),
        spec_cpu_wf(final(cpu)@),
{
    proof {
        reveal(spec_execute_unprefixed_x80);
    }
    match op {
        0x80 => operations::add(cpu, Operand8::Reg(Reg8::A), Operand8::Reg(Reg8::B)),
        0x81 => operations::add(cpu, Operand8::Reg(Reg8::A), Operand8::Reg(Reg8::C)),
        0x82 => operations::add(cpu, Operand8::Reg(Reg8::A), Operand8::Reg(Reg8::D)),
        0x83 => operations::add(cpu, Operand8::Reg(Reg8::A), Operand8::Reg(Reg8::E)),
        0x84 => operations::add(cpu, Operand8::Reg(Reg8::A), Operand8::Reg(Reg8::H)),
        0x85 => operations::add(cpu, Operand8::Reg(Reg8::A), Operand8::Reg(Reg8::L)),
        0x86 => operations::add(cpu, Operand8::Reg(Reg8::A), Operand8::Ind(Reg16::HL)),
        0x87 => operations::add(cpu, Operand8::Reg(Reg8::A), Operand8::Reg(Reg8::A)),
        0x88 => operations::adc(cpu, Operand8::Reg(Reg8::A), Operand8::Reg(Reg8::B)),
        0x89 => operations::adc(cpu, Operand8::Reg(Reg8::A), Operand8::Reg(Reg8::C)),
        0x8A => operations::adc(cpu, Operand8::Reg(Reg8::A), Operand8::Reg(Reg8::D)),
        0x8B => operations::adc(cpu, Operand8::Reg(Reg8::A), Operand8::Reg(Reg8::E)),
        0x8C => operations::adc(cpu, Operand8::Reg(Reg8::A), Operand8::Reg(Reg8::H)),
        0x8D => operations::adc(cpu, Operand8::Reg(Reg8::A), Operand8::Reg(Reg8::L)),
        0x8E => operations::adc(cpu, Operand8::Reg(Reg8::A), Operand8::Ind(Reg16::HL)),
        _ => operations::adc(cpu, Operand8::Reg(Reg8::A), Operand8::Reg(Reg8::A)),
    }
}

#[verifier::rlimit(50)]
fn execute_unprefixed_x90(cpu: &mut Cpu, op: u8) -> (t: Timing)
    requires
        spec_cpu_wf(old(cpu)@),
    ensures
        (final(cpu)@, t) == spec_execute_unprefixed_x90(old(cpu)@, op),
        spec_cpu_wf(final(cpu)@),
{
    proof {
        reveal(spec_execute_unprefixed_x90);
    }
    match op {
        0x90 => operations::sub(cpu, Operand8::Reg(Reg8::A), Operand8::Reg(Reg8::B)),
        0x91 => operations::sub(cpu, Operand8::Reg(Reg8::A), Operand8::Reg(Reg8::C)),
        0x92 => operations::sub(cpu, Operand8::Reg(Reg8::A), Operand8::Reg(Reg8::D)),
        0x93 => operations::sub(cpu, Operand8::Reg(Reg8::A), Operand8::Reg(Reg8::E)),
        0x94 => operations::sub(cpu, Operand8::Reg(Reg8::A), Operand8::Reg(Reg8::H)),
        0x95 => operations::sub(cpu, Operand8::Reg(Reg8::A), Operand8::Reg(Reg8::L)),
        0x96 => operations::sub(cpu, Operand8::Reg(Reg8::A), Operand8::Ind(Reg16::HL)),
        0x97 => operations::sub(cpu, Operand8::Reg(Reg8::A), Operand8::Reg(Reg8::A)),
        0x98 => operations::sbc(cpu, Operand8::Reg(Reg8::A), Operand8::Reg(Reg8::B)),
        0x99 => operations::sbc(cpu, Operand8::Reg(Reg8::A), Operand8::Reg(Reg8::C)),
        0x9A => operations::sbc(cpu, Operand8::Reg(Reg8::A), Operand8::Reg(Reg8::D)),
        0x9B => operations::sbc(cpu, Operand8::Reg(Reg8::A), Operand8::Reg(Reg8::E)),
        0x9C => operations::sbc(cpu, Operand8::Reg(Reg8::A), Operand8::Reg(Reg8::H)),
        0x9D => operations::sbc(cpu, Operand8::Reg(Reg8::A), Operand8::Reg(Reg8::L)),
        0x9E => operations::sbc(cpu, Operand8::Reg(Reg8::A), Operand8::Ind(Reg16::HL)),
        _ => operations::sbc(cpu, Operand8::Reg(Reg8::A), Operand8::Reg(Reg8::A)),
    }
}

#[verifier::rlimit(50)]
fn execute_unprefixed_xA0(cpu: &mut Cpu, op: u8) -> (t: Timing)
    requires
        spec_cpu_wf(old(cpu)@),
    ensures
        (final(cpu)@, t) == spec_execute_unprefixed_xA0(old(cpu)@, op),
        spec_cpu_wf(final(cpu)@),
{
    proof {
        reveal(spec_execute_unprefixed_xA0);
    }
    match op {
        0xA0 => operations::and(cpu, Operand8::Reg(Reg8::A), Operand8::Reg(Reg8::B)),
        0xA1 => operations::and(cpu, Operand8::Reg(Reg8::A), Operand8::Reg(Reg8::C)),
        0xA2 => operations::and(cpu, Operand8::Reg(Reg8::A), Operand8::Reg(Reg8::D)),
        0xA3 => operations::and(cpu, Operand8::Reg(Reg8::A), Operand8::Reg(Reg8::E)),
        0xA4 => operations::and(cpu, Operand8::Reg(Reg8::A), Operand8::Reg(Reg8::H)),
        0xA5 => operations::and(cpu, Operand8::Reg(Reg8::A), Operand8::Reg(Reg8::L)),
        0xA6 => operations::and(cpu, Operand8::Reg(Reg8::A), Operand8::Ind(Reg16::HL)),
        0xA7 => operations::and(cpu, Operand8::Reg(Reg8::A), Operand8::Reg(Reg8::A)),
        0xA8 => operations::xor(cpu, Operand8::Reg(Reg8::A), Operand8::Reg(Reg8::B)),
        0xA9 => operations::xor(cpu, Operand8::Reg(Reg8::A), Operand8::Reg(Reg8::C)),
        0xAA => operations::xor(cpu, Operand8::Reg(Reg8::A), Operand8::Reg(Reg8::D)),
        0xAB => operations::xor(cpu, Operand8::Reg(Reg8::A), Operand8::Reg(Reg8::E)),
        0xAC => operations::xor(cpu, Operand8::Reg(Reg8::A), Operand8::Reg(Reg8::H)),
        0xAD => operations::xor(cpu, Operand8::Reg(Reg8::A), Operand8::Reg(Reg8::L)),
        0xAE => operations::xor(cpu, Operand8::Reg(Reg8::A), Operand8::Ind(Reg16::HL)),
        _ => operations::xor(cpu, Operand8::Reg(Reg8::A), Operand8::Reg(Reg8::A)),
    }
}

#[verifier::rlimit(50)]
fn execute_unprefixed_xB0(cpu: &mut Cpu, op: u8) -> (t: Timing)
    requires
        spec_cpu_wf(old(cpu)@),
    ensures
        (final(cpu)@, t) == spec_execute_unprefixed_xB0(old(cpu)@, op),
        spec_cpu_wf(final(cpu)@),
{
    proof {
        reveal(spec_execute_unprefixed_xB0);
    }
    match op {
        0xB0 => operations::or(cpu, Operand8::Reg(Reg8::A), Operand8::Reg(Reg8::B)),
        0xB1 => operations::or(cpu, Operand8::Reg(Reg8::A), Operand8::Reg(Reg8::C)),
        0xB2 => operations::or(cpu, Operand8::Reg(Reg8::A), Operand8::Reg(Reg8::D)),
        0xB3 => operations::or(cpu, Operand8::Reg(Reg8::A), Operand8::Reg(Reg8::E)),
        0xB4 => operations::or(cpu, Operand8::Reg(Reg8::A), Operand8::Reg(Reg8::H)),
        0xB5 => operations::or(cpu, Operand8::Reg(Reg8::A), Operand8::Reg(Reg8::L)),
        0xB6 => operations::or(cpu, Operand8::Reg(Reg8::A), Operand8::Ind(Reg16::HL)),
        0xB7 => operations::or(cpu, Operand8::Reg(Reg8::A), Operand8::Reg(Reg8::A)),
        0xB8 => operations::cp(cpu, Operand8::Reg(Reg8::B)),
        0xB9 => operations::cp(cpu, Operand8::Reg(Reg8::C)),
        0xBA => operations::cp(cpu, Operand8::Reg(Reg8::D)),
        0xBB => operations::cp(cpu, Operand8::Reg(Reg8::E)),
        0xBC => operations::cp(cpu, Operand8::Reg(Reg8::H)),
        0xBD => operations::cp(cpu, Operand8::Reg(Reg8::L)),
        0xBE => operations::cp(cpu, Operand8::Ind(Reg16::HL)),
        _ => operations::cp(cpu, Operand8::Reg(Reg8::A)),
    }
}

#[verifier::rlimit(50)]
fn execute_unprefixed_xC0(cpu: &mut Cpu, op: u8) -> (t: Timing)
    requires
        spec_cpu_wf(old(cpu)@),
    ensures
        (final(cpu)@, t) == spec_execute_unprefixed_xC0(old(cpu)@, op),
        spec_cpu_wf(final(cpu)@),
{
    proof {
        reveal(spec_execute_unprefixed_xC0);
    }
    match op {
        0xC0 => operations::ret(cpu, Condition::NotZero),
        0xC1 => operations::pop(cpu, Operand16::Reg(Reg16::BC)),
        0xC2 => operations::jp(cpu, Condition::NotZero, Operand16::Imm),
        0xC3 => operations::jp(cpu, Condition::Unconditional, Operand16::Imm),
        0xC4 => operations::call(cpu, Condition::NotZero, Operand16::Imm),
        0xC5 => operations::push(cpu, Operand16::Reg(Reg16::BC)),
        0xC6 => operations::add(cpu, Operand8::Reg(Reg8::A), Operand8::Imm),
        0xC7 => operations::rst(cpu, 0),
        0xC8 => operations::ret(cpu, Condition::Zero),
        0xC9 => operations::ret(cpu, Condition::Unconditional),
        0xCA => operations::jp(cpu, Condition::Zero, Operand16::Imm),
        0xCC => operations::call(cpu, Condition::Zero, Operand16::Imm),
        0xCD => operations::call(cpu, Condition::Unconditional, Operand16::Imm),
        0xCE => operations::adc(cpu, Operand8::Reg(Reg8::A), Operand8::Imm),
        0xCF => operations::rst(cpu, 8),
        _ => Timing::Normal,
    }
}

#[verifier::rlimit(50)]
fn execute_unprefixed_xD0(cpu: &mut Cpu, op: u8) -> (t: Timing)
    requires
        spec_cpu_wf(old(cpu)@),
    ensures
        (final(cpu)@, t) == spec_execute_unprefixed_xD0(old(cpu)@, op),
        spec_cpu_wf(final(cpu)@),
{
    proof {
        reveal(spec_execute_unprefixed_xD0);
    }
    match op {
        0xD0 => operations::ret(cpu, Condition::NotCarry),
        0xD1 => operations::pop(cpu, Operand16::Reg(Reg16::DE)),
        0xD2 => operations::jp(cpu, Condition::NotCarry, Operand16::Imm),
        0xD4 => operations::call(cpu, Condition::NotCarry, Operand16::Imm),
        0xD5 => operations::push(cpu, Operand16::Reg(Reg16::DE)),
        0xD6 => operations::sub(cpu, Operand8::Reg(Reg8::A), Operand8::Imm),
        0xD7 => operations::rst(cpu, 16),
        0xD8 => operations::ret(cpu, Condition::Carry),
        0xD9 => operations::reti(cpu),
        0xDA => operations::jp(cpu, Condition::Carry, Operand16::Imm),
        0xDC => operations::call(cpu, Condition::Carry, Operand16::Imm),
        0xDE => operations::sbc(cpu, Operand8::Reg(Reg8::A), Operand8::Imm),
        0xDF => operations::rst(cpu, 24),
        _ => Timing::Normal,
    }
}

#[verifier::rlimit(50)]
fn execute_unprefixed_xE0(cpu: &mut Cpu, op: u8) -> (t: Timing)
    requires
        spec_cpu_wf(old(cpu)@),
    ensures
        (final(cpu)@, t) == spec_execute_unprefixed_xE0(old(cpu)@, op),
        spec_cpu_wf(final(cpu)@),
{
    proof {
        reveal(spec_execute_unprefixed_xE0);
    }
    match op {
        0xE0 => operations::ld(cpu, Operand8::ZeroPageImm, Operand8::Reg(Reg8::A)),
        0xE1 => operations::pop(cpu, Operand16::Reg(Reg16::HL)),
        0xE2 => operations::ld(cpu, Operand8::ZeroPage(Reg8::C), Operand8::Reg(Reg8::A)),
        0xE5 => operations::push(cpu, Operand16::Reg(Reg16::HL)),
        0xE6 => operations::and(cpu, Operand8::Reg(Reg8::A), Operand8::Imm),
        0xE7 => operations::rst(cpu, 32),
        0xE8 => operations::add_sp(cpu),
        0xE9 => operations::jp(cpu, Condition::Unconditional, Operand16::Reg(Reg16::HL)),
        0xEA => operations::ld(cpu, Operand8::IndImm, Operand8::Reg(Reg8::A)),
        0xEE => operations::xor(cpu, Operand8::Reg(Reg8::A), Operand8::Imm),
        0xEF => operations::rst(cpu, 40),
        _ => Timing::Normal,
    }
}

#[verifier::rlimit(50)]
fn execute_unprefixed_xF0(cpu: &mut Cpu, op: u8) -> (t: Timing)
    requires
        spec_cpu_wf(old(cpu)@),
    ensures
        (final(cpu)@, t) == spec_execute_unprefixed_xF0(old(cpu)@, op),
        spec_cpu_wf(final(cpu)@),
{
    proof {
        reveal(spec_execute_unprefixed_xF0);
    }
    match op {
        0xF0 => operations::ld(cpu, Operand8::Reg(Reg8::A), Operand8::ZeroPageImm),
        0xF1 => operations::pop(cpu, Operand16::Reg(Reg16::AF)),
        0xF2 => operations::ld(cpu, Operand8::Reg(Reg8::A), Operand8::ZeroPage(Reg8::C)),
        0xF3 => operations::di(cpu),
        0xF5 => operations::push(cpu, Operand16::Reg(Reg16::AF)),
        0xF6 => operations::or(cpu, Operand8::Reg(Reg8::A), Operand8::Imm),
        0xF7 => operations::rst(cpu, 48),
        0xF8 => operations::ldhl(cpu),
        0xF9 => operations::ld16(cpu, Operand16::Reg(Reg16::SP), Operand16::Reg(Reg16::HL)),
        0xFA => operations::ld(cpu, Operand8::Reg(Reg8::A), Operand8::IndImm),
        0xFB => operations::ei(cpu),
        0xFE => operations::cp(cpu, Operand8::Imm),
        0xFF => operations::rst(cpu, 56),
        _ => Timing::Normal,
    }
}

/// Executes one unprefixed opcode against the CPU; a descriptorless opcode
/// is a no-op.
#[verifier::rlimit(100)]
pub fn execute_unprefixed(cpu: &mut Cpu, op: u8) -> (t: Timing)
    requires
        spec_cpu_wf(old(cpu)@),
    ensures
        (final(cpu)@, t) == spec_execute_unprefixed(old(cpu)@, op),
        spec_cpu_wf(final(cpu)@),
{

    if op < 0x10 {
        execute_unprefixed_x00(cpu, op)
    } else if op < 0x20 {
        execute_unprefixed_x10(cpu, op)
    } else if op < 0x30 {
        execute_unprefixed_x20(cpu, op)
    } else if op < 0x40 {
        execute_unprefixed_x30(cpu, op)
    } else if op < 0x50 {
        execute_unprefixed_x40(cpu, op)
    } else if op < 0x60 {
        execute_unprefixed_x50(cpu, op)
    } else if op < 0x70 {
        execute_unprefixed_x60(cpu, op)
    } else if op < 0x80 {
        execute_unprefixed_x70(cpu, op)
    } else if op < 0x90 {
        execute_unprefixed_x80(cpu, op)
    } else if op < 0xA0 {
        execute_unprefixed_x90(cpu, op)
    } else if op < 0xB0 {
        execute_unprefixed_xA0(cpu, op)
    } else if op < 0xC0 {
        execute_unprefixed_xB0(cpu, op)
    } else if op < 0xD0 {
        execute_unprefixed_xC0(cpu, op)
    } else if op < 0xE0 {
        execute_unprefixed_xD0(cpu, op)
    } else if op < 0xF0 {
        execute_unprefixed_xE0(cpu, op)
    } else {
        execute_unprefixed_xF0(cpu, op)
    }
}

#[verifier::rlimit(50)]
fn execute_prefixed_x00(cpu: &mut Cpu, op: u8) -> (t: Timing)
    requires
        spec_cpu_wf(old(cpu)@),
    ensures
        (final(cpu)@, t) == spec_execute_prefixed_x00(old(cpu)@, op),
        spec_cpu_wf(final(cpu)@),
{
    proof {
        reveal(spec_execute_prefixed_x00);
    }
    match op {
        0x00 => operations::rlc(cpu, Operand8::Reg(Reg8::B)),
        0x01 => operations::rlc(cpu, Operand8::Reg(Reg8::C)),
        0x02 => operations::rlc(cpu, Operand8::Reg(Reg8::D)),
        0x03 => operations::rlc(cpu, Operand8::Reg(Reg8::E)),
        0x04 => operations::rlc(cpu, Operand8::Reg(Reg8::H)),
        0x05 => operations::rlc(cpu, Operand8::Reg(Reg8::L)),
        0x06 => operations::rlc(cpu, Operand8::Ind(Reg16::HL)),
        0x07 => operations::rlc(cpu, Operand8::Reg(Reg8::A)),
        0x08 => operations::rrc(cpu, Operand8::Reg(Reg8::B)),
        0x09 => operations::rrc(cpu, Operand8::Reg(Reg8::C)),
        0x0A => operations::rrc(cpu, Operand8::Reg(Reg8::D)),
        0x0B => operations::rrc(cpu, Operand8::Reg(Reg8::E)),
        0x0C => operations::rrc(cpu, Operand8::Reg(Reg8::H)),
        0x0D => operations::rrc(cpu, Operand8::Reg(Reg8::L)),
        0x0E => operations::rrc(cpu, Operand8::Ind(Reg16::HL)),
        _ => operations::rrc(cpu, Operand8::Reg(Reg8::A)),
    }
}

#[verifier::rlimit(50)]
fn execute_prefixed_x10(cpu: &mut Cpu, op: u8) -> (t: Timing)
    requires
        spec_cpu_wf(old(cpu)@),
    ensures
        (final(cpu)@, t) == spec_execute_prefixed_x10(old(cpu)@, op),
        spec_cpu_wf(final(cpu)@),
{
    proof {
        reveal(spec_execute_prefixed_x10);
    }
    match op {
        0x10 => operations::rl(cpu, Operand8::Reg(Reg8::B)),
        0x11 => operations::rl(cpu, Operand8::Reg(Reg8::C)),
        0x12 => operations::rl(cpu, Operand8::Reg(Reg8::D)),
        0x13 => operations::rl(cpu, Operand8::Reg(Reg8::E)),
        0x14 => operations::rl(cpu, Operand8::Reg(Reg8::H)),
        0x15 => operations::rl(cpu, Operand8::Reg(Reg8::L)),
        0x16 => operations::rl(cpu, Operand8::Ind(Reg16::HL)),
        0x17 => operations::rl(cpu, Operand8::Reg(Reg8::A)),
        0x18 => operations::rr(cpu, Operand8::Reg(Reg8::B)),
        0x19 => operations::rr(cpu, Operand8::Reg(Reg8::C)),
        0x1A => operations::rr(cpu, Operand8::Reg(Reg8::D)),
        0x1B => operations::rr(cpu, Operand8::Reg(Reg8::E)),
        0x1C => operations::rr(cpu, Operand8::Reg(Reg8::H)),
        0x1D => operations::rr(cpu, Operand8::Reg(Reg8::L)),
        0x1E => operations::rr(cpu, Operand8::Ind(Reg16::HL)),
        _ => operations::rr(cpu, Operand8::Reg(Reg8::A)),
    }
}

#[verifier::rlimit(50)]
fn execute_prefixed_x20(cpu: &mut Cpu, op: u8) -> (t: Timing)
    requires
        spec_cpu_wf(old(cpu)@),
    ensures
        (final(cpu)@, t) == spec_execute_prefixed_x20(old(cpu)@, op),
        spec_cpu_wf(final(cpu)@),
{
    proof {
        reveal(spec_execute_prefixed_x20);
    }
    match op {
        0x20 => operations::sla(cpu, Operand8::Reg(Reg8::B)),
        0x21 => operations::sla(cpu, Operand8::Reg(Reg8::C)),
        0x22 => operations::sla(cpu, Operand8::Reg(Reg8::D)),
        0x23 => operations::sla(cpu, Operand8::Reg(Reg8::E)),
        0x24 => operations::sla(cpu, Operand8::Reg(Reg8::H)),
        0x25 => operations::sla(cpu, Operand8::Reg(Reg8::L)),
        0x26 => operations::sla(cpu, Operand8::Ind(Reg16::HL)),
        0x27 => operations::sla(cpu, Operand8::Reg(Reg8::A)),
        0x28 => operations::sra(cpu, Operand8::Reg(Reg8::B)),
        0x29 => operations::sra(cpu, Operand8::Reg(Reg8::C)),
        0x2A => operations::sra(cpu, Operand8::Reg(Reg8::D)),
        0x2B => operations::sra(cpu, Operand8::Reg(Reg8::E)),
        0x2C => operations::sra(cpu, Operand8::Reg(Reg8::H)),
        0x2D => operations::sra(cpu, Operand8::Reg(Reg8::L)),
        0x2E => operations::sra(cpu, Operand8::Ind(Reg16::HL)),
        _ => operations::sra(cpu, Operand8::Reg(Reg8::A)),
    }
}

#[verifier::rlimit(50)]
fn execute_prefixed_x30(cpu: &mut Cpu, op: u8) -> (t: Timing)
    requires
        spec_cpu_wf(old(cpu)@),
    ensures
        (final(cpu)@, t) == spec_execute_prefixed_x30(old(cpu)@, op),
        spec_cpu_wf(final(cpu)@),
{
    proof {
        reveal(spec_execute_prefixed_x30);
    }
    match op {
        0x30 => operations::swap(cpu, Operand8::Reg(Reg8::B)),
        0x31 => operations::swap(cpu, Operand8::Reg(Reg8::C)),
        0x32 => operations::swap(cpu, Operand8::Reg(Reg8::D)),
        0x33 => operations::swap(cpu, Operand8::Reg(Reg8::E)),
        0x34 => operations::swap(cpu, Operand8::Reg(Reg8::H)),
        0x35 => operations::swap(cpu, Operand8::Reg(Reg8::L)),
        0x36 => operations::swap(cpu, Operand8::Ind(Reg16::HL)),
        0x37 => operations::swap(cpu, Operand8::Reg(Reg8::A)),
        0x38 => operations::srl(cpu, Operand8::Reg(Reg8::B)),
        0x39 => operations::srl(cpu, Operand8::Reg(Reg8::C)),
        0x3A => operations::srl(cpu, Operand8::Reg(Reg8::D)),
        0x3B => operations::srl(cpu, Operand8::Reg(Reg8::E)),
        0x3C => operations::srl(cpu, Operand8::Reg(Reg8::H)),
        0x3D => operations::srl(cpu, Operand8::Reg(Reg8::L)),
        0x3E => operations::srl(cpu, Operand8::Ind(Reg16::HL)),
        _ => operations::srl(cpu, Operand8::Reg(Reg8::A)),
    }
}

#[verifier::rlimit(50)]
fn execute_prefixed_x40(cpu: &mut Cpu, op: u8) -> (t: Timing)
    requires
        spec_cpu_wf(old(cpu)@),
    ensures
        (final(cpu)@, t) == spec_execute_prefixed_x40(old(cpu)@, op),
        spec_cpu_wf(final(cpu)@),
{
    proof {
        reveal(spec_execute_prefixed_x40);
    }
    match op {
        0x40 => operations::bit(cpu, 0, Operand8::Reg(Reg8::B)),
        0x41 => operations::bit(cpu, 0, Operand8::Reg(Reg8::C)),
        0x42 => operations::bit(cpu, 0, Operand8::Reg(Reg8::D)),
        0x43 => operations::bit(cpu, 0, Operand8::Reg(Reg8::E)),
        0x44 => operations::bit(cpu, 0, Operand8::Reg(Reg8::H)),
        0x45 => operations::bit(cpu, 0, Operand8::Reg(Reg8::L)),
        0x46 => operations::bit(cpu, 0, Operand8::Ind(Reg16::HL)),
        0x47 => operations::bit(cpu, 0, Operand8::Reg(Reg8::A)),
        0x48 => operations::bit(cpu, 1, Operand8::Reg(Reg8::B)),
        0x49 => operations::bit(cpu, 1, Operand8::Reg(Reg8::C)),
        0x4A => operations::bit(cpu, 1, Operand8::Reg(Reg8::D)),
        0x4B => operations::bit(cpu, 1, Operand8::Reg(Reg8::E)),
        0x4C => operations::bit(cpu, 1, Operand8::Reg(Reg8::H)),
        0x4D => operations::bit(cpu, 1, Operand8::Reg(Reg8::L)),
        0x4E => operations::bit(cpu, 1, Operand8::Ind(Reg16::HL)),
        _ => operations::bit(cpu, 1, Operand8::Reg(Reg8::A)),
    }
}

#[verifier::rlimit(50)]
fn execute_prefixed_x50(cpu: &mut Cpu, op: u8) -> (t: Timing)
    requires
        spec_cpu_wf(old(cpu)@),
    ensures
        (final(cpu)@, t) == spec_execute_prefixed_x50(old(cpu)@, op),
        spec_cpu_wf(final(cpu)@),
{
    proof {
        reveal(spec_execute_prefixed_x50);
    }
    match op {
        0x50 => operations::bit(cpu, 2, Operand8::Reg(Reg8::B)),
        0x51 => operations::bit(cpu, 2, Operand8::Reg(Reg8::C)),
        0x52 => operations::bit(cpu, 2, Operand8::Reg(Reg8::D)),
        0x53 => operations::bit(cpu, 2, Operand8::Reg(Reg8::E)),
        0x54 => operations::bit(cpu, 2, Operand8::Reg(Reg8::H)),
        0x55 => operations::bit(cpu, 2, Operand8::Reg(Reg8::L)),
        0x56 => operations::bit(cpu, 2, Operand8::Ind(Reg16::HL)),
        0x57 => operations::bit(cpu, 2, Operand8::Reg(Reg8::A)),
        0x58 => operations::bit(cpu, 3, Operand8::Reg(Reg8::B)),
        0x59 => operations::bit(cpu, 3, Operand8::Reg(Reg8::C)),
        0x5A => operations::bit(cpu, 3, Operand8::Reg(Reg8::D)),
        0x5B => operations::bit(cpu, 3, Operand8::Reg(Reg8::E)),
        0x5C => operations::bit(cpu, 3, Operand8::Reg(Reg8::H)),
        0x5D => operations::bit(cpu, 3, Operand8::Reg(Reg8::L)),
        0x5E => operations::bit(cpu, 3, Operand8::Ind(Reg16::HL)),
        _ => operations::bit(cpu, 3, Operand8::Reg(Reg8::A)),
    }
}

#[verifier::rlimit(50)]
fn execute_prefixed_x60(cpu: &mut Cpu, op: u8) -> (t: Timing)
    requires
        spec_cpu_wf(old(cpu)@),
    ensures
        (final(cpu)@, t) == spec_execute_prefixed_x60(old(cpu)@, op),
        spec_cpu_wf(final(cpu)@),
{
    proof {
        reveal(spec_execute_prefixed_x60);
    }
    match op {
        0x60 => operations::bit(cpu, 4, Operand8::Reg(Reg8::B)),
        0x61 => operations::bit(cpu, 4, Operand8::Reg(Reg8::C)),
        0x62 => operations::bit(cpu, 4, Operand8::Reg(Reg8::D)),
        0x63 => operations::bit(cpu, 4, Operand8::Reg(Reg8::E)),
        0x64 => operations::bit(cpu, 4, Operand8::Reg(Reg8::H)),
        0x65 => operations::bit(cpu, 4, Operand8::Reg(Reg8::L)),
        0x66 => operations::bit(cpu, 4, Operand8::Ind(Reg16::HL)),
        0x67 => operations::bit(cpu, 4, Operand8::Reg(Reg8::A)),
        0x68 => operations::bit(cpu, 5, Operand8::Reg(Reg8::B)),
        0x69 => operations::bit(cpu, 5, Operand8::Reg(Reg8::C)),
        0x6A => operations::bit(cpu, 5, Operand8::Reg(Reg8::D)),
        0x6B => operations::bit(cpu, 5, Operand8::Reg(Reg8::E)),
        0x6C => operations::bit(cpu, 5, Operand8::Reg(Reg8::H)),
        0x6D => operations::bit(cpu, 5, Operand8::Reg(Reg8::L)),
        0x6E => operations::bit(cpu, 5, Operand8::Ind(Reg16::HL)),
        _ => operations::bit(cpu, 5, Operand8::Reg(Reg8::A)),
    }
}

#[verifier::rlimit(50)]
fn execute_prefixed_x70(cpu: &mut Cpu, op: u8) -> (t: Timing)
    requires
        spec_cpu_wf(old(cpu)@),
    ensures
        (final(cpu)@, t) == spec_execute_prefixed_x70(old(cpu)@, op),
        spec_cpu_wf(final(cpu)@),
{
    proof {
        reveal(spec_execute_prefixed_x70);
    }
    match op {
        0x70 => operations::bit(cpu, 6, Operand8::Reg(Reg8::B)),
        0x71 => operations::bit(cpu, 6, Operand8::Reg(Reg8::C)),
        0x72 => operations::bit(cpu, 6, Operand8::Reg(Reg8::D)),
        0x73 => operations::bit(cpu, 6, Operand8::Reg(Reg8::E)),
        0x74 => operations::bit(cpu, 6, Operand8::Reg(Reg8::H)),
        0x75 => operations::bit(cpu, 6, Operand8::Reg(Reg8::L)),
        0x76 => operations::bit(cpu, 6, Operand8::Ind(Reg16::HL)),
        0x77 => operations::bit(cpu, 6, Operand8::Reg(Reg8::A)),
        0x78 => operations::bit(cpu, 7, Operand8::Reg(Reg8::B)),
        0x79 => operations::bit(cpu, 7, Operand8::Reg(Reg8::C)),
        0x7A => operations::bit(cpu, 7, Operand8::Reg(Reg8::D)),
        0x7B => operations::bit(cpu, 7, Operand8::Reg(Reg8::E)),
        0x7C => operations::bit(cpu, 7, Operand8::Reg(Reg8::H)),
        0x7D => operations::bit(cpu, 7, Operand8::Reg(Reg8::L)),
        0x7E => operations::bit(cpu, 7, Operand8::Ind(Reg16::HL)),
        _ => operations::bit(cpu, 7, Operand8::Reg(Reg8::A)),
    }
}

#[verifier::rlimit(50)]
fn execute_prefixed_x80(cpu: &mut Cpu, op: u8) -> (t: Timing)
    requires
        spec_cpu_wf(old(cpu)@),
    ensures
        (final(cpu)@, t) == spec_execute_prefixed_x80(old(cpu)@, op),
        spec_cpu_wf(final(cpu)@),
{
    proof {
        reveal(spec_execute_prefixed_x80);
    }
    match op {
        0x80 => operations::res(cpu, 0, Operand8::Reg(Reg8::B)),
        0x81 => operations::res(cpu, 0, Operand8::Reg(Reg8::C)),
        0x82 => operations::res(cpu, 0, Operand8::Reg(Reg8::D)),
        0x83 => operations::res(cpu, 0, Operand8::Reg(Reg8::E)),
        0x84 => operations::res(cpu, 0, Operand8::Reg(Reg8::H)),
        0x85 => operations::res(cpu, 0, Operand8::Reg(Reg8::L)),
        0x86 => operations::res(cpu, 0, Operand8::Ind(Reg16::HL)),
        0x87 => operations::res(cpu, 0, Operand8::Reg(Reg8::A)),
        0x88 => operations::res(cpu, 1, Operand8::Reg(Reg8::B)),
        0x89 => operations::res(cpu, 1, Operand8::Reg(Reg8::C)),
        0x8A => operations::res(cpu, 1, Operand8::Reg(Reg8::D)),
        0x8B => operations::res(cpu, 1, Operand8::Reg(Reg8::E)),
        0x8C => operations::res(cpu, 1, Operand8::Reg(Reg8::H)),
        0x8D => operations::res(cpu, 1, Operand8::Reg(Reg8::L)),
        0x8E => operations::res(cpu, 1, Operand8::Ind(Reg16::HL)),
        _ => operations::res(cpu, 1, Operand8::Reg(Reg8::A)),
    }
}

#[verifier::rlimit(50)]
fn execute_prefixed_x90(cpu: &mut Cpu, op: u8) -> (t: Timing)
    requires
        spec_cpu_wf(old(cpu)@),
    ensures
        (final(cpu)@, t) == spec_execute_prefixed_x90(old(cpu)@, op),
        spec_cpu_wf(final(cpu)@),
{
    proof {
        reveal(spec_execute_prefixed_x90);
    }
    match op {
        0x90 => operations::res(cpu, 2, Operand8::Reg(Reg8::B)),
        0x91 => operations::res(cpu, 2, Operand8::Reg(Reg8::C)),
        0x92 => operations::res(cpu, 2, Operand8::Reg(Reg8::D)),
        0x93 => operations::res(cpu, 2, Operand8::Reg(Reg8::E)),
        0x94 => operations::res(cpu, 2, Operand8::Reg(Reg8::H)),
        0x95 => operations::res(cpu, 2, Operand8::Reg(Reg8::L)),
        0x96 => operations::res(cpu, 2, Operand8::Ind(Reg16::HL)),
        0x97 => operations::res(cpu, 2, Operand8::Reg(Reg8::A)),
        0x98 => operations::res(cpu, 3, Operand8::Reg(Reg8::B)),
        0x99 => operations::res(cpu, 3, Operand8::Reg(Reg8::C)),
        0x9A => operations::res(cpu, 3, Operand8::Reg(Reg8::D)),
        0x9B => operations::res(cpu, 3, Operand8::Reg(Reg8::E)),
        0x9C => operations::res(cpu, 3, Operand8::Reg(Reg8::H)),
        0x9D => operations::res(cpu, 3, Operand8::Reg(Reg8::L)),
        0x9E => operations::res(cpu, 3, Operand8::Ind(Reg16::HL)),
        _ => operations::res(cpu, 3, Operand8::Reg(Reg8::A)),
    }
}

#[verifier::rlimit(50)]
fn execute_prefixed_xA0(cpu: &mut Cpu, op: u8) -> (t: Timing)
    requires
        spec_cpu_wf(old(cpu)@),
    ensures
        (final(cpu)@, t) == spec_execute_prefixed_xA0(old(cpu)@, op),
        spec_cpu_wf(final(cpu)@),
{
    proof {
        reveal(spec_execute_prefixed_xA0);
    }
    match op {
        0xA0 => operations::res(cpu, 4, Operand8::Reg(Reg8::B)),
        0xA1 => operations::res(cpu, 4, Operand8::Reg(Reg8::C)),
        0xA2 => operations::res(cpu, 4, Operand8::Reg(Reg8::D)),
        0xA3 => operations::res(cpu, 4, Operand8::Reg(Reg8::E)),
        0xA4 => operations::res(cpu, 4, Operand8::Reg(Reg8::H)),
        0xA5 => operations::res(cpu, 4, Operand8::Reg(Reg8::L)),
        0xA6 => operations::res(cpu, 4, Operand8::Ind(Reg16::HL)),
        0xA7 => operations::res(cpu, 4, Operand8::Reg(Reg8::A)),
        0xA8 => operations::res(cpu, 5, Operand8::Reg(Reg8::B)),
        0xA9 => operations::res(cpu, 5, Operand8::Reg(Reg8::C)),
        0xAA => operations::res(cpu, 5, Operand8::Reg(Reg8::D)),
        0xAB => operations::res(cpu, 5, Operand8::Reg(Reg8::E)),
        0xAC => operations::res(cpu, 5, Operand8::Reg(Reg8::H)),
        0xAD => operations::res(cpu, 5, Operand8::Reg(Reg8::L)),
        0xAE => operations::res(cpu, 5, Operand8::Ind(Reg16::HL)),
        _ => operations::res(cpu, 5, Operand8::Reg(Reg8::A)),
    }
}

#[verifier::rlimit(50)]
fn execute_prefixed_xB0(cpu: &mut Cpu, op: u8) -> (t: Timing)
    requires
        spec_cpu_wf(old(cpu)@),
    ensures
        (final(cpu)@, t) == spec_execute_prefixed_xB0(old(cpu)@, op),
        spec_cpu_wf(final(cpu)@),
{
    proof {
        reveal(spec_execute_prefixed_xB0);
    }
    match op {
        0xB0 => operations::res(cpu, 6, Operand8::Reg(Reg8::B)),
        0xB1 => operations::res(cpu, 6, Operand8::Reg(Reg8::C)),
        0xB2 => operations::res(cpu, 6, Operand8::Reg(Reg8::D)),
        0xB3 => operations::res(cpu, 6, Operand8::Reg(Reg8::E)),
        0xB4 => operations::res(cpu, 6, Operand8::Reg(Reg8::H)),
        0xB5 => operations::res(cpu, 6, Operand8::Reg(Reg8::L)),
        0xB6 => operations::res(cpu, 6, Operand8::Ind(Reg16::HL)),
        0xB7 => operations::res(cpu, 6, Operand8::Reg(Reg8::A)),
        0xB8 => operations::res(cpu, 7, Operand8::Reg(Reg8::B)),
        0xB9 => operations::res(cpu, 7, Operand8::Reg(Reg8::C)),
        0xBA => operations::res(cpu, 7, Operand8::Reg(Reg8::D)),
        0xBB => operations::res(cpu, 7, Operand8::Reg(Reg8::E)),
        0xBC => operations::res(cpu, 7, Operand8::Reg(Reg8::H)),
        0xBD => operations::res(cpu, 7, Operand8::Reg(Reg8::L)),
        0xBE => operations::res(cpu, 7, Operand8::Ind(Reg16::HL)),
        _ => operations::res(cpu, 7, Operand8::Reg(Reg8::A)),
    }
}

#[verifier::rlimit(50)]
fn execute_prefixed_xC0(cpu: &mut Cpu, op: u8) -> (t: Timing)
    requires
        spec_cpu_wf(old(cpu)@),
    ensures
        (final(cpu)@, t) == spec_execute_prefixed_xC0(old(cpu)@, op),
        spec_cpu_wf(final(cpu)@),
{
    proof {
        reveal(spec_execute_prefixed_xC0);
    }
    match op {
        0xC0 => operations::set(cpu, 0, Operand8::Reg(Reg8::B)),
        0xC1 => operations::set(cpu, 0, Operand8::Reg(Reg8::C)),
        0xC2 => operations::set(cpu, 0, Operand8::Reg(Reg8::D)),
        0xC3 => operations::set(cpu, 0, Operand8::Reg(Reg8::E)),
        0xC4 => operations::set(cpu, 0, Operand8::Reg(Reg8::H)),
        0xC5 => operations::set(cpu, 0, Operand8::Reg(Reg8::L)),
        0xC6 => operations::set(cpu, 0, Operand8::Ind(Reg16::HL)),
        0xC7 => operations::set(cpu, 0, Operand8::Reg(Reg8::A)),
        0xC8 => operations::set(cpu, 1, Operand8::Reg(Reg8::B)),
        0xC9 => operations::set(cpu, 1, Operand8::Reg(Reg8::C)),
        0xCA => operations::set(cpu, 1, Operand8::Reg(Reg8::D)),
        0xCB => operations::set(cpu, 1, Operand8::Reg(Reg8::E)),
        0xCC => operations::set(cpu, 1, Operand8::Reg(Reg8::H)),
        0xCD => operations::set(cpu, 1, Operand8::Reg(Reg8::L)),
        0xCE => operations::set(cpu, 1, Operand8::Ind(Reg16::HL)),
        _ => operations::set(cpu, 1, Operand8::Reg(Reg8::A)),
    }
}

#[verifier::rlimit(50)]
fn execute_prefixed_xD0(cpu: &mut Cpu, op: u8) -> (t: Timing)
    requires
        spec_cpu_wf(old(cpu)@),
    ensures
        (final(cpu)@, t) == spec_execute_prefixed_xD0(old(cpu)@, op),
        spec_cpu_wf(final(cpu)@),
{
    proof {
        reveal(spec_execute_prefixed_xD0);
    }
    match op {
        0xD0 => operations::set(cpu, 2, Operand8::Reg(Reg8::B)),
        0xD1 => operations::set(cpu, 2, Operand8::Reg(Reg8::C)),
        0xD2 => operations::set(cpu, 2, Operand8::Reg(Reg8::D)),
        0xD3 => operations::set(cpu, 2, Operand8::Reg(Reg8::E)),
        0xD4 => operations::set(cpu, 2, Operand8::Reg(Reg8::H)),
        0xD5 => operations::set(cpu, 2, Operand8::Reg(Reg8::L)),
        0xD6 => operations::set(cpu, 2, Operand8::Ind(Reg16::HL)),
        0xD7 => operations::set(cpu, 2, Operand8::Reg(Reg8::A)),
        0xD8 => operations::set(cpu, 3, Operand8::Reg(Reg8::B)),
        0xD9 => operations::set(cpu, 3, Operand8::Reg(Reg8::C)),
        0xDA => operations::set(cpu, 3, Operand8::Reg(Reg8::D)),
        0xDB => operations::set(cpu, 3, Operand8::Reg(Reg8::E)),
        0xDC => operations::set(cpu, 3, Operand8::Reg(Reg8::H)),
        0xDD => operations::set(cpu, 3, Operand8::Reg(Reg8::L)),
        0xDE => operations::set(cpu, 3, Operand8::Ind(Reg16::HL)),
        _ => operations::set(cpu, 3, Operand8::Reg(Reg8::A)),
    }
}

#[verifier::rlimit(50)]
fn execute_prefixed_xE0(cpu: &mut Cpu, op: u8) -> (t: Timing)
    requires
        spec_cpu_wf(old(cpu)@),
    ensures
        (final(cpu)@, t) == spec_execute_prefixed_xE0(old(cpu)@, op),
        spec_cpu_wf(final(cpu)@),
{
    proof {
        reveal(spec_execute_prefixed_xE0);
    }
    match op {
        0xE0 => operations::set(cpu, 4, Operand8::Reg(Reg8::B)),
        0xE1 => operations::set(cpu, 4, Operand8::Reg(Reg8::C)),
        0xE2 => operations::set(cpu, 4, Operand8::Reg(Reg8::D)),
        0xE3 => operations::set(cpu, 4, Operand8::Reg(Reg8::E)),
        0xE4 => operations::set(cpu, 4, Operand8::Reg(Reg8::H)),
        0xE5 => operations::set(cpu, 4, Operand8::Reg(Reg8::L)),
        0xE6 => operations::set(cpu, 4, Operand8::Ind(Reg16::HL)),
        0xE7 => operations::set(cpu, 4, Operand8::Reg(Reg8::A)),
        0xE8 => operations::set(cpu, 5, Operand8::Reg(Reg8::B)),
        0xE9 => operations::set(cpu, 5, Operand8::Reg(Reg8::C)),
        0xEA => operations::set(cpu, 5, Operand8::Reg(Reg8::D)),
        0xEB => operations::set(cpu, 5, Operand8::Reg(Reg8::E)),
        0xEC => operations::set(cpu, 5, Operand8::Reg(Reg8::H)),
        0xED => operations::set(cpu, 5, Operand8::Reg(Reg8::L)),
        0xEE => operations::set(cpu, 5, Operand8::Ind(Reg16::HL)),
        _ => operations::set(cpu, 5, Operand8::Reg(Reg8::A)),
    }
}

#[verifier::rlimit(50)]
fn execute_prefixed_xF0(cpu: &mut Cpu, op: u8) -> (t: Timing)
    requires
        spec_cpu_wf(old(cpu)@),
    ensures
        (final(cpu)@, t) == spec_execute_prefixed_xF0(old(cpu)@, op),
        spec_cpu_wf(final(cpu)@),
{
    proof {
        reveal(spec_execute_prefixed_xF0);
    }
    match op {
        0xF0 => operations::set(cpu, 6, Operand8::Reg(Reg8::B)),
        0xF1 => operations::set(cpu, 6, Operand8::Reg(Reg8::C)),
        0xF2 => operations::set(cpu, 6, Operand8::Reg(Reg8::D)),
        0xF3 => operations::set(cpu, 6, Operand8::Reg(Reg8::E)),
        0xF4 => operations::set(cpu, 6, Operand8::Reg(Reg8::H)),
        0xF5 => operations::set(cpu, 6, Operand8::Reg(Reg8::L)),
        0xF6 => operations::set(cpu, 6, Operand8::Ind(Reg16::HL)),
        0xF7 => operations::set(cpu, 6, Operand8::Reg(Reg8::A)),
        0xF8 => operations::set(cpu, 7, Operand8::Reg(Reg8::B)),
        0xF9 => operations::set(cpu, 7, Operand8::Reg(Reg8::C)),
        0xFA => operations::set(cpu, 7, Operand8::Reg(Reg8::D)),
        0xFB => operations::set(cpu, 7, Operand8::Reg(Reg8::E)),
        0xFC => operations::set(cpu, 7, Operand8::Reg(Reg8::H)),
        0xFD => operations::set(cpu, 7, Operand8::Reg(Reg8::L)),
        0xFE => operations::set(cpu, 7, Operand8::Ind(Reg16::HL)),
        _ => operations::set(cpu, 7, Operand8::Reg(Reg8::A)),
    }
}

/// Executes one CB-prefixed opcode against the CPU.
#[verifier::rlimit(100)]
pub fn execute_prefixed(cpu: &mut Cpu, op: u8) -> (t: Timing)
    requires
        spec_cpu_wf(old(cpu)@),
    ensures
        (final(cpu)@, t) == spec_execute_prefixed(old(cpu)@, op),
        spec_cpu_wf(final(cpu)@),
{

    if op < 0x10 {
        execute_prefixed_x00(cpu, op)
    } else if op < 0x20 {
        execute_prefixed_x10(cpu, op)
    } else if op < 0x30 {
        execute_prefixed_x20(cpu, op)
    } else if op < 0x40 {
        execute_prefixed_x30(cpu, op)
    } else if op < 0x50 {
        execute_prefixed_x40(cpu, op)
    } else if op < 0x60 {
        execute_prefixed_x50(cpu, op)
    } else if op < 0x70 {
        execute_prefixed_x60(cpu, op)
    } else if op < 0x80 {
        execute_prefixed_x70(cpu, op)
    } else if op < 0x90 {
        execute_prefixed_x80(cpu, op)
    } else if op < 0xA0 {
        execute_prefixed_x90(cpu, op)
    } else if op < 0xB0 {
        execute_prefixed_xA0(cpu, op)
    } else if op < 0xC0 {
        execute_prefixed_xB0(cpu, op)
    } else if op < 0xD0 {
        execute_prefixed_xC0(cpu, op)
    } else if op < 0xE0 {
        execute_prefixed_xD0(cpu, op)
    } else if op < 0xF0 {
        execute_prefixed_xE0(cpu, op)
    } else {
        execute_prefixed_xF0(cpu, op)
    }
}

fn get_unprefixed_instruction_h0(opcode: u8) -> (r: Option<Instruction>)
    requires
        0x00 <= opcode < 0x7F + 1,
    ensures
        (r is Some) == spec_unprefixed_has_descriptor(opcode),
        (r matches Some(i) ==> (i.c_cycles, i.conditional_c_cycles) == spec_unprefixed_cycles(opcode)),
{
    proof {
        reveal(spec_unprefixed_cycles);
    }
    match opcode {
        0x00 => Some(Instruction { c_cycles: 4, conditional_c_cycles: None, mnemonic: "NOP" }),
        0x01 => Some(Instruction { c_cycles: 12, conditional_c_cycles: None, mnemonic: "LD BC,NN" }),
        0x02 => Some(Instruction { c_cycles: 8, conditional_c_cycles: None, mnemonic: "LD (BC),A" }),
        0x03 => Some(Instruction { c_cycles: 8, conditional_c_cycles: None, mnemonic: "INC BC" }),
        0x04 => Some(Instruction { c_cycles: 4, conditional_c_cycles: None, mnemonic: "INC B" }),
        0x05 => Some(Instruction { c_cycles: 4, conditional_c_cycles: None, mnemonic: "DEC B" }),
        0x06 => Some(Instruction { c_cycles: 8, conditional_c_cycles: None, mnemonic: "LD B,N" }),
        0x07 => Some(Instruction { c_cycles: 4, conditional_c_cycles: None, mnemonic: "RLCA" }),
        0x08 => Some(Instruction { c_cycles: 20, conditional_c_cycles: None, mnemonic: "LD NN,SP" }),
        0x09 => Some(Instruction { c_cycles: 8, conditional_c_cycles: None, mnemonic: "ADD HL,BC" }),
        0x0A => Some(Instruction { c_cycles: 8, conditional_c_cycles: None, mnemonic: "LD A,(BC)" }),
        0x0B => Some(Instruction { c_cycles: 8, conditional_c_cycles: None, mnemonic: "DEC BC" }),
        0x0C => Some(Instruction { c_cycles: 4, conditional_c_cycles: None, mnemonic: "INC C" }),
        0x0D => Some(Instruction { c_cycles: 4, conditional_c_cycles: None, mnemonic: "DEC C" }),
        0x0E => Some(Instruction { c_cycles: 8, conditional_c_cycles: None, mnemonic: "LD C,N" }),
        0x0F => Some(Instruction { c_cycles: 4, conditional_c_cycles: None, mnemonic: "RRCA" }),
        0x10 => Some(Instruction { c_cycles: 4, conditional_c_cycles: None, mnemonic: "STOP 0" }),
        0x11 => Some(Instruction { c_cycles: 12, conditional_c_cycles: None, mnemonic: "LD DE,NN" }),
        0x12 => Some(Instruction { c_cycles: 8, conditional_c_cycles: None, mnemonic: "LD (DE),A" }),
        0x13 => Some(Instruction { c_cycles: 8, conditional_c_cycles: None, mnemonic: "INC DE" }),
        0x14 => Some(Instruction { c_cycles: 4, conditional_c_cycles: None, mnemonic: "INC D" }),
        0x15 => Some(Instruction { c_cycles: 4, conditional_c_cycles: None, mnemonic: "DEC D" }),
        0x16 => Some(Instruction { c_cycles: 8, conditional_c_cycles: None, mnemonic: "LD D,N" }),
        0x17 => Some(Instruction { c_cycles: 4, conditional_c_cycles: None, mnemonic: "RLA" }),
        0x18 => Some(Instruction { c_cycles: 12, conditional_c_cycles: None, mnemonic: "JR N" }),
        0x19 => Some(Instruction { c_cycles: 8, conditional_c_cycles: None, mnemonic: "ADD HL,DE" }),
        0x1A => Some(Instruction { c_cycles: 8, conditional_c_cycles: None, mnemonic: "LD A,(DE)" }),
        0x1B => Some(Instruction { c_cycles: 8, conditional_c_cycles: None, mnemonic: "DEC DE" }),
        0x1C => Some(Instruction { c_cycles: 4, conditional_c_cycles: None, mnemonic: "INC E" }),
        0x1D => Some(Instruction { c_cycles: 4, conditional_c_cycles: None, mnemonic: "DEC E" }),
        0x1E => Some(Instruction { c_cycles: 8, conditional_c_cycles: None, mnemonic: "LD E,N" }),
        0x1F => Some(Instruction { c_cycles: 4, conditional_c_cycles: None, mnemonic: "RRA" }),
        0x20 => Some(Instruction { c_cycles: 8, conditional_c_cycles: Some(12), mnemonic: "JR NZ,N" }),
        0x21 => Some(Instruction { c_cycles: 12, conditional_c_cycles: None, mnemonic: "LD HL,NN" }),
        0x22 => Some(Instruction { c_cycles: 8, conditional_c_cycles: None, mnemonic: "LDI (HL+),A" }),
        0x23 => Some(Instruction { c_cycles: 8, conditional_c_cycles: None, mnemonic: "INC HL" }),
        0x24 => Some(Instruction { c_cycles: 4, conditional_c_cycles: None, mnemonic: "INC H" }),
        0x25 => Some(Instruction { c_cycles: 4, conditional_c_cycles: None, mnemonic: "DEC H" }),
        0x26 => Some(Instruction { c_cycles: 8, conditional_c_cycles: None, mnemonic: "LD H,N" }),
        0x27 => Some(Instruction { c_cycles: 4, conditional_c_cycles: None, mnemonic: "DAA" }),
        0x28 => Some(Instruction { c_cycles: 8, conditional_c_cycles: Some(12), mnemonic: "JR Z,N" }),
        0x29 => Some(Instruction { c_cycles: 8, conditional_c_cycles: None, mnemonic: "ADD HL,HL" }),
        0x2A => Some(Instruction { c_cycles: 8, conditional_c_cycles: None, mnemonic: "LDI A,(HL+)" }),
        0x2B => Some(Instruction { c_cycles: 8, conditional_c_cycles: None, mnemonic: "DEC HL" }),
        0x2C => Some(Instruction { c_cycles: 4, conditional_c_cycles: None, mnemonic: "INC L" }),
        0x2D => Some(Instruction { c_cycles: 4, conditional_c_cycles: None, mnemonic: "DEC L" }),
        0x2E => Some(Instruction { c_cycles: 8, conditional_c_cycles: None, mnemonic: "LD L,N" }),
        0x2F => Some(Instruction { c_cycles: 4, conditional_c_cycles: None, mnemonic: "CPL" }),
        0x30 => Some(Instruction { c_cycles: 8, conditional_c_cycles: Some(12), mnemonic: "JR NC,N" }),
        0x31 => Some(Instruction { c_cycles: 12, conditional_c_cycles: None, mnemonic: "LD SP,NN" }),
        0x32 => Some(Instruction { c_cycles: 8, conditional_c_cycles: None, mnemonic: "LDD (HL+),A" }),
        0x33 => Some(Instruction { c_cycles: 8, conditional_c_cycles: None, mnemonic: "INC SP" }),
        0x34 => Some(Instruction { c_cycles: 12, conditional_c_cycles: None, mnemonic: "INC (HL)" }),
        0x35 => Some(Instruction { c_cycles: 12, conditional_c_cycles: None, mnemonic: "DEC (HL)" }),
        0x36 => Some(Instruction { c_cycles: 12, conditional_c_cycles: None, mnemonic: "LD (HL),N" }),
        0x37 => Some(Instruction { c_cycles: 4, conditional_c_cycles: None, mnemonic: "SCF" }),
        0x38 => Some(Instruction { c_cycles: 8, conditional_c_cycles: Some(12), mnemonic: "JR CF,N" }),
        0x39 => Some(Instruction { c_cycles: 8, conditional_c_cycles: None, mnemonic: "ADD HL,SP" }),
        0x3A => Some(Instruction { c_cycles: 8, conditional_c_cycles: None, mnemonic: "LDD A,(HL)" }),
        0x3B => Some(Instruction { c_cycles: 8, conditional_c_cycles: None, mnemonic: "DEC SP" }),
        0x3C => Some(Instruction { c_cycles: 4, conditional_c_cycles: None, mnemonic: "INC A" }),
        0x3D => Some(Instruction { c_cycles: 4, conditional_c_cycles: None, mnemonic: "DEC A" }),
        0x3E => Some(Instruction { c_cycles: 8, conditional_c_cycles: None, mnemonic: "LD A,N" }),
        0x3F => Some(Instruction { c_cycles: 4, conditional_c_cycles: None, mnemonic: "CCF" }),
        0x40 => Some(Instruction { c_cycles: 4, conditional_c_cycles: None, mnemonic: "LD B,B" }),
        0x41 => Some(Instruction { c_cycles: 4, conditional_c_cycles: None, mnemonic: "LD B,C" }),
        0x42 => Some(Instruction { c_cycles: 4, conditional_c_cycles: None, mnemonic: "LD B,D" }),
        0x43 => Some(Instruction { c_cycles: 4, conditional_c_cycles: None, mnemonic: "LD B,E" }),
        0x44 => Some(Instruction { c_cycles: 4, conditional_c_cycles: None, mnemonic: "LD B,H" }),
        0x45 => Some(Instruction { c_cycles: 4, conditional_c_cycles: None, mnemonic: "LD B,L" }),
        0x46 => Some(Instruction { c_cycles: 8, conditional_c_cycles: None, mnemonic: "LD B,(HL)" }),
        0x47 => Some(Instruction { c_cycles: 4, conditional_c_cycles: None, mnemonic: "LD B,A" }),
        0x48 => Some(Instruction { c_cycles: 4, conditional_c_cycles: None, mnemonic: "LD C,B" }),
        0x49 => Some(Instruction { c_cycles: 4, conditional_c_cycles: None, mnemonic: "LD C,C" }),
        0x4A => Some(Instruction { c_cycles: 4, conditional_c_cycles: None, mnemonic: "LD C,D" }),
        0x4B => Some(Instruction { c_cycles: 4, conditional_c_cycles: None, mnemonic: "LD C,E" }),
        0x4C => Some(Instruction { c_cycles: 4, conditional_c_cycles: None, mnemonic: "LD C,H" }),
        0x4D => Some(Instruction { c_cycles: 4, conditional_c_cycles: None, mnemonic: "LD C,L" }),
        0x4E => Some(Instruction { c_cycles: 8, conditional_c_cycles: None, mnemonic: "LD C,(HL)" }),
        0x4F => Some(Instruction { c_cycles: 4, conditional_c_cycles: None, mnemonic: "LD C,A" }),
        0x50 => Some(Instruction { c_cycles: 4, conditional_c_cycles: None, mnemonic: "LD D,B" }),
        0x51 => Some(Instruction { c_cycles: 4, conditional_c_cycles: None, mnemonic: "LD D,C" }),
        0x52 => Some(Instruction { c_cycles: 4, conditional_c_cycles: None, mnemonic: "LD D,D" }),
        0x53 => Some(Instruction { c_cycles: 4, conditional_c_cycles: None, mnemonic: "LD D,E" }),
        0x54 => Some(Instruction { c_cycles: 4, conditional_c_cycles: None, mnemonic: "LD D,H" }),
        0x55 => Some(Instruction { c_cycles: 4, conditional_c_cycles: None, mnemonic: "LD D,L" }),
        0x56 => Some(Instruction { c_cycles: 8, conditional_c_cycles: None, mnemonic: "LD D,(HL)" }),
        0x57 => Some(Instruction { c_cycles: 4, conditional_c_cycles: None, mnemonic: "LD D,A" }),
        0x58 => Some(Instruction { c_cycles: 4, conditional_c_cycles: None, mnemonic: "LD E,B" }),
        0x59 => Some(Instruction { c_cycles: 4, conditional_c_cycles: None, mnemonic: "LD E,C" }),
        0x5A => Some(Instruction { c_cycles: 4, conditional_c_cycles: None, mnemonic: "LD E,D" }),
        0x5B => Some(Instruction { c_cycles: 4, conditional_c_cycles: None, mnemonic: "LD E,E" }),
        0x5C => Some(Instruction { c_cycles: 4, conditional_c_cycles: None, mnemonic: "LD E,H" }),
        0x5D => Some(Instruction { c_cycles: 4, conditional_c_cycles: None, mnemonic: "LD E,L" }),
        0x5E => Some(Instruction { c_cycles: 8, conditional_c_cycles: None, mnemonic: "LD E,(HL)" }),
        0x5F => Some(Instruction { c_cycles: 4, conditional_c_cycles: None, mnemonic: "LD E,A" }),
        0x60 => Some(Instruction { c_cycles: 4, conditional_c_cycles: None, mnemonic: "LD H,B" }),
        0x61 => Some(Instruction { c_cycles: 4, conditional_c_cycles: None, mnemonic: "LD H,C" }),
        0x62 => Some(Instruction { c_cycles: 4, conditional_c_cycles: None, mnemonic: "LD H,D" }),
        0x63 => Some(Instruction { c_cycles: 4, conditional_c_cycles: None, mnemonic: "LD H,E" }),
        0x64 => Some(Instruction { c_cycles: 4, conditional_c_cycles: None, mnemonic: "LD H,H" }),
        0x65 => Some(Instruction { c_cycles: 4, conditional_c_cycles: None, mnemonic: "LD H,L" }),
        0x66 => Some(Instruction { c_cycles: 8, conditional_c_cycles: None, mnemonic: "LD H,(HL)" }),
        0x67 => Some(Instruction { c_cycles: 4, conditional_c_cycles: None, mnemonic: "LD H,A" }),
        0x68 => Some(Instruction { c_cycles: 4, conditional_c_cycles: None, mnemonic: "LD L,B" }),
        0x69 => Some(Instruction { c_cycles: 4, conditional_c_cycles: None, mnemonic: "LD L,C" }),
        0x6A => Some(Instruction { c_cycles: 4, conditional_c_cycles: None, mnemonic: "LD L,D" }),
        0x6B => Some(Instruction { c_cycles: 4, conditional_c_cycles: None, mnemonic: "LD L,E" }),
        0x6C => Some(Instruction { c_cycles: 4, conditional_c_cycles: None, mnemonic: "LD L,H" }),
        0x6D => Some(Instruction { c_cycles: 4, conditional_c_cycles: None, mnemonic: "LD L,L" }),
        0x6E => Some(Instruction { c_cycles: 8, conditional_c_cycles: None, mnemonic: "LD L,(HL)" }),
        0x6F => Some(Instruction { c_cycles: 4, conditional_c_cycles: None, mnemonic: "LD L,A" }),
        0x70 => Some(Instruction { c_cycles: 8, conditional_c_cycles: None, mnemonic: "LD (HL),B" }),
        0x71 => Some(Instruction { c_cycles: 8, conditional_c_cycles: None, mnemonic: "LD (HL),C" }),
        0x72 => Some(Instruction { c_cycles: 8, conditional_c_cycles: None, mnemonic: "LD (HL),D" }),
        0x73 => Some(Instruction { c_cycles: 8, conditional_c_cycles: None, mnemonic: "LD (HL),E" }),
        0x74 => Some(Instruction { c_cycles: 8, conditional_c_cycles: None, mnemonic: "LD (HL),H" }),
        0x75 => Some(Instruction { c_cycles: 8, conditional_c_cycles: None, mnemonic: "LD (HL),L" }),
        0x76 => Some(Instruction { c_cycles: 4, conditional_c_cycles: None, mnemonic: "HALT" }),
        0x77 => Some(Instruction { c_cycles: 8, conditional_c_cycles: None, mnemonic: "LD (HL),A" }),
        0x78 => Some(Instruction { c_cycles: 4, conditional_c_cycles: None, mnemonic: "LD A,B" }),
        0x79 => Some(Instruction { c_cycles: 4, conditional_c_cycles: None, mnemonic: "LD A,C" }),
        0x7A => Some(Instruction { c_cycles: 4, conditional_c_cycles: None, mnemonic: "LD A,D" }),
        0x7B => Some(Instruction { c_cycles: 4, conditional_c_cycles: None, mnemonic: "LD A,E" }),
        0x7C => Some(Instruction { c_cycles: 4, conditional_c_cycles: None, mnemonic: "LD A,H" }),
        0x7D => Some(Instruction { c_cycles: 4, conditional_c_cycles: None, mnemonic: "LD A,L" }),
        0x7E => Some(Instruction { c_cycles: 8, conditional_c_cycles: None, mnemonic: "LD A,(HL)" }),
        _ => Some(Instruction { c_cycles: 4, conditional_c_cycles: None, mnemonic: "LD A,A" }),
    }
}

fn get_unprefixed_instruction_h1(opcode: u8) -> (r: Option<Instruction>)
    requires
        0x80 <= opcode < 0xFF + 1,
    ensures
        (r is Some) == spec_unprefixed_has_descriptor(opcode),
        (r matches Some(i) ==> (i.c_cycles, i.conditional_c_cycles) == spec_unprefixed_cycles(opcode)),
{
    proof {
        reveal(spec_unprefixed_cycles);
    }
    match opcode {
        0x80 => Some(Instruction { c_cycles: 4, conditional_c_cycles: None, mnemonic: "ADD A,B" }),
        0x81 => Some(Instruction { c_cycles: 4, conditional_c_cycles: None, mnemonic: "ADD A,C" }),
        0x82 => Some(Instruction { c_cycles: 4, conditional_c_cycles: None, mnemonic: "ADD A,D" }),
        0x83 => Some(Instruction { c_cycles: 4, conditional_c_cycles: None, mnemonic: "ADD A,E" }),
        0x84 => Some(Instruction { c_cycles: 4, conditional_c_cycles: None, mnemonic: "ADD A,H" }),
        0x85 => Some(Instruction { c_cycles: 4, conditional_c_cycles: None, mnemonic: "ADD A,L" }),
        0x86 => Some(Instruction { c_cycles: 8, conditional_c_cycles: None, mnemonic: "ADD A,(HL)" }),
        0x87 => Some(Instruction { c_cycles: 4, conditional_c_cycles: None, mnemonic: "ADD A,A" }),
        0x88 => Some(Instruction { c_cycles: 4, conditional_c_cycles: None, mnemonic: "ADC A,B" }),
        0x89 => Some(Instruction { c_cycles: 4, conditional_c_cycles: None, mnemonic: "ADC A,C" }),
        0x8A => Some(Instruction { c_cycles: 4, conditional_c_cycles: None, mnemonic: "ADC A,D" }),
        0x8B => Some(Instruction { c_cycles: 4, conditional_c_cycles: None, mnemonic: "ADC A,E" }),
        0x8C => Some(Instruction { c_cycles: 4, conditional_c_cycles: None, mnemonic: "ADC A,H" }),
        0x8D => Some(Instruction { c_cycles: 4, conditional_c_cycles: None, mnemonic: "ADC A,L" }),
        0x8E => Some(Instruction { c_cycles: 8, conditional_c_cycles: None, mnemonic: "ADC A,(HL)" }),
        0x8F => Some(Instruction { c_cycles: 4, conditional_c_cycles: None, mnemonic: "ADC A,A" }),
        0x90 => Some(Instruction { c_cycles: 4, conditional_c_cycles: None, mnemonic: "SUB B" }),
        0x91 => Some(Instruction { c_cycles: 4, conditional_c_cycles: None, mnemonic: "SUB C" }),
        0x92 => Some(Instruction { c_cycles: 4, conditional_c_cycles: None, mnemonic: "SUB D" }),
        0x93 => Some(Instruction { c_cycles: 4, conditional_c_cycles: None, mnemonic: "SUB E" }),
        0x94 => Some(Instruction { c_cycles: 4, conditional_c_cycles: None, mnemonic: "SUB H" }),
        0x95 => Some(Instruction { c_cycles: 4, conditional_c_cycles: None, mnemonic: "SUB L" }),
        0x96 => Some(Instruction { c_cycles: 8, conditional_c_cycles: None, mnemonic: "SUB (HL)" }),
        0x97 => Some(Instruction { c_cycles: 4, conditional_c_cycles: None, mnemonic: "SUB A" }),
        0x98 => Some(Instruction { c_cycles: 4, conditional_c_cycles: None, mnemonic: "SBC A,B" }),
        0x99 => Some(Instruction { c_cycles: 4, conditional_c_cycles: None, mnemonic: "SBC A,C" }),
        0x9A => Some(Instruction { c_cycles: 4, conditional_c_cycles: None, mnemonic: "SBC A,D" }),
        0x9B => Some(Instruction { c_cycles: 4, conditional_c_cycles: None, mnemonic: "SBC A,E" }),
        0x9C => Some(Instruction { c_cycles: 4, conditional_c_cycles: None, mnemonic: "SBC A,H" }),
        0x9D => Some(Instruction { c_cycles: 4, conditional_c_cycles: None, mnemonic: "SBC A,L" }),
        0x9E => Some(Instruction { c_cycles: 8, conditional_c_cycles: None, mnemonic: "SBC A,(HL)" }),
        0x9F => Some(Instruction { c_cycles: 4, conditional_c_cycles: None, mnemonic: "SBC A,A" }),
        0xA0 => Some(Instruction { c_cycles: 4, conditional_c_cycles: None, mnemonic: "AND B" }),
        0xA1 => Some(Instruction { c_cycles: 4, conditional_c_cycles: None, mnemonic: "AND C" }),
        0xA2 => Some(Instruction { c_cycles: 4, conditional_c_cycles: None, mnemonic: "AND D" }),
        0xA3 => Some(Instruction { c_cycles: 4, conditional_c_cycles: None, mnemonic: "AND E" }),
        0xA4 => Some(Instruction { c_cycles: 4, conditional_c_cycles: None, mnemonic: "AND H" }),
        0xA5 => Some(Instruction { c_cycles: 4, conditional_c_cycles: None, mnemonic: "AND L" }),
        0xA6 => Some(Instruction { c_cycles: 8, conditional_c_cycles: None, mnemonic: "AND (HL)" }),
        0xA7 => Some(Instruction { c_cycles: 4, conditional_c_cycles: None, mnemonic: "AND A" }),
        0xA8 => Some(Instruction { c_cycles: 4, conditional_c_cycles: None, mnemonic: "XOR B" }),
        0xA9 => Some(Instruction { c_cycles: 4, conditional_c_cycles: None, mnemonic: "XOR C" }),
        0xAA => Some(Instruction { c_cycles: 4, conditional_c_cycles: None, mnemonic: "XOR D" }),
        0xAB => Some(Instruction { c_cycles: 4, conditional_c_cycles: None, mnemonic: "XOR E" }),
        0xAC => Some(Instruction { c_cycles: 4, conditional_c_cycles: None, mnemonic: "XOR H" }),
        0xAD => Some(Instruction { c_cycles: 4, conditional_c_cycles: None, mnemonic: "XOR L" }),
        0xAE => Some(Instruction { c_cycles: 8, conditional_c_cycles: None, mnemonic: "XOR (HL)" }),
        0xAF => Some(Instruction { c_cycles: 4, conditional_c_cycles: None, mnemonic: "XOR A" }),
        0xB0 => Some(Instruction { c_cycles: 4, conditional_c_cycles: None, mnemonic: "OR B" }),
        0xB1 => Some(Instruction { c_cycles: 4, conditional_c_cycles: None, mnemonic: "OR C" }),
        0xB2 => Some(Instruction { c_cycles: 4, conditional_c_cycles: None, mnemonic: "OR D" }),
        0xB3 => Some(Instruction { c_cycles: 4, conditional_c_cycles: None, mnemonic: "OR E" }),
        0xB4 => Some(Instruction { c_cycles: 4, conditional_c_cycles: None, mnemonic: "OR H" }),
        0xB5 => Some(Instruction { c_cycles: 4, conditional_c_cycles: None, mnemonic: "OR L" }),
        0xB6 => Some(Instruction { c_cycles: 8, conditional_c_cycles: None, mnemonic: "OR (HL)" }),
        0xB7 => Some(Instruction { c_cycles: 4, conditional_c_cycles: None, mnemonic: "OR A" }),
        0xB8 => Some(Instruction { c_cycles: 4, conditional_c_cycles: None, mnemonic: "CP B" }),
        0xB9 => Some(Instruction { c_cycles: 4, conditional_c_cycles: None, mnemonic: "CP C" }),
        0xBA => Some(Instruction { c_cycles: 4, conditional_c_cycles: None, mnemonic: "CP D" }),
        0xBB => Some(Instruction { c_cycles: 4, conditional_c_cycles: None, mnemonic: "CP E" }),
        0xBC => Some(Instruction { c_cycles: 4, conditional_c_cycles: None, mnemonic: "CP H" }),
        0xBD => Some(Instruction { c_cycles: 4, conditional_c_cycles: None, mnemonic: "CP L" }),
        0xBE => Some(Instruction { c_cycles: 8, conditional_c_cycles: None, mnemonic: "CP (HL)" }),
        0xBF => Some(Instruction { c_cycles: 4, conditional_c_cycles: None, mnemonic: "CP A" }),
        0xC0 => Some(Instruction { c_cycles: 8, conditional_c_cycles: Some(20), mnemonic: "RET NZ" }),
        0xC1 => Some(Instruction { c_cycles: 12, conditional_c_cycles: None, mnemonic: "POP BC" }),
        0xC2 => Some(Instruction { c_cycles: 12, conditional_c_cycles: Some(16), mnemonic: "JP NZ,NN" }),
        0xC3 => Some(Instruction { c_cycles: 16, conditional_c_cycles: None, mnemonic: "JP NN" }),
        0xC4 => Some(Instruction { c_cycles: 12, conditional_c_cycles: Some(24), mnemonic: "CALL NZ,NN" }),
        0xC5 => Some(Instruction { c_cycles: 16, conditional_c_cycles: None, mnemonic: "PUSH BC" }),
        0xC6 => Some(Instruction { c_cycles: 8, conditional_c_cycles: None, mnemonic: "ADD A,N" }),
        0xC7 => Some(Instruction { c_cycles: 16, conditional_c_cycles: None, mnemonic: "RST 0" }),
        0xC8 => Some(Instruction { c_cycles: 8, conditional_c_cycles: Some(20), mnemonic: "RET Z" }),
        0xC9 => Some(Instruction { c_cycles: 16, conditional_c_cycles: None, mnemonic: "RET" }),
        0xCA => Some(Instruction { c_cycles: 12, conditional_c_cycles: Some(16), mnemonic: "JP Z,NN" }),
        0xCC => Some(Instruction { c_cycles: 12, conditional_c_cycles: Some(24), mnemonic: "CALL Z,NN" }),
        0xCD => Some(Instruction { c_cycles: 24, conditional_c_cycles: None, mnemonic: "CALL NN" }),
        0xCE => Some(Instruction { c_cycles: 8, conditional_c_cycles: None, mnemonic: "ADC A,N" }),
        0xCF => Some(Instruction { c_cycles: 16, conditional_c_cycles: None, mnemonic: "RST 8" }),
        0xD0 => Some(Instruction { c_cycles: 8, conditional_c_cycles: Some(20), mnemonic: "RET NC" }),
        0xD1 => Some(Instruction { c_cycles: 12, conditional_c_cycles: None, mnemonic: "POP DE" }),
        0xD2 => Some(Instruction { c_cycles: 12, conditional_c_cycles: Some(16), mnemonic: "JP NC,NN" }),
        0xD4 => Some(Instruction { c_cycles: 12, conditional_c_cycles: Some(24), mnemonic: "CALL NC,NN" }),
        0xD5 => Some(Instruction { c_cycles: 16, conditional_c_cycles: None, mnemonic: "PUSH DE" }),
        0xD6 => Some(Instruction { c_cycles: 8, conditional_c_cycles: None, mnemonic: "SUB N" }),
        0xD7 => Some(Instruction { c_cycles: 16, conditional_c_cycles: None, mnemonic: "RST 16" }),
        0xD8 => Some(Instruction { c_cycles: 8, conditional_c_cycles: Some(20), mnemonic: "RET CF" }),
        0xD9 => Some(Instruction { c_cycles: 16, conditional_c_cycles: None, mnemonic: "RETI" }),
        0xDA => Some(Instruction { c_cycles: 12, conditional_c_cycles: Some(16), mnemonic: "JP CF,NN" }),
        0xDC => Some(Instruction { c_cycles: 12, conditional_c_cycles: Some(24), mnemonic: "CALL CF,NN" }),
        0xDE => Some(Instruction { c_cycles: 8, conditional_c_cycles: None, mnemonic: "SBC A,N" }),
        0xDF => Some(Instruction { c_cycles: 16, conditional_c_cycles: None, mnemonic: "RST 24" }),
        0xE0 => Some(Instruction { c_cycles: 12, conditional_c_cycles: None, mnemonic: "LD (0XFF00+A8),A" }),
        0xE1 => Some(Instruction { c_cycles: 12, conditional_c_cycles: None, mnemonic: "POP HL" }),
        0xE2 => Some(Instruction { c_cycles: 8, conditional_c_cycles: None, mnemonic: "LD (0XFF00+C),A" }),
        0xE5 => Some(Instruction { c_cycles: 16, conditional_c_cycles: None, mnemonic: "PUSH HL" }),
        0xE6 => Some(Instruction { c_cycles: 8, conditional_c_cycles: None, mnemonic: "AND N" }),
        0xE7 => Some(Instruction { c_cycles: 16, conditional_c_cycles: None, mnemonic: "RST 32" }),
        0xE8 => Some(Instruction { c_cycles: 16, conditional_c_cycles: None, mnemonic: "ADD SP,N" }),
        0xE9 => Some(Instruction { c_cycles: 4, conditional_c_cycles: None, mnemonic: "JP HL" }),
        0xEA => Some(Instruction { c_cycles: 16, conditional_c_cycles: None, mnemonic: "LD NN,A" }),
        0xEE => Some(Instruction { c_cycles: 8, conditional_c_cycles: None, mnemonic: "XOR N" }),
        0xEF => Some(Instruction { c_cycles: 16, conditional_c_cycles: None, mnemonic: "RST 40" }),
        0xF0 => Some(Instruction { c_cycles: 12, conditional_c_cycles: None, mnemonic: "LD A,(0XFF00+A8)" }),
        0xF1 => Some(Instruction { c_cycles: 12, conditional_c_cycles: None, mnemonic: "POP AF" }),
        0xF2 => Some(Instruction { c_cycles: 8, conditional_c_cycles: None, mnemonic: "LD A,(0XFF00+C)" }),
        0xF3 => Some(Instruction { c_cycles: 4, conditional_c_cycles: None, mnemonic: "DI" }),
        0xF5 => Some(Instruction { c_cycles: 16, conditional_c_cycles: None, mnemonic: "PUSH AF" }),
        0xF6 => Some(Instruction { c_cycles: 8, conditional_c_cycles: None, mnemonic: "OR N" }),
        0xF7 => Some(Instruction { c_cycles: 16, conditional_c_cycles: None, mnemonic: "RST 48" }),
        0xF8 => Some(Instruction { c_cycles: 12, conditional_c_cycles: None, mnemonic: "LDHL SP,N" }),
        0xF9 => Some(Instruction { c_cycles: 8, conditional_c_cycles: None, mnemonic: "LD SP,HL" }),
        0xFA => Some(Instruction { c_cycles: 16, conditional_c_cycles: None, mnemonic: "LD A,NN" }),
        0xFB => Some(Instruction { c_cycles: 4, conditional_c_cycles: None, mnemonic: "EI" }),
        0xFE => Some(Instruction { c_cycles: 8, conditional_c_cycles: None, mnemonic: "CP N" }),
        0xFF => Some(Instruction { c_cycles: 16, conditional_c_cycles: None, mnemonic: "RST 56" }),
        _ => None,
    }
}

/// The descriptor of an unprefixed opcode: its cycle costs and mnemonic.
/// The hard-illegal opcodes and the prefix byte 0xCB have none.
pub fn get_unprefixed_instruction(opcode: u8) -> (r: Option<Instruction>)
    ensures
        (r is Some) == spec_unprefixed_has_descriptor(opcode),
        (r matches Some(i) ==> (i.c_cycles, i.conditional_c_cycles)
            == spec_unprefixed_cycles(opcode)),
{
    if opcode < 0x80 {
        get_unprefixed_instruction_h0(opcode)
    } else {
        get_unprefixed_instruction_h1(opcode)
    }
}

fn get_prefixed_instruction_h0(opcode: u8) -> (r: Option<Instruction>)
    requires
        0x00 <= opcode < 0x7F + 1,
    ensures
        r is Some,
        (r matches Some(i) ==> (i.c_cycles, i.conditional_c_cycles) == spec_prefixed_cycles(opcode)),
{
    proof {
        reveal(spec_prefixed_cycles);
    }
    match opcode {
        0x00 => Some(Instruction { c_cycles: 8, conditional_c_cycles: None, mnemonic: "RLC B" }),
        0x01 => Some(Instruction { c_cycles: 8, conditional_c_cycles: None, mnemonic: "RLC C" }),
        0x02 => Some(Instruction { c_cycles: 8, conditional_c_cycles: None, mnemonic: "RLC D" }),
        0x03 => Some(Instruction { c_cycles: 8, conditional_c_cycles: None, mnemonic: "RLC E" }),
        0x04 => Some(Instruction { c_cycles: 8, conditional_c_cycles: None, mnemonic: "RLC H" }),
        0x05 => Some(Instruction { c_cycles: 8, conditional_c_cycles: None, mnemonic: "RLC L" }),
        0x06 => Some(Instruction { c_cycles: 16, conditional_c_cycles: None, mnemonic: "RLC (HL)" }),
        0x07 => Some(Instruction { c_cycles: 8, conditional_c_cycles: None, mnemonic: "RLC A" }),
        0x08 => Some(Instruction { c_cycles: 8, conditional_c_cycles: None, mnemonic: "RRC B" }),
        0x09 => Some(Instruction { c_cycles: 8, conditional_c_cycles: None, mnemonic: "RRC C" }),
        0x0A => Some(Instruction { c_cycles: 8, conditional_c_cycles: None, mnemonic: "RRC D" }),
        0x0B => Some(Instruction { c_cycles: 8, conditional_c_cycles: None, mnemonic: "RRC E" }),
        0x0C => Some(Instruction { c_cycles: 8, conditional_c_cycles: None, mnemonic: "RRC H" }),
        0x0D => Some(Instruction { c_cycles: 8, conditional_c_cycles: None, mnemonic: "RRC L" }),
        0x0E => Some(Instruction { c_cycles: 16, conditional_c_cycles: None, mnemonic: "RRC (HL)" }),
        0x0F => Some(Instruction { c_cycles: 8, conditional_c_cycles: None, mnemonic: "RRC A" }),
        0x10 => Some(Instruction { c_cycles: 8, conditional_c_cycles: None, mnemonic: "RL B" }),
        0x11 => Some(Instruction { c_cycles: 8, conditional_c_cycles: None, mnemonic: "RL C" }),
        0x12 => Some(Instruction { c_cycles: 8, conditional_c_cycles: None, mnemonic: "RL D" }),
        0x13 => Some(Instruction { c_cycles: 8, conditional_c_cycles: None, mnemonic: "RL E" }),
        0x14 => Some(Instruction { c_cycles: 8, conditional_c_cycles: None, mnemonic: "RL H" }),
        0x15 => Some(Instruction { c_cycles: 8, conditional_c_cycles: None, mnemonic: "RL L" }),
        0x16 => Some(Instruction { c_cycles: 16, conditional_c_cycles: None, mnemonic: "RL (HL)" }),
        0x17 => Some(Instruction { c_cycles: 8, conditional_c_cycles: None, mnemonic: "RL A" }),
        0x18 => Some(Instruction { c_cycles: 8, conditional_c_cycles: None, mnemonic: "RR B" }),
        0x19 => Some(Instruction { c_cycles: 8, conditional_c_cycles: None, mnemonic: "RR C" }),
        0x1A => Some(Instruction { c_cycles: 8, conditional_c_cycles: None, mnemonic: "RR D" }),
        0x1B => Some(Instruction { c_cycles: 8, conditional_c_cycles: None, mnemonic: "RR E" }),
        0x1C => Some(Instruction { c_cycles: 8, conditional_c_cycles: None, mnemonic: "RR H" }),
        0x1D => Some(Instruction { c_cycles: 8, conditional_c_cycles: None, mnemonic: "RR L" }),
        0x1E => Some(Instruction { c_cycles: 16, conditional_c_cycles: None, mnemonic: "RR (HL)" }),
        0x1F => Some(Instruction { c_cycles: 8, conditional_c_cycles: None, mnemonic: "RR A" }),
        0x20 => Some(Instruction { c_cycles: 8, conditional_c_cycles: None, mnemonic: "SLA B" }),
        0x21 => Some(Instruction { c_cycles: 8, conditional_c_cycles: None, mnemonic: "SLA C" }),
        0x22 => Some(Instruction { c_cycles: 8, conditional_c_cycles: None, mnemonic: "SLA D" }),
        0x23 => Some(Instruction { c_cycles: 8, conditional_c_cycles: None, mnemonic: "SLA E" }),
        0x24 => Some(Instruction { c_cycles: 8, conditional_c_cycles: None, mnemonic: "SLA H" }),
        0x25 => Some(Instruction { c_cycles: 8, conditional_c_cycles: None, mnemonic: "SLA L" }),
        0x26 => Some(Instruction { c_cycles: 16, conditional_c_cycles: None, mnemonic: "SLA (HL)" }),
        0x27 => Some(Instruction { c_cycles: 8, conditional_c_cycles: None, mnemonic: "SLA A" }),
        0x28 => Some(Instruction { c_cycles: 8, conditional_c_cycles: None, mnemonic: "SRA B" }),
        0x29 => Some(Instruction { c_cycles: 8, conditional_c_cycles: None, mnemonic: "SRA C" }),
        0x2A => Some(Instruction { c_cycles: 8, conditional_c_cycles: None, mnemonic: "SRA D" }),
        0x2B => Some(Instruction { c_cycles: 8, conditional_c_cycles: None, mnemonic: "SRA E" }),
        0x2C => Some(Instruction { c_cycles: 8, conditional_c_cycles: None, mnemonic: "SRA H" }),
        0x2D => Some(Instruction { c_cycles: 8, conditional_c_cycles: None, mnemonic: "SRA L" }),
        0x2E => Some(Instruction { c_cycles: 16, conditional_c_cycles: None, mnemonic: "SRA (HL)" }),
        0x2F => Some(Instruction { c_cycles: 8, conditional_c_cycles: None, mnemonic: "SRA A" }),
        0x30 => Some(Instruction { c_cycles: 8, conditional_c_cycles: None, mnemonic: "SWAP B" }),
        0x31 => Some(Instruction { c_cycles: 8, conditional_c_cycles: None, mnemonic: "SWAP C" }),
        0x32 => Some(Instruction { c_cycles: 8, conditional_c_cycles: None, mnemonic: "SWAP D" }),
        0x33 => Some(Instruction { c_cycles: 8, conditional_c_cycles: None, mnemonic: "SWAP E" }),
        0x34 => Some(Instruction { c_cycles: 8, conditional_c_cycles: None, mnemonic: "SWAP H" }),
        0x35 => Some(Instruction { c_cycles: 8, conditional_c_cycles: None, mnemonic: "SWAP L" }),
        0x36 => Some(Instruction { c_cycles: 16, conditional_c_cycles: None, mnemonic: "SWAP (HL)" }),
        0x37 => Some(Instruction { c_cycles: 8, conditional_c_cycles: None, mnemonic: "SWAP A" }),
        0x38 => Some(Instruction { c_cycles: 8, conditional_c_cycles: None, mnemonic: "SRL B" }),
        0x39 => Some(Instruction { c_cycles: 8, conditional_c_cycles: None, mnemonic: "SRL C" }),
        0x3A => Some(Instruction { c_cycles: 8, conditional_c_cycles: None, mnemonic: "SRL D" }),
        0x3B => Some(Instruction { c_cycles: 8, conditional_c_cycles: None, mnemonic: "SRL E" }),
        0x3C => Some(Instruction { c_cycles: 8, conditional_c_cycles: None, mnemonic: "SRL H" }),
        0x3D => Some(Instruction { c_cycles: 8, conditional_c_cycles: None, mnemonic: "SRL L" }),
        0x3E => Some(Instruction { c_cycles: 16, conditional_c_cycles: None, mnemonic: "SRL (HL)" }),
        0x3F => Some(Instruction { c_cycles: 8, conditional_c_cycles: None, mnemonic: "SRL A" }),
        0x40 => Some(Instruction { c_cycles: 8, conditional_c_cycles: None, mnemonic: "BIT 0,B" }),
        0x41 => Some(Instruction { c_cycles: 8, conditional_c_cycles: None, mnemonic: "BIT 0,C" }),
        0x42 => Some(Instruction { c_cycles: 8, conditional_c_cycles: None, mnemonic: "BIT 0,D" }),
        0x43 => Some(Instruction { c_cycles: 8, conditional_c_cycles: None, mnemonic: "BIT 0,E" }),
        0x44 => Some(Instruction { c_cycles: 8, conditional_c_cycles: None, mnemonic: "BIT 0,H" }),
        0x45 => Some(Instruction { c_cycles: 8, conditional_c_cycles: None, mnemonic: "BIT 0,L" }),
        0x46 => Some(Instruction { c_cycles: 12, conditional_c_cycles: None, mnemonic: "BIT 0,(HL)" }),
        0x47 => Some(Instruction { c_cycles: 8, conditional_c_cycles: None, mnemonic: "BIT 0,A" }),
        0x48 => Some(Instruction { c_cycles: 8, conditional_c_cycles: None, mnemonic: "BIT 1,B" }),
        0x49 => Some(Instruction { c_cycles: 8, conditional_c_cycles: None, mnemonic: "BIT 1,C" }),
        0x4A => Some(Instruction { c_cycles: 8, conditional_c_cycles: None, mnemonic: "BIT 1,D" }),
        0x4B => Some(Instruction { c_cycles: 8, conditional_c_cycles: None, mnemonic: "BIT 1,E" }),
        0x4C => Some(Instruction { c_cycles: 8, conditional_c_cycles: None, mnemonic: "BIT 1,H" }),
        0x4D => Some(Instruction { c_cycles: 8, conditional_c_cycles: None, mnemonic: "BIT 1,L" }),
        0x4E => Some(Instruction { c_cycles: 12, conditional_c_cycles: None, mnemonic: "BIT 1,(HL)" }),
        0x4F => Some(Instruction { c_cycles: 8, conditional_c_cycles: None, mnemonic: "BIT 1,A" }),
        0x50 => Some(Instruction { c_cycles: 8, conditional_c_cycles: None, mnemonic: "BIT 2,B" }),
        0x51 => Some(Instruction { c_cycles: 8, conditional_c_cycles: None, mnemonic: "BIT 2,C" }),
        0x52 => Some(Instruction { c_cycles: 8, conditional_c_cycles: None, mnemonic: "BIT 2,D" }),
        0x53 => Some(Instruction { c_cycles: 8, conditional_c_cycles: None, mnemonic: "BIT 2,E" }),
        0x54 => Some(Instruction { c_cycles: 8, conditional_c_cycles: None, mnemonic: "BIT 2,H" }),
        0x55 => Some(Instruction { c_cycles: 8, conditional_c_cycles: None, mnemonic: "BIT 2,L" }),
        0x56 => Some(Instruction { c_cycles: 12, conditional_c_cycles: None, mnemonic: "BIT 2,(HL)" }),
        0x57 => Some(Instruction { c_cycles: 8, conditional_c_cycles: None, mnemonic: "BIT 2,A" }),
        0x58 => Some(Instruction { c_cycles: 8, conditional_c_cycles: None, mnemonic: "BIT 3,B" }),
        0x59 => Some(Instruction { c_cycles: 8, conditional_c_cycles: None, mnemonic: "BIT 3,C" }),
        0x5A => Some(Instruction { c_cycles: 8, conditional_c_cycles: None, mnemonic: "BIT 3,D" }),
        0x5B => Some(Instruction { c_cycles: 8, conditional_c_cycles: None, mnemonic: "BIT 3,E" }),
        0x5C => Some(Instruction { c_cycles: 8, conditional_c_cycles: None, mnemonic: "BIT 3,H" }),
        0x5D => Some(Instruction { c_cycles: 8, conditional_c_cycles: None, mnemonic: "BIT 3,L" }),
        0x5E => Some(Instruction { c_cycles: 12, conditional_c_cycles: None, mnemonic: "BIT 3,(HL)" }),
        0x5F => Some(Instruction { c_cycles: 8, conditional_c_cycles: None, mnemonic: "BIT 3,A" }),
        0x60 => Some(Instruction { c_cycles: 8, conditional_c_cycles: None, mnemonic: "BIT 4,B" }),
        0x61 => Some(Instruction { c_cycles: 8, conditional_c_cycles: None, mnemonic: "BIT 4,C" }),
        0x62 => Some(Instruction { c_cycles: 8, conditional_c_cycles: None, mnemonic: "BIT 4,D" }),
        0x63 => Some(Instruction { c_cycles: 8, conditional_c_cycles: None, mnemonic: "BIT 4,E" }),
        0x64 => Some(Instruction { c_cycles: 8, conditional_c_cycles: None, mnemonic: "BIT 4,H" }),
        0x65 => Some(Instruction { c_cycles: 8, conditional_c_cycles: None, mnemonic: "BIT 4,L" }),
        0x66 => Some(Instruction { c_cycles: 12, conditional_c_cycles: None, mnemonic: "BIT 4,(HL)" }),
        0x67 => Some(Instruction { c_cycles: 8, conditional_c_cycles: None, mnemonic: "BIT 4,A" }),
        0x68 => Some(Instruction { c_cycles: 8, conditional_c_cycles: None, mnemonic: "BIT 5,B" }),
        0x69 => Some(Instruction { c_cycles: 8, conditional_c_cycles: None, mnemonic: "BIT 5,C" }),
        0x6A => Some(Instruction { c_cycles: 8, conditional_c_cycles: None, mnemonic: "BIT 5,D" }),
        0x6B => Some(Instruction { c_cycles: 8, conditional_c_cycles: None, mnemonic: "BIT 5,E" }),
        0x6C => Some(Instruction { c_cycles: 8, conditional_c_cycles: None, mnemonic: "BIT 5,H" }),
        0x6D => Some(Instruction { c_cycles: 8, conditional_c_cycles: None, mnemonic: "BIT 5,L" }),
        0x6E => Some(Instruction { c_cycles: 12, conditional_c_cycles: None, mnemonic: "BIT 5,(HL)" }),
        0x6F => Some(Instruction { c_cycles: 8, conditional_c_cycles: None, mnemonic: "BIT 5,A" }),
        0x70 => Some(Instruction { c_cycles: 8, conditional_c_cycles: None, mnemonic: "BIT 6,B" }),
        0x71 => Some(Instruction { c_cycles: 8, conditional_c_cycles: None, mnemonic: "BIT 6,C" }),
        0x72 => Some(Instruction { c_cycles: 8, conditional_c_cycles: None, mnemonic: "BIT 6,D" }),
        0x73 => Some(Instruction { c_cycles: 8, conditional_c_cycles: None, mnemonic: "BIT 6,E" }),
        0x74 => Some(Instruction { c_cycles: 8, conditional_c_cycles: None, mnemonic: "BIT 6,H" }),
        0x75 => Some(Instruction { c_cycles: 8, conditional_c_cycles: None, mnemonic: "BIT 6,L" }),
        0x76 => Some(Instruction { c_cycles: 12, conditional_c_cycles: None, mnemonic: "BIT 6,(HL)" }),
        0x77 => Some(Instruction { c_cycles: 8, conditional_c_cycles: None, mnemonic: "BIT 6,A" }),
        0x78 => Some(Instruction { c_cycles: 8, conditional_c_cycles: None, mnemonic: "BIT 7,B" }),
        0x79 => Some(Instruction { c_cycles: 8, conditional_c_cycles: None, mnemonic: "BIT 7,C" }),
        0x7A => Some(Instruction { c_cycles: 8, conditional_c_cycles: None, mnemonic: "BIT 7,D" }),
        0x7B => Some(Instruction { c_cycles: 8, conditional_c_cycles: None, mnemonic: "BIT 7,E" }),
        0x7C => Some(Instruction { c_cycles: 8, conditional_c_cycles: None, mnemonic: "BIT 7,H" }),
        0x7D => Some(Instruction { c_cycles: 8, conditional_c_cycles: None, mnemonic: "BIT 7,L" }),
        0x7E => Some(Instruction { c_cycles: 12, conditional_c_cycles: None, mnemonic: "BIT 7,(HL)" }),
        _ => Some(Instruction { c_cycles: 8, conditional_c_cycles: None, mnemonic: "BIT 7,A" }),
    }
}

fn get_prefixed_instruction_h1(opcode: u8) -> (r: Option<Instruction>)
    requires
        0x80 <= opcode < 0xFF + 1,
    ensures
        r is Some,
        (r matches Some(i) ==> (i.c_cycles, i.conditional_c_cycles) == spec_prefixed_cycles(opcode)),
{
    proof {
        reveal(spec_prefixed_cycles);
    }
    match opcode {
        0x80 => Some(Instruction { c_cycles: 8, conditional_c_cycles: None, mnemonic: "RES 0,B" }),
        0x81 => Some(Instruction { c_cycles: 8, conditional_c_cycles: None, mnemonic: "RES 0,C" }),
        0x82 => Some(Instruction { c_cycles: 8, conditional_c_cycles: None, mnemonic: "RES 0,D" }),
        0x83 => Some(Instruction { c_cycles: 8, conditional_c_cycles: None, mnemonic: "RES 0,E" }),
        0x84 => Some(Instruction { c_cycles: 8, conditional_c_cycles: None, mnemonic: "RES 0,H" }),
        0x85 => Some(Instruction { c_cycles: 8, conditional_c_cycles: None, mnemonic: "RES 0,L" }),
        0x86 => Some(Instruction { c_cycles: 16, conditional_c_cycles: None, mnemonic: "RES 0,(HL)" }),
        0x87 => Some(Instruction { c_cycles: 8, conditional_c_cycles: None, mnemonic: "RES 0,A" }),
        0x88 => Some(Instruction { c_cycles: 8, conditional_c_cycles: None, mnemonic: "RES 1,B" }),
        0x89 => Some(Instruction { c_cycles: 8, conditional_c_cycles: None, mnemonic: "RES 1,C" }),
        0x8A => Some(Instruction { c_cycles: 8, conditional_c_cycles: None, mnemonic: "RES 1,D" }),
        0x8B => Some(Instruction { c_cycles: 8, conditional_c_cycles: None, mnemonic: "RES 1,E" }),
        0x8C => Some(Instruction { c_cycles: 8, conditional_c_cycles: None, mnemonic: "RES 1,H" }),
        0x8D => Some(Instruction { c_cycles: 8, conditional_c_cycles: None, mnemonic: "RES 1,L" }),
        0x8E => Some(Instruction { c_cycles: 16, conditional_c_cycles: None, mnemonic: "RES 1,(HL)" }),
        0x8F => Some(Instruction { c_cycles: 8, conditional_c_cycles: None, mnemonic: "RES 1,A" }),
        0x90 => Some(Instruction { c_cycles: 8, conditional_c_cycles: None, mnemonic: "RES 2,B" }),
        0x91 => Some(Instruction { c_cycles: 8, conditional_c_cycles: None, mnemonic: "RES 2,C" }),
        0x92 => Some(Instruction { c_cycles: 8, conditional_c_cycles: None, mnemonic: "RES 2,D" }),
        0x93 => Some(Instruction { c_cycles: 8, conditional_c_cycles: None, mnemonic: "RES 2,E" }),
        0x94 => Some(Instruction { c_cycles: 8, conditional_c_cycles: None, mnemonic: "RES 2,H" }),
        0x95 => Some(Instruction { c_cycles: 8, conditional_c_cycles: None, mnemonic: "RES 2,L" }),
        0x96 => Some(Instruction { c_cycles: 16, conditional_c_cycles: None, mnemonic: "RES 2,(HL)" }),
        0x97 => Some(Instruction { c_cycles: 8, conditional_c_cycles: None, mnemonic: "RES 2,A" }),
        0x98 => Some(Instruction { c_cycles: 8, conditional_c_cycles: None, mnemonic: "RES 3,B" }),
        0x99 => Some(Instruction { c_cycles: 8, conditional_c_cycles: None, mnemonic: "RES 3,C" }),
        0x9A => Some(Instruction { c_cycles: 8, conditional_c_cycles: None, mnemonic: "RES 3,D" }),
        0x9B => Some(Instruction { c_cycles: 8, conditional_c_cycles: None, mnemonic: "RES 3,E" }),
        0x9C => Some(Instruction { c_cycles: 8, conditional_c_cycles: None, mnemonic: "RES 3,H" }),
        0x9D => Some(Instruction { c_cycles: 8, conditional_c_cycles: None, mnemonic: "RES 3,L" }),
        0x9E => Some(Instruction { c_cycles: 16, conditional_c_cycles: None, mnemonic: "RES 3,(HL)" }),
        0x9F => Some(Instruction { c_cycles: 8, conditional_c_cycles: None, mnemonic: "RES 3,A" }),
        0xA0 => Some(Instruction { c_cycles: 8, conditional_c_cycles: None, mnemonic: "RES 4,B" }),
        0xA1 => Some(Instruction { c_cycles: 8, conditional_c_cycles: None, mnemonic: "RES 4,C" }),
        0xA2 => Some(Instruction { c_cycles: 8, conditional_c_cycles: None, mnemonic: "RES 4,D" }),
        0xA3 => Some(Instruction { c_cycles: 8, conditional_c_cycles: None, mnemonic: "RES 4,E" }),
        0xA4 => Some(Instruction { c_cycles: 8, conditional_c_cycles: None, mnemonic: "RES 4,H" }),
        0xA5 => Some(Instruction { c_cycles: 8, conditional_c_cycles: None, mnemonic: "RES 4,L" }),
        0xA6 => Some(Instruction { c_cycles: 16, conditional_c_cycles: None, mnemonic: "RES 4,(HL)" }),
        0xA7 => Some(Instruction { c_cycles: 8, conditional_c_cycles: None, mnemonic: "RES 4,A" }),
        0xA8 => Some(Instruction { c_cycles: 8, conditional_c_cycles: None, mnemonic: "RES 5,B" }),
        0xA9 => Some(Instruction { c_cycles: 8, conditional_c_cycles: None, mnemonic: "RES 5,C" }),
        0xAA => Some(Instruction { c_cycles: 8, conditional_c_cycles: None, mnemonic: "RES 5,D" }),
        0xAB => Some(Instruction { c_cycles: 8, conditional_c_cycles: None, mnemonic: "RES 5,E" }),
        0xAC => Some(Instruction { c_cycles: 8, conditional_c_cycles: None, mnemonic: "RES 5,H" }),
        0xAD => Some(Instruction { c_cycles: 8, conditional_c_cycles: None, mnemonic: "RES 5,L" }),
        0xAE => Some(Instruction { c_cycles: 16, conditional_c_cycles: None, mnemonic: "RES 5,(HL)" }),
        0xAF => Some(Instruction { c_cycles: 8, conditional_c_cycles: None, mnemonic: "RES 5,A" }),
        0xB0 => Some(Instruction { c_cycles: 8, conditional_c_cycles: None, mnemonic: "RES 6,B" }),
        0xB1 => Some(Instruction { c_cycles: 8, conditional_c_cycles: None, mnemonic: "RES 6,C" }),
        0xB2 => Some(Instruction { c_cycles: 8, conditional_c_cycles: None, mnemonic: "RES 6,D" }),
        0xB3 => Some(Instruction { c_cycles: 8, conditional_c_cycles: None, mnemonic: "RES 6,E" }),
        0xB4 => Some(Instruction { c_cycles: 8, conditional_c_cycles: None, mnemonic: "RES 6,H" }),
        0xB5 => Some(Instruction { c_cycles: 8, conditional_c_cycles: None, mnemonic: "RES 6,L" }),
        0xB6 => Some(Instruction { c_cycles: 16, conditional_c_cycles: None, mnemonic: "RES 6,(HL)" }),
        0xB7 => Some(Instruction { c_cycles: 8, conditional_c_cycles: None, mnemonic: "RES 6,A" }),
        0xB8 => Some(Instruction { c_cycles: 8, conditional_c_cycles: None, mnemonic: "RES 7,B" }),
        0xB9 => Some(Instruction { c_cycles: 8, conditional_c_cycles: None, mnemonic: "RES 7,C" }),
        0xBA => Some(Instruction { c_cycles: 8, conditional_c_cycles: None, mnemonic: "RES 7,D" }),
        0xBB => Some(Instruction { c_cycles: 8, conditional_c_cycles: None, mnemonic: "RES 7,E" }),
        0xBC => Some(Instruction { c_cycles: 8, conditional_c_cycles: None, mnemonic: "RES 7,H" }),
        0xBD => Some(Instruction { c_cycles: 8, conditional_c_cycles: None, mnemonic: "RES 7,L" }),
        0xBE => Some(Instruction { c_cycles: 16, conditional_c_cycles: None, mnemonic: "RES 7,(HL)" }),
        0xBF => Some(Instruction { c_cycles: 8, conditional_c_cycles: None, mnemonic: "RES 7,A" }),
        0xC0 => Some(Instruction { c_cycles: 8, conditional_c_cycles: None, mnemonic: "SET 0,B" }),
        0xC1 => Some(Instruction { c_cycles: 8, conditional_c_cycles: None, mnemonic: "SET 0,C" }),
        0xC2 => Some(Instruction { c_cycles: 8, conditional_c_cycles: None, mnemonic: "SET 0,D" }),
        0xC3 => Some(Instruction { c_cycles: 8, conditional_c_cycles: None, mnemonic: "SET 0,E" }),
        0xC4 => Some(Instruction { c_cycles: 8, conditional_c_cycles: None, mnemonic: "SET 0,H" }),
        0xC5 => Some(Instruction { c_cycles: 8, conditional_c_cycles: None, mnemonic: "SET 0,L" }),
        0xC6 => Some(Instruction { c_cycles: 16, conditional_c_cycles: None, mnemonic: "SET 0,(HL)" }),
        0xC7 => Some(Instruction { c_cycles: 8, conditional_c_cycles: None, mnemonic: "SET 0,A" }),
        0xC8 => Some(Instruction { c_cycles: 8, conditional_c_cycles: None, mnemonic: "SET 1,B" }),
        0xC9 => Some(Instruction { c_cycles: 8, conditional_c_cycles: None, mnemonic: "SET 1,C" }),
        0xCA => Some(Instruction { c_cycles: 8, conditional_c_cycles: None, mnemonic: "SET 1,D" }),
        0xCB => Some(Instruction { c_cycles: 8, conditional_c_cycles: None, mnemonic: "SET 1,E" }),
        0xCC => Some(Instruction { c_cycles: 8, conditional_c_cycles: None, mnemonic: "SET 1,H" }),
        0xCD => Some(Instruction { c_cycles: 8, conditional_c_cycles: None, mnemonic: "SET 1,L" }),
        0xCE => Some(Instruction { c_cycles: 16, conditional_c_cycles: None, mnemonic: "SET 1,(HL)" }),
        0xCF => Some(Instruction { c_cycles: 8, conditional_c_cycles: None, mnemonic: "SET 1,A" }),
        0xD0 => Some(Instruction { c_cycles: 8, conditional_c_cycles: None, mnemonic: "SET 2,B" }),
        0xD1 => Some(Instruction { c_cycles: 8, conditional_c_cycles: None, mnemonic: "SET 2,C" }),
        0xD2 => Some(Instruction { c_cycles: 8, conditional_c_cycles: None, mnemonic: "SET 2,D" }),
        0xD3 => Some(Instruction { c_cycles: 8, conditional_c_cycles: None, mnemonic: "SET 2,E" }),
        0xD4 => Some(Instruction { c_cycles: 8, conditional_c_cycles: None, mnemonic: "SET 2,H" }),
        0xD5 => Some(Instruction { c_cycles: 8, conditional_c_cycles: None, mnemonic: "SET 2,L" }),
        0xD6 => Some(Instruction { c_cycles: 16, conditional_c_cycles: None, mnemonic: "SET 2,(HL)" }),
        0xD7 => Some(Instruction { c_cycles: 8, conditional_c_cycles: None, mnemonic: "SET 2,A" }),
        0xD8 => Some(Instruction { c_cycles: 8, conditional_c_cycles: None, mnemonic: "SET 3,B" }),
        0xD9 => Some(Instruction { c_cycles: 8, conditional_c_cycles: None, mnemonic: "SET 3,C" }),
        0xDA => Some(Instruction { c_cycles: 8, conditional_c_cycles: None, mnemonic: "SET 3,D" }),
        0xDB => Some(Instruction { c_cycles: 8, conditional_c_cycles: None, mnemonic: "SET 3,E" }),
        0xDC => Some(Instruction { c_cycles: 8, conditional_c_cycles: None, mnemonic: "SET 3,H" }),
        0xDD => Some(Instruction { c_cycles: 8, conditional_c_cycles: None, mnemonic: "SET 3,L" }),
        0xDE => Some(Instruction { c_cycles: 16, conditional_c_cycles: None, mnemonic: "SET 3,(HL)" }),
        0xDF => Some(Instruction { c_cycles: 8, conditional_c_cycles: None, mnemonic: "SET 3,A" }),
        0xE0 => Some(Instruction { c_cycles: 8, conditional_c_cycles: None, mnemonic: "SET 4,B" }),
        0xE1 => Some(Instruction { c_cycles: 8, conditional_c_cycles: None, mnemonic: "SET 4,C" }),
        0xE2 => Some(Instruction { c_cycles: 8, conditional_c_cycles: None, mnemonic: "SET 4,D" }),
        0xE3 => Some(Instruction { c_cycles: 8, conditional_c_cycles: None, mnemonic: "SET 4,E" }),
        0xE4 => Some(Instruction { c_cycles: 8, conditional_c_cycles: None, mnemonic: "SET 4,H" }),
        0xE5 => Some(Instruction { c_cycles: 8, conditional_c_cycles: None, mnemonic: "SET 4,L" }),
        0xE6 => Some(Instruction { c_cycles: 16, conditional_c_cycles: None, mnemonic: "SET 4,(HL)" }),
        0xE7 => Some(Instruction { c_cycles: 8, conditional_c_cycles: None, mnemonic: "SET 4,A" }),
        0xE8 => Some(Instruction { c_cycles: 8, conditional_c_cycles: None, mnemonic: "SET 5,B" }),
        0xE9 => Some(Instruction { c_cycles: 8, conditional_c_cycles: None, mnemonic: "SET 5,C" }),
        0xEA => Some(Instruction { c_cycles: 8, conditional_c_cycles: None, mnemonic: "SET 5,D" }),
        0xEB => Some(Instruction { c_cycles: 8, conditional_c_cycles: None, mnemonic: "SET 5,E" }),
        0xEC => Some(Instruction { c_cycles: 8, conditional_c_cycles: None, mnemonic: "SET 5,H" }),
        0xED => Some(Instruction { c_cycles: 8, conditional_c_cycles: None, mnemonic: "SET 5,L" }),
        0xEE => Some(Instruction { c_cycles: 16, conditional_c_cycles: None, mnemonic: "SET 5,(HL)" }),
        0xEF => Some(Instruction { c_cycles: 8, conditional_c_cycles: None, mnemonic: "SET 5,A" }),
        0xF0 => Some(Instruction { c_cycles: 8, conditional_c_cycles: None, mnemonic: "SET 6,B" }),
        0xF1 => Some(Instruction { c_cycles: 8, conditional_c_cycles: None, mnemonic: "SET 6,C" }),
        0xF2 => Some(Instruction { c_cycles: 8, conditional_c_cycles: None, mnemonic: "SET 6,D" }),
        0xF3 => Some(Instruction { c_cycles: 8, conditional_c_cycles: None, mnemonic: "SET 6,E" }),
        0xF4 => Some(Instruction { c_cycles: 8, conditional_c_cycles: None, mnemonic: "SET 6,H" }),
        0xF5 => Some(Instruction { c_cycles: 8, conditional_c_cycles: None, mnemonic: "SET 6,L" }),
        0xF6 => Some(Instruction { c_cycles: 16, conditional_c_cycles: None, mnemonic: "SET 6,(HL)" }),
        0xF7 => Some(Instruction { c_cycles: 8, conditional_c_cycles: None, mnemonic: "SET 6,A" }),
        0xF8 => Some(Instruction { c_cycles: 8, conditional_c_cycles: None, mnemonic: "SET 7,B" }),
        0xF9 => Some(Instruction { c_cycles: 8, conditional_c_cycles: None, mnemonic: "SET 7,C" }),
        0xFA => Some(Instruction { c_cycles: 8, conditional_c_cycles: None, mnemonic: "SET 7,D" }),
        0xFB => Some(Instruction { c_cycles: 8, conditional_c_cycles: None, mnemonic: "SET 7,E" }),
        0xFC => Some(Instruction { c_cycles: 8, conditional_c_cycles: None, mnemonic: "SET 7,H" }),
        0xFD => Some(Instruction { c_cycles: 8, conditional_c_cycles: None, mnemonic: "SET 7,L" }),
        0xFE => Some(Instruction { c_cycles: 16, conditional_c_cycles: None, mnemonic: "SET 7,(HL)" }),
        _ => Some(Instruction { c_cycles: 8, conditional_c_cycles: None, mnemonic: "SET 7,A" }),
    }
}

/// The descriptor of a CB-prefixed opcode; the CB table is total.
pub fn get_prefixed_instruction(opcode: u8) -> (r: Option<Instruction>)
    ensures
        r is Some,
        (r matches Some(i) ==> (i.c_cycles, i.conditional_c_cycles)
            == spec_prefixed_cycles(opcode)),
{
    if opcode < 0x80 {
        get_prefixed_instruction_h0(opcode)
    } else {
        get_prefixed_instruction_h1(opcode)
    }
}

impl Instruction {
    /// The descriptor for an opcode from either table.
    pub fn get_instruction(opcode: Opcode) -> (r: Option<Instruction>)
        ensures
            opcode matches Opcode::Unprefixed(op) ==> (r is Some)
                == spec_unprefixed_has_descriptor(op) && (r matches Some(i) ==> (
            i.c_cycles,
            i.conditional_c_cycles,
            ) == spec_unprefixed_cycles(op)),
            opcode matches Opcode::Prefixed(op) ==> (r is Some) && (r matches Some(i) ==> (
            i.c_cycles,
            i.conditional_c_cycles,
            ) == spec_prefixed_cycles(op)),
    {
        match opcode {
            Opcode::Unprefixed(op) => get_unprefixed_instruction(op),
            Opcode::Prefixed(op) => get_prefixed_instruction(op),
        }
    }
}

/// The unprefixed opcodes that never write the flag register.
pub open spec fn spec_unprefixed_keeps_flags(op: u8) -> bool {
    (0x00 <= op && op <= 0x03)
        || op == 0x06
        || op == 0x08
        || (0x0A <= op && op <= 0x0B)
        || op == 0x0E
        || (0x10 <= op && op <= 0x13)
        || op == 0x16
        || op == 0x18
        || (0x1A <= op && op <= 0x1B)
        || op == 0x1E
        || (0x20 <= op && op <= 0x23)
        || op == 0x26
        || op == 0x28
        || (0x2A <= op && op <= 0x2B)
        || op == 0x2E
        || (0x30 <= op && op <= 0x33)
        || op == 0x36
        || op == 0x38
        || (0x3A <= op && op <= 0x3B)
        || op == 0x3E
        || (0x40 <= op && op <= 0x7F)
        || (0xC0 <= op && op <= 0xC5)
        || (0xC7 <= op && op <= 0xCD)
        || (0xCF <= op && op <= 0xD5)
        || (0xD7 <= op && op <= 0xDD)
        || (0xDF <= op && op <= 0xE5)
        || op == 0xE7
        || (0xE9 <= op && op <= 0xED)
        || (0xEF <= op && op <= 0xF0)
        || (0xF2 <= op && op <= 0xF5)
        || op == 0xF7
        || (0xF9 <= op && op <= 0xFD)
        || op == 0xFF
}

/// The CB-prefixed opcodes that never write the flag register: RES and SET.
pub open spec fn spec_prefixed_keeps_flags(op: u8) -> bool {
    op >= 0x80
}

/// For every unprefixed opcode that does not write flags, F is bitwise
/// unchanged across its execution.
proof fn lemma_unprefixed_preserves_flags_x00(c: CpuV, op: u8)
    requires
        spec_unprefixed_keeps_flags(op),
        0x00 <= op < 0x0F + 1,
    ensures
        spec_execute_unprefixed_x00(c, op).0.registers.f == c.registers.f,
{
    reveal(spec_execute_unprefixed_x00);
    if op == 0x00 {
    } else if op == 0x01 {
        operations::lemma_ld16_keeps_flags(c, Operand16::Reg(Reg16::BC), Operand16::Imm);
    } else if op == 0x02 {
        operations::lemma_ld_keeps_flags(c, Operand8::Ind(Reg16::BC), Operand8::Reg(Reg8::A));
    } else if op == 0x03 {
        operations::lemma_inc16_keeps_flags(c, Reg16::BC);
    } else if op == 0x06 {
        operations::lemma_ld_keeps_flags(c, Operand8::Reg(Reg8::B), Operand8::Imm);
    } else if op == 0x08 {
        operations::lemma_ld16_keeps_flags(c, Operand16::IndImm, Operand16::Reg(Reg16::SP));
    } else if op == 0x0A {
        operations::lemma_ld_keeps_flags(c, Operand8::Reg(Reg8::A), Operand8::Ind(Reg16::BC));
    } else if op == 0x0B {
        operations::lemma_dec16_keeps_flags(c, Reg16::BC);
    } else if op == 0x0E {
        operations::lemma_ld_keeps_flags(c, Operand8::Reg(Reg8::C), Operand8::Imm);
    }
}

proof fn lemma_unprefixed_preserves_flags_x10(c: CpuV, op: u8)
    requires
        spec_unprefixed_keeps_flags(op),
        0x10 <= op < 0x1F + 1,
    ensures
        spec_execute_unprefixed_x10(c, op).0.registers.f == c.registers.f,
{
    reveal(spec_execute_unprefixed_x10);
    if op == 0x10 {
    } else if op == 0x11 {
        operations::lemma_ld16_keeps_flags(c, Operand16::Reg(Reg16::DE), Operand16::Imm);
    } else if op == 0x12 {
        operations::lemma_ld_keeps_flags(c, Operand8::Ind(Reg16::DE), Operand8::Reg(Reg8::A));
    } else if op == 0x13 {
        operations::lemma_inc16_keeps_flags(c, Reg16::DE);
    } else if op == 0x16 {
        operations::lemma_ld_keeps_flags(c, Operand8::Reg(Reg8::D), Operand8::Imm);
    } else if op == 0x18 {
        operations::lemma_jr_keeps_flags(c, Condition::Unconditional, Operand8::Imm);
    } else if op == 0x1A {
        operations::lemma_ld_keeps_flags(c, Operand8::Reg(Reg8::A), Operand8::Ind(Reg16::DE));
    } else if op == 0x1B {
        operations::lemma_dec16_keeps_flags(c, Reg16::DE);
    } else if op == 0x1E {
        operations::lemma_ld_keeps_flags(c, Operand8::Reg(Reg8::E), Operand8::Imm);
    }
}

proof fn lemma_unprefixed_preserves_flags_x20(c: CpuV, op: u8)
    requires
        spec_unprefixed_keeps_flags(op),
        0x20 <= op < 0x2F + 1,
    ensures
        spec_execute_unprefixed_x20(c, op).0.registers.f == c.registers.f,
{
    reveal(spec_execute_unprefixed_x20);
    if op == 0x20 {
        operations::lemma_jr_keeps_flags(c, Condition::NotZero, Operand8::Imm);
    } else if op == 0x21 {
        operations::lemma_ld16_keeps_flags(c, Operand16::Reg(Reg16::HL), Operand16::Imm);
    } else if op == 0x22 {
        operations::lemma_ldi_keeps_flags(c, Operand8::Ind(Reg16::HL), Operand8::Reg(Reg8::A), Reg16::HL);
    } else if op == 0x23 {
        operations::lemma_inc16_keeps_flags(c, Reg16::HL);
    } else if op == 0x26 {
        operations::lemma_ld_keeps_flags(c, Operand8::Reg(Reg8::H), Operand8::Imm);
    } else if op == 0x28 {
        operations::lemma_jr_keeps_flags(c, Condition::Zero, Operand8::Imm);
    } else if op == 0x2A {
        operations::lemma_ldi_keeps_flags(c, Operand8::Reg(Reg8::A), Operand8::Ind(Reg16::HL), Reg16::HL);
    } else if op == 0x2B {
        operations::lemma_dec16_keeps_flags(c, Reg16::HL);
    } else if op == 0x2E {
        operations::lemma_ld_keeps_flags(c, Operand8::Reg(Reg8::L), Operand8::Imm);
    }
}

proof fn lemma_unprefixed_preserves_flags_x30(c: CpuV, op: u8)
    requires
        spec_unprefixed_keeps_flags(op),
        0x30 <= op < 0x3F + 1,
    ensures
        spec_execute_unprefixed_x30(c, op).0.registers.f == c.registers.f,
{
    reveal(spec_execute_unprefixed_x30);
    if op == 0x30 {
        operations::lemma_jr_keeps_flags(c, Condition::NotCarry, Operand8::Imm);
    } else if op == 0x31 {
        operations::lemma_ld16_keeps_flags(c, Operand16::Reg(Reg16::SP), Operand16::Imm);
    } else if op == 0x32 {
        operations::lemma_ldd_keeps_flags(c, Operand8::Ind(Reg16::HL), Operand8::Reg(Reg8::A), Reg16::HL);
    } else if op == 0x33 {
        operations::lemma_inc16_keeps_flags(c, Reg16::SP);
    } else if op == 0x36 {
        operations::lemma_ld_keeps_flags(c, Operand8::Ind(Reg16::HL), Operand8::Imm);
    } else if op == 0x38 {
        operations::lemma_jr_keeps_flags(c, Condition::Carry, Operand8::Imm);
    } else if op == 0x3A {
        operations::lemma_ldd_keeps_flags(c, Operand8::Reg(Reg8::A), Operand8::Ind(Reg16::HL), Reg16::HL);
    } else if op == 0x3B {
        operations::lemma_dec16_keeps_flags(c, Reg16::SP);
    } else if op == 0x3E {
        operations::lemma_ld_keeps_flags(c, Operand8::Reg(Reg8::A), Operand8::Imm);
    }
}

proof fn lemma_unprefixed_preserves_flags_x40(c: CpuV, op: u8)
    requires
        spec_unprefixed_keeps_flags(op),
        0x40 <= op < 0x4F + 1,
    ensures
        spec_execute_unprefixed_x40(c, op).0.registers.f == c.registers.f,
{
    reveal(spec_execute_unprefixed_x40);
    if op == 0x40 {
        operations::lemma_ld_keeps_flags(c, Operand8::Reg(Reg8::B), Operand8::Reg(Reg8::B));
    } else if op == 0x41 {
        operations::lemma_ld_keeps_flags(c, Operand8::Reg(Reg8::B), Operand8::Reg(Reg8::C));
    } else if op == 0x42 {
        operations::lemma_ld_keeps_flags(c, Operand8::Reg(Reg8::B), Operand8::Reg(Reg8::D));
    } else if op == 0x43 {
        operations::lemma_ld_keeps_flags(c, Operand8::Reg(Reg8::B), Operand8::Reg(Reg8::E));
    } else if op == 0x44 {
        operations::lemma_ld_keeps_flags(c, Operand8::Reg(Reg8::B), Operand8::Reg(Reg8::H));
    } else if op == 0x45 {
        operations::lemma_ld_keeps_flags(c, Operand8::Reg(Reg8::B), Operand8::Reg(Reg8::L));
    } else if op == 0x46 {
        operations::lemma_ld_keeps_flags(c, Operand8::Reg(Reg8::B), Operand8::Ind(Reg16::HL));
    } else if op == 0x47 {
        operations::lemma_ld_keeps_flags(c, Operand8::Reg(Reg8::B), Operand8::Reg(Reg8::A));
    } else if op == 0x48 {
        operations::lemma_ld_keeps_flags(c, Operand8::Reg(Reg8::C), Operand8::Reg(Reg8::B));
    } else if op == 0x49 {
        operations::lemma_ld_keeps_flags(c, Operand8::Reg(Reg8::C), Operand8::Reg(Reg8::C));
    } else if op == 0x4A {
        operations::lemma_ld_keeps_flags(c, Operand8::Reg(Reg8::C), Operand8::Reg(Reg8::D));
    } else if op == 0x4B {
        operations::lemma_ld_keeps_flags(c, Operand8::Reg(Reg8::C), Operand8::Reg(Reg8::E));
    } else if op == 0x4C {
        operations::lemma_ld_keeps_flags(c, Operand8::Reg(Reg8::C), Operand8::Reg(Reg8::H));
    } else if op == 0x4D {
        operations::lemma_ld_keeps_flags(c, Operand8::Reg(Reg8::C), Operand8::Reg(Reg8::L));
    } else if op == 0x4E {
        operations::lemma_ld_keeps_flags(c, Operand8::Reg(Reg8::C), Operand8::Ind(Reg16::HL));
    } else if op == 0x4F {
        operations::lemma_ld_keeps_flags(c, Operand8::Reg(Reg8::C), Operand8::Reg(Reg8::A));
    }
}

proof fn lemma_unprefixed_preserves_flags_x50(c: CpuV, op: u8)
    requires
        spec_unprefixed_keeps_flags(op),
        0x50 <= op < 0x5F + 1,
    ensures
        spec_execute_unprefixed_x50(c, op).0.registers.f == c.registers.f,
{
    reveal(spec_execute_unprefixed_x50);
    if op == 0x50 {
        operations::lemma_ld_keeps_flags(c, Operand8::Reg(Reg8::D), Operand8::Reg(Reg8::B));
    } else if op == 0x51 {
        operations::lemma_ld_keeps_flags(c, Operand8::Reg(Reg8::D), Operand8::Reg(Reg8::C));
    } else if op == 0x52 {
        operations::lemma_ld_keeps_flags(c, Operand8::Reg(Reg8::D), Operand8::Reg(Reg8::D));
    } else if op == 0x53 {
        operations::lemma_ld_keeps_flags(c, Operand8::Reg(Reg8::D), Operand8::Reg(Reg8::E));
    } else if op == 0x54 {
        operations::lemma_ld_keeps_flags(c, Operand8::Reg(Reg8::D), Operand8::Reg(Reg8::H));
    } else if op == 0x55 {
        operations::lemma_ld_keeps_flags(c, Operand8::Reg(Reg8::D), Operand8::Reg(Reg8::L));
    } else if op == 0x56 {
        operations::lemma_ld_keeps_flags(c, Operand8::Reg(Reg8::D), Operand8::Ind(Reg16::HL));
    } else if op == 0x57 {
        operations::lemma_ld_keeps_flags(c, Operand8::Reg(Reg8::D), Operand8::Reg(Reg8::A));
    } else if op == 0x58 {
        operations::lemma_ld_keeps_flags(c, Operand8::Reg(Reg8::E), Operand8::Reg(Reg8::B));
    } else if op == 0x59 {
        operations::lemma_ld_keeps_flags(c, Operand8::Reg(Reg8::E), Operand8::Reg(Reg8::C));
    } else if op == 0x5A {
        operations::lemma_ld_keeps_flags(c, Operand8::Reg(Reg8::E), Operand8::Reg(Reg8::D));
    } else if op == 0x5B {
        operations::lemma_ld_keeps_flags(c, Operand8::Reg(Reg8::E), Operand8::Reg(Reg8::E));
    } else if op == 0x5C {
        operations::lemma_ld_keeps_flags(c, Operand8::Reg(Reg8::E), Operand8::Reg(Reg8::H));
    } else if op == 0x5D {
        operations::lemma_ld_keeps_flags(c, Operand8::Reg(Reg8::E), Operand8::Reg(Reg8::L));
    } else if op == 0x5E {
        operations::lemma_ld_keeps_flags(c, Operand8::Reg(Reg8::E), Operand8::Ind(Reg16::HL));
    } else if op == 0x5F {
        operations::lemma_ld_keeps_flags(c, Operand8::Reg(Reg8::E), Operand8::Reg(Reg8::A));
    }
}

proof fn lemma_unprefixed_preserves_flags_x60(c: CpuV, op: u8)
    requires
        spec_unprefixed_keeps_flags(op),
        0x60 <= op < 0x6F + 1,
    ensures
        spec_execute_unprefixed_x60(c, op).0.registers.f == c.registers.f,
{
    reveal(spec_execute_unprefixed_x60);
    if op == 0x60 {
        operations::lemma_ld_keeps_flags(c, Operand8::Reg(Reg8::H), Operand8::Reg(Reg8::B));
    } else if op == 0x61 {
        operations::lemma_ld_keeps_flags(c, Operand8::Reg(Reg8::H), Operand8::Reg(Reg8::C));
    } else if op == 0x62 {
        operations::lemma_ld_keeps_flags(c, Operand8::Reg(Reg8::H), Operand8::Reg(Reg8::D));
    } else if op == 0x63 {
        operations::lemma_ld_keeps_flags(c, Operand8::Reg(Reg8::H), Operand8::Reg(Reg8::E));
    } else if op == 0x64 {
        operations::lemma_ld_keeps_flags(c, Operand8::Reg(Reg8::H), Operand8::Reg(Reg8::H));
    } else if op == 0x65 {
        operations::lemma_ld_keeps_flags(c, Operand8::Reg(Reg8::H), Operand8::Reg(Reg8::L));
    } else if op == 0x66 {
        operations::lemma_ld_keeps_flags(c, Operand8::Reg(Reg8::H), Operand8::Ind(Reg16::HL));
    } else if op == 0x67 {
        operations::lemma_ld_keeps_flags(c, Operand8::Reg(Reg8::H), Operand8::Reg(Reg8::A));
    } else if op == 0x68 {
        operations::lemma_ld_keeps_flags(c, Operand8::Reg(Reg8::L), Operand8::Reg(Reg8::B));
    } else if op == 0x69 {
        operations::lemma_ld_keeps_flags(c, Operand8::Reg(Reg8::L), Operand8::Reg(Reg8::C));
    } else if op == 0x6A {
        operations::lemma_ld_keeps_flags(c, Operand8::Reg(Reg8::L), Operand8::Reg(Reg8::D));
    } else if op == 0x6B {
        operations::lemma_ld_keeps_flags(c, Operand8::Reg(Reg8::L), Operand8::Reg(Reg8::E));
    } else if op == 0x6C {
        operations::lemma_ld_keeps_flags(c, Operand8::Reg(Reg8::L), Operand8::Reg(Reg8::H));
    } else if op == 0x6D {
        operations::lemma_ld_keeps_flags(c, Operand8::Reg(Reg8::L), Operand8::Reg(Reg8::L));
    } else if op == 0x6E {
        operations::lemma_ld_keeps_flags(c, Operand8::Reg(Reg8::L), Operand8::Ind(Reg16::HL));
    } else if op == 0x6F {
        operations::lemma_ld_keeps_flags(c, Operand8::Reg(Reg8::L), Operand8::Reg(Reg8::A));
    }
}

proof fn lemma_unprefixed_preserves_flags_x70(c: CpuV, op: u8)
    requires
        spec_unprefixed_keeps_flags(op),
        0x70 <= op < 0x7F + 1,
    ensures
        spec_execute_unprefixed_x70(c, op).0.registers.f == c.registers.f,
{
    reveal(spec_execute_unprefixed_x70);
    if op == 0x70 {
        operations::lemma_ld_keeps_flags(c, Operand8::Ind(Reg16::HL), Operand8::Reg(Reg8::B));
    } else if op == 0x71 {
        operations::lemma_ld_keeps_flags(c, Operand8::Ind(Reg16::HL), Operand8::Reg(Reg8::C));
    } else if op == 0x72 {
        operations::lemma_ld_keeps_flags(c, Operand8::Ind(Reg16::HL), Operand8::Reg(Reg8::D));
    } else if op == 0x73 {
        operations::lemma_ld_keeps_flags(c, Operand8::Ind(Reg16::HL), Operand8::Reg(Reg8::E));
    } else if op == 0x74 {
        operations::lemma_ld_keeps_flags(c, Operand8::Ind(Reg16::HL), Operand8::Reg(Reg8::H));
    } else if op == 0x75 {
        operations::lemma_ld_keeps_flags(c, Operand8::Ind(Reg16::HL), Operand8::Reg(Reg8::L));
    } else if op == 0x76 {
        reveal(crate::operations::spec_halt);
    } else if op == 0x77 {
        operations::lemma_ld_keeps_flags(c, Operand8::Ind(Reg16::HL), Operand8::Reg(Reg8::A));
    } else if op == 0x78 {
        operations::lemma_ld_keeps_flags(c, Operand8::Reg(Reg8::A), Operand8::Reg(Reg8::B));
    } else if op == 0x79 {
        operations::lemma_ld_keeps_flags(c, Operand8::Reg(Reg8::A), Operand8::Reg(Reg8::C));
    } else if op == 0x7A {
        operations::lemma_ld_keeps_flags(c, Operand8::Reg(Reg8::A), Operand8::Reg(Reg8::D));
    } else if op == 0x7B {
        operations::lemma_ld_keeps_flags(c, Operand8::Reg(Reg8::A), Operand8::Reg(Reg8::E));
    } else if op == 0x7C {
        operations::lemma_ld_keeps_flags(c, Operand8::Reg(Reg8::A), Operand8::Reg(Reg8::H));
    } else if op == 0x7D {
        operations::lemma_ld_keeps_flags(c, Operand8::Reg(Reg8::A), Operand8::Reg(Reg8::L));
    } else if op == 0x7E {
        operations::lemma_ld_keeps_flags(c, Operand8::Reg(Reg8::A), Operand8::Ind(Reg16::HL));
    } else if op == 0x7F {
        operations::lemma_ld_keeps_flags(c, Operand8::Reg(Reg8::A), Operand8::Reg(Reg8::A));
    }
}

proof fn lemma_unprefixed_preserves_flags_x80(c: CpuV, op: u8)
    requires
        spec_unprefixed_keeps_flags(op),
        0x80 <= op < 0x8F + 1,
    ensures
        spec_execute_unprefixed_x80(c, op).0.registers.f == c.registers.f,
{
    reveal(spec_execute_unprefixed_x80);
}

proof fn lemma_unprefixed_preserves_flags_x90(c: CpuV, op: u8)
    requires
        spec_unprefixed_keeps_flags(op),
        0x90 <= op < 0x9F + 1,
    ensures
        spec_execute_unprefixed_x90(c, op).0.registers.f == c.registers.f,
{
    reveal(spec_execute_unprefixed_x90);
}

proof fn lemma_unprefixed_preserves_flags_xA0(c: CpuV, op: u8)
    requires
        spec_unprefixed_keeps_flags(op),
        0xA0 <= op < 0xAF + 1,
    ensures
        spec_execute_unprefixed_xA0(c, op).0.registers.f == c.registers.f,
{
    reveal(spec_execute_unprefixed_xA0);
}

proof fn lemma_unprefixed_preserves_flags_xB0(c: CpuV, op: u8)
    requires
        spec_unprefixed_keeps_flags(op),
        0xB0 <= op < 0xBF + 1,
    ensures
        spec_execute_unprefixed_xB0(c, op).0.registers.f == c.registers.f,
{
    reveal(spec_execute_unprefixed_xB0);
}

proof fn lemma_unprefixed_preserves_flags_xC0(c: CpuV, op: u8)
    requires
        spec_unprefixed_keeps_flags(op),
        0xC0 <= op < 0xCF + 1,
    ensures
        spec_execute_unprefixed_xC0(c, op).0.registers.f == c.registers.f,
{
    reveal(spec_execute_unprefixed_xC0);
    if op == 0xC0 {
        operations::lemma_ret_keeps_flags(c, Condition::NotZero);
    } else if op == 0xC1 {
        operations::lemma_pop_keeps_flags(c, Operand16::Reg(Reg16::BC));
    } else if op == 0xC2 {
        operations::lemma_jp_keeps_flags(c, Condition::NotZero, Operand16::Imm);
    } else if op == 0xC3 {
        operations::lemma_jp_keeps_flags(c, Condition::Unconditional, Operand16::Imm);
    } else if op == 0xC4 {
        operations::lemma_call_keeps_flags(c, Condition::NotZero, Operand16::Imm);
    } else if op == 0xC5 {
        operations::lemma_push_keeps_flags(c, Operand16::Reg(Reg16::BC));
    } else if op == 0xC7 {
        operations::lemma_rst_keeps_flags(c, 0);
    } else if op == 0xC8 {
        operations::lemma_ret_keeps_flags(c, Condition::Zero);
    } else if op == 0xC9 {
        operations::lemma_ret_keeps_flags(c, Condition::Unconditional);
    } else if op == 0xCA {
        operations::lemma_jp_keeps_flags(c, Condition::Zero, Operand16::Imm);
    } else if op == 0xCB {
    } else if op == 0xCC {
        operations::lemma_call_keeps_flags(c, Condition::Zero, Operand16::Imm);
    } else if op == 0xCD {
        operations::lemma_call_keeps_flags(c, Condition::Unconditional, Operand16::Imm);
    } else if op == 0xCF {
        operations::lemma_rst_keeps_flags(c, 8);
    }
}

proof fn lemma_unprefixed_preserves_flags_xD0(c: CpuV, op: u8)
    requires
        spec_unprefixed_keeps_flags(op),
        0xD0 <= op < 0xDF + 1,
    ensures
        spec_execute_unprefixed_xD0(c, op).0.registers.f == c.registers.f,
{
    reveal(spec_execute_unprefixed_xD0);
    if op == 0xD0 {
        operations::lemma_ret_keeps_flags(c, Condition::NotCarry);
    } else if op == 0xD1 {
        operations::lemma_pop_keeps_flags(c, Operand16::Reg(Reg16::DE));
    } else if op == 0xD2 {
        operations::lemma_jp_keeps_flags(c, Condition::NotCarry, Operand16::Imm);
    } else if op == 0xD3 {
    } else if op == 0xD4 {
        operations::lemma_call_keeps_flags(c, Condition::NotCarry, Operand16::Imm);
    } else if op == 0xD5 {
        operations::lemma_push_keeps_flags(c, Operand16::Reg(Reg16::DE));
    } else if op == 0xD7 {
        operations::lemma_rst_keeps_flags(c, 16);
    } else if op == 0xD8 {
        operations::lemma_ret_keeps_flags(c, Condition::Carry);
    } else if op == 0xD9 {
        operations::lemma_reti_keeps_flags(c);
    } else if op == 0xDA {
        operations::lemma_jp_keeps_flags(c, Condition::Carry, Operand16::Imm);
    } else if op == 0xDB {
    } else if op == 0xDC {
        operations::lemma_call_keeps_flags(c, Condition::Carry, Operand16::Imm);
    } else if op == 0xDD {
    } else if op == 0xDF {
        operations::lemma_rst_keeps_flags(c, 24);
    }
}

proof fn lemma_unprefixed_preserves_flags_xE0(c: CpuV, op: u8)
    requires
        spec_unprefixed_keeps_flags(op),
        0xE0 <= op < 0xEF + 1,
    ensures
        spec_execute_unprefixed_xE0(c, op).0.registers.f == c.registers.f,
{
    reveal(spec_execute_unprefixed_xE0);
    if op == 0xE0 {
        operations::lemma_ld_keeps_flags(c, Operand8::ZeroPageImm, Operand8::Reg(Reg8::A));
    } else if op == 0xE1 {
        operations::lemma_pop_keeps_flags(c, Operand16::Reg(Reg16::HL));
    } else if op == 0xE2 {
        operations::lemma_ld_keeps_flags(c, Operand8::ZeroPage(Reg8::C), Operand8::Reg(Reg8::A));
    } else if op == 0xE3 {
    } else if op == 0xE4 {
    } else if op == 0xE5 {
        operations::lemma_push_keeps_flags(c, Operand16::Reg(Reg16::HL));
    } else if op == 0xE7 {
        operations::lemma_rst_keeps_flags(c, 32);
    } else if op == 0xE9 {
        operations::lemma_jp_keeps_flags(c, Condition::Unconditional, Operand16::Reg(Reg16::HL));
    } else if op == 0xEA {
        operations::lemma_ld_keeps_flags(c, Operand8::IndImm, Operand8::Reg(Reg8::A));
    } else if op == 0xEB {
    } else if op == 0xEC {
    } else if op == 0xED {
    } else if op == 0xEF {
        operations::lemma_rst_keeps_flags(c, 40);
    }
}

proof fn lemma_unprefixed_preserves_flags_xF0(c: CpuV, op: u8)
    requires
        spec_unprefixed_keeps_flags(op),
        0xF0 <= op < 0xFF + 1,
    ensures
        spec_execute_unprefixed_xF0(c, op).0.registers.f == c.registers.f,
{
    reveal(spec_execute_unprefixed_xF0);
    if op == 0xF0 {
        operations::lemma_ld_keeps_flags(c, Operand8::Reg(Reg8::A), Operand8::ZeroPageImm);
    } else if op == 0xF2 {
        operations::lemma_ld_keeps_flags(c, Operand8::Reg(Reg8::A), Operand8::ZeroPage(Reg8::C));
    } else if op == 0xF3 {
        reveal(crate::operations::spec_di);
    } else if op == 0xF4 {
    } else if op == 0xF5 {
        operations::lemma_push_keeps_flags(c, Operand16::Reg(Reg16::AF));
    } else if op == 0xF7 {
        operations::lemma_rst_keeps_flags(c, 48);
    } else if op == 0xF9 {
        operations::lemma_ld16_keeps_flags(c, Operand16::Reg(Reg16::SP), Operand16::Reg(Reg16::HL));
    } else if op == 0xFA {
        operations::lemma_ld_keeps_flags(c, Operand8::Reg(Reg8::A), Operand8::IndImm);
    } else if op == 0xFB {
        reveal(crate::operations::spec_ei);
    } else if op == 0xFC {
    } else if op == 0xFD {
    } else if op == 0xFF {
        operations::lemma_rst_keeps_flags(c, 56);
    }
}

pub proof fn lemma_unprefixed_preserves_flags(c: CpuV, op: u8)
    requires
        spec_unprefixed_keeps_flags(op),
    ensures
        spec_execute_unprefixed(c, op).0.registers.f == c.registers.f,
{
    if op < 0x10 {
        lemma_unprefixed_preserves_flags_x00(c, op);
    } else if op < 0x20 {
        lemma_unprefixed_preserves_flags_x10(c, op);
    } else if op < 0x30 {
        lemma_unprefixed_preserves_flags_x20(c, op);
    } else if op < 0x40 {
        lemma_unprefixed_preserves_flags_x30(c, op);
    } else if op < 0x50 {
        lemma_unprefixed_preserves_flags_x40(c, op);
    } else if op < 0x60 {
        lemma_unprefixed_preserves_flags_x50(c, op);
    } else if op < 0x70 {
        lemma_unprefixed_preserves_flags_x60(c, op);
    } else if op < 0x80 {
        lemma_unprefixed_preserves_flags_x70(c, op);
    } else if op < 0x90 {
        lemma_unprefixed_preserves_flags_x80(c, op);
    } else if op < 0xA0 {
        lemma_unprefixed_preserves_flags_x90(c, op);
    } else if op < 0xB0 {
        lemma_unprefixed_preserves_flags_xA0(c, op);
    } else if op < 0xC0 {
        lemma_unprefixed_preserves_flags_xB0(c, op);
    } else if op < 0xD0 {
        lemma_unprefixed_preserves_flags_xC0(c, op);
    } else if op < 0xE0 {
        lemma_unprefixed_preserves_flags_xD0(c, op);
    } else if op < 0xF0 {
        lemma_unprefixed_preserves_flags_xE0(c, op);
    } else {
        lemma_unprefixed_preserves_flags_xF0(c, op);
    }
}

/// For every CB-prefixed opcode that does not write flags (RES and SET), F
/// is bitwise unchanged across its execution.
proof fn lemma_prefixed_preserves_flags_x00(c: CpuV, op: u8)
    requires
        spec_prefixed_keeps_flags(op),
        0x00 <= op < 0x0F + 1,
    ensures
        spec_execute_prefixed_x00(c, op).0.registers.f == c.registers.f,
{
    reveal(spec_execute_prefixed_x00);
}

proof fn lemma_prefixed_preserves_flags_x10(c: CpuV, op: u8)
    requires
        spec_prefixed_keeps_flags(op),
        0x10 <= op < 0x1F + 1,
    ensures
        spec_execute_prefixed_x10(c, op).0.registers.f == c.registers.f,
{
    reveal(spec_execute_prefixed_x10);
}

proof fn lemma_prefixed_preserves_flags_x20(c: CpuV, op: u8)
    requires
        spec_prefixed_keeps_flags(op),
        0x20 <= op < 0x2F + 1,
    ensures
        spec_execute_prefixed_x20(c, op).0.registers.f == c.registers.f,
{
    reveal(spec_execute_prefixed_x20);
}

proof fn lemma_prefixed_preserves_flags_x30(c: CpuV, op: u8)
    requires
        spec_prefixed_keeps_flags(op),
        0x30 <= op < 0x3F + 1,
    ensures
        spec_execute_prefixed_x30(c, op).0.registers.f == c.registers.f,
{
    reveal(spec_execute_prefixed_x30);
}

proof fn lemma_prefixed_preserves_flags_x40(c: CpuV, op: u8)
    requires
        spec_prefixed_keeps_flags(op),
        0x40 <= op < 0x4F + 1,
    ensures
        spec_execute_prefixed_x40(c, op).0.registers.f == c.registers.f,
{
    reveal(spec_execute_prefixed_x40);
}

proof fn lemma_prefixed_preserves_flags_x50(c: CpuV, op: u8)
    requires
        spec_prefixed_keeps_flags(op),
        0x50 <= op < 0x5F + 1,
    ensures
        spec_execute_prefixed_x50(c, op).0.registers.f == c.registers.f,
{
    reveal(spec_execute_prefixed_x50);
}

proof fn lemma_prefixed_preserves_flags_x60(c: CpuV, op: u8)
    requires
        spec_prefixed_keeps_flags(op),
        0x60 <= op < 0x6F + 1,
    ensures
        spec_execute_prefixed_x60(c, op).0.registers.f == c.registers.f,
{
    reveal(spec_execute_prefixed_x60);
}

proof fn lemma_prefixed_preserves_flags_x70(c: CpuV, op: u8)
    requires
        spec_prefixed_keeps_flags(op),
        0x70 <= op < 0x7F + 1,
    ensures
        spec_execute_prefixed_x70(c, op).0.registers.f == c.registers.f,
{
    reveal(spec_execute_prefixed_x70);
}

proof fn lemma_prefixed_preserves_flags_x80(c: CpuV, op: u8)
    requires
        spec_prefixed_keeps_flags(op),
        0x80 <= op < 0x8F + 1,
    ensures
        spec_execute_prefixed_x80(c, op).0.registers.f == c.registers.f,
{
    reveal(spec_execute_prefixed_x80);
    if op == 0x80 {
        operations::lemma_res_keeps_flags(c, 0, Operand8::Reg(Reg8::B));
    } else if op == 0x81 {
        operations::lemma_res_keeps_flags(c, 0, Operand8::Reg(Reg8::C));
    } else if op == 0x82 {
        operations::lemma_res_keeps_flags(c, 0, Operand8::Reg(Reg8::D));
    } else if op == 0x83 {
        operations::lemma_res_keeps_flags(c, 0, Operand8::Reg(Reg8::E));
    } else if op == 0x84 {
        operations::lemma_res_keeps_flags(c, 0, Operand8::Reg(Reg8::H));
    } else if op == 0x85 {
        operations::lemma_res_keeps_flags(c, 0, Operand8::Reg(Reg8::L));
    } else if op == 0x86 {
        operations::lemma_res_keeps_flags(c, 0, Operand8::Ind(Reg16::HL));
    } else if op == 0x87 {
        operations::lemma_res_keeps_flags(c, 0, Operand8::Reg(Reg8::A));
    } else if op == 0x88 {
        operations::lemma_res_keeps_flags(c, 1, Operand8::Reg(Reg8::B));
    } else if op == 0x89 {
        operations::lemma_res_keeps_flags(c, 1, Operand8::Reg(Reg8::C));
    } else if op == 0x8A {
        operations::lemma_res_keeps_flags(c, 1, Operand8::Reg(Reg8::D));
    } else if op == 0x8B {
        operations::lemma_res_keeps_flags(c, 1, Operand8::Reg(Reg8::E));
    } else if op == 0x8C {
        operations::lemma_res_keeps_flags(c, 1, Operand8::Reg(Reg8::H));
    } else if op == 0x8D {
        operations::lemma_res_keeps_flags(c, 1, Operand8::Reg(Reg8::L));
    } else if op == 0x8E {
        operations::lemma_res_keeps_flags(c, 1, Operand8::Ind(Reg16::HL));
    } else if op == 0x8F {
        operations::lemma_res_keeps_flags(c, 1, Operand8::Reg(Reg8::A));
    }
}

proof fn lemma_prefixed_preserves_flags_x90(c: CpuV, op: u8)
    requires
        spec_prefixed_keeps_flags(op),
        0x90 <= op < 0x9F + 1,
    ensures
        spec_execute_prefixed_x90(c, op).0.registers.f == c.registers.f,
{
    reveal(spec_execute_prefixed_x90);
    if op == 0x90 {
        operations::lemma_res_keeps_flags(c, 2, Operand8::Reg(Reg8::B));
    } else if op == 0x91 {
        operations::lemma_res_keeps_flags(c, 2, Operand8::Reg(Reg8::C));
    } else if op == 0x92 {
        operations::lemma_res_keeps_flags(c, 2, Operand8::Reg(Reg8::D));
    } else if op == 0x93 {
        operations::lemma_res_keeps_flags(c, 2, Operand8::Reg(Reg8::E));
    } else if op == 0x94 {
        operations::lemma_res_keeps_flags(c, 2, Operand8::Reg(Reg8::H));
    } else if op == 0x95 {
        operations::lemma_res_keeps_flags(c, 2, Operand8::Reg(Reg8::L));
    } else if op == 0x96 {
        operations::lemma_res_keeps_flags(c, 2, Operand8::Ind(Reg16::HL));
    } else if op == 0x97 {
        operations::lemma_res_keeps_flags(c, 2, Operand8::Reg(Reg8::A));
    } else if op == 0x98 {
        operations::lemma_res_keeps_flags(c, 3, Operand8::Reg(Reg8::B));
    } else if op == 0x99 {
        operations::lemma_res_keeps_flags(c, 3, Operand8::Reg(Reg8::C));
    } else if op == 0x9A {
        operations::lemma_res_keeps_flags(c, 3, Operand8::Reg(Reg8::D));
    } else if op == 0x9B {
        operations::lemma_res_keeps_flags(c, 3, Operand8::Reg(Reg8::E));
    } else if op == 0x9C {
        operations::lemma_res_keeps_flags(c, 3, Operand8::Reg(Reg8::H));
    } else if op == 0x9D {
        operations::lemma_res_keeps_flags(c, 3, Operand8::Reg(Reg8::L));
    } else if op == 0x9E {
        operations::lemma_res_keeps_flags(c, 3, Operand8::Ind(Reg16::HL));
    } else if op == 0x9F {
        operations::lemma_res_keeps_flags(c, 3, Operand8::Reg(Reg8::A));
    }
}

proof fn lemma_prefixed_preserves_flags_xA0(c: CpuV, op: u8)
    requires
        spec_prefixed_keeps_flags(op),
        0xA0 <= op < 0xAF + 1,
    ensures
        spec_execute_prefixed_xA0(c, op).0.registers.f == c.registers.f,
{
    reveal(spec_execute_prefixed_xA0);
    if op == 0xA0 {
        operations::lemma_res_keeps_flags(c, 4, Operand8::Reg(Reg8::B));
    } else if op == 0xA1 {
        operations::lemma_res_keeps_flags(c, 4, Operand8::Reg(Reg8::C));
    } else if op == 0xA2 {
        operations::lemma_res_keeps_flags(c, 4, Operand8::Reg(Reg8::D));
    } else if op == 0xA3 {
        operations::lemma_res_keeps_flags(c, 4, Operand8::Reg(Reg8::E));
    } else if op == 0xA4 {
        operations::lemma_res_keeps_flags(c, 4, Operand8::Reg(Reg8::H));
    } else if op == 0xA5 {
        operations::lemma_res_keeps_flags(c, 4, Operand8::Reg(Reg8::L));
    } else if op == 0xA6 {
        operations::lemma_res_keeps_flags(c, 4, Operand8::Ind(Reg16::HL));
    } else if op == 0xA7 {
        operations::lemma_res_keeps_flags(c, 4, Operand8::Reg(Reg8::A));
    } else if op == 0xA8 {
        operations::lemma_res_keeps_flags(c, 5, Operand8::Reg(Reg8::B));
    } else if op == 0xA9 {
        operations::lemma_res_keeps_flags(c, 5, Operand8::Reg(Reg8::C));
    } else if op == 0xAA {
        operations::lemma_res_keeps_flags(c, 5, Operand8::Reg(Reg8::D));
    } else if op == 0xAB {
        operations::lemma_res_keeps_flags(c, 5, Operand8::Reg(Reg8::E));
    } else if op == 0xAC {
        operations::lemma_res_keeps_flags(c, 5, Operand8::Reg(Reg8::H));
    } else if op == 0xAD {
        operations::lemma_res_keeps_flags(c, 5, Operand8::Reg(Reg8::L));
    } else if op == 0xAE {
        operations::lemma_res_keeps_flags(c, 5, Operand8::Ind(Reg16::HL));
    } else if op == 0xAF {
        operations::lemma_res_keeps_flags(c, 5, Operand8::Reg(Reg8::A));
    }
}

proof fn lemma_prefixed_preserves_flags_xB0(c: CpuV, op: u8)
    requires
        spec_prefixed_keeps_flags(op),
        0xB0 <= op < 0xBF + 1,
    ensures
        spec_execute_prefixed_xB0(c, op).0.registers.f == c.registers.f,
{
    reveal(spec_execute_prefixed_xB0);
    if op == 0xB0 {
        operations::lemma_res_keeps_flags(c, 6, Operand8::Reg(Reg8::B));
    } else if op == 0xB1 {
        operations::lemma_res_keeps_flags(c, 6, Operand8::Reg(Reg8::C));
    } else if op == 0xB2 {
        operations::lemma_res_keeps_flags(c, 6, Operand8::Reg(Reg8::D));
    } else if op == 0xB3 {
        operations::lemma_res_keeps_flags(c, 6, Operand8::Reg(Reg8::E));
    } else if op == 0xB4 {
        operations::lemma_res_keeps_flags(c, 6, Operand8::Reg(Reg8::H));
    } else if op == 0xB5 {
        operations::lemma_res_keeps_flags(c, 6, Operand8::Reg(Reg8::L));
    } else if op == 0xB6 {
        operations::lemma_res_keeps_flags(c, 6, Operand8::Ind(Reg16::HL));
    } else if op == 0xB7 {
        operations::lemma_res_keeps_flags(c, 6, Operand8::Reg(Reg8::A));
    } else if op == 0xB8 {
        operations::lemma_res_keeps_flags(c, 7, Operand8::Reg(Reg8::B));
    } else if op == 0xB9 {
        operations::lemma_res_keeps_flags(c, 7, Operand8::Reg(Reg8::C));
    } else if op == 0xBA {
        operations::lemma_res_keeps_flags(c, 7, Operand8::Reg(Reg8::D));
    } else if op == 0xBB {
        operations::lemma_res_keeps_flags(c, 7, Operand8::Reg(Reg8::E));
    } else if op == 0xBC {
        operations::lemma_res_keeps_flags(c, 7, Operand8::Reg(Reg8::H));
    } else if op == 0xBD {
        operations::lemma_res_keeps_flags(c, 7, Operand8::Reg(Reg8::L));
    } else if op == 0xBE {
        operations::lemma_res_keeps_flags(c, 7, Operand8::Ind(Reg16::HL));
    } else if op == 0xBF {
        operations::lemma_res_keeps_flags(c, 7, Operand8::Reg(Reg8::A));
    }
}

proof fn lemma_prefixed_preserves_flags_xC0(c: CpuV, op: u8)
    requires
        spec_prefixed_keeps_flags(op),
        0xC0 <= op < 0xCF + 1,
    ensures
        spec_execute_prefixed_xC0(c, op).0.registers.f == c.registers.f,
{
    reveal(spec_execute_prefixed_xC0);
    if op == 0xC0 {
        operations::lemma_set_keeps_flags(c, 0, Operand8::Reg(Reg8::B));
    } else if op == 0xC1 {
        operations::lemma_set_keeps_flags(c, 0, Operand8::Reg(Reg8::C));
    } else if op == 0xC2 {
        operations::lemma_set_keeps_flags(c, 0, Operand8::Reg(Reg8::D));
    } else if op == 0xC3 {
        operations::lemma_set_keeps_flags(c, 0, Operand8::Reg(Reg8::E));
    } else if op == 0xC4 {
        operations::lemma_set_keeps_flags(c, 0, Operand8::Reg(Reg8::H));
    } else if op == 0xC5 {
        operations::lemma_set_keeps_flags(c, 0, Operand8::Reg(Reg8::L));
    } else if op == 0xC6 {
        operations::lemma_set_keeps_flags(c, 0, Operand8::Ind(Reg16::HL));
    } else if op == 0xC7 {
        operations::lemma_set_keeps_flags(c, 0, Operand8::Reg(Reg8::A));
    } else if op == 0xC8 {
        operations::lemma_set_keeps_flags(c, 1, Operand8::Reg(Reg8::B));
    } else if op == 0xC9 {
        operations::lemma_set_keeps_flags(c, 1, Operand8::Reg(Reg8::C));
    } else if op == 0xCA {
        operations::lemma_set_keeps_flags(c, 1, Operand8::Reg(Reg8::D));
    } else if op == 0xCB {
        operations::lemma_set_keeps_flags(c, 1, Operand8::Reg(Reg8::E));
    } else if op == 0xCC {
        operations::lemma_set_keeps_flags(c, 1, Operand8::Reg(Reg8::H));
    } else if op == 0xCD {
        operations::lemma_set_keeps_flags(c, 1, Operand8::Reg(Reg8::L));
    } else if op == 0xCE {
        operations::lemma_set_keeps_flags(c, 1, Operand8::Ind(Reg16::HL));
    } else if op == 0xCF {
        operations::lemma_set_keeps_flags(c, 1, Operand8::Reg(Reg8::A));
    }
}

proof fn lemma_prefixed_preserves_flags_xD0(c: CpuV, op: u8)
    requires
        spec_prefixed_keeps_flags(op),
        0xD0 <= op < 0xDF + 1,
    ensures
        spec_execute_prefixed_xD0(c, op).0.registers.f == c.registers.f,
{
    reveal(spec_execute_prefixed_xD0);
    if op == 0xD0 {
        operations::lemma_set_keeps_flags(c, 2, Operand8::Reg(Reg8::B));
    } else if op == 0xD1 {
        operations::lemma_set_keeps_flags(c, 2, Operand8::Reg(Reg8::C));
    } else if op == 0xD2 {
        operations::lemma_set_keeps_flags(c, 2, Operand8::Reg(Reg8::D));
    } else if op == 0xD3 {
        operations::lemma_set_keeps_flags(c, 2, Operand8::Reg(Reg8::E));
    } else if op == 0xD4 {
        operations::lemma_set_keeps_flags(c, 2, Operand8::Reg(Reg8::H));
    } else if op == 0xD5 {
        operations::lemma_set_keeps_flags(c, 2, Operand8::Reg(Reg8::L));
    } else if op == 0xD6 {
        operations::lemma_set_keeps_flags(c, 2, Operand8::Ind(Reg16::HL));
    } else if op == 0xD7 {
        operations::lemma_set_keeps_flags(c, 2, Operand8::Reg(Reg8::A));
    } else if op == 0xD8 {
        operations::lemma_set_keeps_flags(c, 3, Operand8::Reg(Reg8::B));
    } else if op == 0xD9 {
        operations::lemma_set_keeps_flags(c, 3, Operand8::Reg(Reg8::C));
    } else if op == 0xDA {
        operations::lemma_set_keeps_flags(c, 3, Operand8::Reg(Reg8::D));
    } else if op == 0xDB {
        operations::lemma_set_keeps_flags(c, 3, Operand8::Reg(Reg8::E));
    } else if op == 0xDC {
        operations::lemma_set_keeps_flags(c, 3, Operand8::Reg(Reg8::H));
    } else if op == 0xDD {
        operations::lemma_set_keeps_flags(c, 3, Operand8::Reg(Reg8::L));
    } else if op == 0xDE {
        operations::lemma_set_keeps_flags(c, 3, Operand8::Ind(Reg16::HL));
    } else if op == 0xDF {
        operations::lemma_set_keeps_flags(c, 3, Operand8::Reg(Reg8::A));
    }
}

proof fn lemma_prefixed_preserves_flags_xE0(c: CpuV, op: u8)
    requires
        spec_prefixed_keeps_flags(op),
        0xE0 <= op < 0xEF + 1,
    ensures
        spec_execute_prefixed_xE0(c, op).0.registers.f == c.registers.f,
{
    reveal(spec_execute_prefixed_xE0);
    if op == 0xE0 {
        operations::lemma_set_keeps_flags(c, 4, Operand8::Reg(Reg8::B));
    } else if op == 0xE1 {
        operations::lemma_set_keeps_flags(c, 4, Operand8::Reg(Reg8::C));
    } else if op == 0xE2 {
        operations::lemma_set_keeps_flags(c, 4, Operand8::Reg(Reg8::D));
    } else if op == 0xE3 {
        operations::lemma_set_keeps_flags(c, 4, Operand8::Reg(Reg8::E));
    } else if op == 0xE4 {
        operations::lemma_set_keeps_flags(c, 4, Operand8::Reg(Reg8::H));
    } else if op == 0xE5 {
        operations::lemma_set_keeps_flags(c, 4, Operand8::Reg(Reg8::L));
    } else if op == 0xE6 {
        operations::lemma_set_keeps_flags(c, 4, Operand8::Ind(Reg16::HL));
    } else if op == 0xE7 {
        operations::lemma_set_keeps_flags(c, 4, Operand8::Reg(Reg8::A));
    } else if op == 0xE8 {
        operations::lemma_set_keeps_flags(c, 5, Operand8::Reg(Reg8::B));
    } else if op == 0xE9 {
        operations::lemma_set_keeps_flags(c, 5, Operand8::Reg(Reg8::C));
    } else if op == 0xEA {
        operations::lemma_set_keeps_flags(c, 5, Operand8::Reg(Reg8::D));
    } else if op == 0xEB {
        operations::lemma_set_keeps_flags(c, 5, Operand8::Reg(Reg8::E));
    } else if op == 0xEC {
        operations::lemma_set_keeps_flags(c, 5, Operand8::Reg(Reg8::H));
    } else if op == 0xED {
        operations::lemma_set_keeps_flags(c, 5, Operand8::Reg(Reg8::L));
    } else if op == 0xEE {
        operations::lemma_set_keeps_flags(c, 5, Operand8::Ind(Reg16::HL));
    } else if op == 0xEF {
        operations::lemma_set_keeps_flags(c, 5, Operand8::Reg(Reg8::A));
    }
}

proof fn lemma_prefixed_preserves_flags_xF0(c: CpuV, op: u8)
    requires
        spec_prefixed_keeps_flags(op),
        0xF0 <= op < 0xFF + 1,
    ensures
        spec_execute_prefixed_xF0(c, op).0.registers.f == c.registers.f,
{
    reveal(spec_execute_prefixed_xF0);
    if op == 0xF0 {
        operations::lemma_set_keeps_flags(c, 6, Operand8::Reg(Reg8::B));
    } else if op == 0xF1 {
        operations::lemma_set_keeps_flags(c, 6, Operand8::Reg(Reg8::C));
    } else if op == 0xF2 {
        operations::lemma_set_keeps_flags(c, 6, Operand8::Reg(Reg8::D));
    } else if op == 0xF3 {
        operations::lemma_set_keeps_flags(c, 6, Operand8::Reg(Reg8::E));
    } else if op == 0xF4 {
        operations::lemma_set_keeps_flags(c, 6, Operand8::Reg(Reg8::H));
    } else if op == 0xF5 {
        operations::lemma_set_keeps_flags(c, 6, Operand8::Reg(Reg8::L));
    } else if op == 0xF6 {
        operations::lemma_set_keeps_flags(c, 6, Operand8::Ind(Reg16::HL));
    } else if op == 0xF7 {
        operations::lemma_set_keeps_flags(c, 6, Operand8::Reg(Reg8::A));
    } else if op == 0xF8 {
        operations::lemma_set_keeps_flags(c, 7, Operand8::Reg(Reg8::B));
    } else if op == 0xF9 {
        operations::lemma_set_keeps_flags(c, 7, Operand8::Reg(Reg8::C));
    } else if op == 0xFA {
        operations::lemma_set_keeps_flags(c, 7, Operand8::Reg(Reg8::D));
    } else if op == 0xFB {
        operations::lemma_set_keeps_flags(c, 7, Operand8::Reg(Reg8::E));
    } else if op == 0xFC {
        operations::lemma_set_keeps_flags(c, 7, Operand8::Reg(Reg8::H));
    } else if op == 0xFD {
        operations::lemma_set_keeps_flags(c, 7, Operand8::Reg(Reg8::L));
    } else if op == 0xFE {
        operations::lemma_set_keeps_flags(c, 7, Operand8::Ind(Reg16::HL));
    } else if op == 0xFF {
        operations::lemma_set_keeps_flags(c, 7, Operand8::Reg(Reg8::A));
    }
}

pub proof fn lemma_prefixed_preserves_flags(c: CpuV, op: u8)
    requires
        spec_prefixed_keeps_flags(op),
    ensures
        spec_execute_prefixed(c, op).0.registers.f == c.registers.f,
{
    if op < 0x10 {
        lemma_prefixed_preserves_flags_x00(c, op);
    } else if op < 0x20 {
        lemma_prefixed_preserves_flags_x10(c, op);
    } else if op < 0x30 {
        lemma_prefixed_preserves_flags_x20(c, op);
    } else if op < 0x40 {
        lemma_prefixed_preserves_flags_x30(c, op);
    } else if op < 0x50 {
        lemma_prefixed_preserves_flags_x40(c, op);
    } else if op < 0x60 {
        lemma_prefixed_preserves_flags_x50(c, op);
    } else if op < 0x70 {
        lemma_prefixed_preserves_flags_x60(c, op);
    } else if op < 0x80 {
        lemma_prefixed_preserves_flags_x70(c, op);
    } else if op < 0x90 {
        lemma_prefixed_preserves_flags_x80(c, op);
    } else if op < 0xA0 {
        lemma_prefixed_preserves_flags_x90(c, op);
    } else if op < 0xB0 {
        lemma_prefixed_preserves_flags_xA0(c, op);
    } else if op < 0xC0 {
        lemma_prefixed_preserves_flags_xB0(c, op);
    } else if op < 0xD0 {
        lemma_prefixed_preserves_flags_xC0(c, op);
    } else if op < 0xE0 {
        lemma_prefixed_preserves_flags_xD0(c, op);
    } else if op < 0xF0 {
        lemma_prefixed_preserves_flags_xE0(c, op);
    } else {
        lemma_prefixed_preserves_flags_xF0(c, op);
    }
}

/// An opcode without a descriptor costs the four-cycle no-op.
pub proof fn lemma_descriptorless_cycles(op: u8)
    requires
        !spec_unprefixed_has_descriptor(op),
        op != 0xCB,
    ensures
        spec_unprefixed_cycles(op) == (4u8, Option::<u8>::None),
{
    reveal(spec_unprefixed_cycles);
}

} // verus!
