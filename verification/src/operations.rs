//! The operation primitives the opcode tables dispatch to: loads, the 8- and
//! 16-bit ALU with its exact flag semantics, rotates and shifts, bit tests,
//! control transfers and the stack. Each primitive's contract pins the whole
//! CPU state after the operation.

use vstd::prelude::*;
use crate::cpu::{
    spec_cpu_wf, spec_fetch16, spec_fetch8, spec_pop16, spec_push16, spec_read16, spec_read8,
    spec_write16, spec_write8, Cpu, CpuV, Operand16, Operand8,
};
use crate::instructions::{spec_cond_eval, Condition, Timing};
use crate::registers::{spec_reg_read16, spec_reg_write16, Flags, Reg16, Reg8, Registers};

verus! {

/// A value folded into 0..255 after one step of 8-bit wraparound.
pub open spec fn spec_wrap8(a: int) -> u8
    recommends
        -256 <= a < 512,
{
    if a > 255 {
        (a - 256) as u8
    } else if a < 0 {
        (a + 256) as u8
    } else {
        a as u8
    }
}

/// A value folded into 0..65535 after one step of 16-bit wraparound.
pub open spec fn spec_wrap16(a: int) -> u16
    recommends
        -65536 <= a < 131072,
{
    if a > 65535 {
        (a - 65536) as u16
    } else if a < 0 {
        (a + 65536) as u16
    } else {
        a as u16
    }
}

/// The CPU with its flag register replaced.
pub open spec fn spec_with_flags(c: CpuV, f: Flags) -> CpuV {
    CpuV { registers: Registers { f, ..c.registers }, ..c }
}

// --- ALU results and flags -------------------------------------------------

/// ADD a,b: Z=(r==0), N=0, H from the three-way XOR at bit 4, C on unsigned
/// overflow.
pub open spec fn spec_alu_add(a: u8, b: u8) -> (u8, Flags) {
    let r = spec_wrap8(a + b);
    (
        r,
        Flags { zero: r == 0, subtract: false, half_carry: (a ^ b ^ r) & 0x10 != 0, carry: a + b > 255 },
    )
}

/// ADC a,b,c: as ADD with the carry folded in (the carry bit cannot reach
/// bit 4 of the XOR chain).
pub open spec fn spec_alu_adc(a: u8, b: u8, cin: bool) -> (u8, Flags) {
    let ci: u8 = if cin {
        1
    } else {
        0
    };
    let r = spec_wrap8(a + b + ci);
    (
        r,
        Flags {
            zero: r == 0,
            subtract: false,
            half_carry: (a ^ b ^ ci ^ r) & 0x10 != 0,
            carry: a + b + ci > 255,
        },
    )
}

/// SUB/CP a,b: Z=(r==0), N=1, H from the three-way XOR at bit 4, C=(a<b).
pub open spec fn spec_alu_sub(a: u8, b: u8) -> (u8, Flags) {
    let r = spec_wrap8(a - b);
    (
        r,
        Flags { zero: r == 0, subtract: true, half_carry: (a ^ b ^ r) & 0x10 != 0, carry: a < b },
    )
}

/// SBC a,b,c: as SUB with the borrow folded in.
pub open spec fn spec_alu_sbc(a: u8, b: u8, cin: bool) -> (u8, Flags) {
    let ci: u8 = if cin {
        1
    } else {
        0
    };
    let r = spec_wrap8(a - b - ci);
    (
        r,
        Flags {
            zero: r == 0,
            subtract: true,
            half_carry: (a ^ b ^ ci ^ r) & 0x10 != 0,
            carry: a < b + ci,
        },
    )
}

/// AND: Z=(r==0), N=0, H=1, C=0.
pub open spec fn spec_alu_and(a: u8, b: u8) -> (u8, Flags) {
    let r = a & b;
    (r, Flags { zero: r == 0, subtract: false, half_carry: true, carry: false })
}

/// XOR: Z=(r==0), N=0, H=0, C=0.
pub open spec fn spec_alu_xor(a: u8, b: u8) -> (u8, Flags) {
    let r = a ^ b;
    (r, Flags { zero: r == 0, subtract: false, half_carry: false, carry: false })
}

/// OR: Z=(r==0), N=0, H=0, C=0.
pub open spec fn spec_alu_or(a: u8, b: u8) -> (u8, Flags) {
    let r = a | b;
    (r, Flags { zero: r == 0, subtract: false, half_carry: false, carry: false })
}

/// INC r8: Z=(r==0), N=0, H when the low nibble was 0x0F; C unchanged.
pub open spec fn spec_alu_inc(v: u8, carry: bool) -> (u8, Flags) {
    let r = spec_wrap8(v + 1);
    (r, Flags { zero: r == 0, subtract: false, half_carry: v & 0x0F == 0x0F, carry })
}

/// DEC r8: Z=(r==0), N=1, H when the low nibble was 0x00; C unchanged.
pub open spec fn spec_alu_dec(v: u8, carry: bool) -> (u8, Flags) {
    let r = spec_wrap8(v - 1);
    (r, Flags { zero: r == 0, subtract: true, half_carry: v & 0x0F == 0x00, carry })
}

/// ADD HL,rr (a=HL, b=rr): N=0, H from the XOR at bit 12, C on 16-bit
/// overflow; Z unchanged.
pub open spec fn spec_alu_add16(a: u16, b: u16, zero: bool) -> (u16, Flags) {
    let r = spec_wrap16(a + b);
    (
        r,
        Flags {
            zero,
            subtract: false,
            half_carry: (a ^ b ^ r) & 0x1000 != 0,
            carry: a + b > 65535,
        },
    )
}

/// RLC: rotate left; C takes the old bit 7.
pub open spec fn spec_alu_rlc(v: u8) -> (u8, Flags) {
    let r = (v << 1) | (v >> 7);
    (r, Flags { zero: r == 0, subtract: false, half_carry: false, carry: v & 0x80 != 0 })
}

/// RL: rotate left through carry; C takes the old bit 7.
pub open spec fn spec_alu_rl(v: u8, cin: bool) -> (u8, Flags) {
    let r = (v << 1) | (if cin {
        1u8
    } else {
        0u8
    });
    (r, Flags { zero: r == 0, subtract: false, half_carry: false, carry: v & 0x80 != 0 })
}

/// RRC: rotate right; C takes the old bit 0.
pub open spec fn spec_alu_rrc(v: u8) -> (u8, Flags) {
    let r = (v >> 1) | (v << 7);
    (r, Flags { zero: r == 0, subtract: false, half_carry: false, carry: v & 0x01 != 0 })
}

/// RR: rotate right through carry; C takes the old bit 0.
pub open spec fn spec_alu_rr(v: u8, cin: bool) -> (u8, Flags) {
    let r = (v >> 1) | (if cin {
        0x80u8
    } else {
        0u8
    });
    (r, Flags { zero: r == 0, subtract: false, half_carry: false, carry: v & 0x01 != 0 })
}

/// SLA: arithmetic shift left; C takes the old bit 7.
pub open spec fn spec_alu_sla(v: u8) -> (u8, Flags) {
    let r = v << 1;
    (r, Flags { zero: r == 0, subtract: false, half_carry: false, carry: v & 0x80 != 0 })
}

/// SRA: arithmetic shift right, keeping the sign bit; C takes the old bit 0.
pub open spec fn spec_alu_sra(v: u8) -> (u8, Flags) {
    let r = (v & 0x80) | (v >> 1);
    (r, Flags { zero: r == 0, subtract: false, half_carry: false, carry: v & 0x01 != 0 })
}

/// SRL: logical shift right; C takes the old bit 0.
pub open spec fn spec_alu_srl(v: u8) -> (u8, Flags) {
    let r = v >> 1;
    (r, Flags { zero: r == 0, subtract: false, half_carry: false, carry: v & 0x01 != 0 })
}

/// SWAP: exchange the nibbles; C=0.
pub open spec fn spec_alu_swap(v: u8) -> (u8, Flags) {
    let r = (v << 4) | (v >> 4);
    (r, Flags { zero: r == 0, subtract: false, half_carry: false, carry: false })
}

/// DAA: fold the binary result of the last add or subtract back into BCD,
/// steered by N, H and C. Z follows the result, H clears; in add mode C sets
/// when 0x60 was added, in subtract mode C is kept.
pub open spec fn spec_alu_daa(a: u8, f: Flags) -> (u8, Flags) {
    if !f.subtract {
        let high = f.carry || a > 0x99;
        let a1 = if high {
            spec_wrap8(a + 0x60)
        } else {
            a
        };
        let carry = if high {
            true
        } else {
            f.carry
        };
        let a2 = if f.half_carry || (a1 & 0x0F) > 0x09 {
            spec_wrap8(a1 + 0x06)
        } else {
            a1
        };
        (a2, Flags { zero: a2 == 0, subtract: f.subtract, half_carry: false, carry })
    } else {
        let a1 = if f.carry {
            spec_wrap8(a - 0x60)
        } else {
            a
        };
        let a2 = if f.half_carry {
            spec_wrap8(a1 - 0x06)
        } else {
            a1
        };
        (a2, Flags { zero: a2 == 0, subtract: f.subtract, half_carry: false, carry: f.carry })
    }
}

// --- Operation state transformers ------------------------------------------

#[verifier::opaque]
pub open spec fn spec_ld(c: CpuV, dst: Operand8, src: Operand8) -> (CpuV, Timing) {
    let (v, c1) = spec_read8(c, src);
    (spec_write8(c1, dst, v), Timing::Normal)
}

#[verifier::opaque]
pub open spec fn spec_ld16(c: CpuV, dst: Operand16, src: Operand16) -> (CpuV, Timing) {
    let (v, c1) = spec_read16(c, src);
    (spec_write16(c1, dst, v), Timing::Normal)
}

#[verifier::opaque]
pub open spec fn spec_inc16(c: CpuV, loc: Reg16) -> (CpuV, Timing) {
    let v = spec_reg_read16(c.registers, loc);
    (
        CpuV { registers: spec_reg_write16(c.registers, loc, spec_wrap16(v + 1)), ..c },
        Timing::Normal,
    )
}

#[verifier::opaque]
pub open spec fn spec_dec16(c: CpuV, loc: Reg16) -> (CpuV, Timing) {
    let v = spec_reg_read16(c.registers, loc);
    (
        CpuV { registers: spec_reg_write16(c.registers, loc, spec_wrap16(v - 1)), ..c },
        Timing::Normal,
    )
}

#[verifier::opaque]
pub open spec fn spec_ldi(c: CpuV, dst: Operand8, src: Operand8, to_inc: Reg16) -> (CpuV, Timing) {
    let (c1, t) = spec_ld(c, dst, src);
    (spec_inc16(c1, to_inc).0, t)
}

#[verifier::opaque]
pub open spec fn spec_ldd(c: CpuV, dst: Operand8, src: Operand8, to_dec: Reg16) -> (CpuV, Timing) {
    let (c1, t) = spec_ld(c, dst, src);
    (spec_dec16(c1, to_dec).0, t)
}

/// A read-modify-write on an 8-bit location, writing the result and then the
/// flags; the shared shape of INC, DEC, the rotates and shifts.
pub open spec fn spec_modify8(c: CpuV, loc: Operand8, r: u8, f: Flags) -> CpuV {
    spec_with_flags(spec_write8(c, loc, r), f)
}

#[verifier::opaque]
pub open spec fn spec_inc(c: CpuV, loc: Operand8) -> (CpuV, Timing) {
    let (v, c1) = spec_read8(c, loc);
    let c2 = spec_write8(c1, loc, spec_wrap8(v + 1));
    let (r, f) = spec_alu_inc(v, c2.registers.f.carry);
    (spec_with_flags(c2, f), Timing::Normal)
}

#[verifier::opaque]
pub open spec fn spec_dec(c: CpuV, loc: Operand8) -> (CpuV, Timing) {
    let (v, c1) = spec_read8(c, loc);
    let c2 = spec_write8(c1, loc, spec_wrap8(v - 1));
    let (r, f) = spec_alu_dec(v, c2.registers.f.carry);
    (spec_with_flags(c2, f), Timing::Normal)
}

#[verifier::opaque]
pub open spec fn spec_rlc(c: CpuV, loc: Operand8) -> (CpuV, Timing) {
    let (v, c1) = spec_read8(c, loc);
    let (r, f) = spec_alu_rlc(v);
    (spec_modify8(c1, loc, r, f), Timing::Normal)
}

#[verifier::opaque]
pub open spec fn spec_rl(c: CpuV, loc: Operand8) -> (CpuV, Timing) {
    let (v, c1) = spec_read8(c, loc);
    let (r, f) = spec_alu_rl(v, c1.registers.f.carry);
    (spec_modify8(c1, loc, r, f), Timing::Normal)
}

#[verifier::opaque]
pub open spec fn spec_rrc(c: CpuV, loc: Operand8) -> (CpuV, Timing) {
    let (v, c1) = spec_read8(c, loc);
    let (r, f) = spec_alu_rrc(v);
    (spec_modify8(c1, loc, r, f), Timing::Normal)
}

#[verifier::opaque]
pub open spec fn spec_rr(c: CpuV, loc: Operand8) -> (CpuV, Timing) {
    let (v, c1) = spec_read8(c, loc);
    let (r, f) = spec_alu_rr(v, c1.registers.f.carry);
    (spec_modify8(c1, loc, r, f), Timing::Normal)
}

#[verifier::opaque]
pub open spec fn spec_sla(c: CpuV, loc: Operand8) -> (CpuV, Timing) {
    let (v, c1) = spec_read8(c, loc);
    let (r, f) = spec_alu_sla(v);
    (spec_modify8(c1, loc, r, f), Timing::Normal)
}

#[verifier::opaque]
pub open spec fn spec_sra(c: CpuV, loc: Operand8) -> (CpuV, Timing) {
    let (v, c1) = spec_read8(c, loc);
    let (r, f) = spec_alu_sra(v);
    (spec_modify8(c1, loc, r, f), Timing::Normal)
}

#[verifier::opaque]
pub open spec fn spec_srl(c: CpuV, loc: Operand8) -> (CpuV, Timing) {
    let (v, c1) = spec_read8(c, loc);
    let (r, f) = spec_alu_srl(v);
    (spec_modify8(c1, loc, r, f), Timing::Normal)
}

#[verifier::opaque]
pub open spec fn spec_swap(c: CpuV, loc: Operand8) -> (CpuV, Timing) {
    let (v, c1) = spec_read8(c, loc);
    let (r, f) = spec_alu_swap(v);
    (spec_modify8(c1, loc, r, f), Timing::Normal)
}

/// The accumulator rotates force Z to 0 whatever the result.
pub open spec fn spec_force_z0(p: (CpuV, Timing)) -> (CpuV, Timing) {
    (spec_with_flags(p.0, Flags { zero: false, ..p.0.registers.f }), p.1)
}

#[verifier::opaque]
pub open spec fn spec_rlca(c: CpuV) -> (CpuV, Timing) {
    spec_force_z0(spec_rlc(c, Operand8::Reg(Reg8::A)))
}

#[verifier::opaque]
pub open spec fn spec_rla(c: CpuV) -> (CpuV, Timing) {
    spec_force_z0(spec_rl(c, Operand8::Reg(Reg8::A)))
}

#[verifier::opaque]
pub open spec fn spec_rrca(c: CpuV) -> (CpuV, Timing) {
    spec_force_z0(spec_rrc(c, Operand8::Reg(Reg8::A)))
}

#[verifier::opaque]
pub open spec fn spec_rra(c: CpuV) -> (CpuV, Timing) {
    spec_force_z0(spec_rr(c, Operand8::Reg(Reg8::A)))
}

/// The shared shape of the 8-bit accumulator arithmetic: the result lands in
/// the destination and the flags follow.
pub open spec fn spec_arith8(c: CpuV, dest: Operand8, r: u8, f: Flags) -> (CpuV, Timing) {
    (spec_modify8(c, dest, r, f), Timing::Normal)
}

#[verifier::opaque]
pub open spec fn spec_add_op(c: CpuV, dest: Operand8, src: Operand8) -> (CpuV, Timing) {
    let (vs, c1) = spec_read8(c, src);
    let (vd, c2) = spec_read8(c1, dest);
    let (r, f) = spec_alu_add(vd, vs);
    spec_arith8(c2, dest, r, f)
}

#[verifier::opaque]
pub open spec fn spec_adc_op(c: CpuV, dest: Operand8, src: Operand8) -> (CpuV, Timing) {
    let (vs, c1) = spec_read8(c, src);
    let (vd, c2) = spec_read8(c1, dest);
    let (r, f) = spec_alu_adc(vd, vs, c2.registers.f.carry);
    spec_arith8(c2, dest, r, f)
}

#[verifier::opaque]
pub open spec fn spec_sub_op(c: CpuV, dest: Operand8, src: Operand8) -> (CpuV, Timing) {
    let (vs, c1) = spec_read8(c, src);
    let (vd, c2) = spec_read8(c1, dest);
    let (r, f) = spec_alu_sub(vd, vs);
    spec_arith8(c2, dest, r, f)
}

#[verifier::opaque]
pub open spec fn spec_sbc_op(c: CpuV, dest: Operand8, src: Operand8) -> (CpuV, Timing) {
    let (vd, c1) = spec_read8(c, dest);
    let (vs, c2) = spec_read8(c1, src);
    let (r, f) = spec_alu_sbc(vd, vs, c2.registers.f.carry);
    spec_arith8(c2, dest, r, f)
}

#[verifier::opaque]
pub open spec fn spec_and_op(c: CpuV, dest: Operand8, src: Operand8) -> (CpuV, Timing) {
    let (vs, c1) = spec_read8(c, src);
    let (vd, c2) = spec_read8(c1, dest);
    let (r, f) = spec_alu_and(vd, vs);
    spec_arith8(c2, dest, r, f)
}

#[verifier::opaque]
pub open spec fn spec_xor_op(c: CpuV, dest: Operand8, src: Operand8) -> (CpuV, Timing) {
    let (vs, c1) = spec_read8(c, src);
    let (vd, c2) = spec_read8(c1, dest);
    let (r, f) = spec_alu_xor(vd, vs);
    spec_arith8(c2, dest, r, f)
}

#[verifier::opaque]
pub open spec fn spec_or_op(c: CpuV, dest: Operand8, src: Operand8) -> (CpuV, Timing) {
    let (vs, c1) = spec_read8(c, src);
    let (vd, c2) = spec_read8(c1, dest);
    let (r, f) = spec_alu_or(vd, vs);
    spec_arith8(c2, dest, r, f)
}

/// CP compares against A and only writes the flags.
#[verifier::opaque]
pub open spec fn spec_cp_op(c: CpuV, src: Operand8) -> (CpuV, Timing) {
    let (vb, c1) = spec_read8(c, src);
    let (r, f) = spec_alu_sub(c1.registers.a, vb);
    (spec_with_flags(c1, f), Timing::Normal)
}

#[verifier::opaque]
pub open spec fn spec_add16_op(c: CpuV, dest: Reg16, src: Reg16) -> (CpuV, Timing) {
    let a = spec_reg_read16(c.registers, src);
    let b = spec_reg_read16(c.registers, dest);
    let (r, f) = spec_alu_add16(b, a, c.registers.f.zero);
    (
        spec_with_flags(CpuV { registers: spec_reg_write16(c.registers, dest, r), ..c }, f),
        Timing::Normal,
    )
}

/// SP plus a sign-extended immediate, with H and C from the unsigned add of
/// the low byte: the shared core of ADD SP,e8 and LD HL,SP+e8. Z and N clear.
#[verifier::opaque]
pub open spec fn spec_offset_sp(c: CpuV) -> (u16, CpuV) {
    let (e, c1) = spec_fetch8(c);
    let sp = c1.registers.sp;
    let off: int = if e >= 0x80 {
        e - 256
    } else {
        e as int
    };
    let r = spec_wrap16(sp + off);
    let f = Flags {
        zero: false,
        subtract: false,
        half_carry: (sp & 0x0F) + (e & 0x0F) > 0x0F,
        carry: (sp & 0xFF) + e > 0xFF,
    };
    (r, spec_with_flags(c1, f))
}

#[verifier::opaque]
pub open spec fn spec_add_sp(c: CpuV) -> (CpuV, Timing) {
    let (r, c1) = spec_offset_sp(c);
    (CpuV { registers: Registers { sp: r, ..c1.registers }, ..c1 }, Timing::Normal)
}

#[verifier::opaque]
pub open spec fn spec_ldhl(c: CpuV) -> (CpuV, Timing) {
    let (r, c1) = spec_offset_sp(c);
    (CpuV { registers: spec_reg_write16(c1.registers, Reg16::HL, r), ..c1 }, Timing::Normal)
}

#[verifier::opaque]
pub open spec fn spec_jr(c: CpuV, cond: Condition, src: Operand8) -> (CpuV, Timing) {
    let (off, c1) = spec_read8(c, src);
    let ext: int = if off >= 0x80 {
        off - 256
    } else {
        off as int
    };
    if spec_cond_eval(cond, c1.registers.f) {
        (
            CpuV {
                registers: Registers {
                    pc: spec_wrap16(c1.registers.pc + ext),
                    ..c1.registers
                },
                ..c1
            },
            Timing::Conditionnal,
        )
    } else {
        (c1, Timing::Normal)
    }
}

#[verifier::opaque]
pub open spec fn spec_jp(c: CpuV, cond: Condition, target: Operand16) -> (CpuV, Timing) {
    let (addr, c1) = spec_read16(c, target);
    if spec_cond_eval(cond, c1.registers.f) {
        (
            CpuV { registers: Registers { pc: addr, ..c1.registers }, ..c1 },
            Timing::Conditionnal,
        )
    } else {
        (c1, Timing::Normal)
    }
}

/// CALL reads the target first, so the pushed PC is the return address past
/// the operand bytes.
#[verifier::opaque]
pub open spec fn spec_call(c: CpuV, cond: Condition, target: Operand16) -> (CpuV, Timing) {
    let (addr, c1) = spec_read16(c, target);
    if spec_cond_eval(cond, c1.registers.f) {
        let c2 = spec_push16(c1, c1.registers.pc);
        (
            CpuV { registers: Registers { pc: addr, ..c2.registers }, ..c2 },
            Timing::Conditionnal,
        )
    } else {
        (c1, Timing::Normal)
    }
}

#[verifier::opaque]
pub open spec fn spec_ret(c: CpuV, cond: Condition) -> (CpuV, Timing) {
    if spec_cond_eval(cond, c.registers.f) {
        let (pc, c1) = spec_pop16(c);
        (
            CpuV { registers: Registers { pc, ..c1.registers }, ..c1 },
            Timing::Conditionnal,
        )
    } else {
        (c, Timing::Normal)
    }
}

#[verifier::opaque]
pub open spec fn spec_rst(c: CpuV, vector: u8) -> (CpuV, Timing) {
    let c1 = spec_push16(c, c.registers.pc);
    (
        CpuV { registers: Registers { pc: vector as u16, ..c1.registers }, ..c1 },
        Timing::Normal,
    )
}

#[verifier::opaque]
pub open spec fn spec_push_op(c: CpuV, src: Operand16) -> (CpuV, Timing) {
    let (v, c1) = spec_read16(c, src);
    (spec_push16(c1, v), Timing::Normal)
}

#[verifier::opaque]
pub open spec fn spec_pop_op(c: CpuV, dest: Operand16) -> (CpuV, Timing) {
    let (v, c1) = spec_pop16(c);
    (spec_write16(c1, dest, v), Timing::Normal)
}

/// EI arms the master enable with a one-instruction delay.
#[verifier::opaque]
pub open spec fn spec_ei(c: CpuV) -> (CpuV, Timing) {
    (CpuV { ime_delay: true, ..c }, Timing::Normal)
}

/// DI disables immediately and cancels a pending EI.
#[verifier::opaque]
pub open spec fn spec_di(c: CpuV) -> (CpuV, Timing) {
    (CpuV { ime: false, ime_delay: false, ..c }, Timing::Normal)
}

/// RETI re-enables the master enable at once, then returns.
#[verifier::opaque]
pub open spec fn spec_reti(c: CpuV) -> (CpuV, Timing) {
    spec_ret(CpuV { ime: true, ime_delay: false, ..c }, Condition::Unconditional)
}

#[verifier::opaque]
pub open spec fn spec_daa(c: CpuV) -> (CpuV, Timing) {
    let (a2, f) = spec_alu_daa(c.registers.a, c.registers.f);
    (spec_with_flags(CpuV { registers: Registers { a: a2, ..c.registers }, ..c }, f), Timing::Normal)
}

#[verifier::opaque]
pub open spec fn spec_cpl(c: CpuV) -> (CpuV, Timing) {
    (
        spec_with_flags(
            CpuV { registers: Registers { a: !c.registers.a, ..c.registers }, ..c },
            Flags { subtract: true, half_carry: true, ..c.registers.f },
        ),
        Timing::Normal,
    )
}

#[verifier::opaque]
pub open spec fn spec_scf(c: CpuV) -> (CpuV, Timing) {
    (
        spec_with_flags(c, Flags { subtract: false, half_carry: false, carry: true, ..c.registers.f }),
        Timing::Normal,
    )
}

#[verifier::opaque]
pub open spec fn spec_ccf(c: CpuV) -> (CpuV, Timing) {
    (
        spec_with_flags(
            c,
            Flags {
                subtract: false,
                half_carry: false,
                carry: !c.registers.f.carry,
                ..c.registers.f
            },
        ),
        Timing::Normal,
    )
}

#[verifier::opaque]
pub open spec fn spec_halt(c: CpuV) -> (CpuV, Timing) {
    (CpuV { halted: true, ..c }, Timing::Normal)
}

/// BIT n: Z is the complement of the tested bit; N=0, H=1, C unchanged.
#[verifier::opaque]
pub open spec fn spec_bit_op(c: CpuV, n: u8, loc: Operand8) -> (CpuV, Timing) {
    let (v, c1) = spec_read8(c, loc);
    (
        spec_with_flags(
            c1,
            Flags {
                zero: v & (1u8 << n) == 0,
                subtract: false,
                half_carry: true,
                carry: c1.registers.f.carry,
            },
        ),
        Timing::Normal,
    )
}

/// RES n: clear bit n; no flags.
#[verifier::opaque]
pub open spec fn spec_res_op(c: CpuV, n: u8, loc: Operand8) -> (CpuV, Timing) {
    let (v, c1) = spec_read8(c, loc);
    (spec_write8(c1, loc, v & !(1u8 << n)), Timing::Normal)
}

/// SET n: set bit n; no flags.
#[verifier::opaque]
pub open spec fn spec_set_op(c: CpuV, n: u8, loc: Operand8) -> (CpuV, Timing) {
    let (v, c1) = spec_read8(c, loc);
    (spec_write8(c1, loc, v | (1u8 << n)), Timing::Normal)
}

// --- Which operations leave the flag register alone --------------------------

pub proof fn lemma_ld_keeps_flags(c: CpuV, dst: Operand8, src: Operand8)
    requires
        dst != Operand8::Reg(Reg8::F),
    ensures
        spec_ld(c, dst, src).0.registers.f == c.registers.f,
{
    reveal(spec_ld);
    crate::cpu::lemma_read8_keeps_flags(c, src);
    crate::cpu::lemma_write8_keeps_flags(spec_read8(c, src).1, dst, spec_read8(c, src).0);
}

pub proof fn lemma_ld16_keeps_flags(c: CpuV, dst: Operand16, src: Operand16)
    requires
        dst != Operand16::Reg(Reg16::AF),
    ensures
        spec_ld16(c, dst, src).0.registers.f == c.registers.f,
{
    reveal(spec_ld16);
    crate::cpu::lemma_read16_keeps_flags(c, src);
    crate::cpu::lemma_write16_keeps_flags(spec_read16(c, src).1, dst, spec_read16(c, src).0);
}

pub proof fn lemma_inc16_keeps_flags(c: CpuV, loc: Reg16)
    requires
        loc != Reg16::AF,
    ensures
        spec_inc16(c, loc).0.registers.f == c.registers.f,
{
    reveal(spec_inc16);
}

pub proof fn lemma_dec16_keeps_flags(c: CpuV, loc: Reg16)
    requires
        loc != Reg16::AF,
    ensures
        spec_dec16(c, loc).0.registers.f == c.registers.f,
{
    reveal(spec_dec16);
}

pub proof fn lemma_ldi_keeps_flags(c: CpuV, dst: Operand8, src: Operand8, to_inc: Reg16)
    requires
        dst != Operand8::Reg(Reg8::F),
        to_inc != Reg16::AF,
    ensures
        spec_ldi(c, dst, src, to_inc).0.registers.f == c.registers.f,
{
    reveal(spec_ldi);
    lemma_ld_keeps_flags(c, dst, src);
    lemma_inc16_keeps_flags(spec_ld(c, dst, src).0, to_inc);
}

pub proof fn lemma_ldd_keeps_flags(c: CpuV, dst: Operand8, src: Operand8, to_dec: Reg16)
    requires
        dst != Operand8::Reg(Reg8::F),
        to_dec != Reg16::AF,
    ensures
        spec_ldd(c, dst, src, to_dec).0.registers.f == c.registers.f,
{
    reveal(spec_ldd);
    lemma_ld_keeps_flags(c, dst, src);
    lemma_dec16_keeps_flags(spec_ld(c, dst, src).0, to_dec);
}

pub proof fn lemma_jr_keeps_flags(c: CpuV, cond: Condition, src: Operand8)
    ensures
        spec_jr(c, cond, src).0.registers.f == c.registers.f,
{
    reveal(spec_jr);
    crate::cpu::lemma_read8_keeps_flags(c, src);
}

pub proof fn lemma_jp_keeps_flags(c: CpuV, cond: Condition, target: Operand16)
    ensures
        spec_jp(c, cond, target).0.registers.f == c.registers.f,
{
    reveal(spec_jp);
    crate::cpu::lemma_read16_keeps_flags(c, target);
}

pub proof fn lemma_call_keeps_flags(c: CpuV, cond: Condition, target: Operand16)
    ensures
        spec_call(c, cond, target).0.registers.f == c.registers.f,
{
    reveal(spec_call);
    crate::cpu::lemma_read16_keeps_flags(c, target);
    crate::cpu::lemma_push16_keeps_flags(
        spec_read16(c, target).1,
        spec_read16(c, target).1.registers.pc,
    );
}

pub proof fn lemma_ret_keeps_flags(c: CpuV, cond: Condition)
    ensures
        spec_ret(c, cond).0.registers.f == c.registers.f,
{
    reveal(spec_ret);
    crate::cpu::lemma_pop16_keeps_flags(c);
}

pub proof fn lemma_reti_keeps_flags(c: CpuV)
    ensures
        spec_reti(c).0.registers.f == c.registers.f,
{
    reveal(spec_reti);
    lemma_ret_keeps_flags(CpuV { ime: true, ime_delay: false, ..c }, Condition::Unconditional);
}

pub proof fn lemma_rst_keeps_flags(c: CpuV, vector: u8)
    ensures
        spec_rst(c, vector).0.registers.f == c.registers.f,
{
    reveal(spec_rst);
    crate::cpu::lemma_push16_keeps_flags(c, c.registers.pc);
}

pub proof fn lemma_push_keeps_flags(c: CpuV, src: Operand16)
    ensures
        spec_push_op(c, src).0.registers.f == c.registers.f,
{
    reveal(spec_push_op);
    crate::cpu::lemma_read16_keeps_flags(c, src);
    crate::cpu::lemma_push16_keeps_flags(spec_read16(c, src).1, spec_read16(c, src).0);
}

pub proof fn lemma_pop_keeps_flags(c: CpuV, dest: Operand16)
    requires
        dest != Operand16::Reg(Reg16::AF),
    ensures
        spec_pop_op(c, dest).0.registers.f == c.registers.f,
{
    reveal(spec_pop_op);
    crate::cpu::lemma_pop16_keeps_flags(c);
    crate::cpu::lemma_write16_keeps_flags(spec_pop16(c).1, dest, spec_pop16(c).0);
}

pub proof fn lemma_res_keeps_flags(c: CpuV, n: u8, loc: Operand8)
    requires
        loc != Operand8::Reg(Reg8::F),
    ensures
        spec_res_op(c, n, loc).0.registers.f == c.registers.f,
{
    reveal(spec_res_op);
    crate::cpu::lemma_read8_keeps_flags(c, loc);
    crate::cpu::lemma_write8_keeps_flags(
        spec_read8(c, loc).1,
        loc,
        spec_read8(c, loc).0 & !(1u8 << n),
    );
}

pub proof fn lemma_set_keeps_flags(c: CpuV, n: u8, loc: Operand8)
    requires
        loc != Operand8::Reg(Reg8::F),
    ensures
        spec_set_op(c, n, loc).0.registers.f == c.registers.f,
{
    reveal(spec_set_op);
    crate::cpu::lemma_read8_keeps_flags(c, loc);
    crate::cpu::lemma_write8_keeps_flags(
        spec_read8(c, loc).1,
        loc,
        spec_read8(c, loc).0 | (1u8 << n),
    );
}

/// For every rotate and shift: the C flag equals the bit shifted out, Z
/// equals (result == 0), and N and H are cleared. SWAP shifts no bit out and
/// clears C. BIT instead sets H, clears N and keeps C; CPL sets N and H.
pub proof fn lemma_rotate_shift_flags(v: u8, cin: bool)
    ensures
        spec_alu_rlc(v).1 == (Flags {
            zero: spec_alu_rlc(v).0 == 0,
            subtract: false,
            half_carry: false,
            carry: v & 0x80 != 0,
        }),
        spec_alu_rl(v, cin).1 == (Flags {
            zero: spec_alu_rl(v, cin).0 == 0,
            subtract: false,
            half_carry: false,
            carry: v & 0x80 != 0,
        }),
        spec_alu_rrc(v).1 == (Flags {
            zero: spec_alu_rrc(v).0 == 0,
            subtract: false,
            half_carry: false,
            carry: v & 0x01 != 0,
        }),
        spec_alu_rr(v, cin).1 == (Flags {
            zero: spec_alu_rr(v, cin).0 == 0,
            subtract: false,
            half_carry: false,
            carry: v & 0x01 != 0,
        }),
        spec_alu_sla(v).1 == (Flags {
            zero: spec_alu_sla(v).0 == 0,
            subtract: false,
            half_carry: false,
            carry: v & 0x80 != 0,
        }),
        spec_alu_sra(v).1 == (Flags {
            zero: spec_alu_sra(v).0 == 0,
            subtract: false,
            half_carry: false,
            carry: v & 0x01 != 0,
        }),
        spec_alu_srl(v).1 == (Flags {
            zero: spec_alu_srl(v).0 == 0,
            subtract: false,
            half_carry: false,
            carry: v & 0x01 != 0,
        }),
        spec_alu_swap(v).1 == (Flags {
            zero: spec_alu_swap(v).0 == 0,
            subtract: false,
            half_carry: false,
            carry: false,
        }),
{
}

// --- Round-trip laws ----------------------------------------------------------

/// PUSH rr then POP rr restores the pair and SP, except that AF reads back
/// with the low nibble of F masked to zero; the two stack bytes must not be
/// claimed by a handler.
pub proof fn lemma_push_pop_roundtrip(c: CpuV, rr: Reg16)
    requires
        spec_cpu_wf(c),
        crate::mmu::spec_addr_unhandled(c.mmu, crate::cpu::spec_stack_top1(c)),
        crate::mmu::spec_addr_unhandled(c.mmu, crate::cpu::spec_stack_top2(c)),
    ensures
        ({
            let popped = spec_pop_op(
                spec_push_op(c, Operand16::Reg(rr)).0,
                Operand16::Reg(rr),
            ).0;
            &&& rr != Reg16::AF ==> spec_reg_read16(popped.registers, rr) == spec_reg_read16(
                c.registers,
                rr,
            )
            &&& rr == Reg16::AF ==> spec_reg_read16(popped.registers, rr) == spec_reg_read16(
                c.registers,
                rr,
            ) & 0xFFF0
            &&& popped.registers.sp == c.registers.sp
        }),
{
    reveal(spec_push_op);
    reveal(spec_pop_op);
    reveal(crate::cpu::spec_read16);
    reveal(crate::cpu::spec_write16);
    reveal(crate::cpu::spec_push16);
    reveal(crate::cpu::spec_push8);
    reveal(crate::cpu::spec_pop16);
    reveal(crate::cpu::spec_pop8);
    let v = spec_reg_read16(c.registers, rr);
    let hi = (v >> 8) as u8;
    let lo = v as u8;
    let a1 = crate::cpu::spec_stack_top1(c);
    let a2 = crate::cpu::spec_stack_top2(c);
    let p1 = crate::cpu::spec_push8(c, hi);
    crate::mmu::lemma_unhandled_bus_write(c.mmu, a1, hi);
    let p2 = crate::cpu::spec_push8(p1, lo);
    crate::mmu::lemma_unhandled_bus_write(p1.mmu, a2, lo);
    assert(p2 == spec_push_op(c, Operand16::Reg(rr)).0);
    crate::mmu::lemma_unhandled_bus_read(p2.mmu, a2);
    crate::cpu::lemma_effective_adjacent_distinct(a2);
    assert(crate::cpu::spec_pc_any(a2) == a1);
    crate::mmu::lemma_unhandled_bus_read(p2.mmu, a1);
    let (w, q2) = crate::cpu::spec_pop16(p2);
    assert(w == crate::util::spec_word(hi, lo));
    crate::util::lemma_word_roundtrip(v);
    assert(q2.registers.sp == c.registers.sp);
    crate::registers::lemma_write16_read16(q2.registers, rr, v);
}

/// LD (nn),SP stores SP little-endian at nn; reading the two bytes back and
/// composing them low-then-high reproduces SP. The two addresses must not be
/// claimed by a handler.
pub proof fn lemma_ld_nn_sp_roundtrip(c: CpuV)
    requires
        spec_cpu_wf(c),
        crate::mmu::spec_addr_unhandled(c.mmu, spec_fetch16(c).0),
        crate::mmu::spec_addr_unhandled(c.mmu, crate::cpu::spec_pc_any(spec_fetch16(c).0)),
    ensures
        ({
            let nn = spec_fetch16(c).0;
            let stored = spec_ld16(c, Operand16::IndImm, Operand16::Reg(Reg16::SP)).0;
            crate::util::spec_word(
                crate::mmu::spec_bus_read(stored.mmu, crate::cpu::spec_pc_any(nn)),
                crate::mmu::spec_bus_read(stored.mmu, nn),
            ) == c.registers.sp
        }),
{
    reveal(spec_ld16);
    reveal(crate::cpu::spec_read16);
    reveal(crate::cpu::spec_write16);
    reveal(crate::cpu::spec_fetch16);
    reveal(crate::cpu::spec_fetch8);
    let sp = c.registers.sp;
    let nn = spec_fetch16(c).0;
    let c1 = spec_fetch16(c).1;
    let nn1 = crate::cpu::spec_pc_any(nn);
    crate::mmu::lemma_unhandled_bus_write(c1.mmu, nn, sp as u8);
    let m1 = crate::mmu::spec_bus_write(c1.mmu, nn, sp as u8);
    crate::mmu::lemma_unhandled_bus_write(m1, nn1, (sp >> 8) as u8);
    let m2 = crate::mmu::spec_bus_write(m1, nn1, (sp >> 8) as u8);
    crate::mmu::lemma_unhandled_bus_read(m2, nn);
    crate::mmu::lemma_unhandled_bus_read(m2, nn1);
    crate::cpu::lemma_effective_adjacent_distinct(nn);
    crate::util::lemma_word_roundtrip(sp);
}

// --- Executable operations ---------------------------------------------------

pub fn nop() -> (t: Timing)
    ensures
        t == Timing::Normal,
{
    Timing::Normal
}

pub fn ld(cpu: &mut Cpu, dst: Operand8, src: Operand8) -> (t: Timing)
    requires
        spec_cpu_wf(old(cpu)@),
    ensures
        (final(cpu)@, t) == spec_ld(old(cpu)@, dst, src),
        spec_cpu_wf(final(cpu)@),
{
    proof {
        reveal(spec_ld);
    }
    let val = cpu.read8(src);
    cpu.write8(dst, val);
    Timing::Normal
}

pub fn ld16(cpu: &mut Cpu, dst: Operand16, src: Operand16) -> (t: Timing)
    requires
        spec_cpu_wf(old(cpu)@),
    ensures
        (final(cpu)@, t) == spec_ld16(old(cpu)@, dst, src),
        spec_cpu_wf(final(cpu)@),
{
    proof {
        reveal(spec_ld16);
    }
    let val = cpu.read16(src);
    cpu.write16(dst, val);
    Timing::Normal
}

pub fn inc16(cpu: &mut Cpu, loc: Reg16) -> (t: Timing)
    ensures
        (final(cpu)@, t) == spec_inc16(old(cpu)@, loc),
        spec_cpu_wf(old(cpu)@) ==> spec_cpu_wf(final(cpu)@),
{
    proof {
        reveal(spec_inc16);
    }
    let value = cpu.registers.read_u16(loc);
    cpu.registers.write_u16(loc, value.wrapping_add(1));
    Timing::Normal
}

pub fn dec16(cpu: &mut Cpu, loc: Reg16) -> (t: Timing)
    ensures
        (final(cpu)@, t) == spec_dec16(old(cpu)@, loc),
        spec_cpu_wf(old(cpu)@) ==> spec_cpu_wf(final(cpu)@),
{
    proof {
        reveal(spec_dec16);
    }
    let value = cpu.registers.read_u16(loc);
    cpu.registers.write_u16(loc, value.wrapping_sub(1));
    Timing::Normal
}

pub fn ldi(cpu: &mut Cpu, dst: Operand8, src: Operand8, to_inc: Reg16) -> (t: Timing)
    requires
        spec_cpu_wf(old(cpu)@),
    ensures
        (final(cpu)@, t) == spec_ldi(old(cpu)@, dst, src, to_inc),
        spec_cpu_wf(final(cpu)@),
{
    proof {
        reveal(spec_ldi);
    }
    let t = ld(cpu, dst, src);
    inc16(cpu, to_inc);
    t
}

pub fn ldd(cpu: &mut Cpu, dst: Operand8, src: Operand8, to_dec: Reg16) -> (t: Timing)
    requires
        spec_cpu_wf(old(cpu)@),
    ensures
        (final(cpu)@, t) == spec_ldd(old(cpu)@, dst, src, to_dec),
        spec_cpu_wf(final(cpu)@),
{
    proof {
        reveal(spec_ldd);
    }
    let t = ld(cpu, dst, src);
    dec16(cpu, to_dec);
    t
}

pub fn inc(cpu: &mut Cpu, loc: Operand8) -> (t: Timing)
    requires
        spec_cpu_wf(old(cpu)@),
    ensures
        (final(cpu)@, t) == spec_inc(old(cpu)@, loc),
        spec_cpu_wf(final(cpu)@),
{
    proof {
        reveal(spec_inc);
    }
    let value = cpu.read8(loc);
    let result = value.wrapping_add(1);
    cpu.write8(loc, result);
    cpu.registers.f = Flags {
        zero: result == 0,
        subtract: false,
        half_carry: value & 0x0F == 0x0F,
        carry: cpu.registers.f.carry,
    };
    Timing::Normal
}

pub fn dec(cpu: &mut Cpu, loc: Operand8) -> (t: Timing)
    requires
        spec_cpu_wf(old(cpu)@),
    ensures
        (final(cpu)@, t) == spec_dec(old(cpu)@, loc),
        spec_cpu_wf(final(cpu)@),
{
    proof {
        reveal(spec_dec);
    }
    let value = cpu.read8(loc);
    let result = value.wrapping_sub(1);
    cpu.write8(loc, result);
    cpu.registers.f = Flags {
        zero: result == 0,
        subtract: true,
        half_carry: value & 0x0F == 0x00,
        carry: cpu.registers.f.carry,
    };
    Timing::Normal
}

pub fn rlc(cpu: &mut Cpu, loc: Operand8) -> (t: Timing)
    requires
        spec_cpu_wf(old(cpu)@),
    ensures
        (final(cpu)@, t) == spec_rlc(old(cpu)@, loc),
        spec_cpu_wf(final(cpu)@),
{
    proof {
        reveal(spec_rlc);
    }
    let value = cpu.read8(loc);
    let result = (value << 1) | (value >> 7);
    cpu.write8(loc, result);
    cpu.registers.f = Flags {
        zero: result == 0,
        subtract: false,
        half_carry: false,
        carry: value & 0x80 != 0,
    };
    Timing::Normal
}

pub fn rl(cpu: &mut Cpu, loc: Operand8) -> (t: Timing)
    requires
        spec_cpu_wf(old(cpu)@),
    ensures
        (final(cpu)@, t) == spec_rl(old(cpu)@, loc),
        spec_cpu_wf(final(cpu)@),
{
    proof {
        reveal(spec_rl);
    }
    let value = cpu.read8(loc);
    let result = (value << 1) | (if cpu.registers.f.carry {
        1u8
    } else {
        0u8
    });
    cpu.write8(loc, result);
    cpu.registers.f = Flags {
        zero: result == 0,
        subtract: false,
        half_carry: false,
        carry: value & 0x80 != 0,
    };
    Timing::Normal
}

pub fn rrc(cpu: &mut Cpu, loc: Operand8) -> (t: Timing)
    requires
        spec_cpu_wf(old(cpu)@),
    ensures
        (final(cpu)@, t) == spec_rrc(old(cpu)@, loc),
        spec_cpu_wf(final(cpu)@),
{
    proof {
        reveal(spec_rrc);
    }
    let value = cpu.read8(loc);
    let result = (value >> 1) | (value << 7);
    cpu.write8(loc, result);
    cpu.registers.f = Flags {
        zero: result == 0,
        subtract: false,
        half_carry: false,
        carry: value & 0x01 != 0,
    };
    Timing::Normal
}

pub fn rr(cpu: &mut Cpu, loc: Operand8) -> (t: Timing)
    requires
        spec_cpu_wf(old(cpu)@),
    ensures
        (final(cpu)@, t) == spec_rr(old(cpu)@, loc),
        spec_cpu_wf(final(cpu)@),
{
    proof {
        reveal(spec_rr);
    }
    let value = cpu.read8(loc);
    let result = (value >> 1) | (if cpu.registers.f.carry {
        0x80u8
    } else {
        0u8
    });
    cpu.write8(loc, result);
    cpu.registers.f = Flags {
        zero: result == 0,
        subtract: false,
        half_carry: false,
        carry: value & 0x01 != 0,
    };
    Timing::Normal
}

pub fn sla(cpu: &mut Cpu, loc: Operand8) -> (t: Timing)
    requires
        spec_cpu_wf(old(cpu)@),
    ensures
        (final(cpu)@, t) == spec_sla(old(cpu)@, loc),
        spec_cpu_wf(final(cpu)@),
{
    proof {
        reveal(spec_sla);
    }
    let value = cpu.read8(loc);
    let result = value << 1;
    cpu.write8(loc, result);
    cpu.registers.f = Flags {
        zero: result == 0,
        subtract: false,
        half_carry: false,
        carry: value & 0x80 != 0,
    };
    Timing::Normal
}

pub fn sra(cpu: &mut Cpu, loc: Operand8) -> (t: Timing)
    requires
        spec_cpu_wf(old(cpu)@),
    ensures
        (final(cpu)@, t) == spec_sra(old(cpu)@, loc),
        spec_cpu_wf(final(cpu)@),
{
    proof {
        reveal(spec_sra);
    }
    let value = cpu.read8(loc);
    let result = (value & 0x80) | (value >> 1);
    cpu.write8(loc, result);
    cpu.registers.f = Flags {
        zero: result == 0,
        subtract: false,
        half_carry: false,
        carry: value & 0x01 != 0,
    };
    Timing::Normal
}

pub fn srl(cpu: &mut Cpu, loc: Operand8) -> (t: Timing)
    requires
        spec_cpu_wf(old(cpu)@),
    ensures
        (final(cpu)@, t) == spec_srl(old(cpu)@, loc),
        spec_cpu_wf(final(cpu)@),
{
    proof {
        reveal(spec_srl);
    }
    let value = cpu.read8(loc);
    let result = value >> 1;
    cpu.write8(loc, result);
    cpu.registers.f = Flags {
        zero: result == 0,
        subtract: false,
        half_carry: false,
        carry: value & 0x01 != 0,
    };
    Timing::Normal
}

pub fn swap(cpu: &mut Cpu, loc: Operand8) -> (t: Timing)
    requires
        spec_cpu_wf(old(cpu)@),
    ensures
        (final(cpu)@, t) == spec_swap(old(cpu)@, loc),
        spec_cpu_wf(final(cpu)@),
{
    proof {
        reveal(spec_swap);
    }
    let value = cpu.read8(loc);
    let result = (value << 4) | (value >> 4);
    cpu.write8(loc, result);
    cpu.registers.f = Flags {
        zero: result == 0,
        subtract: false,
        half_carry: false,
        carry: false,
    };
    Timing::Normal
}

pub fn rlca(cpu: &mut Cpu) -> (t: Timing)
    requires
        spec_cpu_wf(old(cpu)@),
    ensures
        (final(cpu)@, t) == spec_rlca(old(cpu)@),
        spec_cpu_wf(final(cpu)@),
{
    proof {
        reveal(spec_rlca);
    }
    let timing = rlc(cpu, Operand8::Reg(Reg8::A));
    cpu.registers.f = Flags { zero: false, ..cpu.registers.f };
    timing
}

pub fn rla(cpu: &mut Cpu) -> (t: Timing)
    requires
        spec_cpu_wf(old(cpu)@),
    ensures
        (final(cpu)@, t) == spec_rla(old(cpu)@),
        spec_cpu_wf(final(cpu)@),
{
    proof {
        reveal(spec_rla);
    }
    let timing = rl(cpu, Operand8::Reg(Reg8::A));
    cpu.registers.f = Flags { zero: false, ..cpu.registers.f };
    timing
}

pub fn rrca(cpu: &mut Cpu) -> (t: Timing)
    requires
        spec_cpu_wf(old(cpu)@),
    ensures
        (final(cpu)@, t) == spec_rrca(old(cpu)@),
        spec_cpu_wf(final(cpu)@),
{
    proof {
        reveal(spec_rrca);
    }
    let timing = rrc(cpu, Operand8::Reg(Reg8::A));
    cpu.registers.f = Flags { zero: false, ..cpu.registers.f };
    timing
}

pub fn rra(cpu: &mut Cpu) -> (t: Timing)
    requires
        spec_cpu_wf(old(cpu)@),
    ensures
        (final(cpu)@, t) == spec_rra(old(cpu)@),
        spec_cpu_wf(final(cpu)@),
{
    proof {
        reveal(spec_rra);
    }
    let timing = rr(cpu, Operand8::Reg(Reg8::A));
    cpu.registers.f = Flags { zero: false, ..cpu.registers.f };
    timing
}

pub fn add(cpu: &mut Cpu, dest: Operand8, src: Operand8) -> (t: Timing)
    requires
        spec_cpu_wf(old(cpu)@),
    ensures
        (final(cpu)@, t) == spec_add_op(old(cpu)@, dest, src),
        spec_cpu_wf(final(cpu)@),
{
    proof {
        reveal(spec_add_op);
    }
    let value_src = cpu.read8(src);
    let value_dest = cpu.read8(dest);
    let result = value_dest.wrapping_add(value_src);
    let carry = (value_dest as u16) + (value_src as u16) > 255;
    cpu.write8(dest, result);
    cpu.registers.f = Flags {
        zero: result == 0,
        subtract: false,
        half_carry: (value_dest ^ value_src ^ result) & 0x10 != 0,
        carry,
    };
    Timing::Normal
}

#[verifier::rlimit(60)]
pub fn adc(cpu: &mut Cpu, dest: Operand8, src: Operand8) -> (t: Timing)
    requires
        spec_cpu_wf(old(cpu)@),
    ensures
        (final(cpu)@, t) == spec_adc_op(old(cpu)@, dest, src),
        spec_cpu_wf(final(cpu)@),
{
    proof {
        reveal(spec_adc_op);
    }
    let value_src = cpu.read8(src);
    let value_dest = cpu.read8(dest);
    let ci: u8 = if cpu.registers.f.carry {
        1
    } else {
        0
    };
    let result = value_dest.wrapping_add(value_src).wrapping_add(ci);
    let carry = (value_dest as u16) + (value_src as u16) + (ci as u16) > 255;
    cpu.write8(dest, result);
    cpu.registers.f = Flags {
        zero: result == 0,
        subtract: false,
        half_carry: (value_dest ^ value_src ^ ci ^ result) & 0x10 != 0,
        carry,
    };
    Timing::Normal
}

pub fn sub(cpu: &mut Cpu, dest: Operand8, src: Operand8) -> (t: Timing)
    requires
        spec_cpu_wf(old(cpu)@),
    ensures
        (final(cpu)@, t) == spec_sub_op(old(cpu)@, dest, src),
        spec_cpu_wf(final(cpu)@),
{
    proof {
        reveal(spec_sub_op);
    }
    let value_src = cpu.read8(src);
    let value_dest = cpu.read8(dest);
    let result = value_dest.wrapping_sub(value_src);
    let carry = value_dest < value_src;
    cpu.write8(dest, result);
    cpu.registers.f = Flags {
        zero: result == 0,
        subtract: true,
        half_carry: (value_dest ^ value_src ^ result) & 0x10 != 0,
        carry,
    };
    Timing::Normal
}

#[verifier::rlimit(60)]
pub fn sbc(cpu: &mut Cpu, dest: Operand8, src: Operand8) -> (t: Timing)
    requires
        spec_cpu_wf(old(cpu)@),
    ensures
        (final(cpu)@, t) == spec_sbc_op(old(cpu)@, dest, src),
        spec_cpu_wf(final(cpu)@),
{
    proof {
        reveal(spec_sbc_op);
    }
    let value_dest = cpu.read8(dest);
    let value_src = cpu.read8(src);
    let ci: u8 = if cpu.registers.f.carry {
        1
    } else {
        0
    };
    let result = value_dest.wrapping_sub(value_src).wrapping_sub(ci);
    let carry = (value_dest as u16) < (value_src as u16) + (ci as u16);
    cpu.write8(dest, result);
    cpu.registers.f = Flags {
        zero: result == 0,
        subtract: true,
        half_carry: (value_dest ^ value_src ^ ci ^ result) & 0x10 != 0,
        carry,
    };
    Timing::Normal
}

pub fn and(cpu: &mut Cpu, dest: Operand8, src: Operand8) -> (t: Timing)
    requires
        spec_cpu_wf(old(cpu)@),
    ensures
        (final(cpu)@, t) == spec_and_op(old(cpu)@, dest, src),
        spec_cpu_wf(final(cpu)@),
{
    proof {
        reveal(spec_and_op);
    }
    let value_src = cpu.read8(src);
    let value_dest = cpu.read8(dest);
    let result = value_dest & value_src;
    cpu.write8(dest, result);
    cpu.registers.f = Flags {
        zero: result == 0,
        subtract: false,
        half_carry: true,
        carry: false,
    };
    Timing::Normal
}

pub fn xor(cpu: &mut Cpu, dest: Operand8, src: Operand8) -> (t: Timing)
    requires
        spec_cpu_wf(old(cpu)@),
    ensures
        (final(cpu)@, t) == spec_xor_op(old(cpu)@, dest, src),
        spec_cpu_wf(final(cpu)@),
{
    proof {
        reveal(spec_xor_op);
    }
    let value_src = cpu.read8(src);
    let value_dest = cpu.read8(dest);
    let result = value_dest ^ value_src;
    cpu.write8(dest, result);
    cpu.registers.f = Flags {
        zero: result == 0,
        subtract: false,
        half_carry: false,
        carry: false,
    };
    Timing::Normal
}

pub fn or(cpu: &mut Cpu, dest: Operand8, src: Operand8) -> (t: Timing)
    requires
        spec_cpu_wf(old(cpu)@),
    ensures
        (final(cpu)@, t) == spec_or_op(old(cpu)@, dest, src),
        spec_cpu_wf(final(cpu)@),
{
    proof {
        reveal(spec_or_op);
    }
    let value_src = cpu.read8(src);
    let value_dest = cpu.read8(dest);
    let result = value_dest | value_src;
    cpu.write8(dest, result);
    cpu.registers.f = Flags {
        zero: result == 0,
        subtract: false,
        half_carry: false,
        carry: false,
    };
    Timing::Normal
}

pub fn cp(cpu: &mut Cpu, src: Operand8) -> (t: Timing)
    requires
        spec_cpu_wf(old(cpu)@),
    ensures
        (final(cpu)@, t) == spec_cp_op(old(cpu)@, src),
        spec_cpu_wf(final(cpu)@),
{
    proof {
        reveal(spec_cp_op);
    }
    let value_src = cpu.read8(src);
    let a = cpu.registers.a;
    let result = a.wrapping_sub(value_src);
    cpu.registers.f = Flags {
        zero: result == 0,
        subtract: true,
        half_carry: (a ^ value_src ^ result) & 0x10 != 0,
        carry: a < value_src,
    };
    Timing::Normal
}

pub fn add16(cpu: &mut Cpu, dest: Reg16, src: Reg16) -> (t: Timing)
    ensures
        (final(cpu)@, t) == spec_add16_op(old(cpu)@, dest, src),
        spec_cpu_wf(old(cpu)@) ==> spec_cpu_wf(final(cpu)@),
{
    proof {
        reveal(spec_add16_op);
    }
    let a = cpu.registers.read_u16(src);
    let b = cpu.registers.read_u16(dest);
    let result = b.wrapping_add(a);
    let carry = (b as u32) + (a as u32) > 65535;
    let zero = cpu.registers.f.zero;
    cpu.registers.write_u16(dest, result);
    cpu.registers.f = Flags {
        zero,
        subtract: false,
        half_carry: (b ^ a ^ result) & 0x1000 != 0,
        carry,
    };
    Timing::Normal
}

/// SP plus the next immediate byte taken as signed, setting H and C from the
/// unsigned add of SP's low byte; the result is returned, not stored.
pub fn offset_sp(cpu: &mut Cpu) -> (r: u16)
    requires
        spec_cpu_wf(old(cpu)@),
    ensures
        (r, final(cpu)@) == spec_offset_sp(old(cpu)@),
        spec_cpu_wf(final(cpu)@),
{
    proof {
        reveal(spec_offset_sp);
        reveal(crate::cpu::spec_read8);
    }
    let e = cpu.read8(Operand8::Imm);
    let sp = cpu.registers.sp;
    let off16: u16 = if e >= 0x80 {
        0xFF00 + e as u16
    } else {
        e as u16
    };
    let result = sp.wrapping_add(off16);
    cpu.registers.f = Flags {
        zero: false,
        subtract: false,
        half_carry: ((sp & 0x0F) as u32) + ((e & 0x0F) as u32) > 0x0F,
        carry: ((sp & 0xFF) as u32) + (e as u32) > 0xFF,
    };
    result
}

pub fn add_sp(cpu: &mut Cpu) -> (t: Timing)
    requires
        spec_cpu_wf(old(cpu)@),
    ensures
        (final(cpu)@, t) == spec_add_sp(old(cpu)@),
        spec_cpu_wf(final(cpu)@),
{
    proof {
        reveal(spec_add_sp);
    }
    let result = offset_sp(cpu);
    cpu.registers.sp = result;
    Timing::Normal
}

pub fn ldhl(cpu: &mut Cpu) -> (t: Timing)
    requires
        spec_cpu_wf(old(cpu)@),
    ensures
        (final(cpu)@, t) == spec_ldhl(old(cpu)@),
        spec_cpu_wf(final(cpu)@),
{
    proof {
        reveal(spec_ldhl);
    }
    let result = offset_sp(cpu);
    cpu.registers.write_u16(Reg16::HL, result);
    Timing::Normal
}

pub fn jr(cpu: &mut Cpu, cond: Condition, src: Operand8) -> (t: Timing)
    requires
        spec_cpu_wf(old(cpu)@),
    ensures
        (final(cpu)@, t) == spec_jr(old(cpu)@, cond, src),
        spec_cpu_wf(final(cpu)@),
{
    proof {
        reveal(spec_jr);
    }
    let offset = cpu.read8(src);
    if cond.eval(cpu) {
        let off16: u16 = if offset >= 0x80 {
            0xFF00 + offset as u16
        } else {
            offset as u16
        };
        cpu.registers.pc = cpu.registers.pc.wrapping_add(off16);
        Timing::Conditionnal
    } else {
        Timing::Normal
    }
}

pub fn jp(cpu: &mut Cpu, cond: Condition, target: Operand16) -> (t: Timing)
    requires
        spec_cpu_wf(old(cpu)@),
    ensures
        (final(cpu)@, t) == spec_jp(old(cpu)@, cond, target),
        spec_cpu_wf(final(cpu)@),
{
    proof {
        reveal(spec_jp);
    }
    let addr = cpu.read16(target);
    if cond.eval(cpu) {
        cpu.registers.pc = addr;
        Timing::Conditionnal
    } else {
        Timing::Normal
    }
}

pub fn call(cpu: &mut Cpu, cond: Condition, target: Operand16) -> (t: Timing)
    requires
        spec_cpu_wf(old(cpu)@),
    ensures
        (final(cpu)@, t) == spec_call(old(cpu)@, cond, target),
        spec_cpu_wf(final(cpu)@),
{
    proof {
        reveal(spec_call);
    }
    let addr = cpu.read16(target);
    if cond.eval(cpu) {
        let pc = cpu.registers.pc;
        cpu.push16(pc);
        cpu.registers.pc = addr;
        Timing::Conditionnal
    } else {
        Timing::Normal
    }
}

pub fn ret(cpu: &mut Cpu, cond: Condition) -> (t: Timing)
    requires
        spec_cpu_wf(old(cpu)@),
    ensures
        (final(cpu)@, t) == spec_ret(old(cpu)@, cond),
        spec_cpu_wf(final(cpu)@),
{
    proof {
        reveal(spec_ret);
    }
    if cond.eval(cpu) {
        let pc = cpu.pop16();
        cpu.registers.pc = pc;
        Timing::Conditionnal
    } else {
        Timing::Normal
    }
}

pub fn rst(cpu: &mut Cpu, vector: u8) -> (t: Timing)
    requires
        spec_cpu_wf(old(cpu)@),
    ensures
        (final(cpu)@, t) == spec_rst(old(cpu)@, vector),
        spec_cpu_wf(final(cpu)@),
{
    proof {
        reveal(spec_rst);
    }
    let pc = cpu.registers.pc;
    cpu.push16(pc);
    cpu.registers.pc = vector as u16;
    Timing::Normal
}

pub fn push(cpu: &mut Cpu, src: Operand16) -> (t: Timing)
    requires
        spec_cpu_wf(old(cpu)@),
    ensures
        (final(cpu)@, t) == spec_push_op(old(cpu)@, src),
        spec_cpu_wf(final(cpu)@),
{
    proof {
        reveal(spec_push_op);
    }
    let value = cpu.read16(src);
    cpu.push16(value);
    Timing::Normal
}

pub fn pop(cpu: &mut Cpu, dest: Operand16) -> (t: Timing)
    requires
        spec_cpu_wf(old(cpu)@),
    ensures
        (final(cpu)@, t) == spec_pop_op(old(cpu)@, dest),
        spec_cpu_wf(final(cpu)@),
{
    proof {
        reveal(spec_pop_op);
    }
    let value = cpu.pop16();
    cpu.write16(dest, value);
    Timing::Normal
}

pub fn ei(cpu: &mut Cpu) -> (t: Timing)
    ensures
        (final(cpu)@, t) == spec_ei(old(cpu)@),
        spec_cpu_wf(old(cpu)@) ==> spec_cpu_wf(final(cpu)@),
{
    proof {
        reveal(spec_ei);
    }
    cpu.ime_delay = true;
    Timing::Normal
}

pub fn di(cpu: &mut Cpu) -> (t: Timing)
    ensures
        (final(cpu)@, t) == spec_di(old(cpu)@),
        spec_cpu_wf(old(cpu)@) ==> spec_cpu_wf(final(cpu)@),
{
    proof {
        reveal(spec_di);
    }
    cpu.set_interrupts(false);
    Timing::Normal
}

pub fn reti(cpu: &mut Cpu) -> (t: Timing)
    requires
        spec_cpu_wf(old(cpu)@),
    ensures
        (final(cpu)@, t) == spec_reti(old(cpu)@),
        spec_cpu_wf(final(cpu)@),
{
    proof {
        reveal(spec_reti);
    }
    cpu.set_interrupts(true);
    ret(cpu, Condition::Unconditional)
}

pub fn daa(cpu: &mut Cpu) -> (t: Timing)
    ensures
        (final(cpu)@, t) == spec_daa(old(cpu)@),
        spec_cpu_wf(old(cpu)@) ==> spec_cpu_wf(final(cpu)@),
{
    proof {
        reveal(spec_daa);
    }
    let mut a = cpu.registers.a;
    let c = cpu.registers.f.carry;
    let hc = cpu.registers.f.half_carry;
    let n = cpu.registers.f.subtract;
    let mut carry = c;

    if !n {
        if c || a > 0x99 {
            a = a.wrapping_add(0x60);
            carry = true;
        }
        if hc || (a & 0x0F) > 0x09 {
            a = a.wrapping_add(0x06);
        }
    } else {
        if c {
            a = a.wrapping_sub(0x60);
        }
        if hc {
            a = a.wrapping_sub(0x06);
        }
    }
    cpu.registers.a = a;
    cpu.registers.f = Flags { zero: a == 0, subtract: n, half_carry: false, carry };
    Timing::Normal
}

pub fn cpl(cpu: &mut Cpu) -> (t: Timing)
    ensures
        (final(cpu)@, t) == spec_cpl(old(cpu)@),
        spec_cpu_wf(old(cpu)@) ==> spec_cpu_wf(final(cpu)@),
{
    proof {
        reveal(spec_cpl);
    }
    cpu.registers.a = !cpu.registers.a;
    cpu.registers.f = Flags { subtract: true, half_carry: true, ..cpu.registers.f };
    Timing::Normal
}

pub fn scf(cpu: &mut Cpu) -> (t: Timing)
    ensures
        (final(cpu)@, t) == spec_scf(old(cpu)@),
        spec_cpu_wf(old(cpu)@) ==> spec_cpu_wf(final(cpu)@),
{
    proof {
        reveal(spec_scf);
    }
    cpu.registers.f = Flags {
        subtract: false,
        half_carry: false,
        carry: true,
        ..cpu.registers.f
    };
    Timing::Normal
}

pub fn ccf(cpu: &mut Cpu) -> (t: Timing)
    ensures
        (final(cpu)@, t) == spec_ccf(old(cpu)@),
        spec_cpu_wf(old(cpu)@) ==> spec_cpu_wf(final(cpu)@),
{
    proof {
        reveal(spec_ccf);
    }
    cpu.registers.f = Flags {
        subtract: false,
        half_carry: false,
        carry: !cpu.registers.f.carry,
        ..cpu.registers.f
    };
    Timing::Normal
}

pub fn halt(cpu: &mut Cpu) -> (t: Timing)
    ensures
        (final(cpu)@, t) == spec_halt(old(cpu)@),
        spec_cpu_wf(old(cpu)@) ==> spec_cpu_wf(final(cpu)@),
{
    proof {
        reveal(spec_halt);
    }
    cpu.halted = true;
    Timing::Normal
}

pub fn bit(cpu: &mut Cpu, n: u8, loc: Operand8) -> (t: Timing)
    requires
        spec_cpu_wf(old(cpu)@),
        n < 8,
    ensures
        (final(cpu)@, t) == spec_bit_op(old(cpu)@, n, loc),
        spec_cpu_wf(final(cpu)@),
{
    proof {
        reveal(spec_bit_op);
    }
    let value = cpu.read8(loc);
    cpu.registers.f = Flags {
        zero: value & (1u8 << n) == 0,
        subtract: false,
        half_carry: true,
        carry: cpu.registers.f.carry,
    };
    Timing::Normal
}

pub fn res(cpu: &mut Cpu, n: u8, loc: Operand8) -> (t: Timing)
    requires
        spec_cpu_wf(old(cpu)@),
        n < 8,
    ensures
        (final(cpu)@, t) == spec_res_op(old(cpu)@, n, loc),
        spec_cpu_wf(final(cpu)@),
{
    proof {
        reveal(spec_res_op);
    }
    let value = cpu.read8(loc);
    let result = value & !(1u8 << n);
    cpu.write8(loc, result);
    Timing::Normal
}

pub fn set(cpu: &mut Cpu, n: u8, loc: Operand8) -> (t: Timing)
    requires
        spec_cpu_wf(old(cpu)@),
        n < 8,
    ensures
        (final(cpu)@, t) == spec_set_op(old(cpu)@, n, loc),
        spec_cpu_wf(final(cpu)@),
{
    proof {
        reveal(spec_set_op);
    }
    let value = cpu.read8(loc);
    let result = value | (1u8 << n);
    cpu.write8(loc, result);
    Timing::Normal
}

} // verus!
