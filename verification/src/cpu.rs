//! The CPU: the register file, the interrupt master enable with its
//! one-instruction EI delay, the HALT latch, and the bus. Operands are a
//! tagged choice of addressing modes; reading or writing one may fetch
//! immediate bytes (advancing PC) and touch the bus.

use vstd::prelude::*;
use crate::instructions::{
    execute_prefixed, execute_unprefixed, get_prefixed_instruction, get_unprefixed_instruction,
    spec_execute_prefixed, spec_execute_unprefixed, spec_prefixed_cycles, spec_unprefixed_cycles,
    Timing,
};
use crate::interrupt::{spec_consume, spec_pending};
use crate::mmu::{spec_bus_read, spec_bus_write, spec_mmu_wf, Mmu, MmuV};
use crate::registers::{
    spec_reg_read16, spec_reg_read8, spec_reg_write16, spec_reg_write8, Reg16, Reg8, Registers,
};
use crate::util::{bytes_to_word, spec_word};

verus! {

/// An 8-bit operand: a register, an immediate byte, memory through a register
/// pair, memory at an immediate word, or the zero page at 0xFF00 plus a
/// register or an immediate byte.
#[derive(Clone, Copy, Debug, PartialEq, Eq, Structural)]
pub enum Operand8 {
    Reg(Reg8),
    Imm,
    Ind(Reg16),
    IndImm,
    ZeroPage(Reg8),
    ZeroPageImm,
}

/// A 16-bit operand: a register pair, an immediate word, or memory at an
/// immediate word (two bytes, little-endian).
#[derive(Clone, Copy, Debug, PartialEq, Eq, Structural)]
pub enum Operand16 {
    Reg(Reg16),
    Imm,
    IndImm,
}

pub struct Cpu {
    pub registers: Registers,
    pub ime: bool,
    /// Set by EI: IME turns on only after the next instruction has run.
    pub ime_delay: bool,
    pub halted: bool,
    pub mmu: Mmu,
}

/// The mathematical value of the CPU together with its bus.
#[verifier::ext_equal]
pub struct CpuV {
    pub registers: Registers,
    pub ime: bool,
    pub ime_delay: bool,
    pub halted: bool,
    pub mmu: MmuV,
}

impl View for Cpu {
    type V = CpuV;

    open spec fn view(&self) -> CpuV {
        CpuV {
            registers: self.registers,
            ime: self.ime,
            ime_delay: self.ime_delay,
            halted: self.halted,
            mmu: self.mmu@,
        }
    }
}

/// A CPU is well formed when its bus is.
pub open spec fn spec_cpu_wf(c: CpuV) -> bool {
    spec_mmu_wf(c.mmu)
}

/// PC advanced by one, wrapping.
pub open spec fn spec_pc_next(pc: u16) -> u16 {
    if pc == 0xFFFF {
        0
    } else {
        (pc + 1) as u16
    }
}

/// The byte at PC and the CPU with PC advanced.
#[verifier::opaque]
pub open spec fn spec_fetch8(c: CpuV) -> (u8, CpuV) {
    let v = spec_bus_read(c.mmu, c.registers.pc);
    (
        v,
        CpuV { registers: Registers { pc: spec_pc_next(c.registers.pc), ..c.registers }, ..c },
    )
}

/// Two fetched bytes composed little-endian, and the CPU with PC advanced
/// twice.
#[verifier::opaque]
pub open spec fn spec_fetch16(c: CpuV) -> (u16, CpuV) {
    let (lsb, c1) = spec_fetch8(c);
    let (msb, c2) = spec_fetch8(c1);
    (spec_word(msb, lsb), c2)
}

/// The value an 8-bit operand reads, and the CPU afterwards (immediate modes
/// advance PC).
#[verifier::opaque]
pub open spec fn spec_read8(c: CpuV, op: Operand8) -> (u8, CpuV) {
    match op {
        Operand8::Reg(r) => (spec_reg_read8(c.registers, r), c),
        Operand8::Imm => spec_fetch8(c),
        Operand8::Ind(rr) => (spec_bus_read(c.mmu, spec_reg_read16(c.registers, rr)), c),
        Operand8::IndImm => {
            let (addr, c1) = spec_fetch16(c);
            (spec_bus_read(c1.mmu, addr), c1)
        },
        Operand8::ZeroPage(r) => (
            spec_bus_read(c.mmu, (0xFF00 + spec_reg_read8(c.registers, r)) as u16),
            c,
        ),
        Operand8::ZeroPageImm => {
            let (n, c1) = spec_fetch8(c);
            (spec_bus_read(c1.mmu, (0xFF00 + n) as u16), c1)
        },
    }
}

/// The CPU after an 8-bit operand is written. Writing the immediate mode has
/// no destination and leaves the CPU unchanged; no instruction uses it.
#[verifier::opaque]
pub open spec fn spec_write8(c: CpuV, op: Operand8, v: u8) -> CpuV {
    match op {
        Operand8::Reg(r) => CpuV { registers: spec_reg_write8(c.registers, r, v), ..c },
        Operand8::Imm => c,
        Operand8::Ind(rr) => CpuV {
            mmu: spec_bus_write(c.mmu, spec_reg_read16(c.registers, rr), v),
            ..c
        },
        Operand8::IndImm => {
            let (addr, c1) = spec_fetch16(c);
            CpuV { mmu: spec_bus_write(c1.mmu, addr, v), ..c1 }
        },
        Operand8::ZeroPage(r) => CpuV {
            mmu: spec_bus_write(c.mmu, (0xFF00 + spec_reg_read8(c.registers, r)) as u16, v),
            ..c
        },
        Operand8::ZeroPageImm => {
            let (n, c1) = spec_fetch8(c);
            CpuV { mmu: spec_bus_write(c1.mmu, (0xFF00 + n) as u16, v), ..c1 }
        },
    }
}

/// The value a 16-bit operand reads, and the CPU afterwards. The
/// memory-indirect mode reads two bytes little-endian.
#[verifier::opaque]
pub open spec fn spec_read16(c: CpuV, op: Operand16) -> (u16, CpuV) {
    match op {
        Operand16::Reg(rr) => (spec_reg_read16(c.registers, rr), c),
        Operand16::Imm => spec_fetch16(c),
        Operand16::IndImm => {
            let (addr, c1) = spec_fetch16(c);
            (
                spec_word(
                    spec_bus_read(c1.mmu, spec_pc_any(addr)),
                    spec_bus_read(c1.mmu, addr),
                ),
                c1,
            )
        },
    }
}

/// An address advanced by one, wrapping; used for the high byte of a 16-bit
/// memory operand.
pub open spec fn spec_pc_any(addr: u16) -> u16 {
    if addr == 0xFFFF {
        0
    } else {
        (addr + 1) as u16
    }
}

/// The CPU after a 16-bit operand is written. The memory-indirect mode writes
/// the low byte first, then the high byte one address up.
#[verifier::opaque]
pub open spec fn spec_write16(c: CpuV, op: Operand16, v: u16) -> CpuV {
    match op {
        Operand16::Reg(rr) => CpuV { registers: spec_reg_write16(c.registers, rr, v), ..c },
        Operand16::Imm => c,
        Operand16::IndImm => {
            let (addr, c1) = spec_fetch16(c);
            CpuV {
                mmu: spec_bus_write(
                    spec_bus_write(c1.mmu, addr, v as u8),
                    spec_pc_any(addr),
                    (v >> 8) as u8,
                ),
                ..c1
            }
        },
    }
}

/// The CPU after a byte is pushed: SP drops by one and the byte lands there.
#[verifier::opaque]
pub open spec fn spec_push8(c: CpuV, v: u8) -> CpuV {
    let sp2 = if c.registers.sp == 0 {
        0xFFFFu16
    } else {
        (c.registers.sp - 1) as u16
    };
    CpuV {
        registers: Registers { sp: sp2, ..c.registers },
        mmu: spec_bus_write(c.mmu, sp2, v),
        ..c
    }
}

/// The CPU after a word is pushed: high byte first, then the low byte below
/// it.
#[verifier::opaque]
pub open spec fn spec_push16(c: CpuV, v: u16) -> CpuV {
    spec_push8(spec_push8(c, (v >> 8) as u8), v as u8)
}

/// The byte popped from SP, and the CPU with SP raised by one.
#[verifier::opaque]
pub open spec fn spec_pop8(c: CpuV) -> (u8, CpuV) {
    let v = spec_bus_read(c.mmu, c.registers.sp);
    (
        v,
        CpuV { registers: Registers { sp: spec_pc_any(c.registers.sp), ..c.registers }, ..c },
    )
}

/// The word popped from SP: low byte first, then the high byte above it.
#[verifier::opaque]
pub open spec fn spec_pop16(c: CpuV) -> (u16, CpuV) {
    let (lsb, c1) = spec_pop8(c);
    let (msb, c2) = spec_pop8(c1);
    (spec_word(msb, lsb), c2)
}

impl Cpu {
    /// A CPU over the given bus, in the power-on state: registers as
    /// `Registers::new`, interrupts enabled, not halted.
    pub fn new(mmu: Mmu) -> (r: Cpu)
        ensures
            r@.registers == Registers::new_spec(),
            r@.ime,
            !r@.ime_delay,
            !r@.halted,
            r@.mmu == mmu@,
    {
        Cpu { registers: Registers::new(), ime: true, ime_delay: false, halted: false, mmu }
    }

    /// Fetches the byte at PC, advancing PC.
    pub fn fetch_u8(&mut self) -> (v: u8)
        requires
            spec_cpu_wf(old(self)@),
        ensures
            (v, final(self)@) == spec_fetch8(old(self)@),
            spec_cpu_wf(final(self)@),
    {
        proof {
            reveal(spec_fetch8);
        }
        let pc = self.registers.pc;
        self.registers.pc = pc.wrapping_add(1);
        self.mmu.read(pc)
    }

    /// Fetches two bytes at PC, composed little-endian.
    pub fn fetch_u16(&mut self) -> (v: u16)
        requires
            spec_cpu_wf(old(self)@),
        ensures
            (v, final(self)@) == spec_fetch16(old(self)@),
            spec_cpu_wf(final(self)@),
    {
        proof {
            reveal(spec_fetch16);
        }
        let lsb = self.fetch_u8();
        let msb = self.fetch_u8();
        bytes_to_word(msb, lsb)
    }

    /// Pushes a byte: SP drops by one, the byte goes through the bus.
    pub fn push(&mut self, value: u8)
        requires
            spec_cpu_wf(old(self)@),
        ensures
            final(self)@ == spec_push8(old(self)@, value),
            spec_cpu_wf(final(self)@),
    {
        proof {
            reveal(spec_push8);
        }
        let new_sp = self.registers.sp.wrapping_sub(1);
        self.registers.sp = new_sp;
        self.mmu.write(new_sp, value);
    }

    /// Pushes a word, high byte first.
    pub fn push16(&mut self, value: u16)
        requires
            spec_cpu_wf(old(self)@),
        ensures
            final(self)@ == spec_push16(old(self)@, value),
            spec_cpu_wf(final(self)@),
    {
        proof {
            reveal(spec_push16);
        }
        let lsb = value as u8;
        let msb = (value >> 8) as u8;
        self.push(msb);
        self.push(lsb);
    }

    /// Pops a byte: the byte at SP, with SP raised by one.
    pub fn pop(&mut self) -> (v: u8)
        requires
            spec_cpu_wf(old(self)@),
        ensures
            (v, final(self)@) == spec_pop8(old(self)@),
            spec_cpu_wf(final(self)@),
    {
        proof {
            reveal(spec_pop8);
        }
        let sp = self.registers.sp;
        self.registers.sp = sp.wrapping_add(1);
        self.mmu.read(sp)
    }

    /// Pops a word, low byte first.
    pub fn pop16(&mut self) -> (v: u16)
        requires
            spec_cpu_wf(old(self)@),
        ensures
            (v, final(self)@) == spec_pop16(old(self)@),
            spec_cpu_wf(final(self)@),
    {
        proof {
            reveal(spec_pop16);
        }
        let lsb = self.pop();
        let msb = self.pop();
        bytes_to_word(msb, lsb)
    }

    /// Sets the interrupt master enable immediately and clears a pending EI
    /// delay.
    pub fn set_interrupts(&mut self, active: bool)
        ensures
            final(self)@ == (CpuV { ime: active, ime_delay: false, ..old(self)@ }),
    {
        self.ime = active;
        self.ime_delay = false;
    }

    /// The interrupt entry sequence: IME off, PC pushed, PC set to the
    /// vector.
    pub fn interrupt(&mut self, value: u8)
        requires
            spec_cpu_wf(old(self)@),
        ensures
            final(self)@ == spec_interrupt(old(self)@, value),
            spec_cpu_wf(final(self)@),
    {
        self.set_interrupts(false);
        self.push16(self.registers.pc);
        self.registers.pc = value as u16;
    }

    /// STOP is recognized but, with no attached display or joypad to wake the
    /// core, acts as a no-op; the reference behaves the same way.
    pub fn stop(&mut self)
        ensures
            final(self)@ == old(self)@,
    {
    }

    /// Reads an 8-bit operand.
    pub fn read8(&mut self, op: Operand8) -> (v: u8)
        requires
            spec_cpu_wf(old(self)@),
        ensures
            (v, final(self)@) == spec_read8(old(self)@, op),
            spec_cpu_wf(final(self)@),
    {
        proof {
            reveal(spec_read8);
        }
        match op {
            Operand8::Reg(r) => self.registers.read_u8(r),
            Operand8::Imm => self.fetch_u8(),
            Operand8::Ind(rr) => {
                let addr = self.registers.read_u16(rr);
                self.mmu.read(addr)
            },
            Operand8::IndImm => {
                let addr = self.fetch_u16();
                self.mmu.read(addr)
            },
            Operand8::ZeroPage(r) => {
                let n = self.registers.read_u8(r);
                self.mmu.read(0xFF00 + n as u16)
            },
            Operand8::ZeroPageImm => {
                let n = self.fetch_u8();
                self.mmu.read(0xFF00 + n as u16)
            },
        }
    }

    /// Writes an 8-bit operand.
    pub fn write8(&mut self, op: Operand8, value: u8)
        requires
            spec_cpu_wf(old(self)@),
        ensures
            final(self)@ == spec_write8(old(self)@, op, value),
            spec_cpu_wf(final(self)@),
    {
        proof {
            reveal(spec_write8);
        }
        match op {
            Operand8::Reg(r) => self.registers.write_u8(r, value),
            Operand8::Imm => {},
            Operand8::Ind(rr) => {
                let addr = self.registers.read_u16(rr);
                self.mmu.write(addr, value);
            },
            Operand8::IndImm => {
                let addr = self.fetch_u16();
                self.mmu.write(addr, value);
            },
            Operand8::ZeroPage(r) => {
                let n = self.registers.read_u8(r);
                self.mmu.write(0xFF00 + n as u16, value);
            },
            Operand8::ZeroPageImm => {
                let n = self.fetch_u8();
                self.mmu.write(0xFF00 + n as u16, value);
            },
        }
    }

    /// Reads a 16-bit operand.
    pub fn read16(&mut self, op: Operand16) -> (v: u16)
        requires
            spec_cpu_wf(old(self)@),
        ensures
            (v, final(self)@) == spec_read16(old(self)@, op),
            spec_cpu_wf(final(self)@),
    {
        proof {
            reveal(spec_read16);
        }
        match op {
            Operand16::Reg(rr) => self.registers.read_u16(rr),
            Operand16::Imm => self.fetch_u16(),
            Operand16::IndImm => {
                let addr = self.fetch_u16();
                let lsb = self.mmu.read(addr);
                let msb = self.mmu.read(addr.wrapping_add(1));
                bytes_to_word(msb, lsb)
            },
        }
    }

    /// Writes a 16-bit operand; the memory-indirect mode writes the word
    /// little-endian.
    pub fn write16(&mut self, op: Operand16, value: u16)
        requires
            spec_cpu_wf(old(self)@),
        ensures
            final(self)@ == spec_write16(old(self)@, op, value),
            spec_cpu_wf(final(self)@),
    {
        proof {
            reveal(spec_write16);
        }
        match op {
            Operand16::Reg(rr) => self.registers.write_u16(rr, value),
            Operand16::Imm => {},
            Operand16::IndImm => {
                let addr = self.fetch_u16();
                let lsb = value as u8;
                let msb = (value >> 8) as u8;
                self.mmu.write(addr, lsb);
                self.mmu.write(addr.wrapping_add(1), msb);
            },
        }
    }
}

/// The address the first pushed byte lands at: one below SP, wrapping.
pub open spec fn spec_stack_top1(c: CpuV) -> u16 {
    if c.registers.sp == 0 {
        0xFFFFu16
    } else {
        (c.registers.sp - 1) as u16
    }
}

/// The address the second pushed byte lands at: two below SP, wrapping.
pub open spec fn spec_stack_top2(c: CpuV) -> u16 {
    if spec_stack_top1(c) == 0 {
        0xFFFFu16
    } else {
        (spec_stack_top1(c) - 1) as u16
    }
}

/// Two adjacent addresses never redirect to the same backing byte: the echo
/// region shifts a whole 0x2000 down, so neighbours stay apart.
pub proof fn lemma_effective_adjacent_distinct(a: u16)
    ensures
        crate::mmu::spec_effective_addr(a) != crate::mmu::spec_effective_addr(spec_pc_any(a)),
{
}

/// The interrupt entry sequence as a value: IME (and any EI delay) cleared,
/// PC pushed, PC set to the vector.
pub open spec fn spec_interrupt(c: CpuV, vector: u8) -> CpuV {
    let c1 = CpuV { ime: false, ime_delay: false, ..c };
    let c2 = spec_push16(c1, c.registers.pc);
    CpuV { registers: Registers { pc: vector as u16, ..c2.registers }, ..c2 }
}

/// The cycle cost an instruction's timing tag selects from a descriptor's
/// pair of costs: the conditional cost when the branch was taken and one
/// exists, the base cost otherwise.
pub open spec fn spec_cycles_for(cyc: (u8, Option<u8>), t: Timing) -> u8 {
    match t {
        Timing::Conditionnal => match cyc.1 {
            Some(x) => x,
            None => cyc.0,
        },
        _ => cyc.0,
    }
}

/// One fetch-dispatch-execute round and its clock cost: a halted CPU idles
/// for one four-clock quantum; 0xCB fetches a second byte and dispatches in
/// the prefixed table; a descriptorless opcode is a four-clock no-op.
pub open spec fn spec_execute_instruction(c: CpuV) -> (CpuV, u8) {
    if c.halted {
        (c, 4)
    } else {
        let (op, c1) = spec_fetch8(c);
        if op == 0xCB {
            let (op2, c2) = spec_fetch8(c1);
            let (c3, t) = spec_execute_prefixed(c2, op2);
            (c3, spec_prefixed_cycles(op2).0)
        } else {
            let (c2, t) = spec_execute_unprefixed(c1, op);
            (c2, spec_cycles_for(spec_unprefixed_cycles(op), t))
        }
    }
}

/// The interrupt check at an instruction boundary: a halted CPU wakes on any
/// pending line whatever IME says; with IME set and a line pending the entry
/// sequence runs (20 clocks) and the line's IF bit is consumed; otherwise
/// nothing happens (0 clocks).
pub open spec fn spec_handle_interrupts(c: CpuV) -> (CpuV, u8) {
    let pend = spec_pending(c.mmu.interrupt_controller);
    let c1 = if c.halted && (pend is Some) {
        CpuV { halted: false, ..c }
    } else {
        c
    };
    if !c1.ime {
        (c1, 0)
    } else {
        match pend {
            None => (c1, 0),
            Some(v) => {
                let c2 = CpuV {
                    mmu: MmuV {
                        interrupt_controller: spec_consume(c1.mmu.interrupt_controller),
                        ..c1.mmu
                    },
                    ..c1
                };
                (CpuV { halted: false, ..spec_interrupt(c2, v) }, 20)
            },
        }
    }
}

/// One whole CPU step and its clock cost: the interrupt check first; a CPU
/// still halted afterwards idles for 4 clocks; otherwise one instruction
/// runs, and an EI armed before this instruction turns IME on after it.
pub open spec fn spec_cpu_step(c: CpuV) -> (CpuV, u8) {
    let ei_pending = c.ime_delay;
    let (c1, serviced) = spec_handle_interrupts(c);
    if serviced != 0 {
        (c1, serviced)
    } else if c1.halted {
        (c1, 4)
    } else {
        let (c2, cycles) = spec_execute_instruction(c1);
        if ei_pending && c2.ime_delay {
            (CpuV { ime: true, ime_delay: false, ..c2 }, cycles)
        } else {
            (c2, cycles)
        }
    }
}

impl Cpu {
    /// Fetches and executes one instruction and returns its clock cost; a
    /// halted CPU idles for one quantum. An opcode without a descriptor (the
    /// hard-illegal ones) runs as a four-clock no-op rather than locking up.
    pub fn execute_instruction(&mut self) -> (clocks: u8)
        requires
            spec_cpu_wf(old(self)@),
        ensures
            (final(self)@, clocks) == spec_execute_instruction(old(self)@),
            spec_cpu_wf(final(self)@),
    {
        if self.halted {
            return 4;
        }
        let opcode = self.fetch_u8();
        if opcode == 0xCB {
            let op2 = self.fetch_u8();
            execute_prefixed(self, op2);
            match get_prefixed_instruction(op2) {
                Some(instruction) => instruction.c_cycles,
                None => 4,
            }
        } else {
            let t = execute_unprefixed(self, opcode);
            match get_unprefixed_instruction(opcode) {
                Some(instruction) => match t {
                    Timing::Normal => instruction.c_cycles,
                    Timing::Conditionnal => match instruction.conditional_c_cycles {
                        Some(cycles) => cycles,
                        None => instruction.c_cycles,
                    },
                    Timing::Prefixed => instruction.c_cycles,
                },
                None => {
                    proof {
                        crate::instructions::lemma_descriptorless_cycles(opcode);
                    }
                    4
                },
            }
        }
    }

    /// The interrupt check at an instruction boundary: wakes a halted CPU on
    /// any pending line, and with IME set services the winning line: 20
    /// clocks, or 0 when nothing was serviced.
    pub fn handle_interrupts(&mut self) -> (clocks: u8)
        requires
            spec_cpu_wf(old(self)@),
        ensures
            (final(self)@, clocks) == spec_handle_interrupts(old(self)@),
            spec_cpu_wf(final(self)@),
    {
        if self.halted {
            if self.mmu.interrupt_controller.peek().is_some() {
                self.halted = false;
            }
        }
        if !self.ime {
            return 0;
        }
        let value = match self.mmu.interrupt_controller.consume() {
            Some(v) => v,
            None => {
                return 0;
            },
        };
        self.interrupt(value);
        self.halted = false;
        20
    }

    /// One whole CPU step: the interrupt check, then one instruction (or an
    /// idle quantum while halted), with the EI delay resolved at the end.
    pub fn step(&mut self) -> (clocks: u8)
        requires
            spec_cpu_wf(old(self)@),
        ensures
            (final(self)@, clocks) == spec_cpu_step(old(self)@),
            spec_cpu_wf(final(self)@),
    {
        let ei_pending = self.ime_delay;
        let serviced = self.handle_interrupts();
        if serviced != 0 {
            return serviced;
        }
        if self.halted {
            return 4;
        }
        let cycles = self.execute_instruction();
        if ei_pending && self.ime_delay {
            self.ime = true;
            self.ime_delay = false;
        }
        cycles
    }
}

// --- Which primitives leave the flag register alone -------------------------

pub proof fn lemma_fetch8_keeps_flags(c: CpuV)
    ensures
        spec_fetch8(c).1.registers.f == c.registers.f,
{
    reveal(spec_fetch8);
}

pub proof fn lemma_fetch16_keeps_flags(c: CpuV)
    ensures
        spec_fetch16(c).1.registers.f == c.registers.f,
{
    reveal(spec_fetch16);
    reveal(spec_fetch8);
}

pub proof fn lemma_read8_keeps_flags(c: CpuV, op: Operand8)
    ensures
        spec_read8(c, op).1.registers.f == c.registers.f,
{
    reveal(spec_read8);
    reveal(spec_fetch8);
    reveal(spec_fetch16);
}

pub proof fn lemma_write8_keeps_flags(c: CpuV, op: Operand8, v: u8)
    requires
        op != Operand8::Reg(Reg8::F),
    ensures
        spec_write8(c, op, v).registers.f == c.registers.f,
{
    reveal(spec_write8);
    reveal(spec_fetch8);
    reveal(spec_fetch16);
}

pub proof fn lemma_read16_keeps_flags(c: CpuV, op: Operand16)
    ensures
        spec_read16(c, op).1.registers.f == c.registers.f,
{
    reveal(spec_read16);
    reveal(spec_fetch8);
    reveal(spec_fetch16);
}

pub proof fn lemma_write16_keeps_flags(c: CpuV, op: Operand16, v: u16)
    requires
        op != Operand16::Reg(Reg16::AF),
    ensures
        spec_write16(c, op, v).registers.f == c.registers.f,
{
    reveal(spec_write16);
    reveal(spec_fetch8);
    reveal(spec_fetch16);
}

pub proof fn lemma_push16_keeps_flags(c: CpuV, v: u16)
    ensures
        spec_push16(c, v).registers.f == c.registers.f,
{
    reveal(spec_push16);
    reveal(spec_push8);
}

pub proof fn lemma_pop16_keeps_flags(c: CpuV)
    ensures
        spec_pop16(c).1.registers.f == c.registers.f,
{
    reveal(spec_pop16);
    reveal(spec_pop8);
}

} // verus!
