//! The top-level session: the CPU (which owns the bus and the devices), the
//! handler registrations of the core devices, and the synchronous heartbeat
//! that forwards each CPU step's clock count to the timer and the serial
//! unit.

use vstd::prelude::*;
use crate::cpu::{spec_cpu_step, spec_cpu_wf, Cpu, CpuV};
use crate::mbc::{spec_boot_rom_len_ok, Mbc, MbcError, MbcType};
use crate::mmu::{spec_peripheral_step, HandlerId, Mmu, MmuV};
use crate::registers::Registers;

verus! {

/// The whole core as one value.
pub struct System {
    pub cpu: Cpu,
}

impl View for System {
    type V = CpuV;

    open spec fn view(&self) -> CpuV {
        self.cpu@
    }
}

/// The handler registrations `System::new` makes, in order: the cartridge
/// shell over ROM, the boot-ROM unmap latch and external RAM; the interrupt
/// controller at IF and IE; the serial unit at SB/SC; the timer at its four
/// registers.
pub open spec fn spec_system_handlers() -> Seq<(u16, u16, HandlerId)> {
    seq![
        (0x0000u16, 0x7FFFu16, HandlerId::Mbc),
        (0xFF50u16, 0xFF50u16, HandlerId::Mbc),
        (0xA000u16, 0xBFFFu16, HandlerId::Mbc),
        (0xFF0Fu16, 0xFF0Fu16, HandlerId::InterruptController),
        (0xFFFFu16, 0xFFFFu16, HandlerId::InterruptController),
        (0xFF01u16, 0xFF02u16, HandlerId::Serial),
        (0xFF04u16, 0xFF07u16, HandlerId::Timer),
    ]
}

/// One heartbeat: the CPU steps, then the peripherals step by the same clock
/// count and their interrupt requests land in IF, visible to the next CPU
/// step.
pub open spec fn spec_system_step(c: CpuV) -> CpuV {
    let (c1, elapsed) = spec_cpu_step(c);
    CpuV { mmu: spec_peripheral_step(c1.mmu, elapsed as u16), ..c1 }
}

impl System {
    /// Builds the whole core: the cartridge shell (a domain error when the
    /// header names an unsupported controller), the bus with the core
    /// devices registered, and the CPU in its power-on state. With a boot
    /// ROM supplied, its overlay starts enabled and PC still starts at
    /// 0x0100 only once the overlay code has run; the register file itself
    /// starts in the post-boot state.
    pub fn new(boot_rom: Option<Vec<u8>>, rom: Vec<u8>) -> (r: Result<System, MbcError>)
        requires
            rom@.len() >= 0x150,
            boot_rom matches Some(b) ==> spec_boot_rom_len_ok(b@.len()),
        ensures
            rom@[0x147] != 0 ==> r == Result::<System, MbcError>::Err(
                MbcError::Unsupported(rom@[0x147]),
            ),
            rom@[0x147] == 0 ==> (r matches Ok(s) && spec_cpu_wf(s@) && s@.registers
                == Registers::new_spec() && s@.ime && !s@.ime_delay && !s@.halted
                && s@.mmu.handlers == spec_system_handlers() && (s@.mmu.mbc.cart.mbc matches
            MbcType::MbcNone(inner) && inner.rom == rom) && (match boot_rom {
                Some(b) => s@.mmu.mbc.boot_rom_enabled && s@.mmu.mbc.boot_rom == b,
                None => !s@.mmu.mbc.boot_rom_enabled,
            }) && s@.mmu.memory == Seq::new(0x10000, (|i: int| 0u8))),
    {
        let mbc = match Mbc::new(boot_rom, rom) {
            Ok(m) => m,
            Err(e) => {
                return Err(e);
            },
        };
        let mut mmu = Mmu::new(mbc);
        mmu.add_handler((0x0000, 0x7FFF), HandlerId::Mbc);
        mmu.add_handler((0xFF50, 0xFF50), HandlerId::Mbc);
        mmu.add_handler((0xA000, 0xBFFF), HandlerId::Mbc);
        mmu.add_handler((0xFF0F, 0xFF0F), HandlerId::InterruptController);
        mmu.add_handler((0xFFFF, 0xFFFF), HandlerId::InterruptController);
        mmu.add_handler((0xFF01, 0xFF02), HandlerId::Serial);
        mmu.add_handler((0xFF04, 0xFF07), HandlerId::Timer);
        proof {
            assert(mmu@.handlers =~= spec_system_handlers());
        }
        let cpu = Cpu::new(mmu);
        Ok(System { cpu })
    }

    /// One heartbeat of the core.
    pub fn step(&mut self)
        requires
            spec_cpu_wf(old(self)@),
        ensures
            final(self)@ == spec_system_step(old(self)@),
            spec_cpu_wf(final(self)@),
    {
        let elapsed = self.cpu.step();
        self.cpu.mmu.step_peripherals(elapsed as u16);
    }
}

} // verus!
