//! The memory bus: a 64 KiB backing store, a registry of layered handlers,
//! and the devices the handlers dispatch to. Reads take the first handler's
//! `Replace` value or fall through to the backing byte; writes are diverted,
//! blocked, or fall through likewise. The echo region 0xE000..0xFDFF aliases
//! 0xC000..0xDDFF for both fall-through reads and writes.

use vstd::prelude::*;
use crate::interrupt::{
    spec_ic_read, spec_ic_write, spec_request_empty, InterruptController, InterruptRequest,
};
use crate::mbc::{spec_mbc_read, spec_mbc_wf, spec_mbc_write, Mbc};
use crate::serial::{
    spec_serial_read, spec_serial_step, spec_serial_wf, spec_serial_write, Serial,
};
use crate::timer::{spec_timer_read, spec_timer_step, spec_timer_wf, spec_timer_write, Timer};

verus! {

/// A handler's reply to a read: divert the read to this byte, or let the
/// resolution continue.
#[derive(Clone, Copy, Debug, PartialEq, Eq, Structural)]
pub enum MemoryRead {
    Replace(u8),
    Pass,
}

/// A handler's reply to a write: write this byte to the backing store and
/// stop, let the resolution continue, or stop without touching the store.
#[derive(Clone, Copy, Debug, PartialEq, Eq, Structural)]
pub enum MemoryWrite {
    Replace(u8),
    Pass,
    Block,
}

/// The devices a handler registration can dispatch to. The registry names
/// devices rather than holding trait objects; the bus owns every device, so a
/// handler can never re-enter the bus and the reentrancy hazard is gone by
/// construction.
#[derive(Clone, Copy, Debug, PartialEq, Eq, Structural)]
pub enum HandlerId {
    Mbc,
    InterruptController,
    Timer,
    Serial,
}

/// The memory bus.
pub struct Mmu {
    pub memory: Vec<u8>,
    /// Inclusive address ranges with their device, in registration order.
    pub handlers: Vec<(u16, u16, HandlerId)>,
    pub mbc: Mbc,
    pub interrupt_controller: InterruptController,
    pub timer: Timer,
    pub serial: Serial,
}

/// The mathematical value of the bus: the backing store as a sequence, the
/// registry, and the devices.
#[verifier::ext_equal]
pub struct MmuV {
    pub memory: Seq<u8>,
    pub handlers: Seq<(u16, u16, HandlerId)>,
    pub mbc: Mbc,
    pub interrupt_controller: InterruptController,
    pub timer: Timer,
    pub serial: Serial,
}

impl View for Mmu {
    type V = MmuV;

    open spec fn view(&self) -> MmuV {
        MmuV {
            memory: self.memory@,
            handlers: self.handlers@,
            mbc: self.mbc,
            interrupt_controller: self.interrupt_controller,
            timer: self.timer,
            serial: self.serial,
        }
    }
}

/// A bus is well formed when the backing store covers the whole 64 KiB
/// address space and every device invariant holds.
pub open spec fn spec_mmu_wf(mv: MmuV) -> bool {
    &&& mv.memory.len() == 0x10000
    &&& spec_mbc_wf(mv.mbc)
    &&& spec_timer_wf(mv.timer)
    &&& spec_serial_wf(mv.serial)
}

/// Whether a registration covers an address.
pub open spec fn spec_handler_covers(e: (u16, u16, HandlerId), addr: u16) -> bool {
    e.0 <= addr && addr <= e.1
}

/// Fall-through addresses in the echo region redirect 0x2000 down.
pub open spec fn spec_effective_addr(addr: u16) -> u16 {
    if 0xE000 <= addr && addr <= 0xFDFF {
        (addr - 0x2000) as u16
    } else {
        addr
    }
}

/// What a device replies to a read.
pub open spec fn spec_device_read(mv: MmuV, id: HandlerId, addr: u16) -> MemoryRead {
    match id {
        HandlerId::Mbc => spec_mbc_read(mv.mbc, addr),
        HandlerId::InterruptController => spec_ic_read(mv.interrupt_controller, addr),
        HandlerId::Timer => spec_timer_read(mv.timer, addr),
        HandlerId::Serial => spec_serial_read(mv.serial, addr),
    }
}

/// The bus and a device's reply after the device absorbs a write.
pub open spec fn spec_device_write(mv: MmuV, id: HandlerId, addr: u16, value: u8) -> (
    MmuV,
    MemoryWrite,
) {
    match id {
        HandlerId::Mbc => {
            let (d, r) = spec_mbc_write(mv.mbc, addr, value);
            (MmuV { mbc: d, ..mv }, r)
        },
        HandlerId::InterruptController => {
            let (d, r) = spec_ic_write(mv.interrupt_controller, addr, value);
            (MmuV { interrupt_controller: d, ..mv }, r)
        },
        HandlerId::Timer => {
            let (d, r) = spec_timer_write(mv.timer, addr, value);
            (MmuV { timer: d, ..mv }, r)
        },
        HandlerId::Serial => {
            let (d, r) = spec_serial_write(mv.serial, addr, value);
            (MmuV { serial: d, ..mv }, r)
        },
    }
}

/// Read resolution from registry index `i` on: the first covering handler
/// that replies `Replace` decides; `None` when every handler passes.
#[verifier::opaque]
pub open spec fn spec_read_from(mv: MmuV, addr: u16, i: int) -> Option<u8>
    decreases mv.handlers.len() - i,
{
    if i < 0 || i >= mv.handlers.len() {
        None
    } else if spec_handler_covers(mv.handlers[i], addr) {
        match spec_device_read(mv, mv.handlers[i].2, addr) {
            MemoryRead::Replace(v) => Some(v),
            MemoryRead::Pass => spec_read_from(mv, addr, i + 1),
        }
    } else {
        spec_read_from(mv, addr, i + 1)
    }
}

/// The byte a bus read returns: the first handler's `Replace` value, or the
/// backing byte after echo redirection.
#[verifier::opaque]
pub open spec fn spec_bus_read(mv: MmuV, addr: u16) -> u8 {
    match spec_read_from(mv, addr, 0) {
        Some(v) => v,
        None => mv.memory[spec_effective_addr(addr) as int],
    }
}

/// Write resolution from registry index `i` on: the first covering handler
/// that replies `Replace` writes its byte to the backing store at the raw
/// address and stops; `Block` stops without touching the store; when every
/// handler passes, the value lands in the backing store after echo
/// redirection. Device state accumulates along the way.
#[verifier::opaque]
pub open spec fn spec_write_from(mv: MmuV, addr: u16, value: u8, i: int) -> MmuV
    decreases mv.handlers.len() - i,
{
    if i < 0 || i >= mv.handlers.len() {
        MmuV { memory: mv.memory.update(spec_effective_addr(addr) as int, value), ..mv }
    } else if spec_handler_covers(mv.handlers[i], addr) {
        let (mv2, resp) = spec_device_write(mv, mv.handlers[i].2, addr, value);
        match resp {
            MemoryWrite::Replace(v2) => MmuV { memory: mv2.memory.update(addr as int, v2), ..mv2 },
            MemoryWrite::Block => mv2,
            MemoryWrite::Pass => spec_write_from(mv2, addr, value, i + 1),
        }
    } else {
        spec_write_from(mv, addr, value, i + 1)
    }
}

/// The whole bus after a write.
#[verifier::opaque]
pub open spec fn spec_bus_write(mv: MmuV, addr: u16, value: u8) -> MmuV {
    spec_write_from(mv, addr, value, 0)
}

impl Mmu {
    /// A bus over a zeroed backing store with an empty registry; the
    /// interrupt controller, timer and serial unit start in their power-on
    /// state, the cartridge shell is taken as given.
    pub fn new(mbc: Mbc) -> (r: Mmu)
        requires
            spec_mbc_wf(mbc),
        ensures
            spec_mmu_wf(r@),
            r@.memory == Seq::new(0x10000, (|i: int| 0u8)),
            r@.handlers.len() == 0,
            r@.mbc == mbc,
            r@.interrupt_controller == InterruptController::spec_power_on(),
            r@.timer == (crate::timer::Timer {
                interrupt_request: spec_request_empty(),
                div: 0,
                tima: 0,
                tma: 0,
                tac: 0,
                div_clocks: 0,
                tima_clocks: 0,
                overflowed: false,
            }),
            r@.serial == (crate::serial::Serial {
                interrupt_request: spec_request_empty(),
                sb: 0,
                recv: 0xFF,
                transfer_enable: false,
                clock_speed: false,
                clock_select: true,
                clock: 0,
            }),
    {
        let mut memory: Vec<u8> = Vec::new();
        let mut i: usize = 0;
        while i < 0x10000
            invariant
                i <= 0x10000,
                memory@.len() == i,
                memory@ == Seq::new(i as nat, |j: int| 0u8),
            decreases 0x10000 - i,
        {
            memory.push(0);
            proof {
                assert(memory@ =~= Seq::new((i + 1) as nat, |j: int| 0u8));
            }
            i = i + 1;
        }
        proof {
            assert(memory@ =~= Seq::new(0x10000, |j: int| 0u8));
        }
        let interrupt_controller = InterruptController::new();
        let timer = Timer::new(interrupt_controller.request());
        let serial = Serial::new(interrupt_controller.request());
        Mmu { memory, handlers: Vec::new(), mbc, interrupt_controller, timer, serial }
    }

    /// Registers a handler for an inclusive address range. An empty range
    /// (low end above high end) is a registration error and is rejected: the
    /// registry is left unchanged.
    pub fn add_handler(&mut self, address_range: (u16, u16), handler: HandlerId)
        ensures
            address_range.0 <= address_range.1 ==> final(self)@ == (MmuV {
                handlers: old(self)@.handlers.push(
                    (address_range.0, address_range.1, handler),
                ),
                ..old(self)@
            }),
            address_range.0 > address_range.1 ==> final(self)@ == old(self)@,
    {
        if address_range.0 <= address_range.1 {
            self.handlers.push((address_range.0, address_range.1, handler));
        }
    }

    /// Resolves a read as the first covering handler directs, falling through
    /// to the backing store with echo redirection.
    pub fn read(&self, addr: u16) -> (r: u8)
        requires
            spec_mmu_wf(self@),
        ensures
            r == spec_bus_read(self@, addr),
    {
        proof {
            reveal(spec_read_from);
        }
        let n = self.handlers.len();
        let mut i: usize = 0;
        while i < n
            invariant
                spec_mmu_wf(self@),
                n == self@.handlers.len(),
                i <= n,
                spec_read_from(self@, addr, 0) == spec_read_from(self@, addr, i as int),
            decreases n - i,
        {
            proof {
                reveal(spec_read_from);
                reveal(spec_bus_read);
            }
            let (lo, hi, id) = self.handlers[i];
            if lo <= addr && addr <= hi {
                let resp = match id {
                    HandlerId::Mbc => self.mbc.read(addr),
                    HandlerId::InterruptController => self.interrupt_controller.read(addr),
                    HandlerId::Timer => self.timer.read(addr),
                    HandlerId::Serial => self.serial.read(addr),
                };
                match resp {
                    MemoryRead::Replace(value) => {
                        return value;
                    },
                    MemoryRead::Pass => {},
                }
            }
            i = i + 1;
        }
        proof {
            reveal(spec_read_from);
            reveal(spec_bus_read);
        }
        let eff = if 0xE000 <= addr && addr <= 0xFDFF {
            addr - 0x2000
        } else {
            addr
        };
        self.memory[eff as usize]
    }

    /// Resolves a write as the first covering handler directs, falling
    /// through to the backing store with echo redirection.
    pub fn write(&mut self, addr: u16, value: u8)
        requires
            spec_mmu_wf(old(self)@),
        ensures
            final(self)@ == spec_bus_write(old(self)@, addr, value),
            spec_mmu_wf(final(self)@),
    {
        proof {
            reveal(spec_write_from);
        }
        let n = self.handlers.len();
        let mut i: usize = 0;
        while i < n
            invariant
                spec_mmu_wf(self@),
                n == self@.handlers.len(),
                i <= n,
                spec_write_from(old(self)@, addr, value, 0) == spec_write_from(
                    self@,
                    addr,
                    value,
                    i as int,
                ),
            decreases n - i,
        {
            proof {
                reveal(spec_write_from);
                reveal(spec_bus_write);
            }
            let (lo, hi, id) = self.handlers[i];
            if lo <= addr && addr <= hi {
                let resp = match id {
                    HandlerId::Mbc => self.mbc.write(addr, value),
                    HandlerId::InterruptController => self.interrupt_controller.write(
                        addr,
                        value,
                    ),
                    HandlerId::Timer => self.timer.write(addr, value),
                    HandlerId::Serial => self.serial.write(addr, value),
                };
                match resp {
                    MemoryWrite::Replace(v2) => {
                        self.memory[addr as usize] = v2;
                        return ;
                    },
                    MemoryWrite::Block => {
                        return ;
                    },
                    MemoryWrite::Pass => {},
                }
            }
            i = i + 1;
        }
        proof {
            reveal(spec_write_from);
            reveal(spec_bus_write);
        }
        let eff = if 0xE000 <= addr && addr <= 0xFDFF {
            addr - 0x2000
        } else {
            addr
        };
        self.memory[eff as usize] = value;
    }

    /// Advances the timer and the serial unit by the elapsed clocks and
    /// delivers the interrupt requests they raised into the IF mask.
    pub fn step_peripherals(&mut self, elapsed: u16)
        requires
            spec_mmu_wf(old(self)@),
        ensures
            final(self)@ == spec_peripheral_step(old(self)@, elapsed),
            spec_mmu_wf(final(self)@),
    {
        self.timer.step(elapsed);
        let treq = self.timer.take_request();
        self.interrupt_controller.apply_request(treq);
        self.serial.step(elapsed);
        let sreq = self.serial.take_request();
        self.interrupt_controller.apply_request(sreq);
    }
}

/// The bus after the timer and the serial unit each take a step and their
/// requests land in the IF mask: the timer first, then the serial unit, each
/// request visible to the CPU's next step.
pub open spec fn spec_peripheral_step(mv: MmuV, elapsed: u16) -> MmuV {
    let t2 = spec_timer_step(mv.timer, elapsed);
    let ic2 = InterruptController {
        flags: crate::interrupt::spec_apply_request(
            mv.interrupt_controller.flags,
            t2.interrupt_request,
        ),
        ..mv.interrupt_controller
    };
    let s2 = spec_serial_step(mv.serial, elapsed);
    let ic3 = InterruptController {
        flags: crate::interrupt::spec_apply_request(ic2.flags, s2.interrupt_request),
        ..ic2
    };
    MmuV {
        timer: crate::timer::Timer { interrupt_request: spec_request_empty(), ..t2 },
        serial: crate::serial::Serial { interrupt_request: spec_request_empty(), ..s2 },
        interrupt_controller: ic3,
        ..mv
    }
}

/// No registration covers the address.
pub open spec fn spec_addr_unhandled(mv: MmuV, addr: u16) -> bool {
    forall|j: int|
        0 <= j < mv.handlers.len() ==> !#[trigger] spec_handler_covers(mv.handlers[j], addr)
}

/// Read resolution finds nothing at an address no registration covers.
pub proof fn lemma_read_from_unhandled(mv: MmuV, addr: u16, i: int)
    requires
        0 <= i,
        spec_addr_unhandled(mv, addr),
    ensures
        spec_read_from(mv, addr, i) is None,
    decreases mv.handlers.len() - i,
{
    reveal(spec_read_from);
    if i < mv.handlers.len() {
        lemma_read_from_unhandled(mv, addr, i + 1);
    }
}

/// A read at an address no registration covers returns the backing byte,
/// after echo redirection.
pub proof fn lemma_unhandled_bus_read(mv: MmuV, addr: u16)
    requires
        spec_addr_unhandled(mv, addr),
    ensures
        spec_bus_read(mv, addr) == mv.memory[spec_effective_addr(addr) as int],
{
    reveal(spec_bus_read);
    lemma_read_from_unhandled(mv, addr, 0);
}

/// Write resolution at an address no registration covers touches nothing but
/// the backing byte, after echo redirection.
pub proof fn lemma_write_from_unhandled(mv: MmuV, addr: u16, value: u8, i: int)
    requires
        0 <= i,
        spec_addr_unhandled(mv, addr),
    ensures
        spec_write_from(mv, addr, value, i) == (MmuV {
            memory: mv.memory.update(spec_effective_addr(addr) as int, value),
            ..mv
        }),
    decreases mv.handlers.len() - i,
{
    reveal(spec_write_from);
    if i < mv.handlers.len() {
        lemma_write_from_unhandled(mv, addr, value, i + 1);
    }
}

pub proof fn lemma_unhandled_bus_write(mv: MmuV, addr: u16, value: u8)
    requires
        spec_addr_unhandled(mv, addr),
    ensures
        spec_bus_write(mv, addr, value) == (MmuV {
            memory: mv.memory.update(spec_effective_addr(addr) as int, value),
            ..mv
        }),
{
    reveal(spec_bus_write);
    lemma_write_from_unhandled(mv, addr, value, 0);
}

/// For every address with no handler registered and outside the echo region,
/// a write is read straight back: `write(a, v); read(a) == v`.
pub proof fn lemma_unhandled_write_read(mv: MmuV, addr: u16, value: u8)
    requires
        spec_mmu_wf(mv),
        spec_addr_unhandled(mv, addr),
        !(0xE000 <= addr && addr <= 0xFDFF),
    ensures
        spec_bus_read(spec_bus_write(mv, addr, value), addr) == value,
{
    lemma_unhandled_bus_write(mv, addr, value);
    lemma_unhandled_bus_read(spec_bus_write(mv, addr, value), addr);
}

/// For every address in the echo region with no handler registered over it
/// or its mirror: a write there is read back from the mirror 0x2000 below,
/// and a write to the mirror is read back from the echo address.
pub proof fn lemma_echo_mirror(mv: MmuV, addr: u16, value: u8)
    requires
        spec_mmu_wf(mv),
        0xE000 <= addr && addr <= 0xFDFF,
        spec_addr_unhandled(mv, addr),
        spec_addr_unhandled(mv, (addr - 0x2000) as u16),
    ensures
        spec_bus_read(spec_bus_write(mv, addr, value), (addr - 0x2000) as u16) == value,
        spec_bus_read(spec_bus_write(mv, (addr - 0x2000) as u16, value), addr) == value,
{
    let low = (addr - 0x2000) as u16;
    lemma_unhandled_bus_write(mv, addr, value);
    lemma_unhandled_bus_read(spec_bus_write(mv, addr, value), low);
    lemma_unhandled_bus_write(mv, low, value);
    lemma_unhandled_bus_read(spec_bus_write(mv, low, value), addr);
}

impl InterruptController {
    /// The controller's power-on value, named for contracts.
    pub open spec fn spec_power_on() -> InterruptController {
        InterruptController {
            enable: crate::interrupt::Interrupts {
                vblank: false,
                lcd: false,
                timer: false,
                serial: false,
                joypad: false,
                reserved: 0,
            },
            flags: crate::interrupt::Interrupts {
                vblank: false,
                lcd: false,
                timer: false,
                serial: false,
                joypad: false,
                reserved: 0,
            },
        }
    }
}

} // verus!
