//! The interrupt controller: the IE (enable) and IF (request) masks, the
//! request port that peripherals raise lines through, and priority resolution.
//! Fixed priority: VBlank > LCD > Timer > Serial > Joypad, with vectors
//! 0x40, 0x48, 0x50, 0x58, 0x60.

use vstd::prelude::*;
use crate::mmu::{MemoryRead, MemoryWrite};

verus! {

/// One 5-line interrupt mask. The upper three bits of the encoding byte are
/// reserved: they have no effect but read back as written.
#[derive(Clone, Copy, Debug, PartialEq, Eq, Structural)]
pub struct Interrupts {
    pub vblank: bool,
    pub lcd: bool,
    pub timer: bool,
    pub serial: bool,
    pub joypad: bool,
    pub reserved: u8,
}

/// The mask decoded from a byte: line bits 0..4, reserved bits 7..5.
pub open spec fn spec_interrupts_from_byte(v: u8) -> Interrupts {
    Interrupts {
        vblank: v & 0x01 != 0,
        lcd: v & 0x02 != 0,
        timer: v & 0x04 != 0,
        serial: v & 0x08 != 0,
        joypad: v & 0x10 != 0,
        reserved: v & 0xE0,
    }
}

/// The byte encoding of a mask.
pub open spec fn spec_interrupts_to_byte(i: Interrupts) -> u8 {
    (if i.vblank { 0x01u8 } else { 0u8 }) | (if i.lcd { 0x02u8 } else { 0u8 })
        | (if i.timer { 0x04u8 } else { 0u8 }) | (if i.serial { 0x08u8 } else { 0u8 })
        | (if i.joypad { 0x10u8 } else { 0u8 }) | i.reserved
}

/// A mask is well formed when its reserved field holds only bits 7..5.
pub open spec fn spec_interrupts_wf(i: Interrupts) -> bool {
    i.reserved & 0xE0 == i.reserved
}

impl Interrupts {
    /// The all-clear mask.
    pub fn new() -> (r: Interrupts)
        ensures
            r == (Interrupts {
                vblank: false,
                lcd: false,
                timer: false,
                serial: false,
                joypad: false,
                reserved: 0,
            }),
    {
        Interrupts {
            vblank: false,
            lcd: false,
            timer: false,
            serial: false,
            joypad: false,
            reserved: 0,
        }
    }

    pub fn set(&mut self, value: u8)
        ensures
            *final(self) == spec_interrupts_from_byte(value),
    {
        self.vblank = value & 0x01 != 0;
        self.lcd = value & 0x02 != 0;
        self.timer = value & 0x04 != 0;
        self.serial = value & 0x08 != 0;
        self.joypad = value & 0x10 != 0;
        self.reserved = value & 0xE0;
    }

    pub fn get(&self) -> (r: u8)
        ensures
            r == spec_interrupts_to_byte(*self),
    {
        (if self.vblank { 0x01u8 } else { 0u8 }) | (if self.lcd { 0x02u8 } else { 0u8 })
            | (if self.timer { 0x04u8 } else { 0u8 }) | (if self.serial { 0x08u8 } else { 0u8 })
            | (if self.joypad { 0x10u8 } else { 0u8 }) | self.reserved
    }
}

impl Default for Interrupts {
    fn default() -> (r: Interrupts)
        ensures
            r == (Interrupts {
                vblank: false,
                lcd: false,
                timer: false,
                serial: false,
                joypad: false,
                reserved: 0,
            }),
    {
        Interrupts::new()
    }
}

/// Decoding a byte into a mask yields a well-formed mask.
pub proof fn lemma_interrupts_from_byte_wf(v: u8)
    ensures
        spec_interrupts_wf(spec_interrupts_from_byte(v)),
{
    assert((v & 0xE0) & 0xE0 == v & 0xE0) by (bit_vector);
}

/// Encoding a well-formed mask and decoding it again is the identity.
pub proof fn lemma_interrupts_roundtrip(i: Interrupts)
    requires
        spec_interrupts_wf(i),
    ensures
        spec_interrupts_from_byte(spec_interrupts_to_byte(i)) == i,
{
    let vb = i.vblank;
    let lc = i.lcd;
    let tm = i.timer;
    let se = i.serial;
    let jo = i.joypad;
    let rs = i.reserved;
    let b = spec_interrupts_to_byte(i);
    assert((b & 0x01 != 0) == vb && (b & 0x02 != 0) == lc && (b & 0x04 != 0) == tm && (b & 0x08
        != 0) == se && (b & 0x10 != 0) == jo && b & 0xE0 == rs) by (bit_vector)
        requires
            rs & 0xE0 == rs,
            b == (if vb { 0x01u8 } else { 0u8 }) | (if lc { 0x02u8 } else { 0u8 })
                | (if tm { 0x04u8 } else { 0u8 }) | (if se { 0x08u8 } else { 0u8 })
                | (if jo { 0x10u8 } else { 0u8 }) | rs,
    ;
}

/// The request port handed to peripherals. A peripheral records the lines it
/// wants driven; the recorded values are delivered to the IF mask at the end
/// of the peripheral's step, before the CPU next looks at the controller.
#[derive(Clone, Copy, Debug)]
pub struct InterruptRequest {
    pub vblank_req: Option<bool>,
    pub lcd_req: Option<bool>,
    pub timer_req: Option<bool>,
    pub serial_req: Option<bool>,
    pub joypad_req: Option<bool>,
}

impl InterruptRequest {
    /// A port with no line driven.
    pub fn new() -> (r: InterruptRequest)
        ensures
            r == spec_request_empty(),
    {
        InterruptRequest {
            vblank_req: None,
            lcd_req: None,
            timer_req: None,
            serial_req: None,
            joypad_req: None,
        }
    }

    pub fn vblank(&mut self, value: bool)
        ensures
            *final(self) == (InterruptRequest { vblank_req: Some(value), ..*old(self) }),
    {
        self.vblank_req = Some(value);
    }

    pub fn lcd(&mut self, value: bool)
        ensures
            *final(self) == (InterruptRequest { lcd_req: Some(value), ..*old(self) }),
    {
        self.lcd_req = Some(value);
    }

    pub fn timer(&mut self, value: bool)
        ensures
            *final(self) == (InterruptRequest { timer_req: Some(value), ..*old(self) }),
    {
        self.timer_req = Some(value);
    }

    pub fn serial(&mut self, value: bool)
        ensures
            *final(self) == (InterruptRequest { serial_req: Some(value), ..*old(self) }),
    {
        self.serial_req = Some(value);
    }

    pub fn joypad(&mut self, value: bool)
        ensures
            *final(self) == (InterruptRequest { joypad_req: Some(value), ..*old(self) }),
    {
        self.joypad_req = Some(value);
    }
}

pub open spec fn spec_request_empty() -> InterruptRequest {
    InterruptRequest {
        vblank_req: None,
        lcd_req: None,
        timer_req: None,
        serial_req: None,
        joypad_req: None,
    }
}

/// One line of a mask overridden by a port entry.
pub open spec fn spec_line_apply(cur: bool, req: Option<bool>) -> bool {
    match req {
        Some(v) => v,
        None => cur,
    }
}

/// The IF mask after a request port is delivered.
pub open spec fn spec_apply_request(flags: Interrupts, req: InterruptRequest) -> Interrupts {
    Interrupts {
        vblank: spec_line_apply(flags.vblank, req.vblank_req),
        lcd: spec_line_apply(flags.lcd, req.lcd_req),
        timer: spec_line_apply(flags.timer, req.timer_req),
        serial: spec_line_apply(flags.serial, req.serial_req),
        joypad: spec_line_apply(flags.joypad, req.joypad_req),
        reserved: flags.reserved,
    }
}

/// The interrupt controller: the IE mask (`enable`) and the IF mask (`flags`).
#[derive(Clone, Copy, Debug)]
pub struct InterruptController {
    pub enable: Interrupts,
    pub flags: Interrupts,
}

/// The highest-priority line that is both enabled in IE and set in IF, as its
/// vector; `None` when no line qualifies.
pub open spec fn spec_pending(ic: InterruptController) -> Option<u8> {
    if ic.enable.vblank && ic.flags.vblank {
        Some(0x40u8)
    } else if ic.enable.lcd && ic.flags.lcd {
        Some(0x48u8)
    } else if ic.enable.timer && ic.flags.timer {
        Some(0x50u8)
    } else if ic.enable.serial && ic.flags.serial {
        Some(0x58u8)
    } else if ic.enable.joypad && ic.flags.joypad {
        Some(0x60u8)
    } else {
        None
    }
}

/// The controller after the winning line's IF bit is cleared; unchanged when
/// no line qualifies.
pub open spec fn spec_consume(ic: InterruptController) -> InterruptController {
    if ic.enable.vblank && ic.flags.vblank {
        InterruptController { flags: Interrupts { vblank: false, ..ic.flags }, ..ic }
    } else if ic.enable.lcd && ic.flags.lcd {
        InterruptController { flags: Interrupts { lcd: false, ..ic.flags }, ..ic }
    } else if ic.enable.timer && ic.flags.timer {
        InterruptController { flags: Interrupts { timer: false, ..ic.flags }, ..ic }
    } else if ic.enable.serial && ic.flags.serial {
        InterruptController { flags: Interrupts { serial: false, ..ic.flags }, ..ic }
    } else if ic.enable.joypad && ic.flags.joypad {
        InterruptController { flags: Interrupts { joypad: false, ..ic.flags }, ..ic }
    } else {
        ic
    }
}

/// What the controller replies to a bus read: IE at 0xFFFF, IF at 0xFF0F.
pub open spec fn spec_ic_read(ic: InterruptController, address: u16) -> MemoryRead {
    if address == 0xFFFF {
        MemoryRead::Replace(spec_interrupts_to_byte(ic.enable))
    } else if address == 0xFF0F {
        MemoryRead::Replace(spec_interrupts_to_byte(ic.flags))
    } else {
        MemoryRead::Pass
    }
}

/// The controller and its reply after a bus write: IE at 0xFFFF and IF at
/// 0xFF0F absorb the byte and block the write from the backing store.
pub open spec fn spec_ic_write(ic: InterruptController, address: u16, value: u8) -> (
    InterruptController,
    MemoryWrite,
) {
    if address == 0xFFFF {
        (
            InterruptController { enable: spec_interrupts_from_byte(value), ..ic },
            MemoryWrite::Block,
        )
    } else if address == 0xFF0F {
        (
            InterruptController { flags: spec_interrupts_from_byte(value), ..ic },
            MemoryWrite::Block,
        )
    } else {
        (ic, MemoryWrite::Pass)
    }
}

impl InterruptController {
    /// A controller with both masks clear.
    pub fn new() -> (r: InterruptController)
        ensures
            r.enable == (Interrupts {
                vblank: false,
                lcd: false,
                timer: false,
                serial: false,
                joypad: false,
                reserved: 0,
            }),
            r.flags == (Interrupts {
                vblank: false,
                lcd: false,
                timer: false,
                serial: false,
                joypad: false,
                reserved: 0,
            }),
    {
        InterruptController { enable: Interrupts::new(), flags: Interrupts::new() }
    }

    /// A fresh request port for a peripheral.
    pub fn request(&self) -> (r: InterruptRequest)
        ensures
            r == spec_request_empty(),
    {
        InterruptRequest::new()
    }

    /// Delivers a peripheral's recorded requests into the IF mask.
    pub fn apply_request(&mut self, req: InterruptRequest)
        ensures
            *final(self) == (InterruptController {
                flags: spec_apply_request(old(self).flags, req),
                ..*old(self)
            }),
    {
        if let Some(v) = req.vblank_req {
            self.flags.vblank = v;
        }
        if let Some(v) = req.lcd_req {
            self.flags.lcd = v;
        }
        if let Some(v) = req.timer_req {
            self.flags.timer = v;
        }
        if let Some(v) = req.serial_req {
            self.flags.serial = v;
        }
        if let Some(v) = req.joypad_req {
            self.flags.joypad = v;
        }
    }

    /// The winning pending line, without clearing it.
    pub fn peek(&self) -> (r: Option<u8>)
        ensures
            r == spec_pending(*self),
    {
        if self.enable.vblank && self.flags.vblank {
            Some(0x40)
        } else if self.enable.lcd && self.flags.lcd {
            Some(0x48)
        } else if self.enable.timer && self.flags.timer {
            Some(0x50)
        } else if self.enable.serial && self.flags.serial {
            Some(0x58)
        } else if self.enable.joypad && self.flags.joypad {
            Some(0x60)
        } else {
            None
        }
    }

    /// The winning pending line, clearing its IF bit.
    pub fn consume(&mut self) -> (r: Option<u8>)
        ensures
            r == spec_pending(*old(self)),
            *final(self) == spec_consume(*old(self)),
    {
        self.check(true)
    }

    /// Priority resolution shared by `peek` and `consume`: the first line that
    /// is enabled in IE and set in IF wins; with `consume` its IF bit clears.
    pub fn check(&mut self, consume: bool) -> (r: Option<u8>)
        ensures
            r == spec_pending(*old(self)),
            consume ==> *final(self) == spec_consume(*old(self)),
            !consume ==> *final(self) == *old(self),
    {
        if self.enable.vblank && self.flags.vblank {
            self.flags.vblank = !consume;
            Some(0x40)
        } else if self.enable.lcd && self.flags.lcd {
            self.flags.lcd = !consume;
            Some(0x48)
        } else if self.enable.timer && self.flags.timer {
            self.flags.timer = !consume;
            Some(0x50)
        } else if self.enable.serial && self.flags.serial {
            self.flags.serial = !consume;
            Some(0x58)
        } else if self.enable.joypad && self.flags.joypad {
            self.flags.joypad = !consume;
            Some(0x60)
        } else {
            None
        }
    }

    /// The controller as a bus handler, for reads at 0xFF0F and 0xFFFF.
    pub fn read(&self, address: u16) -> (r: MemoryRead)
        ensures
            r == spec_ic_read(*self, address),
    {
        if address == 0xFFFF {
            MemoryRead::Replace(self.enable.get())
        } else if address == 0xFF0F {
            MemoryRead::Replace(self.flags.get())
        } else {
            MemoryRead::Pass
        }
    }

    /// The controller as a bus handler, for writes at 0xFF0F and 0xFFFF.
    pub fn write(&mut self, address: u16, value: u8) -> (r: MemoryWrite)
        ensures
            (*final(self), r) == spec_ic_write(*old(self), address, value),
    {
        if address == 0xFFFF {
            self.enable.set(value);
            MemoryWrite::Block
        } else if address == 0xFF0F {
            self.flags.set(value);
            MemoryWrite::Block
        } else {
            MemoryWrite::Pass
        }
    }
}

/// Interrupt priority: with all five lines enabled and all five requested,
/// consuming five times yields the vectors 0x40, 0x48, 0x50, 0x58, 0x60 in
/// that order, and a sixth consume finds nothing.
pub proof fn lemma_interrupt_priority(ic: InterruptController)
    requires
        ic.enable.vblank && ic.enable.lcd && ic.enable.timer && ic.enable.serial
            && ic.enable.joypad,
        ic.flags.vblank && ic.flags.lcd && ic.flags.timer && ic.flags.serial && ic.flags.joypad,
    ensures
        ({
            let ic1 = spec_consume(ic);
            let ic2 = spec_consume(ic1);
            let ic3 = spec_consume(ic2);
            let ic4 = spec_consume(ic3);
            let ic5 = spec_consume(ic4);
            spec_pending(ic) == Some(0x40u8) && spec_pending(ic1) == Some(0x48u8) && spec_pending(
                ic2,
            ) == Some(0x50u8) && spec_pending(ic3) == Some(0x58u8) && spec_pending(ic4) == Some(
                0x60u8,
            ) && spec_pending(ic5) is None && spec_consume(ic5) == ic5
        }),
{
}

} // verus!
