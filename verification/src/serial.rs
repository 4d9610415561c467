//! The serial link: SB (data) at 0xFF01 and SC (control) at 0xFF02. With the
//! internal clock selected, a full byte takes 8 bits x 512 clocks = 4096
//! clocks; completion loads SB from the received byte, clears the transfer
//! latch and requests the Serial interrupt. With the external clock selected
//! and no link partner the transfer stays idle and never completes.

use vstd::prelude::*;
use crate::interrupt::{spec_request_empty, InterruptRequest};
use crate::mmu::{MemoryRead, MemoryWrite};

verus! {

/// Clocks for one whole byte under the internal clock.
pub open spec fn spec_cycles_to_send() -> int {
    4096
}

pub struct Serial {
    pub interrupt_request: InterruptRequest,
    pub sb: u8,  // next byte, register at 0xFF01
    pub recv: u8,  // the byte a transfer completes with; 0xFF absent a partner
    pub transfer_enable: bool,  // an ongoing or pending transfer
    pub clock_speed: bool,  // false: normal, true: fast
    pub clock_select: bool,  // false: external clock, true: internal
    pub clock: u32,  // clock accumulator
}

/// The byte encoding of SC: transfer enable in bit 7, clock speed in bit 1,
/// clock select in bit 0.
pub open spec fn spec_sc_byte(s: Serial) -> u8 {
    (if s.transfer_enable { 0x80u8 } else { 0u8 }) | (if s.clock_speed { 0x02u8 } else { 0u8 }) | (
    if s.clock_select { 0x01u8 } else { 0u8 })
}

/// The serial unit after one step of `elapsed` clocks: nothing while no
/// transfer is pending or the external clock is selected; otherwise the
/// accumulator grows, and on reaching 4096 the transfer completes.
pub open spec fn spec_serial_step(s: Serial, elapsed: u16) -> Serial {
    if !s.transfer_enable || !s.clock_select {
        s
    } else if s.clock + elapsed >= spec_cycles_to_send() {
        Serial {
            sb: s.recv,
            transfer_enable: false,
            clock: 0,
            interrupt_request: InterruptRequest {
                serial_req: Some(true),
                ..s.interrupt_request
            },
            ..s
        }
    } else {
        Serial { clock: (s.clock + elapsed) as u32, ..s }
    }
}

/// What the serial unit replies to a bus read: SB at 0xFF01, SC at 0xFF02.
pub open spec fn spec_serial_read(s: Serial, address: u16) -> MemoryRead {
    if address == 0xFF01 {
        MemoryRead::Replace(s.sb)
    } else if address == 0xFF02 {
        MemoryRead::Replace(spec_sc_byte(s))
    } else {
        MemoryRead::Pass
    }
}

/// The serial unit and its reply after a bus write: SB takes the byte, SC
/// decodes its three control bits; both block the backing store.
pub open spec fn spec_serial_write(s: Serial, address: u16, value: u8) -> (Serial, MemoryWrite) {
    if address == 0xFF01 {
        (Serial { sb: value, ..s }, MemoryWrite::Block)
    } else if address == 0xFF02 {
        (
            Serial {
                transfer_enable: value & 0x80 != 0,
                clock_speed: value & 0x02 != 0,
                clock_select: value & 0x01 != 0,
                ..s
            },
            MemoryWrite::Block,
        )
    } else {
        (s, MemoryWrite::Pass)
    }
}

/// A serial unit is well formed when its accumulator is below the transfer
/// threshold.
pub open spec fn spec_serial_wf(s: Serial) -> bool {
    s.clock < spec_cycles_to_send()
}

impl Serial {
    pub fn new(interrupt_request: InterruptRequest) -> (r: Serial)
        ensures
            r == (Serial {
                interrupt_request,
                sb: 0,
                recv: 0xFF,
                transfer_enable: false,
                clock_speed: false,
                clock_select: true,
                clock: 0,
            }),
            spec_serial_wf(r),
    {
        Serial {
            interrupt_request,
            sb: 0,
            recv: 0xFF,
            transfer_enable: false,
            clock_speed: false,
            clock_select: true,
            clock: 0,
        }
    }

    /// Advances the serial unit by `elapsed_cycles` clocks.
    pub fn step(&mut self, elapsed_cycles: u16)
        requires
            spec_serial_wf(*old(self)),
        ensures
            *final(self) == spec_serial_step(*old(self), elapsed_cycles),
            spec_serial_wf(*final(self)),
    {
        if !self.transfer_enable {
            return ;
        }
        if self.clock_select {
            let grown: u32 = self.clock + elapsed_cycles as u32;
            if grown >= 4096 {
                self.sb = self.recv;
                self.transfer_enable = false;
                self.clock = 0;
                self.interrupt_request.serial(true);
            } else {
                self.clock = grown;
            }
        }
    }

    /// Hands the recorded interrupt requests over and clears the port.
    pub fn take_request(&mut self) -> (r: InterruptRequest)
        ensures
            r == old(self).interrupt_request,
            *final(self) == (Serial { interrupt_request: spec_request_empty(), ..*old(self) }),
    {
        let r = self.interrupt_request;
        self.interrupt_request = InterruptRequest::new();
        r
    }

    fn set_sc(&mut self, value: u8)
        ensures
            *final(self) == (Serial {
                transfer_enable: value & 0x80 != 0,
                clock_speed: value & 0x02 != 0,
                clock_select: value & 0x01 != 0,
                ..*old(self)
            }),
    {
        self.transfer_enable = value & 0x80 != 0;
        self.clock_speed = value & 0x02 != 0;
        self.clock_select = value & 0x01 != 0;
    }

    fn get_sc(&self) -> (r: u8)
        ensures
            r == spec_sc_byte(*self),
    {
        (if self.transfer_enable { 0x80u8 } else { 0u8 }) | (if self.clock_speed {
            0x02u8
        } else {
            0u8
        }) | (if self.clock_select { 0x01u8 } else { 0u8 })
    }

    /// The serial unit as a bus handler, for reads at 0xFF01..0xFF02.
    pub fn read(&self, address: u16) -> (r: MemoryRead)
        ensures
            r == spec_serial_read(*self, address),
    {
        if address == 0xFF01 {
            MemoryRead::Replace(self.sb)
        } else if address == 0xFF02 {
            MemoryRead::Replace(self.get_sc())
        } else {
            MemoryRead::Pass
        }
    }

    /// The serial unit as a bus handler, for writes at 0xFF01..0xFF02.
    pub fn write(&mut self, address: u16, value: u8) -> (r: MemoryWrite)
        requires
            spec_serial_wf(*old(self)),
        ensures
            (*final(self), r) == spec_serial_write(*old(self), address, value),
            spec_serial_wf(*final(self)),
    {
        if address == 0xFF01 {
            self.sb = value;
            MemoryWrite::Block
        } else if address == 0xFF02 {
            self.set_sc(value);
            MemoryWrite::Block
        } else {
            MemoryWrite::Pass
        }
    }
}

} // verus!
