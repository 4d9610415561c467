//! The divider/timer unit: DIV, TIMA, TMA and TAC at 0xFF04..0xFF07. DIV
//! counts up every 256 clocks. TIMA counts at one of four rates chosen by
//! TAC[1:0] while TAC[2] is set; when TIMA wraps it reloads from TMA one step
//! later and requests a Timer interrupt (the reload-next-cycle quirk).

use vstd::prelude::*;
use crate::interrupt::{spec_request_empty, InterruptRequest};
use crate::mmu::{MemoryRead, MemoryWrite};

verus! {

/// Clocks per DIV increment.
pub open spec fn spec_div_rate() -> int {
    256
}

/// Clocks per TIMA increment for a TAC value, selected by TAC[1:0].
pub open spec fn spec_rate(tac: u8) -> int {
    if tac & 0x03 == 0 {
        1024
    } else if tac & 0x03 == 1 {
        16
    } else if tac & 0x03 == 2 {
        64
    } else {
        256
    }
}

/// TIMA counts only while TAC[2] is set.
pub open spec fn spec_timer_enabled(tac: u8) -> bool {
    tac & 0x04 != 0
}

pub struct Timer {
    pub interrupt_request: InterruptRequest,
    pub div: u8,  // register at 0xFF04
    pub tima: u8,  // register at 0xFF05
    pub tma: u8,  // register at 0xFF06
    pub tac: u8,  // register at 0xFF07
    pub div_clocks: u16,
    pub tima_clocks: u32,
    pub overflowed: bool,
}

/// DIV and its accumulator after the accumulated clocks are drained: each
/// whole 256-clock quantum bumps DIV once, wrapping.
pub open spec fn spec_div_ticks(div: u8, clocks: int) -> (u8, int)
    decreases clocks,
{
    if clocks >= 256 {
        spec_div_ticks(if div == 255 {
            0
        } else {
            (div + 1) as u8
        }, clocks - 256)
    } else {
        (div, clocks)
    }
}

/// TIMA, its accumulator and the overflow latch after the accumulated clocks
/// are drained at the given rate: each whole rate quantum bumps TIMA once;
/// a wrap from 0xFF to 0x00 latches the overflow.
pub open spec fn spec_tima_ticks(tima: u8, clocks: int, rate: int, overflowed: bool) -> (
    u8,
    int,
    bool,
)
    decreases clocks,
{
    if rate > 0 && clocks >= rate {
        if tima == 255 {
            spec_tima_ticks(0, clocks - rate, rate, true)
        } else {
            spec_tima_ticks((tima + 1) as u8, clocks - rate, rate, overflowed)
        }
    } else {
        (tima, clocks, overflowed)
    }
}

/// The whole timer after one step of `elapsed` clocks: DIV drains first; a
/// latched overflow then reloads TIMA from TMA and requests the Timer line;
/// finally, if TAC[2] is set, TIMA counts the elapsed clocks at the TAC rate.
pub open spec fn spec_timer_step(t: Timer, elapsed: u16) -> Timer {
    let (div2, dc2) = spec_div_ticks(t.div, t.div_clocks + elapsed);
    let t1 = Timer { div: div2, div_clocks: dc2 as u16, ..t };
    let t2 = if t1.overflowed {
        Timer {
            tima: t1.tma,
            overflowed: false,
            interrupt_request: InterruptRequest {
                timer_req: Some(true),
                ..t1.interrupt_request
            },
            ..t1
        }
    } else {
        t1
    };
    if !spec_timer_enabled(t2.tac) {
        t2
    } else {
        let (tima2, tc2, ovf2) = spec_tima_ticks(
            t2.tima,
            t2.tima_clocks + elapsed,
            spec_rate(t2.tac),
            t2.overflowed,
        );
        Timer { tima: tima2, tima_clocks: tc2 as u32, overflowed: ovf2, ..t2 }
    }
}

/// What the timer replies to a bus read of its four registers.
pub open spec fn spec_timer_read(t: Timer, address: u16) -> MemoryRead {
    if address == 0xFF04 {
        MemoryRead::Replace(t.div)
    } else if address == 0xFF05 {
        MemoryRead::Replace(t.tima)
    } else if address == 0xFF06 {
        MemoryRead::Replace(t.tma)
    } else if address == 0xFF07 {
        MemoryRead::Replace(t.tac)
    } else {
        MemoryRead::Pass
    }
}

/// The timer and its reply after a bus write: any write to DIV resets it to
/// zero; TAC keeps its low three bits, and changing the rate bits resets the
/// TIMA accumulator.
pub open spec fn spec_timer_write(t: Timer, address: u16, value: u8) -> (Timer, MemoryWrite) {
    if address == 0xFF04 {
        (Timer { div: 0, ..t }, MemoryWrite::Replace(0))
    } else if address == 0xFF05 {
        (Timer { tima: value, ..t }, MemoryWrite::Pass)
    } else if address == 0xFF06 {
        (Timer { tma: value, ..t }, MemoryWrite::Pass)
    } else if address == 0xFF07 {
        let new_tac = value & 0x07;
        (
            Timer {
                tac: new_tac,
                tima_clocks: if new_tac & 0x03 != t.tac & 0x03 {
                    0
                } else {
                    t.tima_clocks
                },
                ..t
            },
            MemoryWrite::Pass,
        )
    } else {
        (t, MemoryWrite::Pass)
    }
}

/// A timer is well formed when both accumulators are below their drain
/// thresholds.
pub open spec fn spec_timer_wf(t: Timer) -> bool {
    t.div_clocks < 256 && t.tima_clocks < spec_rate(t.tac)
}

impl Timer {
    pub fn new(interrupt_request: InterruptRequest) -> (r: Timer)
        ensures
            r == (Timer {
                interrupt_request,
                div: 0,
                tima: 0,
                tma: 0,
                tac: 0,
                div_clocks: 0,
                tima_clocks: 0,
                overflowed: false,
            }),
            spec_timer_wf(r),
    {
        Timer {
            interrupt_request,
            div: 0,
            tima: 0,
            tma: 0,
            tac: 0,
            div_clocks: 0,
            tima_clocks: 0,
            overflowed: false,
        }
    }

    /// Advances the timer by `elapsed_cycles` clocks.
    pub fn step(&mut self, elapsed_cycles: u16)
        requires
            spec_timer_wf(*old(self)),
        ensures
            *final(self) == spec_timer_step(*old(self), elapsed_cycles),
            spec_timer_wf(*final(self)),
    {
        // Drain the divider accumulator.
        let mut dc: u32 = self.div_clocks as u32 + elapsed_cycles as u32;
        while dc >= 256
            invariant
                spec_div_ticks(old(self).div, old(self).div_clocks + elapsed_cycles)
                    == spec_div_ticks(self.div, dc as int),
                *self == (Timer { div: self.div, ..*old(self) }),
            decreases dc,
        {
            self.div = self.div.wrapping_add(1);
            dc = dc - 256;
        }
        self.div_clocks = dc as u16;

        // Deliver a latched overflow: reload TIMA and request the interrupt.
        if self.overflowed {
            self.tima = self.tma;
            self.overflowed = false;
            self.interrupt_request.timer(true);
        }

        // TIMA counts only while enabled.
        if self.tac & 0x04 == 0 {
            return ;
        }
        let ghost t2 = *self;
        let rate: u32 = self.rate();
        let mut tc: u32 = self.tima_clocks + elapsed_cycles as u32;
        while tc >= rate
            invariant
                rate == spec_rate(t2.tac),
                spec_tima_ticks(t2.tima, t2.tima_clocks + elapsed_cycles, rate as int, t2.overflowed)
                    == spec_tima_ticks(self.tima, tc as int, rate as int, self.overflowed),
                *self == (Timer { tima: self.tima, overflowed: self.overflowed, ..t2 }),
            decreases tc,
        {
            if self.tima == 255 {
                self.tima = 0;
                self.overflowed = true;
            } else {
                self.tima = self.tima + 1;
            }
            tc = tc - rate;
        }
        self.tima_clocks = tc;
    }

    /// Clocks per TIMA increment under the current TAC.
    pub fn rate(&self) -> (r: u32)
        ensures
            r == spec_rate(self.tac),
    {
        let sel = self.tac & 0x03;
        if sel == 0 {
            1024
        } else if sel == 1 {
            16
        } else if sel == 2 {
            64
        } else {
            256
        }
    }

    /// Hands the recorded interrupt requests over and clears the port.
    pub fn take_request(&mut self) -> (r: InterruptRequest)
        ensures
            r == old(self).interrupt_request,
            *final(self) == (Timer { interrupt_request: spec_request_empty(), ..*old(self) }),
    {
        let r = self.interrupt_request;
        self.interrupt_request = InterruptRequest::new();
        r
    }

    /// The timer as a bus handler, for reads at 0xFF04..0xFF07.
    pub fn read(&self, address: u16) -> (r: MemoryRead)
        ensures
            r == spec_timer_read(*self, address),
    {
        if address == 0xFF04 {
            MemoryRead::Replace(self.div)
        } else if address == 0xFF05 {
            MemoryRead::Replace(self.tima)
        } else if address == 0xFF06 {
            MemoryRead::Replace(self.tma)
        } else if address == 0xFF07 {
            MemoryRead::Replace(self.tac)
        } else {
            MemoryRead::Pass
        }
    }

    /// The timer as a bus handler, for writes at 0xFF04..0xFF07.
    pub fn write(&mut self, address: u16, value: u8) -> (r: MemoryWrite)
        requires
            spec_timer_wf(*old(self)),
        ensures
            (*final(self), r) == spec_timer_write(*old(self), address, value),
            spec_timer_wf(*final(self)),
    {
        if address == 0xFF04 {
            self.div = 0;
            MemoryWrite::Replace(0)
        } else if address == 0xFF05 {
            self.tima = value;
            MemoryWrite::Pass
        } else if address == 0xFF06 {
            self.tma = value;
            MemoryWrite::Pass
        } else if address == 0xFF07 {
            let old_tac = self.tac;
            self.tac = value & 0x07;
            if self.tac & 0x03 != old_tac & 0x03 {
                self.tima_clocks = 0;
            }
            MemoryWrite::Pass
        } else {
            MemoryWrite::Pass
        }
    }
}

} // verus!
