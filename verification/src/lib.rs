//! Core of a cycle-driven emulator for a handheld 8-bit console built around a
//! Sharp LR35902-class CPU: the instruction interpreter (unprefixed and
//! CB-prefixed opcode tables), the memory-mapped bus with layered handlers,
//! echo-RAM mirroring and a cartridge/boot-ROM overlay, the interrupt
//! controller, and the divider/timer and serial peripherals.
//!
//! Every CPU step advances the bus, the timer and the serial controller by the
//! same cycle budget; peripherals raise interrupts that the CPU consults at
//! instruction boundaries.

pub mod util;
pub mod registers;
pub mod interrupt;
pub mod timer;
pub mod serial;
pub mod mbc;
pub mod mmu;
pub mod cpu;
pub mod operations;
pub mod instructions;
pub mod system;
