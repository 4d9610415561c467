use gb_core::interrupt::{InterruptController, InterruptRequest};
use gb_core::serial::Serial;
use gb_core::timer::Timer;

#[test]
fn tima_overflow_reloads_one_step_later() {
    let mut t = Timer::new(InterruptRequest::new());
    t.tac = 0x05;  // rate 16, enabled
    t.tima = 0xFE;
    t.tma = 0x37;
    t.step(32);
    assert_eq!(t.tima, 0x00);
    assert!(t.overflowed);
    assert_eq!(t.interrupt_request.timer_req, None);
    t.step(0);
    assert_eq!(t.tima, 0x37);
    assert!(!t.overflowed);
    assert_eq!(t.interrupt_request.timer_req, Some(true));
}

#[test]
fn tima_counts_only_when_enabled() {
    let mut t = Timer::new(InterruptRequest::new());
    t.tac = 0x01;  // rate 16, disabled
    t.step(64);
    assert_eq!(t.tima, 0);
    t.tac = 0x05;
    t.step(64);
    assert_eq!(t.tima, 4);
}

#[test]
fn div_increments_every_256_clocks() {
    let mut t = Timer::new(InterruptRequest::new());
    t.step(255);
    assert_eq!(t.div, 0);
    t.step(1);
    assert_eq!(t.div, 1);
    t.step(512);
    assert_eq!(t.div, 3);
}

#[test]
fn div_write_resets_it() {
    let mut t = Timer::new(InterruptRequest::new());
    t.step(0x300);
    assert_eq!(t.div, 3);
    t.write(0xFF04, 0xAB);
    assert_eq!(t.div, 0);
}

#[test]
fn tac_rate_change_resets_accumulator() {
    let mut t = Timer::new(InterruptRequest::new());
    t.tac = 0x05;
    t.step(15);
    assert_eq!(t.tima_clocks, 15);
    t.write(0xFF07, 0x06);  // rate bits change: accumulator resets
    assert_eq!(t.tima_clocks, 0);
    t.write(0xFF07, 0x02);  // only the enable bit changes: accumulator kept
    t.tima_clocks = 9;
    t.write(0xFF07, 0x06);
    assert_eq!(t.tima_clocks, 9);
}

#[test]
fn serial_transfer_completes_after_4096_clocks() {
    let mut s = Serial::new(InterruptRequest::new());
    s.write(0xFF01, 0x42);
    s.write(0xFF02, 0x81);  // start transfer, internal clock
    s.step(4095);
    assert!(s.transfer_enable);
    assert_eq!(s.interrupt_request.serial_req, None);
    s.step(1);
    assert!(!s.transfer_enable);
    assert_eq!(s.sb, 0xFF);  // no partner: the conventional byte comes in
    assert_eq!(s.interrupt_request.serial_req, Some(true));
}

#[test]
fn serial_external_clock_stays_idle() {
    let mut s = Serial::new(InterruptRequest::new());
    s.write(0xFF02, 0x80);  // transfer enabled, external clock
    s.step(10000);
    assert!(s.transfer_enable);
    assert_eq!(s.interrupt_request.serial_req, None);
}

#[test]
fn serial_control_register_reads_back() {
    let mut s = Serial::new(InterruptRequest::new());
    s.write(0xFF02, 0x83);
    match s.read(0xFF02) {
        gb_core::mmu::MemoryRead::Replace(v) => assert_eq!(v, 0x83),
        _ => panic!("SC must be handler-owned"),
    }
}

#[test]
fn interrupt_priority_order() {
    let mut ic = InterruptController::new();
    ic.enable.set(0x1F);
    ic.flags.set(0x1F);
    assert_eq!(ic.consume(), Some(0x40));
    assert_eq!(ic.consume(), Some(0x48));
    assert_eq!(ic.consume(), Some(0x50));
    assert_eq!(ic.consume(), Some(0x58));
    assert_eq!(ic.consume(), Some(0x60));
    assert_eq!(ic.consume(), None);
}

#[test]
fn peek_does_not_clear() {
    let mut ic = InterruptController::new();
    ic.enable.set(0x04);
    ic.flags.set(0x04);
    assert_eq!(ic.peek(), Some(0x50));
    assert_eq!(ic.peek(), Some(0x50));
    assert_eq!(ic.consume(), Some(0x50));
    assert_eq!(ic.peek(), None);
}

#[test]
fn masked_lines_do_not_win() {
    let mut ic = InterruptController::new();
    ic.enable.set(0x10);  // only joypad enabled
    ic.flags.set(0x1F);
    assert_eq!(ic.consume(), Some(0x60));
    assert_eq!(ic.consume(), None);
}

#[test]
fn reserved_mask_bits_read_as_written() {
    let mut ic = InterruptController::new();
    ic.write(0xFF0F, 0xE3);
    match ic.read(0xFF0F) {
        gb_core::mmu::MemoryRead::Replace(v) => assert_eq!(v, 0xE3),
        _ => panic!("IF must be handler-owned"),
    }
    ic.write(0xFFFF, 0x35);
    match ic.read(0xFFFF) {
        gb_core::mmu::MemoryRead::Replace(v) => assert_eq!(v, 0x35),
        _ => panic!("IE must be handler-owned"),
    }
}

#[test]
fn request_port_delivery() {
    let mut ic = InterruptController::new();
    let mut port = ic.request();
    port.timer(true);
    port.vblank(true);
    ic.apply_request(port);
    assert!(ic.flags.timer);
    assert!(ic.flags.vblank);
    assert!(!ic.flags.serial);
}
