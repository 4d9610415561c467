use gb_core::system::System;

fn plain_rom() -> Vec<u8> {
    let mut rom = vec![0u8; 0x8000];
    rom[0x147] = 0;
    rom
}

fn make_system() -> System {
    System::new(None, plain_rom()).unwrap()
}

#[test]
fn unhandled_write_reads_back() {
    let mut sys = make_system();
    sys.cpu.mmu.write(0xC000, 0x42);
    assert_eq!(sys.cpu.mmu.read(0xC000), 0x42);
    sys.cpu.mmu.write(0xFF80, 0x99);
    assert_eq!(sys.cpu.mmu.read(0xFF80), 0x99);
}

#[test]
fn echo_ram_mirrors_work_ram() {
    let mut sys = make_system();
    sys.cpu.mmu.write(0xC123, 0x42);
    assert_eq!(sys.cpu.mmu.read(0xE123), 0x42);
    sys.cpu.mmu.write(0xE456, 0x77);
    assert_eq!(sys.cpu.mmu.read(0xC456), 0x77);
    assert_eq!(sys.cpu.mmu.read(0xE456), 0x77);
}

#[test]
fn echo_range_boundaries() {
    let mut sys = make_system();
    sys.cpu.mmu.write(0xE000, 0x11);
    assert_eq!(sys.cpu.mmu.read(0xC000), 0x11);
    sys.cpu.mmu.write(0xFDFF, 0x22);
    assert_eq!(sys.cpu.mmu.read(0xDDFF), 0x22);
}

#[test]
fn rom_writes_are_blocked() {
    let mut sys = make_system();
    let before = sys.cpu.mmu.read(0x1234);
    sys.cpu.mmu.write(0x1234, 0xAB);
    assert_eq!(sys.cpu.mmu.read(0x1234), before);
}

#[test]
fn rom_reads_come_from_cartridge() {
    let mut rom = plain_rom();
    rom[0x0000] = 0x55;
    rom[0x7FFF] = 0xA7;
    let sys = System::new(None, rom).unwrap();
    assert_eq!(sys.cpu.mmu.read(0x0000), 0x55);
    assert_eq!(sys.cpu.mmu.read(0x7FFF), 0xA7);
}

#[test]
fn external_ram_passes_through() {
    let mut sys = make_system();
    sys.cpu.mmu.write(0xA000, 0x5A);
    assert_eq!(sys.cpu.mmu.read(0xA000), 0x5A);
}

#[test]
fn boot_rom_overlay_and_unmap() {
    let mut rom = plain_rom();
    rom[0x0000] = 0x55;
    let mut boot = vec![0u8; 0x100];
    boot[0x00] = 0xAA;
    let mut sys = System::new(Some(boot), rom).unwrap();
    assert_eq!(sys.cpu.mmu.read(0x0000), 0xAA);
    sys.cpu.mmu.write(0xFF50, 1);
    assert_eq!(sys.cpu.mmu.read(0x0000), 0x55);
    // further writes to the latch are ignored
    sys.cpu.mmu.write(0xFF50, 0);
    sys.cpu.mmu.write(0xFF50, 7);
    assert_eq!(sys.cpu.mmu.read(0x0000), 0x55);
}

#[test]
fn boot_rom_zero_write_keeps_overlay() {
    let mut rom = plain_rom();
    rom[0x0000] = 0x55;
    let mut boot = vec![0u8; 0x100];
    boot[0x00] = 0xAA;
    let mut sys = System::new(Some(boot), rom).unwrap();
    sys.cpu.mmu.write(0xFF50, 0);
    assert_eq!(sys.cpu.mmu.read(0x0000), 0xAA);
}

#[test]
fn unsupported_mbc_is_a_domain_error() {
    let mut rom = plain_rom();
    rom[0x147] = 0x01;
    match System::new(None, rom) {
        Err(gb_core::mbc::MbcError::Unsupported(code)) => assert_eq!(code, 0x01),
        _ => panic!("an unsupported controller code must be rejected"),
    }
}

#[test]
fn empty_handler_range_is_rejected() {
    let mut sys = make_system();
    let before = sys.cpu.mmu.handlers.len();
    sys.cpu.mmu.add_handler((0x2000, 0x1000), gb_core::mmu::HandlerId::Timer);
    assert_eq!(sys.cpu.mmu.handlers.len(), before);
}
