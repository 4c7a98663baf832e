use gb_emu::MemoryBus;

fn rom_image() -> Vec<u8> {
    let mut rom = vec![0u8; 0x8000];
    rom[0x0149] = 0x03;
    rom[0x0000] = 0xB0;
    rom[0x4000] = 0xB1;
    rom
}

#[test]
fn routes_rom_reads_to_the_cartridge() {
    let bus = MemoryBus::new(rom_image());
    assert_eq!(bus.read_byte(0x0000), 0xB0);
    assert_eq!(bus.read_byte(0x4000), 0xB1);
}

#[test]
fn routes_rom_writes_to_the_bank_registers() {
    let mut bus = MemoryBus::new(rom_image());
    // Selecting bank 0 behaves exactly like selecting bank 1
    bus.write_byte(0x2000, 0x00);
    assert_eq!(bus.read_byte(0x4000), 0xB1);
    bus.write_byte(0x2000, 0x01);
    assert_eq!(bus.read_byte(0x4000), 0xB1);
}

#[test]
fn routes_video_ram_reads_and_writes() {
    let mut bus = MemoryBus::new(rom_image());
    assert_eq!(bus.read_byte(0x8123), 0x00);
    bus.write_byte(0x8123, 0x42);
    assert_eq!(bus.read_byte(0x8123), 0x42);
    bus.write_byte(0x9FFF, 0x43);
    assert_eq!(bus.read_byte(0x9FFF), 0x43);
}

#[test]
fn routes_cartridge_ram_through_the_enable_gate() {
    let mut bus = MemoryBus::new(rom_image());
    bus.write_byte(0x0000, 0x0A);
    bus.write_byte(0xA000, 0x55);
    assert_eq!(bus.read_byte(0xA000), 0x55);
    // An enable byte with the wrong low nibble shuts RAM off
    bus.write_byte(0x0000, 0x00);
    assert_eq!(bus.read_byte(0xA000), 0xFF);
}

#[test]
fn routes_work_ram_reads_and_writes() {
    let mut bus = MemoryBus::new(rom_image());
    assert_eq!(bus.read_byte(0xC000), 0x00);
    bus.write_byte(0xC000, 0x99);
    bus.write_byte(0xDFFF, 0x9A);
    assert_eq!(bus.read_byte(0xC000), 0x99);
    assert_eq!(bus.read_byte(0xDFFF), 0x9A);
}

#[test]
fn unwired_addresses_read_zero_and_drop_writes() {
    let mut bus = MemoryBus::new(rom_image());
    assert_eq!(bus.read_byte(0xE000), 0x00);
    assert_eq!(bus.read_byte(0xFFFF), 0x00);
    bus.write_byte(0xFFFF, 0x77);
    assert_eq!(bus.read_byte(0xFFFF), 0x00);
}
