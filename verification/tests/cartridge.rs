use gb_emu::Cartridge;
use gb_emu::Mbc3;

const MIN_ROM_LEN: usize = 0x014E;
const RAM_SIZE_ADDRESS: usize = 0x0149;

fn rom_with_banks(ram_size_code: u8) -> Vec<u8> {
    // Four 16KB banks, each marked at its first byte
    let mut rom = vec![0u8; 4 * 0x4000];
    rom[RAM_SIZE_ADDRESS] = ram_size_code;
    rom[0x0000] = 0xB0;
    rom[0x4000] = 0xB1;
    rom[0x8000] = 0xB2;
    rom[0xC000] = 0xB3;
    rom
}

#[test]
fn fixed_bank_reads_the_image_verbatim() {
    let mut rom = rom_with_banks(0x00);
    rom[0x0123] = 0x42;
    let cart = Cartridge::build(rom);
    assert_eq!(cart.read(0x0000), 0xB0);
    assert_eq!(cart.read(0x0123), 0x42);
}

#[test]
fn switchable_bank_starts_at_bank_one() {
    let cart = Cartridge::build(rom_with_banks(0x00));
    assert_eq!(cart.read(0x4000), 0xB1);
}

#[test]
fn rom_bank_select_switches_the_window() {
    let mut cart = Cartridge::build(rom_with_banks(0x00));
    cart.write(0x2000, 0x02);
    assert_eq!(cart.read(0x4000), 0xB2);
    cart.write(0x2000, 0x03);
    assert_eq!(cart.read(0x4000), 0xB3);
}

#[test]
fn rom_bank_zero_aliases_to_one() {
    let mut with_zero = Cartridge::build(rom_with_banks(0x00));
    let mut with_one = Cartridge::build(rom_with_banks(0x00));
    with_zero.write(0x2000, 0x00);
    with_one.write(0x2000, 0x01);
    for address in [0x4000u16, 0x5555, 0x7FFF] {
        assert_eq!(with_zero.read(address), with_one.read(address));
    }
    assert_eq!(with_zero.read(0x4000), 0xB1);
}

#[test]
fn reads_past_the_image_return_the_sentinel() {
    let rom = vec![0u8; MIN_ROM_LEN];
    let cart = Cartridge::build(rom);
    assert_eq!(cart.read(0x2000), 0xFF);
    assert_eq!(cart.read(0x7FFF), 0xFF);
}

#[test]
fn ram_starts_disabled() {
    let cart = Cartridge::build(rom_with_banks(0x03));
    assert_eq!(cart.read_ram(0xA000), 0xFF);
}

#[test]
fn ram_enable_requires_the_magic_low_nibble() {
    let mut cart = Cartridge::build(rom_with_banks(0x03));
    cart.write(0x0000, 0x0A);
    cart.write_ram(0xA000, 0x55);
    assert_eq!(cart.read_ram(0xA000), 0x55);

    // A low nibble other than 0x0A disables RAM again: reads return the
    // sentinel regardless of the underlying contents
    cart.write(0x0000, 0x0B);
    assert_eq!(cart.read_ram(0xA000), 0xFF);
    cart.write(0x0000, 0x1A);
    assert_eq!(cart.read_ram(0xA000), 0x55);
}

#[test]
fn ram_writes_while_disabled_are_dropped() {
    let mut cart = Cartridge::build(rom_with_banks(0x03));
    cart.write_ram(0xA000, 0x77);
    cart.write(0x0000, 0x0A);
    assert_eq!(cart.read_ram(0xA000), 0x00);
}

#[test]
fn ram_banks_are_distinct() {
    let mut cart = Cartridge::build(rom_with_banks(0x03));
    cart.write(0x0000, 0x0A);
    cart.write_ram(0xA000, 0x11);
    cart.write(0x4000, 0x01);
    assert_eq!(cart.read_ram(0xA000), 0x00);
    cart.write_ram(0xA000, 0x22);
    cart.write(0x4000, 0x00);
    assert_eq!(cart.read_ram(0xA000), 0x11);
}

#[test]
fn ram_bank_select_masks_to_its_range() {
    let mut cart = Cartridge::build(rom_with_banks(0x03));
    cart.write(0x0000, 0x0A);
    cart.write_ram(0xA000, 0x33);
    // Bank 4 masks to bank 0
    cart.write(0x4000, 0x04);
    assert_eq!(cart.read_ram(0xA000), 0x33);
}

#[test]
fn single_bank_ram_ignores_out_of_range_indices() {
    let mut cart = Cartridge::build(rom_with_banks(0x02));
    cart.write(0x0000, 0x0A);
    cart.write_ram(0xA000, 0x44);
    assert_eq!(cart.read_ram(0xA000), 0x44);
    // With one 8KB bank, a nonzero bank index maps past the RAM
    cart.write(0x4000, 0x01);
    assert_eq!(cart.read_ram(0xA000), 0xFF);
    cart.write_ram(0xA000, 0x55);
    cart.write(0x4000, 0x00);
    assert_eq!(cart.read_ram(0xA000), 0x44);
}

#[test]
fn absent_ram_reads_the_sentinel_even_when_enabled() {
    let mut cart = Cartridge::build(rom_with_banks(0x00));
    cart.write(0x0000, 0x0A);
    cart.write_ram(0xA000, 0x55);
    assert_eq!(cart.read_ram(0xA000), 0xFF);
}

#[test]
fn writes_to_the_upper_rom_window_are_ignored() {
    let mut cart = Cartridge::build(rom_with_banks(0x00));
    cart.write(0x6000, 0x01);
    assert_eq!(cart.read(0x0000), 0xB0);
    assert_eq!(cart.read(0x4000), 0xB1);
}

#[test]
fn controller_is_stateless() {
    // Two controllers over the same core behave identically
    let mut cart = Cartridge::build(rom_with_banks(0x00));
    let mbc = Mbc3::new();
    cart.write(0x2000, 0x02);
    assert_eq!(mbc.read_rom(&cart.core, 0x4000), 0xB2);
}
