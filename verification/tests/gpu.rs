use gb_emu::Gpu;

#[test]
fn video_ram_starts_zeroed() {
    let gpu = Gpu::new();
    assert_eq!(gpu.read_byte(0x0000), 0x00);
    assert_eq!(gpu.read_byte(0x1FFF), 0x00);
}

#[test]
fn video_ram_stores_written_bytes() {
    let mut gpu = Gpu::new();
    gpu.write_byte(0x0123, 0xAB);
    assert_eq!(gpu.read_byte(0x0123), 0xAB);
    assert_eq!(gpu.read_byte(0x0124), 0x00);
}
