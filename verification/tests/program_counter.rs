use gb_emu::ProgramCounter;

#[test]
fn starts_at_the_entry_point() {
    let pc = ProgramCounter::new();
    assert_eq!(pc.get(), 0x0100);
}

#[test]
fn set_and_get() {
    let mut pc = ProgramCounter::new();
    pc.set(0xABCD);
    assert_eq!(pc.get(), 0xABCD);
}

#[test]
fn next_is_fetch_then_increment() {
    let mut pc = ProgramCounter::new();
    pc.set(0x0150);
    assert_eq!(pc.next(), 0x0150);
    assert_eq!(pc.get(), 0x0151);
}

#[test]
fn next_wraps_at_the_top_of_the_address_space() {
    let mut pc = ProgramCounter::new();
    pc.set(0xFFFF);
    assert_eq!(pc.next(), 0xFFFF);
    assert_eq!(pc.get(), 0x0000);
}

#[test]
fn relative_jump_backward() {
    let mut pc = ProgramCounter::new();
    pc.set(0x0150);
    pc.relative_jump(-16);
    assert_eq!(pc.get(), 0x0140);
}

#[test]
fn relative_jump_forward() {
    let mut pc = ProgramCounter::new();
    pc.set(0x0150);
    pc.relative_jump(16);
    assert_eq!(pc.get(), 0x0160);
}

#[test]
fn relative_jump_wraps_modulo_65536() {
    let mut pc = ProgramCounter::new();
    pc.set(0x0000);
    pc.relative_jump(-1);
    assert_eq!(pc.get(), 0xFFFF);

    pc.set(0xFFFF);
    pc.relative_jump(1);
    assert_eq!(pc.get(), 0x0000);
}
