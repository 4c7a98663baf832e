use gb_emu::FlagsRegister;

fn flags(zero: bool, subtract: bool, half_carry: bool, carry: bool) -> FlagsRegister {
    let mut f = FlagsRegister::new(false);
    f.set_flags(zero, subtract, half_carry, carry);
    f
}

#[test]
fn flags_round_trip_all_combinations() {
    for bits in 0u8..16 {
        let f = flags(bits & 8 != 0, bits & 4 != 0, bits & 2 != 0, bits & 1 != 0);
        let packed = f.pack();
        assert_eq!(FlagsRegister::unpack(packed), f);
        assert_eq!(packed & 0x0F, 0);
    }
}

#[test]
fn pack_puts_flags_in_the_high_nibble() {
    assert_eq!(flags(true, false, false, false).pack(), 0x80);
    assert_eq!(flags(false, true, false, false).pack(), 0x40);
    assert_eq!(flags(false, false, true, false).pack(), 0x20);
    assert_eq!(flags(false, false, false, true).pack(), 0x10);
    assert_eq!(flags(true, true, true, true).pack(), 0xF0);
    assert_eq!(flags(false, false, false, false).pack(), 0x00);
}

#[test]
fn unpack_ignores_the_low_nibble() {
    assert_eq!(FlagsRegister::unpack(0x8F), FlagsRegister::unpack(0x80));
    assert_eq!(FlagsRegister::unpack(0x0F), FlagsRegister::unpack(0x00));
    let f = FlagsRegister::unpack(0xB5);
    assert!(f.zero);
    assert!(!f.subtract);
    assert!(f.half_carry);
    assert!(f.carry);
}

#[test]
fn power_on_presets() {
    let set = FlagsRegister::new(true);
    assert!(!set.zero);
    assert!(!set.subtract);
    assert!(set.half_carry);
    assert!(set.carry);

    let clear = FlagsRegister::new(false);
    assert_eq!(clear.pack(), 0x00);
}

#[test]
fn getters_follow_set_flags() {
    let f = flags(true, false, true, false);
    assert!(f.get_zero());
    assert!(!f.get_subtract());
    assert!(f.get_half_carry());
    assert!(!f.get_carry());
}
