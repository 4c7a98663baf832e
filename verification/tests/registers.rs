use gb_emu::Registers;
use gb_emu::instruction::Target;

#[test]
fn boot_values() {
    let r = Registers::new(true);
    assert_eq!(r.get_a(), 0x01);
    assert_eq!(r.get_b(), 0x00);
    assert_eq!(r.get_c(), 0x13);
    assert_eq!(r.get_d(), 0x00);
    assert_eq!(r.get_e(), 0xD8);
    assert_eq!(r.get_h(), 0x01);
    assert_eq!(r.get_l(), 0x4D);
    assert_eq!(r.get_f(), 0x30);
    assert_eq!(Registers::new(false).get_f(), 0x00);
}

#[test]
fn pair_round_trip_bc_de_hl() {
    let samples: [u16; 6] = [0x0000, 0x0001, 0x00FF, 0x1234, 0xABCD, 0xFFFF];
    for &v in samples.iter() {
        let mut r = Registers::new(false);
        r.set_bc(v);
        assert_eq!(r.get_bc(), v);
        assert_eq!(r.get_b(), (v >> 8) as u8);
        assert_eq!(r.get_c(), (v & 0xFF) as u8);

        r.set_de(v);
        assert_eq!(r.get_de(), v);
        assert_eq!(r.get_d(), (v >> 8) as u8);
        assert_eq!(r.get_e(), (v & 0xFF) as u8);

        r.set_hl(v);
        assert_eq!(r.get_hl(), v);
        assert_eq!(r.get_h(), (v >> 8) as u8);
        assert_eq!(r.get_l(), (v & 0xFF) as u8);
    }
}

#[test]
fn pair_round_trip_af() {
    // AF round-trips exactly on values whose low nibble is zero
    let samples: [u16; 4] = [0x0000, 0x12F0, 0xAB50, 0xFFF0];
    for &v in samples.iter() {
        let mut r = Registers::new(false);
        r.set_af(v);
        assert_eq!(r.get_af(), v);
        assert_eq!(r.get_a(), (v >> 8) as u8);
        assert_eq!(r.get_f(), (v & 0xFF) as u8);
        assert_eq!(r.get_af() & 0x0F, 0);
    }
}

#[test]
fn af_low_nibble_is_always_zero() {
    // The flags byte has no low-nibble bits to store
    let mut r = Registers::new(false);
    r.set_af(0x12FF);
    assert_eq!(r.get_af(), 0x12F0);
    assert_eq!(r.get_af() & 0x0F, 0);
}

#[test]
fn set_af_rewrites_the_flags() {
    let mut r = Registers::new(false);
    r.set_af(0x00B0);
    assert!(r.f.zero);
    assert!(!r.f.subtract);
    assert!(r.f.half_carry);
    assert!(r.f.carry);
}

#[test]
fn byte_register_setters_and_getters() {
    let mut r = Registers::new(false);
    r.set_a(0x11);
    r.set_b(0x22);
    r.set_c(0x33);
    r.set_d(0x44);
    r.set_e(0x55);
    r.set_h(0x66);
    r.set_l(0x77);
    assert_eq!(r.get_a(), 0x11);
    assert_eq!(r.get_b(), 0x22);
    assert_eq!(r.get_c(), 0x33);
    assert_eq!(r.get_d(), 0x44);
    assert_eq!(r.get_e(), 0x55);
    assert_eq!(r.get_h(), 0x66);
    assert_eq!(r.get_l(), 0x77);
}

#[test]
fn selector_accessors_reach_every_register() {
    let mut r = Registers::new(false);
    let byte_targets = [
        Target::A,
        Target::B,
        Target::C,
        Target::D,
        Target::E,
        Target::H,
        Target::L,
    ];
    for (i, t) in byte_targets.iter().enumerate() {
        r.set_register_value(t, 0x10 + i as u8);
    }
    for (i, t) in byte_targets.iter().enumerate() {
        assert_eq!(r.get_register_value(t), 0x10 + i as u8);
    }
}

#[test]
fn selector_accessors_reach_every_pair() {
    let mut r = Registers::new(false);
    let pair_targets = [Target::AF, Target::BC, Target::DE, Target::HL];
    for (i, t) in pair_targets.iter().enumerate() {
        r.set_pair_value(t, 0x1230 + i as u16);
    }
    for (i, t) in pair_targets.iter().enumerate() {
        assert_eq!(r.get_pair_value(t), 0x1230 + i as u16);
    }
}
