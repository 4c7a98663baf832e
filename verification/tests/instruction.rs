use gb_emu::instruction::Flag;
use gb_emu::instruction::Instruction;
use gb_emu::instruction::Mnemonic;
use gb_emu::instruction::Target;

fn decoded(byte: u8) -> Instruction {
    Instruction::from_byte(byte).unwrap()
}

fn decoded_prefix(byte: u8) -> Instruction {
    Instruction::from_prefix(byte).unwrap()
}

#[test]
fn decodes_nop() {
    let i = decoded(0x00);
    assert_eq!(i.mnemonic, Mnemonic::NOP);
    assert_eq!(i.length, 1);
    assert_eq!(i.m_cycles, 1);
}

#[test]
fn decodes_absolute_jump() {
    let i = decoded(0xC3);
    assert_eq!(i.mnemonic, Mnemonic::JP_nn);
    assert_eq!(i.length, 3);
    assert_eq!(i.m_cycles, 4);
}

#[test]
fn decodes_xor_a() {
    let i = decoded(0xAF);
    assert_eq!(i.mnemonic, Mnemonic::XOR_r(Target::A));
    assert_eq!(i.length, 1);
}

#[test]
fn decodes_immediate_compare() {
    let i = decoded(0xFE);
    assert_eq!(i.mnemonic, Mnemonic::CP_n);
    assert_eq!(i.length, 2);
    assert_eq!(i.m_cycles, 2);
}

#[test]
fn decodes_every_restart_vector() {
    assert_eq!(decoded(0xC7).mnemonic, Mnemonic::RST(0x0000));
    assert_eq!(decoded(0xCF).mnemonic, Mnemonic::RST(0x0008));
    assert_eq!(decoded(0xD7).mnemonic, Mnemonic::RST(0x0010));
    assert_eq!(decoded(0xDF).mnemonic, Mnemonic::RST(0x0018));
    assert_eq!(decoded(0xE7).mnemonic, Mnemonic::RST(0x0020));
    assert_eq!(decoded(0xEF).mnemonic, Mnemonic::RST(0x0028));
    assert_eq!(decoded(0xF7).mnemonic, Mnemonic::RST(0x0030));
    assert_eq!(decoded(0xFF).mnemonic, Mnemonic::RST(0x0038));
}

#[test]
fn decodes_load_direction_exactly() {
    // The most error-prone property: source and destination must not swap
    assert_eq!(decoded(0x02).mnemonic, Mnemonic::LD_rr_r(Target::BC, Target::A));
    assert_eq!(decoded(0x0A).mnemonic, Mnemonic::LD_r_rr(Target::A, Target::BC));
    assert_eq!(decoded(0x41).mnemonic, Mnemonic::LD_r_r(Target::B, Target::C));
    assert_eq!(decoded(0x48).mnemonic, Mnemonic::LD_r_r(Target::C, Target::B));
    assert_eq!(decoded(0x77).mnemonic, Mnemonic::LD_rr_r(Target::HL, Target::A));
    assert_eq!(decoded(0x7E).mnemonic, Mnemonic::LD_r_rr(Target::A, Target::HL));
}

#[test]
fn decodes_conditional_jumps_with_their_flag() {
    assert_eq!(decoded(0x20).mnemonic, Mnemonic::JR_nc_e(Flag::Z));
    assert_eq!(decoded(0x28).mnemonic, Mnemonic::JR_c_e(Flag::Z));
    assert_eq!(decoded(0x30).mnemonic, Mnemonic::JR_nc_e(Flag::C));
    assert_eq!(decoded(0x38).mnemonic, Mnemonic::JR_c_e(Flag::C));
}

#[test]
fn decodes_pair_increments() {
    assert_eq!(decoded(0x03).mnemonic, Mnemonic::INC_rr(Target::BC));
    assert_eq!(decoded(0x13).mnemonic, Mnemonic::INC_rr(Target::DE));
    assert_eq!(decoded(0x23).mnemonic, Mnemonic::INC_rr(Target::HL));
}

#[test]
fn decodes_the_prefix_escape() {
    assert_eq!(decoded(0xCB).mnemonic, Mnemonic::Prefix);
}

#[test]
fn uncovered_opcodes_decode_to_none() {
    assert!(Instruction::from_byte(0x09).is_none());
    assert!(Instruction::from_byte(0x10).is_none());
    assert!(Instruction::from_byte(0xD3).is_none());
    assert!(Instruction::from_byte(0xFD).is_none());
}

#[test]
fn decodes_prefixed_rotates_and_shifts() {
    let i = decoded_prefix(0x00);
    assert_eq!(i.mnemonic, Mnemonic::RLC_r(Target::B));
    assert_eq!(i.length, 2);
    assert_eq!(i.m_cycles, 2);
    assert_eq!(decoded_prefix(0x1F).mnemonic, Mnemonic::RR_r(Target::A));
    assert_eq!(decoded_prefix(0x37).mnemonic, Mnemonic::SWAP_r(Target::A));
    assert_eq!(decoded_prefix(0x3F).mnemonic, Mnemonic::SRL_r(Target::A));
    assert_eq!(decoded_prefix(0x87).mnemonic, Mnemonic::RES_b_r(0, Target::A));
}

#[test]
fn uncovered_prefix_bytes_decode_to_none() {
    assert!(Instruction::from_prefix(0x06).is_none());
    assert!(Instruction::from_prefix(0x40).is_none());
    assert!(Instruction::from_prefix(0xFF).is_none());
}

#[test]
fn instruction_new_builds_the_descriptor() {
    let i = Instruction::new(Mnemonic::NOP, 1, 1);
    assert_eq!(i.mnemonic, Mnemonic::NOP);
    assert_eq!(i.length, 1);
    assert_eq!(i.m_cycles, 1);
}
