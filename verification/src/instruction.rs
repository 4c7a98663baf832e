use vstd::prelude::*;

verus! {

/// One operand selector of the register file: either a single 8-bit
/// register (A, B, C, D, E, H, L) or a 16-bit register pair (AF, BC, DE,
/// HL). The two kinds are told apart by `is_byte_target` and
/// `is_pair_target`; every accessor of the register file demands the right
/// kind in its contract, so selecting a pair in a byte context is ruled out
/// at verification time.
#[allow(clippy::upper_case_acronyms)]
#[derive(Clone, Copy, Debug, PartialEq, Eq, Structural)]
pub enum Target {
    A,
    B,
    C,
    D,
    E,
    H,
    L,
    AF,
    BC,
    DE,
    HL,
}

/// One of the four condition flags, as encoded in a conditional opcode.
#[derive(Clone, Copy, Debug, PartialEq, Eq, Structural)]
pub enum Flag {
    Z,
    N,
    H,
    C,
}

/// Holds exactly when the target selects a single 8-bit register.
pub open spec fn is_byte_target(t: Target) -> bool {
    match t {
        Target::A | Target::B | Target::C | Target::D | Target::E | Target::H | Target::L => true,
        _ => false,
    }
}

/// Holds exactly when the target selects a 16-bit register pair.
pub open spec fn is_pair_target(t: Target) -> bool {
    match t {
        Target::AF | Target::BC | Target::DE | Target::HL => true,
        _ => false,
    }
}

/// The operation selected by an opcode, together with its static operand:
/// the register or pair it reads or writes, the flag it tests, or the fixed
/// restart vector it jumps to.
#[allow(clippy::upper_case_acronyms)]
#[allow(non_camel_case_types)]
#[derive(Clone, Copy, Debug, PartialEq, Eq, Structural)]
pub enum Mnemonic {
    NOP,
    DAA,
    CPL,
    SCF,
    CCF,
    RST(u16),
    JP_nn,
    JP_c_nn(Flag),
    JP_nc_nn(Flag),
    JP_hl,
    JR_c_e(Flag),
    JR_nc_e(Flag),
    JR_e,
    CP_n,
    CP_r(Target),
    CP_hl,
    CALL_nn,
    CALL_c_nn(Flag),
    CALL_nc_nn(Flag),
    AND_r(Target),
    AND_n,
    AND_hl,
    ADD_r(Target),
    ADD_a_hl,
    ADD_hl_rr(Target),
    ADD_hl_sp,
    ADD_sp_n,
    ADD_n,
    ADC_r(Target),
    ADC_n,
    ADC_hl,
    INC_r(Target),
    INC_rr(Target),
    INC_hl,
    INC_sp,
    DEC_r(Target),
    DEC_rr(Target),
    DEC_sp,
    DEC_hl,
    POP_rr(Target),
    POP_af,
    SUB_r(Target),
    SUB_n,
    SUB_hl,
    SBC_r(Target),
    SBC_hl,
    OR_r(Target),
    OR_n,
    OR_hl,
    XOR_r(Target),
    XOR_n,
    XOR_hl,
    LD_r_r(Target, Target),
    LD_r_n(Target),
    LD_a_nn,
    LD_hl_n,
    LD_hl_plus_a,
    LD_hl_minus_a,
    LD_a_hl_plus,
    LD_a_hl_minus,
    LD_hl_sp_plus_n,
    LD_rr_r(Target, Target),
    LD_rr_nn(Target),
    LD_r_rr(Target, Target),
    LD_nn_a,
    LDH_n_a,
    LDH_a_n,
    LD_sp_nn,
    LD_sp_hl,
    LD_nn_sp,
    PUSH_rr(Target),
    DisableInterrupt,
    RRCA,
    RRA,
    RLCA,
    RLA,
    RLC_r(Target),
    RRC_r(Target),
    RL_r(Target),
    RET,
    RETI,
    RET_c(Flag),
    RET_nc(Flag),
    Prefix,
    RES_b_r(u8, Target),
    SRL_r(Target),
    SLA_r(Target),
    SRA_r(Target),
    RR_r(Target),
    SWAP_r(Target),
}

/// Exact operand identity: every register-carrying operation carries a
/// selector of the right kind, a bit index stays below 8, and a restart
/// vector is one of the eight fixed addresses.
pub open spec fn wf_mnemonic(m: Mnemonic) -> bool {
    match m {
        Mnemonic::RST(address) => address % 8 == 0 && address <= 0x38,
        Mnemonic::CP_r(t) => is_byte_target(t),
        Mnemonic::AND_r(t) => is_byte_target(t),
        Mnemonic::ADD_r(t) => is_byte_target(t),
        Mnemonic::ADD_hl_rr(t) => is_pair_target(t),
        Mnemonic::ADC_r(t) => is_byte_target(t),
        Mnemonic::INC_r(t) => is_byte_target(t),
        Mnemonic::INC_rr(t) => is_pair_target(t),
        Mnemonic::DEC_r(t) => is_byte_target(t),
        Mnemonic::DEC_rr(t) => is_pair_target(t),
        Mnemonic::POP_rr(t) => is_pair_target(t),
        Mnemonic::SUB_r(t) => is_byte_target(t),
        Mnemonic::SBC_r(t) => is_byte_target(t),
        Mnemonic::OR_r(t) => is_byte_target(t),
        Mnemonic::XOR_r(t) => is_byte_target(t),
        Mnemonic::LD_r_r(d, s) => is_byte_target(d) && is_byte_target(s),
        Mnemonic::LD_r_n(t) => is_byte_target(t),
        Mnemonic::LD_rr_r(p, r) => is_pair_target(p) && is_byte_target(r),
        Mnemonic::LD_rr_nn(t) => is_pair_target(t),
        Mnemonic::LD_r_rr(r, p) => is_byte_target(r) && is_pair_target(p),
        Mnemonic::PUSH_rr(t) => is_pair_target(t),
        Mnemonic::RLC_r(t) => is_byte_target(t),
        Mnemonic::RRC_r(t) => is_byte_target(t),
        Mnemonic::RL_r(t) => is_byte_target(t),
        Mnemonic::RES_b_r(bit, t) => bit < 8 && is_byte_target(t),
        Mnemonic::SRL_r(t) => is_byte_target(t),
        Mnemonic::SLA_r(t) => is_byte_target(t),
        Mnemonic::SRA_r(t) => is_byte_target(t),
        Mnemonic::RR_r(t) => is_byte_target(t),
        Mnemonic::SWAP_r(t) => is_byte_target(t),
        _ => true,
    }
}

/// An immutable instruction descriptor: the decoded operation, the total
/// byte length of the instruction (1 to 3, opcode plus operand bytes), and
/// its base machine-cycle cost.
#[derive(Clone, Copy, Debug, PartialEq, Eq, Structural)]
pub struct Instruction {
    pub mnemonic: Mnemonic,
    pub length: u16,
    pub m_cycles: u8,
}

/// The three invariants every table entry carries: a byte length between 1
/// and 3, a nonzero machine-cycle cost, and operands of the right kind.
pub open spec fn wf_instruction(i: Instruction) -> bool {
    1 <= i.length <= 3 && i.m_cycles >= 1 && wf_mnemonic(i.mnemonic)
}

/// The primary decode table: the instruction each opcode byte selects, or
/// `None` for an opcode the table does not cover.
pub open spec fn spec_from_byte(value: u8) -> Option<Instruction> {
    match value {
            0x00 => Some(Instruction { mnemonic: Mnemonic::NOP, length: 1, m_cycles: 1 }),
            0x01 => Some(Instruction { mnemonic: Mnemonic::LD_rr_nn(Target::BC), length: 3, m_cycles: 3 }),
            0x02 => Some(Instruction { mnemonic: Mnemonic::LD_rr_r(Target::BC, Target::A), length: 1, m_cycles: 2 }),
            0x03 => Some(Instruction { mnemonic: Mnemonic::INC_rr(Target::BC), length: 1, m_cycles: 2 }),
            0x04 => Some(Instruction { mnemonic: Mnemonic::INC_r(Target::B), length: 1, m_cycles: 1 }),
            0x05 => Some(Instruction { mnemonic: Mnemonic::DEC_r(Target::B), length: 1, m_cycles: 1 }),
            0x06 => Some(Instruction { mnemonic: Mnemonic::LD_r_n(Target::B), length: 2, m_cycles: 2 }),
            0x07 => Some(Instruction { mnemonic: Mnemonic::RLCA, length: 1, m_cycles: 1 }),
            0x08 => Some(Instruction { mnemonic: Mnemonic::LD_nn_sp, length: 3, m_cycles: 5 }),
            0x0A => Some(Instruction { mnemonic: Mnemonic::LD_r_rr(Target::A, Target::BC), length: 1, m_cycles: 2 }),
            0x0B => Some(Instruction { mnemonic: Mnemonic::DEC_rr(Target::BC), length: 1, m_cycles: 2 }),
            0x0C => Some(Instruction { mnemonic: Mnemonic::INC_r(Target::C), length: 1, m_cycles: 1 }),
            0x0D => Some(Instruction { mnemonic: Mnemonic::DEC_r(Target::C), length: 1, m_cycles: 1 }),
            0x0E => Some(Instruction { mnemonic: Mnemonic::LD_r_n(Target::C), length: 2, m_cycles: 2 }),
            0x0F => Some(Instruction { mnemonic: Mnemonic::RRCA, length: 1, m_cycles: 1 }),
            0x11 => Some(Instruction { mnemonic: Mnemonic::LD_rr_nn(Target::DE), length: 3, m_cycles: 3 }),
            0x12 => Some(Instruction { mnemonic: Mnemonic::LD_rr_r(Target::DE, Target::A), length: 1, m_cycles: 2 }),
            0x13 => Some(Instruction { mnemonic: Mnemonic::INC_rr(Target::DE), length: 1, m_cycles: 2 }),
            0x14 => Some(Instruction { mnemonic: Mnemonic::INC_r(Target::D), length: 1, m_cycles: 1 }),
            0x15 => Some(Instruction { mnemonic: Mnemonic::DEC_r(Target::D), length: 1, m_cycles: 1 }),
            0x16 => Some(Instruction { mnemonic: Mnemonic::LD_r_n(Target::D), length: 2, m_cycles: 2 }),
            0x17 => Some(Instruction { mnemonic: Mnemonic::RLA, length: 1, m_cycles: 1 }),
            0x18 => Some(Instruction { mnemonic: Mnemonic::JR_e, length: 2, m_cycles: 3 }),
            0x1A => Some(Instruction { mnemonic: Mnemonic::LD_r_rr(Target::A, Target::DE), length: 1, m_cycles: 2 }),
            0x1D => Some(Instruction { mnemonic: Mnemonic::DEC_r(Target::E), length: 1, m_cycles: 1 }),
            0x1C => Some(Instruction { mnemonic: Mnemonic::INC_r(Target::E), length: 1, m_cycles: 1 }),
            0x1E => Some(Instruction { mnemonic: Mnemonic::LD_r_n(Target::E), length: 2, m_cycles: 2 }),
            0x1F => Some(Instruction { mnemonic: Mnemonic::RRA, length: 1, m_cycles: 1 }),
            0x20 => Some(Instruction { mnemonic: Mnemonic::JR_nc_e(Flag::Z), length: 2, m_cycles: 3 }),
            0x21 => Some(Instruction { mnemonic: Mnemonic::LD_rr_nn(Target::HL), length: 3, m_cycles: 3 }),
            0x22 => Some(Instruction { mnemonic: Mnemonic::LD_hl_plus_a, length: 1, m_cycles: 2 }),
            0x23 => Some(Instruction { mnemonic: Mnemonic::INC_rr(Target::HL), length: 1, m_cycles: 2 }),
            0x24 => Some(Instruction { mnemonic: Mnemonic::INC_r(Target::H), length: 1, m_cycles: 1 }),
            0x25 => Some(Instruction { mnemonic: Mnemonic::DEC_r(Target::H), length: 1, m_cycles: 1 }),
            0x26 => Some(Instruction { mnemonic: Mnemonic::LD_r_n(Target::H), length: 2, m_cycles: 2 }),
            0x27 => Some(Instruction { mnemonic: Mnemonic::DAA, length: 1, m_cycles: 1 }),
            0x28 => Some(Instruction { mnemonic: Mnemonic::JR_c_e(Flag::Z), length: 2, m_cycles: 2 }),
            0x29 => Some(Instruction { mnemonic: Mnemonic::ADD_hl_rr(Target::HL), length: 1, m_cycles: 2 }),
            0x2A => Some(Instruction { mnemonic: Mnemonic::LD_a_hl_plus, length: 1, m_cycles: 2 }),
            0x2C => Some(Instruction { mnemonic: Mnemonic::INC_r(Target::L), length: 1, m_cycles: 1 }),
            0x2D => Some(Instruction { mnemonic: Mnemonic::DEC_r(Target::L), length: 1, m_cycles: 1 }),
            0x2E => Some(Instruction { mnemonic: Mnemonic::LD_r_n(Target::L), length: 2, m_cycles: 2 }),
            0x2F => Some(Instruction { mnemonic: Mnemonic::CPL, length: 1, m_cycles: 1 }),
            0x30 => Some(Instruction { mnemonic: Mnemonic::JR_nc_e(Flag::C), length: 2, m_cycles: 3 }),
            0x31 => Some(Instruction { mnemonic: Mnemonic::LD_sp_nn, length: 3, m_cycles: 3 }),
            0x32 => Some(Instruction { mnemonic: Mnemonic::LD_hl_minus_a, length: 1, m_cycles: 2 }),
            0x33 => Some(Instruction { mnemonic: Mnemonic::INC_sp, length: 1, m_cycles: 2 }),
            0x34 => Some(Instruction { mnemonic: Mnemonic::INC_hl, length: 1, m_cycles: 3 }),
            0x35 => Some(Instruction { mnemonic: Mnemonic::DEC_hl, length: 1, m_cycles: 3 }),
            0x36 => Some(Instruction { mnemonic: Mnemonic::LD_hl_n, length: 2, m_cycles: 3 }),
            0x37 => Some(Instruction { mnemonic: Mnemonic::SCF, length: 1, m_cycles: 1 }),
            0x38 => Some(Instruction { mnemonic: Mnemonic::JR_c_e(Flag::C), length: 2, m_cycles: 2 }),
            0x39 => Some(Instruction { mnemonic: Mnemonic::ADD_hl_sp, length: 1, m_cycles: 2 }),
            0x3A => Some(Instruction { mnemonic: Mnemonic::LD_a_hl_minus, length: 1, m_cycles: 2 }),
            0x3B => Some(Instruction { mnemonic: Mnemonic::DEC_sp, length: 1, m_cycles: 2 }),
            0x3C => Some(Instruction { mnemonic: Mnemonic::INC_r(Target::A), length: 1, m_cycles: 1 }),
            0x3D => Some(Instruction { mnemonic: Mnemonic::DEC_r(Target::A), length: 1, m_cycles: 1 }),
            0x3E => Some(Instruction { mnemonic: Mnemonic::LD_r_n(Target::A), length: 2, m_cycles: 2 }),
            0x3F => Some(Instruction { mnemonic: Mnemonic::CCF, length: 1, m_cycles: 1 }),
            0x40 => Some(Instruction { mnemonic: Mnemonic::LD_r_r(Target::B, Target::B), length: 1, m_cycles: 1 }),
            0x41 => Some(Instruction { mnemonic: Mnemonic::LD_r_r(Target::B, Target::C), length: 1, m_cycles: 1 }),
            0x42 => Some(Instruction { mnemonic: Mnemonic::LD_r_r(Target::B, Target::D), length: 1, m_cycles: 1 }),
            0x43 => Some(Instruction { mnemonic: Mnemonic::LD_r_r(Target::B, Target::E), length: 1, m_cycles: 1 }),
            0x44 => Some(Instruction { mnemonic: Mnemonic::LD_r_r(Target::B, Target::H), length: 1, m_cycles: 1 }),
            0x45 => Some(Instruction { mnemonic: Mnemonic::LD_r_r(Target::B, Target::L), length: 1, m_cycles: 1 }),
            0x46 => Some(Instruction { mnemonic: Mnemonic::LD_r_rr(Target::B, Target::HL), length: 1, m_cycles: 2 }),
            0x47 => Some(Instruction { mnemonic: Mnemonic::LD_r_r(Target::B, Target::A), length: 1, m_cycles: 1 }),
            0x48 => Some(Instruction { mnemonic: Mnemonic::LD_r_r(Target::C, Target::B), length: 1, m_cycles: 1 }),
            0x49 => Some(Instruction { mnemonic: Mnemonic::LD_r_r(Target::C, Target::C), length: 1, m_cycles: 1 }),
            0x4A => Some(Instruction { mnemonic: Mnemonic::LD_r_r(Target::C, Target::D), length: 1, m_cycles: 1 }),
            0x4B => Some(Instruction { mnemonic: Mnemonic::LD_r_r(Target::C, Target::E), length: 1, m_cycles: 1 }),
            0x4C => Some(Instruction { mnemonic: Mnemonic::LD_r_r(Target::C, Target::H), length: 1, m_cycles: 1 }),
            0x4D => Some(Instruction { mnemonic: Mnemonic::LD_r_r(Target::C, Target::L), length: 1, m_cycles: 1 }),
            0x4E => Some(Instruction { mnemonic: Mnemonic::LD_r_rr(Target::C, Target::HL), length: 1, m_cycles: 2 }),
            0x4F => Some(Instruction { mnemonic: Mnemonic::LD_r_r(Target::C, Target::A), length: 1, m_cycles: 1 }),
            0x50 => Some(Instruction { mnemonic: Mnemonic::LD_r_r(Target::D, Target::B), length: 1, m_cycles: 1 }),
            0x51 => Some(Instruction { mnemonic: Mnemonic::LD_r_r(Target::D, Target::C), length: 1, m_cycles: 1 }),
            0x52 => Some(Instruction { mnemonic: Mnemonic::LD_r_r(Target::D, Target::D), length: 1, m_cycles: 1 }),
            0x53 => Some(Instruction { mnemonic: Mnemonic::LD_r_r(Target::D, Target::E), length: 1, m_cycles: 1 }),
            0x54 => Some(Instruction { mnemonic: Mnemonic::LD_r_r(Target::D, Target::H), length: 1, m_cycles: 1 }),
            0x55 => Some(Instruction { mnemonic: Mnemonic::LD_r_r(Target::D, Target::L), length: 1, m_cycles: 1 }),
            0x56 => Some(Instruction { mnemonic: Mnemonic::LD_r_rr(Target::D, Target::HL), length: 1, m_cycles: 2 }),
            0x57 => Some(Instruction { mnemonic: Mnemonic::LD_r_r(Target::D, Target::A), length: 1, m_cycles: 1 }),
            0x58 => Some(Instruction { mnemonic: Mnemonic::LD_r_r(Target::E, Target::B), length: 1, m_cycles: 1 }),
            0x59 => Some(Instruction { mnemonic: Mnemonic::LD_r_r(Target::E, Target::C), length: 1, m_cycles: 1 }),
            0x5A => Some(Instruction { mnemonic: Mnemonic::LD_r_r(Target::E, Target::D), length: 1, m_cycles: 1 }),
            0x5B => Some(Instruction { mnemonic: Mnemonic::LD_r_r(Target::E, Target::E), length: 1, m_cycles: 1 }),
            0x5C => Some(Instruction { mnemonic: Mnemonic::LD_r_r(Target::E, Target::H), length: 1, m_cycles: 1 }),
            0x5D => Some(Instruction { mnemonic: Mnemonic::LD_r_r(Target::E, Target::L), length: 1, m_cycles: 1 }),
            0x5E => Some(Instruction { mnemonic: Mnemonic::LD_r_rr(Target::E, Target::HL), length: 1, m_cycles: 2 }),
            0x5F => Some(Instruction { mnemonic: Mnemonic::LD_r_r(Target::E, Target::A), length: 1, m_cycles: 1 }),
            0x60 => Some(Instruction { mnemonic: Mnemonic::LD_r_r(Target::H, Target::B), length: 1, m_cycles: 1 }),
            0x61 => Some(Instruction { mnemonic: Mnemonic::LD_r_r(Target::H, Target::C), length: 1, m_cycles: 1 }),
            0x62 => Some(Instruction { mnemonic: Mnemonic::LD_r_r(Target::H, Target::D), length: 1, m_cycles: 1 }),
            0x63 => Some(Instruction { mnemonic: Mnemonic::LD_r_r(Target::H, Target::E), length: 1, m_cycles: 1 }),
            0x64 => Some(Instruction { mnemonic: Mnemonic::LD_r_r(Target::H, Target::H), length: 1, m_cycles: 1 }),
            0x65 => Some(Instruction { mnemonic: Mnemonic::LD_r_r(Target::H, Target::L), length: 1, m_cycles: 1 }),
            0x66 => Some(Instruction { mnemonic: Mnemonic::LD_r_rr(Target::H, Target::HL), length: 1, m_cycles: 2 }),
            0x67 => Some(Instruction { mnemonic: Mnemonic::LD_r_r(Target::H, Target::A), length: 1, m_cycles: 1 }),
            0x68 => Some(Instruction { mnemonic: Mnemonic::LD_r_r(Target::L, Target::B), length: 1, m_cycles: 1 }),
            0x69 => Some(Instruction { mnemonic: Mnemonic::LD_r_r(Target::L, Target::C), length: 1, m_cycles: 1 }),
            0x6A => Some(Instruction { mnemonic: Mnemonic::LD_r_r(Target::L, Target::D), length: 1, m_cycles: 1 }),
            0x6B => Some(Instruction { mnemonic: Mnemonic::LD_r_r(Target::L, Target::E), length: 1, m_cycles: 1 }),
            0x6C => Some(Instruction { mnemonic: Mnemonic::LD_r_r(Target::L, Target::H), length: 1, m_cycles: 1 }),
            0x6D => Some(Instruction { mnemonic: Mnemonic::LD_r_r(Target::L, Target::L), length: 1, m_cycles: 1 }),
            0x6E => Some(Instruction { mnemonic: Mnemonic::LD_r_rr(Target::L, Target::HL), length: 1, m_cycles: 2 }),
            0x6F => Some(Instruction { mnemonic: Mnemonic::LD_r_r(Target::L, Target::A), length: 1, m_cycles: 1 }),
            0x70 => Some(Instruction { mnemonic: Mnemonic::LD_rr_r(Target::HL, Target::B), length: 1, m_cycles: 2 }),
            0x71 => Some(Instruction { mnemonic: Mnemonic::LD_rr_r(Target::HL, Target::C), length: 1, m_cycles: 2 }),
            0x72 => Some(Instruction { mnemonic: Mnemonic::LD_rr_r(Target::HL, Target::D), length: 1, m_cycles: 2 }),
            0x73 => Some(Instruction { mnemonic: Mnemonic::LD_rr_r(Target::HL, Target::E), length: 1, m_cycles: 2 }),
            0x74 => Some(Instruction { mnemonic: Mnemonic::LD_rr_r(Target::HL, Target::H), length: 1, m_cycles: 2 }),
            0x75 => Some(Instruction { mnemonic: Mnemonic::LD_rr_r(Target::HL, Target::L), length: 1, m_cycles: 2 }),
            0x77 => Some(Instruction { mnemonic: Mnemonic::LD_rr_r(Target::HL, Target::A), length: 1, m_cycles: 2 }),
            0x78 => Some(Instruction { mnemonic: Mnemonic::LD_r_r(Target::A, Target::B), length: 1, m_cycles: 1 }),
            0x79 => Some(Instruction { mnemonic: Mnemonic::LD_r_r(Target::A, Target::C), length: 1, m_cycles: 1 }),
            0x7A => Some(Instruction { mnemonic: Mnemonic::LD_r_r(Target::A, Target::D), length: 1, m_cycles: 1 }),
            0x7B => Some(Instruction { mnemonic: Mnemonic::LD_r_r(Target::A, Target::E), length: 1, m_cycles: 1 }),
            0x7C => Some(Instruction { mnemonic: Mnemonic::LD_r_r(Target::A, Target::H), length: 1, m_cycles: 1 }),
            0x7D => Some(Instruction { mnemonic: Mnemonic::LD_r_r(Target::A, Target::L), length: 1, m_cycles: 1 }),
            0x7E => Some(Instruction { mnemonic: Mnemonic::LD_r_rr(Target::A, Target::HL), length: 1, m_cycles: 2 }),
            0x7F => Some(Instruction { mnemonic: Mnemonic::LD_r_r(Target::A, Target::A), length: 1, m_cycles: 1 }),
            0x80 => Some(Instruction { mnemonic: Mnemonic::ADD_r(Target::B), length: 1, m_cycles: 1 }),
            0x81 => Some(Instruction { mnemonic: Mnemonic::ADD_r(Target::C), length: 1, m_cycles: 1 }),
            0x82 => Some(Instruction { mnemonic: Mnemonic::ADD_r(Target::D), length: 1, m_cycles: 1 }),
            0x83 => Some(Instruction { mnemonic: Mnemonic::ADD_r(Target::E), length: 1, m_cycles: 1 }),
            0x84 => Some(Instruction { mnemonic: Mnemonic::ADD_r(Target::H), length: 1, m_cycles: 1 }),
            0x85 => Some(Instruction { mnemonic: Mnemonic::ADD_r(Target::L), length: 1, m_cycles: 1 }),
            0x86 => Some(Instruction { mnemonic: Mnemonic::ADD_a_hl, length: 1, m_cycles: 2 }),
            0x87 => Some(Instruction { mnemonic: Mnemonic::ADD_r(Target::A), length: 1, m_cycles: 1 }),
            0x88 => Some(Instruction { mnemonic: Mnemonic::ADC_r(Target::B), length: 1, m_cycles: 1 }),
            0x89 => Some(Instruction { mnemonic: Mnemonic::ADC_r(Target::C), length: 1, m_cycles: 1 }),
            0x8A => Some(Instruction { mnemonic: Mnemonic::ADC_r(Target::D), length: 1, m_cycles: 1 }),
            0x8B => Some(Instruction { mnemonic: Mnemonic::ADC_r(Target::E), length: 1, m_cycles: 1 }),
            0x8C => Some(Instruction { mnemonic: Mnemonic::ADC_r(Target::H), length: 1, m_cycles: 1 }),
            0x8D => Some(Instruction { mnemonic: Mnemonic::ADC_r(Target::L), length: 1, m_cycles: 1 }),
            0x8E => Some(Instruction { mnemonic: Mnemonic::ADC_hl, length: 1, m_cycles: 2 }),
            0x8F => Some(Instruction { mnemonic: Mnemonic::ADC_r(Target::A), length: 1, m_cycles: 1 }),
            0x90 => Some(Instruction { mnemonic: Mnemonic::SUB_r(Target::B), length: 1, m_cycles: 1 }),
            0x91 => Some(Instruction { mnemonic: Mnemonic::SUB_r(Target::C), length: 1, m_cycles: 1 }),
            0x92 => Some(Instruction { mnemonic: Mnemonic::SUB_r(Target::D), length: 1, m_cycles: 1 }),
            0x93 => Some(Instruction { mnemonic: Mnemonic::SUB_r(Target::E), length: 1, m_cycles: 1 }),
            0x94 => Some(Instruction { mnemonic: Mnemonic::SUB_r(Target::H), length: 1, m_cycles: 1 }),
            0x95 => Some(Instruction { mnemonic: Mnemonic::SUB_r(Target::L), length: 1, m_cycles: 1 }),
            0x96 => Some(Instruction { mnemonic: Mnemonic::SUB_hl, length: 1, m_cycles: 2 }),
            0x97 => Some(Instruction { mnemonic: Mnemonic::SUB_r(Target::A), length: 1, m_cycles: 1 }),
            0x98 => Some(Instruction { mnemonic: Mnemonic::SBC_r(Target::B), length: 1, m_cycles: 1 }),
            0x99 => Some(Instruction { mnemonic: Mnemonic::SBC_r(Target::C), length: 1, m_cycles: 1 }),
            0x9A => Some(Instruction { mnemonic: Mnemonic::SBC_r(Target::D), length: 1, m_cycles: 1 }),
            0x9B => Some(Instruction { mnemonic: Mnemonic::SBC_r(Target::E), length: 1, m_cycles: 1 }),
            0x9C => Some(Instruction { mnemonic: Mnemonic::SBC_r(Target::H), length: 1, m_cycles: 1 }),
            0x9D => Some(Instruction { mnemonic: Mnemonic::SBC_r(Target::L), length: 1, m_cycles: 1 }),
            0x9E => Some(Instruction { mnemonic: Mnemonic::SBC_hl, length: 1, m_cycles: 2 }),
            0x9F => Some(Instruction { mnemonic: Mnemonic::SBC_r(Target::A), length: 1, m_cycles: 1 }),
            0xA0 => Some(Instruction { mnemonic: Mnemonic::AND_r(Target::B), length: 1, m_cycles: 1 }),
            0xA1 => Some(Instruction { mnemonic: Mnemonic::AND_r(Target::C), length: 1, m_cycles: 1 }),
            0xA2 => Some(Instruction { mnemonic: Mnemonic::AND_r(Target::D), length: 1, m_cycles: 1 }),
            0xA3 => Some(Instruction { mnemonic: Mnemonic::AND_r(Target::E), length: 1, m_cycles: 1 }),
            0xA4 => Some(Instruction { mnemonic: Mnemonic::AND_r(Target::H), length: 1, m_cycles: 1 }),
            0xA5 => Some(Instruction { mnemonic: Mnemonic::AND_r(Target::L), length: 1, m_cycles: 1 }),
            0xA6 => Some(Instruction { mnemonic: Mnemonic::AND_hl, length: 1, m_cycles: 2 }),
            0xA7 => Some(Instruction { mnemonic: Mnemonic::AND_r(Target::A), length: 1, m_cycles: 1 }),
            0xA8 => Some(Instruction { mnemonic: Mnemonic::XOR_r(Target::B), length: 1, m_cycles: 1 }),
            0xA9 => Some(Instruction { mnemonic: Mnemonic::XOR_r(Target::C), length: 1, m_cycles: 1 }),
            0xAA => Some(Instruction { mnemonic: Mnemonic::XOR_r(Target::D), length: 1, m_cycles: 1 }),
            0xAB => Some(Instruction { mnemonic: Mnemonic::XOR_r(Target::E), length: 1, m_cycles: 1 }),
            0xAC => Some(Instruction { mnemonic: Mnemonic::XOR_r(Target::H), length: 1, m_cycles: 1 }),
            0xAD => Some(Instruction { mnemonic: Mnemonic::XOR_r(Target::L), length: 1, m_cycles: 1 }),
            0xAE => Some(Instruction { mnemonic: Mnemonic::XOR_hl, length: 1, m_cycles: 2 }),
            0xAF => Some(Instruction { mnemonic: Mnemonic::XOR_r(Target::A), length: 1, m_cycles: 1 }),
            0xB0 => Some(Instruction { mnemonic: Mnemonic::OR_r(Target::B), length: 1, m_cycles: 1 }),
            0xB1 => Some(Instruction { mnemonic: Mnemonic::OR_r(Target::C), length: 1, m_cycles: 1 }),
            0xB2 => Some(Instruction { mnemonic: Mnemonic::OR_r(Target::D), length: 1, m_cycles: 1 }),
            0xB3 => Some(Instruction { mnemonic: Mnemonic::OR_r(Target::E), length: 1, m_cycles: 1 }),
            0xB4 => Some(Instruction { mnemonic: Mnemonic::OR_r(Target::H), length: 1, m_cycles: 1 }),
            0xB5 => Some(Instruction { mnemonic: Mnemonic::OR_r(Target::L), length: 1, m_cycles: 1 }),
            0xB6 => Some(Instruction { mnemonic: Mnemonic::OR_hl, length: 1, m_cycles: 2 }),
            0xB7 => Some(Instruction { mnemonic: Mnemonic::OR_r(Target::A), length: 1, m_cycles: 1 }),
            0xB8 => Some(Instruction { mnemonic: Mnemonic::CP_r(Target::B), length: 1, m_cycles: 1 }),
            0xB9 => Some(Instruction { mnemonic: Mnemonic::CP_r(Target::C), length: 1, m_cycles: 1 }),
            0xBA => Some(Instruction { mnemonic: Mnemonic::CP_r(Target::D), length: 1, m_cycles: 1 }),
            0xBB => Some(Instruction { mnemonic: Mnemonic::CP_r(Target::E), length: 1, m_cycles: 1 }),
            0xBC => Some(Instruction { mnemonic: Mnemonic::CP_r(Target::H), length: 1, m_cycles: 1 }),
            0xBD => Some(Instruction { mnemonic: Mnemonic::CP_r(Target::L), length: 1, m_cycles: 1 }),
            0xBE => Some(Instruction { mnemonic: Mnemonic::CP_hl, length: 1, m_cycles: 2 }),
            0xBF => Some(Instruction { mnemonic: Mnemonic::CP_r(Target::A), length: 1, m_cycles: 1 }),
            0xC0 => Some(Instruction { mnemonic: Mnemonic::RET_nc(Flag::Z), length: 1, m_cycles: 2 }),
            0xC1 => Some(Instruction { mnemonic: Mnemonic::POP_rr(Target::BC), length: 1, m_cycles: 3 }),
            0xC2 => Some(Instruction { mnemonic: Mnemonic::JP_nc_nn(Flag::Z), length: 3, m_cycles: 3 }),
            0xC3 => Some(Instruction { mnemonic: Mnemonic::JP_nn, length: 3, m_cycles: 4 }),
            0xC4 => Some(Instruction { mnemonic: Mnemonic::CALL_nc_nn(Flag::Z), length: 3, m_cycles: 3 }),
            0xC5 => Some(Instruction { mnemonic: Mnemonic::PUSH_rr(Target::BC), length: 1, m_cycles: 4 }),
            0xC6 => Some(Instruction { mnemonic: Mnemonic::ADD_n, length: 2, m_cycles: 2 }),
            0xC7 => Some(Instruction { mnemonic: Mnemonic::RST(0x0000), length: 1, m_cycles: 4 }),
            0xC8 => Some(Instruction { mnemonic: Mnemonic::RET_c(Flag::Z), length: 1, m_cycles: 2 }),
            0xC9 => Some(Instruction { mnemonic: Mnemonic::RET, length: 1, m_cycles: 4 }),
            0xCA => Some(Instruction { mnemonic: Mnemonic::JP_c_nn(Flag::Z), length: 3, m_cycles: 3 }),
            0xCB => Some(Instruction { mnemonic: Mnemonic::Prefix, length: 1, m_cycles: 1 }),
            0xCC => Some(Instruction { mnemonic: Mnemonic::CALL_c_nn(Flag::Z), length: 3, m_cycles: 3 }),
            0xCD => Some(Instruction { mnemonic: Mnemonic::CALL_nn, length: 3, m_cycles: 6 }),
            0xCE => Some(Instruction { mnemonic: Mnemonic::ADC_n, length: 2, m_cycles: 2 }),
            0xCF => Some(Instruction { mnemonic: Mnemonic::RST(0x0008), length: 1, m_cycles: 4 }),
            0xD0 => Some(Instruction { mnemonic: Mnemonic::RET_nc(Flag::C), length: 1, m_cycles: 2 }),
            0xD1 => Some(Instruction { mnemonic: Mnemonic::POP_rr(Target::DE), length: 1, m_cycles: 3 }),
            0xD2 => Some(Instruction { mnemonic: Mnemonic::JP_nc_nn(Flag::C), length: 3, m_cycles: 12 }),
            0xD4 => Some(Instruction { mnemonic: Mnemonic::CALL_nc_nn(Flag::C), length: 3, m_cycles: 3 }),
            0xD5 => Some(Instruction { mnemonic: Mnemonic::PUSH_rr(Target::DE), length: 1, m_cycles: 4 }),
            0xD6 => Some(Instruction { mnemonic: Mnemonic::SUB_n, length: 2, m_cycles: 2 }),
            0xD7 => Some(Instruction { mnemonic: Mnemonic::RST(0x0010), length: 1, m_cycles: 4 }),
            0xD8 => Some(Instruction { mnemonic: Mnemonic::RET_c(Flag::C), length: 1, m_cycles: 2 }),
            0xD9 => Some(Instruction { mnemonic: Mnemonic::RETI, length: 3, m_cycles: 3 }),
            0xDA => Some(Instruction { mnemonic: Mnemonic::JP_c_nn(Flag::C), length: 3, m_cycles: 3 }),
            0xDC => Some(Instruction { mnemonic: Mnemonic::CALL_c_nn(Flag::C), length: 3, m_cycles: 3 }),
            0xDF => Some(Instruction { mnemonic: Mnemonic::RST(0x0018), length: 1, m_cycles: 4 }),
            0xE0 => Some(Instruction { mnemonic: Mnemonic::LDH_n_a, length: 2, m_cycles: 3 }),
            0xE1 => Some(Instruction { mnemonic: Mnemonic::POP_rr(Target::HL), length: 1, m_cycles: 3 }),
            0xE5 => Some(Instruction { mnemonic: Mnemonic::PUSH_rr(Target::HL), length: 1, m_cycles: 4 }),
            0xE6 => Some(Instruction { mnemonic: Mnemonic::AND_n, length: 2, m_cycles: 2 }),
            0xE7 => Some(Instruction { mnemonic: Mnemonic::RST(0x0020), length: 1, m_cycles: 4 }),
            0xE8 => Some(Instruction { mnemonic: Mnemonic::ADD_sp_n, length: 2, m_cycles: 4 }),
            0xE9 => Some(Instruction { mnemonic: Mnemonic::JP_hl, length: 1, m_cycles: 1 }),
            0xEA => Some(Instruction { mnemonic: Mnemonic::LD_nn_a, length: 3, m_cycles: 4 }),
            0xEE => Some(Instruction { mnemonic: Mnemonic::XOR_n, length: 2, m_cycles: 2 }),
            0xEF => Some(Instruction { mnemonic: Mnemonic::RST(0x0028), length: 1, m_cycles: 4 }),
            0xF0 => Some(Instruction { mnemonic: Mnemonic::LDH_a_n, length: 2, m_cycles: 3 }),
            0xF1 => Some(Instruction { mnemonic: Mnemonic::POP_af, length: 1, m_cycles: 3 }),
            0xF3 => Some(Instruction { mnemonic: Mnemonic::DisableInterrupt, length: 1, m_cycles: 1 }),
            0xF5 => Some(Instruction { mnemonic: Mnemonic::PUSH_rr(Target::AF), length: 1, m_cycles: 4 }),
            0xF6 => Some(Instruction { mnemonic: Mnemonic::OR_n, length: 2, m_cycles: 2 }),
            0xF7 => Some(Instruction { mnemonic: Mnemonic::RST(0x0030), length: 1, m_cycles: 4 }),
            0xF8 => Some(Instruction { mnemonic: Mnemonic::LD_hl_sp_plus_n, length: 2, m_cycles: 3 }),
            0xF9 => Some(Instruction { mnemonic: Mnemonic::LD_sp_hl, length: 1, m_cycles: 2 }),
            0xFA => Some(Instruction { mnemonic: Mnemonic::LD_a_nn, length: 3, m_cycles: 4 }),
            0xFE => Some(Instruction { mnemonic: Mnemonic::CP_n, length: 2, m_cycles: 2 }),
            0xFF => Some(Instruction { mnemonic: Mnemonic::RST(0x0038), length: 1, m_cycles: 4 }),
        _ => None,
    }
}

/// The extended decode table, reached through the prefix-escape opcode: the
/// instruction each extension byte selects, or `None` where uncovered.
pub open spec fn spec_from_prefix(value: u8) -> Option<Instruction> {
    match value {
            0x00 => Some(Instruction { mnemonic: Mnemonic::RLC_r(Target::B), length: 2, m_cycles: 2 }),
            0x01 => Some(Instruction { mnemonic: Mnemonic::RLC_r(Target::C), length: 2, m_cycles: 2 }),
            0x02 => Some(Instruction { mnemonic: Mnemonic::RLC_r(Target::D), length: 2, m_cycles: 2 }),
            0x03 => Some(Instruction { mnemonic: Mnemonic::RLC_r(Target::E), length: 2, m_cycles: 2 }),
            0x04 => Some(Instruction { mnemonic: Mnemonic::RLC_r(Target::H), length: 2, m_cycles: 2 }),
            0x05 => Some(Instruction { mnemonic: Mnemonic::RLC_r(Target::L), length: 2, m_cycles: 2 }),
            0x07 => Some(Instruction { mnemonic: Mnemonic::RLC_r(Target::A), length: 2, m_cycles: 2 }),
            0x08 => Some(Instruction { mnemonic: Mnemonic::RRC_r(Target::B), length: 2, m_cycles: 2 }),
            0x09 => Some(Instruction { mnemonic: Mnemonic::RRC_r(Target::C), length: 2, m_cycles: 2 }),
            0x0A => Some(Instruction { mnemonic: Mnemonic::RRC_r(Target::D), length: 2, m_cycles: 2 }),
            0x0B => Some(Instruction { mnemonic: Mnemonic::RRC_r(Target::E), length: 2, m_cycles: 2 }),
            0x0C => Some(Instruction { mnemonic: Mnemonic::RRC_r(Target::H), length: 2, m_cycles: 2 }),
            0x0D => Some(Instruction { mnemonic: Mnemonic::RRC_r(Target::L), length: 2, m_cycles: 2 }),
            0x0F => Some(Instruction { mnemonic: Mnemonic::RRC_r(Target::A), length: 2, m_cycles: 2 }),
            0x10 => Some(Instruction { mnemonic: Mnemonic::RL_r(Target::B), length: 2, m_cycles: 2 }),
            0x11 => Some(Instruction { mnemonic: Mnemonic::RL_r(Target::C), length: 2, m_cycles: 2 }),
            0x12 => Some(Instruction { mnemonic: Mnemonic::RL_r(Target::D), length: 2, m_cycles: 2 }),
            0x13 => Some(Instruction { mnemonic: Mnemonic::RL_r(Target::E), length: 2, m_cycles: 2 }),
            0x14 => Some(Instruction { mnemonic: Mnemonic::RL_r(Target::H), length: 2, m_cycles: 2 }),
            0x15 => Some(Instruction { mnemonic: Mnemonic::RL_r(Target::L), length: 2, m_cycles: 2 }),
            0x17 => Some(Instruction { mnemonic: Mnemonic::RL_r(Target::A), length: 2, m_cycles: 2 }),
            0x18 => Some(Instruction { mnemonic: Mnemonic::RR_r(Target::B), length: 2, m_cycles: 2 }),
            0x19 => Some(Instruction { mnemonic: Mnemonic::RR_r(Target::C), length: 2, m_cycles: 2 }),
            0x1A => Some(Instruction { mnemonic: Mnemonic::RR_r(Target::D), length: 2, m_cycles: 2 }),
            0x1B => Some(Instruction { mnemonic: Mnemonic::RR_r(Target::E), length: 2, m_cycles: 2 }),
            0x1C => Some(Instruction { mnemonic: Mnemonic::RR_r(Target::H), length: 2, m_cycles: 2 }),
            0x1D => Some(Instruction { mnemonic: Mnemonic::RR_r(Target::L), length: 2, m_cycles: 2 }),
            0x1F => Some(Instruction { mnemonic: Mnemonic::RR_r(Target::A), length: 2, m_cycles: 2 }),
            0x20 => Some(Instruction { mnemonic: Mnemonic::SLA_r(Target::B), length: 2, m_cycles: 2 }),
            0x21 => Some(Instruction { mnemonic: Mnemonic::SLA_r(Target::C), length: 2, m_cycles: 2 }),
            0x22 => Some(Instruction { mnemonic: Mnemonic::SLA_r(Target::D), length: 2, m_cycles: 2 }),
            0x23 => Some(Instruction { mnemonic: Mnemonic::SLA_r(Target::E), length: 2, m_cycles: 2 }),
            0x24 => Some(Instruction { mnemonic: Mnemonic::SLA_r(Target::H), length: 2, m_cycles: 2 }),
            0x25 => Some(Instruction { mnemonic: Mnemonic::SLA_r(Target::L), length: 2, m_cycles: 2 }),
            0x27 => Some(Instruction { mnemonic: Mnemonic::SLA_r(Target::A), length: 2, m_cycles: 2 }),
            0x28 => Some(Instruction { mnemonic: Mnemonic::SRA_r(Target::B), length: 2, m_cycles: 2 }),
            0x29 => Some(Instruction { mnemonic: Mnemonic::SRA_r(Target::C), length: 2, m_cycles: 2 }),
            0x2A => Some(Instruction { mnemonic: Mnemonic::SRA_r(Target::D), length: 2, m_cycles: 2 }),
            0x2B => Some(Instruction { mnemonic: Mnemonic::SRA_r(Target::E), length: 2, m_cycles: 2 }),
            0x2C => Some(Instruction { mnemonic: Mnemonic::SRA_r(Target::H), length: 2, m_cycles: 2 }),
            0x2D => Some(Instruction { mnemonic: Mnemonic::SRA_r(Target::L), length: 2, m_cycles: 2 }),
            0x2F => Some(Instruction { mnemonic: Mnemonic::SRA_r(Target::A), length: 2, m_cycles: 2 }),
            0x30 => Some(Instruction { mnemonic: Mnemonic::SWAP_r(Target::B), length: 2, m_cycles: 2 }),
            0x31 => Some(Instruction { mnemonic: Mnemonic::SWAP_r(Target::C), length: 2, m_cycles: 2 }),
            0x32 => Some(Instruction { mnemonic: Mnemonic::SWAP_r(Target::D), length: 2, m_cycles: 2 }),
            0x33 => Some(Instruction { mnemonic: Mnemonic::SWAP_r(Target::E), length: 2, m_cycles: 2 }),
            0x34 => Some(Instruction { mnemonic: Mnemonic::SWAP_r(Target::H), length: 2, m_cycles: 2 }),
            0x35 => Some(Instruction { mnemonic: Mnemonic::SWAP_r(Target::L), length: 2, m_cycles: 2 }),
            0x37 => Some(Instruction { mnemonic: Mnemonic::SWAP_r(Target::A), length: 2, m_cycles: 2 }),
            0x38 => Some(Instruction { mnemonic: Mnemonic::SRL_r(Target::B), length: 2, m_cycles: 2 }),
            0x39 => Some(Instruction { mnemonic: Mnemonic::SRL_r(Target::C), length: 2, m_cycles: 2 }),
            0x3A => Some(Instruction { mnemonic: Mnemonic::SRL_r(Target::D), length: 2, m_cycles: 2 }),
            0x3B => Some(Instruction { mnemonic: Mnemonic::SRL_r(Target::E), length: 2, m_cycles: 2 }),
            0x3C => Some(Instruction { mnemonic: Mnemonic::SRL_r(Target::H), length: 2, m_cycles: 2 }),
            0x3D => Some(Instruction { mnemonic: Mnemonic::SRL_r(Target::L), length: 2, m_cycles: 2 }),
            0x3F => Some(Instruction { mnemonic: Mnemonic::SRL_r(Target::A), length: 2, m_cycles: 2 }),
            0x87 => Some(Instruction { mnemonic: Mnemonic::RES_b_r(0, Target::A), length: 2, m_cycles: 2 }),
        _ => None,
    }
}

impl Instruction {
    pub fn new(mnemonic: Mnemonic, length: u16, m_cycles: u8) -> (r: Instruction)
        ensures
            r == (Instruction { mnemonic, length, m_cycles }),
    {
        Instruction { mnemonic, length, m_cycles }
    }

    /// Decodes one opcode byte against the primary table. `None` marks a
    /// coverage fault: an opcode the table does not implement, which the
    /// caller must surface, never skip.
    #[verifier::rlimit(100)]
    pub fn from_byte(value: u8) -> (r: Option<Instruction>)
        ensures
            r == spec_from_byte(value),
            r matches Some(i) ==> wf_instruction(i),
    {
        match value {
            0x00 => Some(Instruction::new(Mnemonic::NOP, 1, 1)),
            0x01 => Some(Instruction::new(Mnemonic::LD_rr_nn(Target::BC), 3, 3)),
            0x02 => Some(Instruction::new(Mnemonic::LD_rr_r(Target::BC, Target::A), 1, 2)),
            0x03 => Some(Instruction::new(Mnemonic::INC_rr(Target::BC), 1, 2)),
            0x04 => Some(Instruction::new(Mnemonic::INC_r(Target::B), 1, 1)),
            0x05 => Some(Instruction::new(Mnemonic::DEC_r(Target::B), 1, 1)),
            0x06 => Some(Instruction::new(Mnemonic::LD_r_n(Target::B), 2, 2)),
            0x07 => Some(Instruction::new(Mnemonic::RLCA, 1, 1)),
            0x08 => Some(Instruction::new(Mnemonic::LD_nn_sp, 3, 5)),
            0x0A => Some(Instruction::new(Mnemonic::LD_r_rr(Target::A, Target::BC), 1, 2)),
            0x0B => Some(Instruction::new(Mnemonic::DEC_rr(Target::BC), 1, 2)),
            0x0C => Some(Instruction::new(Mnemonic::INC_r(Target::C), 1, 1)),
            0x0D => Some(Instruction::new(Mnemonic::DEC_r(Target::C), 1, 1)),
            0x0E => Some(Instruction::new(Mnemonic::LD_r_n(Target::C), 2, 2)),
            0x0F => Some(Instruction::new(Mnemonic::RRCA, 1, 1)),
            0x11 => Some(Instruction::new(Mnemonic::LD_rr_nn(Target::DE), 3, 3)),
            0x12 => Some(Instruction::new(Mnemonic::LD_rr_r(Target::DE, Target::A), 1, 2)),
            0x13 => Some(Instruction::new(Mnemonic::INC_rr(Target::DE), 1, 2)),
            0x14 => Some(Instruction::new(Mnemonic::INC_r(Target::D), 1, 1)),
            0x15 => Some(Instruction::new(Mnemonic::DEC_r(Target::D), 1, 1)),
            0x16 => Some(Instruction::new(Mnemonic::LD_r_n(Target::D), 2, 2)),
            0x17 => Some(Instruction::new(Mnemonic::RLA, 1, 1)),
            0x18 => Some(Instruction::new(Mnemonic::JR_e, 2, 3)),
            0x1A => Some(Instruction::new(Mnemonic::LD_r_rr(Target::A, Target::DE), 1, 2)),
            0x1D => Some(Instruction::new(Mnemonic::DEC_r(Target::E), 1, 1)),
            0x1C => Some(Instruction::new(Mnemonic::INC_r(Target::E), 1, 1)),
            0x1E => Some(Instruction::new(Mnemonic::LD_r_n(Target::E), 2, 2)),
            0x1F => Some(Instruction::new(Mnemonic::RRA, 1, 1)),
            0x20 => Some(Instruction::new(Mnemonic::JR_nc_e(Flag::Z), 2, 3)),
            0x21 => Some(Instruction::new(Mnemonic::LD_rr_nn(Target::HL), 3, 3)),
            0x22 => Some(Instruction::new(Mnemonic::LD_hl_plus_a, 1, 2)),
            0x23 => Some(Instruction::new(Mnemonic::INC_rr(Target::HL), 1, 2)),
            0x24 => Some(Instruction::new(Mnemonic::INC_r(Target::H), 1, 1)),
            0x25 => Some(Instruction::new(Mnemonic::DEC_r(Target::H), 1, 1)),
            0x26 => Some(Instruction::new(Mnemonic::LD_r_n(Target::H), 2, 2)),
            0x27 => Some(Instruction::new(Mnemonic::DAA, 1, 1)),
            0x28 => Some(Instruction::new(Mnemonic::JR_c_e(Flag::Z), 2, 2)),
            0x29 => Some(Instruction::new(Mnemonic::ADD_hl_rr(Target::HL), 1, 2)),
            0x2A => Some(Instruction::new(Mnemonic::LD_a_hl_plus, 1, 2)),
            0x2C => Some(Instruction::new(Mnemonic::INC_r(Target::L), 1, 1)),
            0x2D => Some(Instruction::new(Mnemonic::DEC_r(Target::L), 1, 1)),
            0x2E => Some(Instruction::new(Mnemonic::LD_r_n(Target::L), 2, 2)),
            0x2F => Some(Instruction::new(Mnemonic::CPL, 1, 1)),
            0x30 => Some(Instruction::new(Mnemonic::JR_nc_e(Flag::C), 2, 3)),
            0x31 => Some(Instruction::new(Mnemonic::LD_sp_nn, 3, 3)),
            0x32 => Some(Instruction::new(Mnemonic::LD_hl_minus_a, 1, 2)),
            0x33 => Some(Instruction::new(Mnemonic::INC_sp, 1, 2)),
            0x34 => Some(Instruction::new(Mnemonic::INC_hl, 1, 3)),
            0x35 => Some(Instruction::new(Mnemonic::DEC_hl, 1, 3)),
            0x36 => Some(Instruction::new(Mnemonic::LD_hl_n, 2, 3)),
            0x37 => Some(Instruction::new(Mnemonic::SCF, 1, 1)),
            0x38 => Some(Instruction::new(Mnemonic::JR_c_e(Flag::C), 2, 2)),
            0x39 => Some(Instruction::new(Mnemonic::ADD_hl_sp, 1, 2)),
            0x3A => Some(Instruction::new(Mnemonic::LD_a_hl_minus, 1, 2)),
            0x3B => Some(Instruction::new(Mnemonic::DEC_sp, 1, 2)),
            0x3C => Some(Instruction::new(Mnemonic::INC_r(Target::A), 1, 1)),
            0x3D => Some(Instruction::new(Mnemonic::DEC_r(Target::A), 1, 1)),
            0x3E => Some(Instruction::new(Mnemonic::LD_r_n(Target::A), 2, 2)),
            0x3F => Some(Instruction::new(Mnemonic::CCF, 1, 1)),
            0x40 => Some(Instruction::new(Mnemonic::LD_r_r(Target::B, Target::B), 1, 1)),
            0x41 => Some(Instruction::new(Mnemonic::LD_r_r(Target::B, Target::C), 1, 1)),
            0x42 => Some(Instruction::new(Mnemonic::LD_r_r(Target::B, Target::D), 1, 1)),
            0x43 => Some(Instruction::new(Mnemonic::LD_r_r(Target::B, Target::E), 1, 1)),
            0x44 => Some(Instruction::new(Mnemonic::LD_r_r(Target::B, Target::H), 1, 1)),
            0x45 => Some(Instruction::new(Mnemonic::LD_r_r(Target::B, Target::L), 1, 1)),
            0x46 => Some(Instruction::new(Mnemonic::LD_r_rr(Target::B, Target::HL), 1, 2)),
            0x47 => Some(Instruction::new(Mnemonic::LD_r_r(Target::B, Target::A), 1, 1)),
            0x48 => Some(Instruction::new(Mnemonic::LD_r_r(Target::C, Target::B), 1, 1)),
            0x49 => Some(Instruction::new(Mnemonic::LD_r_r(Target::C, Target::C), 1, 1)),
            0x4A => Some(Instruction::new(Mnemonic::LD_r_r(Target::C, Target::D), 1, 1)),
            0x4B => Some(Instruction::new(Mnemonic::LD_r_r(Target::C, Target::E), 1, 1)),
            0x4C => Some(Instruction::new(Mnemonic::LD_r_r(Target::C, Target::H), 1, 1)),
            0x4D => Some(Instruction::new(Mnemonic::LD_r_r(Target::C, Target::L), 1, 1)),
            0x4E => Some(Instruction::new(Mnemonic::LD_r_rr(Target::C, Target::HL), 1, 2)),
            0x4F => Some(Instruction::new(Mnemonic::LD_r_r(Target::C, Target::A), 1, 1)),
            0x50 => Some(Instruction::new(Mnemonic::LD_r_r(Target::D, Target::B), 1, 1)),
            0x51 => Some(Instruction::new(Mnemonic::LD_r_r(Target::D, Target::C), 1, 1)),
            0x52 => Some(Instruction::new(Mnemonic::LD_r_r(Target::D, Target::D), 1, 1)),
            0x53 => Some(Instruction::new(Mnemonic::LD_r_r(Target::D, Target::E), 1, 1)),
            0x54 => Some(Instruction::new(Mnemonic::LD_r_r(Target::D, Target::H), 1, 1)),
            0x55 => Some(Instruction::new(Mnemonic::LD_r_r(Target::D, Target::L), 1, 1)),
            0x56 => Some(Instruction::new(Mnemonic::LD_r_rr(Target::D, Target::HL), 1, 2)),
            0x57 => Some(Instruction::new(Mnemonic::LD_r_r(Target::D, Target::A), 1, 1)),
            0x58 => Some(Instruction::new(Mnemonic::LD_r_r(Target::E, Target::B), 1, 1)),
            0x59 => Some(Instruction::new(Mnemonic::LD_r_r(Target::E, Target::C), 1, 1)),
            0x5A => Some(Instruction::new(Mnemonic::LD_r_r(Target::E, Target::D), 1, 1)),
            0x5B => Some(Instruction::new(Mnemonic::LD_r_r(Target::E, Target::E), 1, 1)),
            0x5C => Some(Instruction::new(Mnemonic::LD_r_r(Target::E, Target::H), 1, 1)),
            0x5D => Some(Instruction::new(Mnemonic::LD_r_r(Target::E, Target::L), 1, 1)),
            0x5E => Some(Instruction::new(Mnemonic::LD_r_rr(Target::E, Target::HL), 1, 2)),
            0x5F => Some(Instruction::new(Mnemonic::LD_r_r(Target::E, Target::A), 1, 1)),
            0x60 => Some(Instruction::new(Mnemonic::LD_r_r(Target::H, Target::B), 1, 1)),
            0x61 => Some(Instruction::new(Mnemonic::LD_r_r(Target::H, Target::C), 1, 1)),
            0x62 => Some(Instruction::new(Mnemonic::LD_r_r(Target::H, Target::D), 1, 1)),
            0x63 => Some(Instruction::new(Mnemonic::LD_r_r(Target::H, Target::E), 1, 1)),
            0x64 => Some(Instruction::new(Mnemonic::LD_r_r(Target::H, Target::H), 1, 1)),
            0x65 => Some(Instruction::new(Mnemonic::LD_r_r(Target::H, Target::L), 1, 1)),
            0x66 => Some(Instruction::new(Mnemonic::LD_r_rr(Target::H, Target::HL), 1, 2)),
            0x67 => Some(Instruction::new(Mnemonic::LD_r_r(Target::H, Target::A), 1, 1)),
            0x68 => Some(Instruction::new(Mnemonic::LD_r_r(Target::L, Target::B), 1, 1)),
            0x69 => Some(Instruction::new(Mnemonic::LD_r_r(Target::L, Target::C), 1, 1)),
            0x6A => Some(Instruction::new(Mnemonic::LD_r_r(Target::L, Target::D), 1, 1)),
            0x6B => Some(Instruction::new(Mnemonic::LD_r_r(Target::L, Target::E), 1, 1)),
            0x6C => Some(Instruction::new(Mnemonic::LD_r_r(Target::L, Target::H), 1, 1)),
            0x6D => Some(Instruction::new(Mnemonic::LD_r_r(Target::L, Target::L), 1, 1)),
            0x6E => Some(Instruction::new(Mnemonic::LD_r_rr(Target::L, Target::HL), 1, 2)),
            0x6F => Some(Instruction::new(Mnemonic::LD_r_r(Target::L, Target::A), 1, 1)),
            0x70 => Some(Instruction::new(Mnemonic::LD_rr_r(Target::HL, Target::B), 1, 2)),
            0x71 => Some(Instruction::new(Mnemonic::LD_rr_r(Target::HL, Target::C), 1, 2)),
            0x72 => Some(Instruction::new(Mnemonic::LD_rr_r(Target::HL, Target::D), 1, 2)),
            0x73 => Some(Instruction::new(Mnemonic::LD_rr_r(Target::HL, Target::E), 1, 2)),
            0x74 => Some(Instruction::new(Mnemonic::LD_rr_r(Target::HL, Target::H), 1, 2)),
            0x75 => Some(Instruction::new(Mnemonic::LD_rr_r(Target::HL, Target::L), 1, 2)),
            0x77 => Some(Instruction::new(Mnemonic::LD_rr_r(Target::HL, Target::A), 1, 2)),
            0x78 => Some(Instruction::new(Mnemonic::LD_r_r(Target::A, Target::B), 1, 1)),
            0x79 => Some(Instruction::new(Mnemonic::LD_r_r(Target::A, Target::C), 1, 1)),
            0x7A => Some(Instruction::new(Mnemonic::LD_r_r(Target::A, Target::D), 1, 1)),
            0x7B => Some(Instruction::new(Mnemonic::LD_r_r(Target::A, Target::E), 1, 1)),
            0x7C => Some(Instruction::new(Mnemonic::LD_r_r(Target::A, Target::H), 1, 1)),
            0x7D => Some(Instruction::new(Mnemonic::LD_r_r(Target::A, Target::L), 1, 1)),
            0x7E => Some(Instruction::new(Mnemonic::LD_r_rr(Target::A, Target::HL), 1, 2)),
            0x7F => Some(Instruction::new(Mnemonic::LD_r_r(Target::A, Target::A), 1, 1)),
            0x80 => Some(Instruction::new(Mnemonic::ADD_r(Target::B), 1, 1)),
            0x81 => Some(Instruction::new(Mnemonic::ADD_r(Target::C), 1, 1)),
            0x82 => Some(Instruction::new(Mnemonic::ADD_r(Target::D), 1, 1)),
            0x83 => Some(Instruction::new(Mnemonic::ADD_r(Target::E), 1, 1)),
            0x84 => Some(Instruction::new(Mnemonic::ADD_r(Target::H), 1, 1)),
            0x85 => Some(Instruction::new(Mnemonic::ADD_r(Target::L), 1, 1)),
            0x86 => Some(Instruction::new(Mnemonic::ADD_a_hl, 1, 2)),
            0x87 => Some(Instruction::new(Mnemonic::ADD_r(Target::A), 1, 1)),
            0x88 => Some(Instruction::new(Mnemonic::ADC_r(Target::B), 1, 1)),
            0x89 => Some(Instruction::new(Mnemonic::ADC_r(Target::C), 1, 1)),
            0x8A => Some(Instruction::new(Mnemonic::ADC_r(Target::D), 1, 1)),
            0x8B => Some(Instruction::new(Mnemonic::ADC_r(Target::E), 1, 1)),
            0x8C => Some(Instruction::new(Mnemonic::ADC_r(Target::H), 1, 1)),
            0x8D => Some(Instruction::new(Mnemonic::ADC_r(Target::L), 1, 1)),
            0x8E => Some(Instruction::new(Mnemonic::ADC_hl, 1, 2)),
            0x8F => Some(Instruction::new(Mnemonic::ADC_r(Target::A), 1, 1)),
            0x90 => Some(Instruction::new(Mnemonic::SUB_r(Target::B), 1, 1)),
            0x91 => Some(Instruction::new(Mnemonic::SUB_r(Target::C), 1, 1)),
            0x92 => Some(Instruction::new(Mnemonic::SUB_r(Target::D), 1, 1)),
            0x93 => Some(Instruction::new(Mnemonic::SUB_r(Target::E), 1, 1)),
            0x94 => Some(Instruction::new(Mnemonic::SUB_r(Target::H), 1, 1)),
            0x95 => Some(Instruction::new(Mnemonic::SUB_r(Target::L), 1, 1)),
            0x96 => Some(Instruction::new(Mnemonic::SUB_hl, 1, 2)),
            0x97 => Some(Instruction::new(Mnemonic::SUB_r(Target::A), 1, 1)),
            0x98 => Some(Instruction::new(Mnemonic::SBC_r(Target::B), 1, 1)),
            0x99 => Some(Instruction::new(Mnemonic::SBC_r(Target::C), 1, 1)),
            0x9A => Some(Instruction::new(Mnemonic::SBC_r(Target::D), 1, 1)),
            0x9B => Some(Instruction::new(Mnemonic::SBC_r(Target::E), 1, 1)),
            0x9C => Some(Instruction::new(Mnemonic::SBC_r(Target::H), 1, 1)),
            0x9D => Some(Instruction::new(Mnemonic::SBC_r(Target::L), 1, 1)),
            0x9E => Some(Instruction::new(Mnemonic::SBC_hl, 1, 2)),
            0x9F => Some(Instruction::new(Mnemonic::SBC_r(Target::A), 1, 1)),
            0xA0 => Some(Instruction::new(Mnemonic::AND_r(Target::B), 1, 1)),
            0xA1 => Some(Instruction::new(Mnemonic::AND_r(Target::C), 1, 1)),
            0xA2 => Some(Instruction::new(Mnemonic::AND_r(Target::D), 1, 1)),
            0xA3 => Some(Instruction::new(Mnemonic::AND_r(Target::E), 1, 1)),
            0xA4 => Some(Instruction::new(Mnemonic::AND_r(Target::H), 1, 1)),
            0xA5 => Some(Instruction::new(Mnemonic::AND_r(Target::L), 1, 1)),
            0xA6 => Some(Instruction::new(Mnemonic::AND_hl, 1, 2)),
            0xA7 => Some(Instruction::new(Mnemonic::AND_r(Target::A), 1, 1)),
            0xA8 => Some(Instruction::new(Mnemonic::XOR_r(Target::B), 1, 1)),
            0xA9 => Some(Instruction::new(Mnemonic::XOR_r(Target::C), 1, 1)),
            0xAA => Some(Instruction::new(Mnemonic::XOR_r(Target::D), 1, 1)),
            0xAB => Some(Instruction::new(Mnemonic::XOR_r(Target::E), 1, 1)),
            0xAC => Some(Instruction::new(Mnemonic::XOR_r(Target::H), 1, 1)),
            0xAD => Some(Instruction::new(Mnemonic::XOR_r(Target::L), 1, 1)),
            0xAE => Some(Instruction::new(Mnemonic::XOR_hl, 1, 2)),
            0xAF => Some(Instruction::new(Mnemonic::XOR_r(Target::A), 1, 1)),
            0xB0 => Some(Instruction::new(Mnemonic::OR_r(Target::B), 1, 1)),
            0xB1 => Some(Instruction::new(Mnemonic::OR_r(Target::C), 1, 1)),
            0xB2 => Some(Instruction::new(Mnemonic::OR_r(Target::D), 1, 1)),
            0xB3 => Some(Instruction::new(Mnemonic::OR_r(Target::E), 1, 1)),
            0xB4 => Some(Instruction::new(Mnemonic::OR_r(Target::H), 1, 1)),
            0xB5 => Some(Instruction::new(Mnemonic::OR_r(Target::L), 1, 1)),
            0xB6 => Some(Instruction::new(Mnemonic::OR_hl, 1, 2)),
            0xB7 => Some(Instruction::new(Mnemonic::OR_r(Target::A), 1, 1)),
            0xB8 => Some(Instruction::new(Mnemonic::CP_r(Target::B), 1, 1)),
            0xB9 => Some(Instruction::new(Mnemonic::CP_r(Target::C), 1, 1)),
            0xBA => Some(Instruction::new(Mnemonic::CP_r(Target::D), 1, 1)),
            0xBB => Some(Instruction::new(Mnemonic::CP_r(Target::E), 1, 1)),
            0xBC => Some(Instruction::new(Mnemonic::CP_r(Target::H), 1, 1)),
            0xBD => Some(Instruction::new(Mnemonic::CP_r(Target::L), 1, 1)),
            0xBE => Some(Instruction::new(Mnemonic::CP_hl, 1, 2)),
            0xBF => Some(Instruction::new(Mnemonic::CP_r(Target::A), 1, 1)),
            0xC0 => Some(Instruction::new(Mnemonic::RET_nc(Flag::Z), 1, 2)),
            0xC1 => Some(Instruction::new(Mnemonic::POP_rr(Target::BC), 1, 3)),
            0xC2 => Some(Instruction::new(Mnemonic::JP_nc_nn(Flag::Z), 3, 3)),
            0xC3 => Some(Instruction::new(Mnemonic::JP_nn, 3, 4)),
            0xC4 => Some(Instruction::new(Mnemonic::CALL_nc_nn(Flag::Z), 3, 3)),
            0xC5 => Some(Instruction::new(Mnemonic::PUSH_rr(Target::BC), 1, 4)),
            0xC6 => Some(Instruction::new(Mnemonic::ADD_n, 2, 2)),
            0xC7 => Some(Instruction::new(Mnemonic::RST(0x0000), 1, 4)),
            0xC8 => Some(Instruction::new(Mnemonic::RET_c(Flag::Z), 1, 2)),
            0xC9 => Some(Instruction::new(Mnemonic::RET, 1, 4)),
            0xCA => Some(Instruction::new(Mnemonic::JP_c_nn(Flag::Z), 3, 3)),
            0xCB => Some(Instruction::new(Mnemonic::Prefix, 1, 1)),
            0xCC => Some(Instruction::new(Mnemonic::CALL_c_nn(Flag::Z), 3, 3)),
            0xCD => Some(Instruction::new(Mnemonic::CALL_nn, 3, 6)),
            0xCE => Some(Instruction::new(Mnemonic::ADC_n, 2, 2)),
            0xCF => Some(Instruction::new(Mnemonic::RST(0x0008), 1, 4)),
            0xD0 => Some(Instruction::new(Mnemonic::RET_nc(Flag::C), 1, 2)),
            0xD1 => Some(Instruction::new(Mnemonic::POP_rr(Target::DE), 1, 3)),
            0xD2 => Some(Instruction::new(Mnemonic::JP_nc_nn(Flag::C), 3, 12)),
            0xD4 => Some(Instruction::new(Mnemonic::CALL_nc_nn(Flag::C), 3, 3)),
            0xD5 => Some(Instruction::new(Mnemonic::PUSH_rr(Target::DE), 1, 4)),
            0xD6 => Some(Instruction::new(Mnemonic::SUB_n, 2, 2)),
            0xD7 => Some(Instruction::new(Mnemonic::RST(0x0010), 1, 4)),
            0xD8 => Some(Instruction::new(Mnemonic::RET_c(Flag::C), 1, 2)),
            0xD9 => Some(Instruction::new(Mnemonic::RETI, 3, 3)),
            0xDA => Some(Instruction::new(Mnemonic::JP_c_nn(Flag::C), 3, 3)),
            0xDC => Some(Instruction::new(Mnemonic::CALL_c_nn(Flag::C), 3, 3)),
            0xDF => Some(Instruction::new(Mnemonic::RST(0x0018), 1, 4)),
            0xE0 => Some(Instruction::new(Mnemonic::LDH_n_a, 2, 3)),
            0xE1 => Some(Instruction::new(Mnemonic::POP_rr(Target::HL), 1, 3)),
            0xE5 => Some(Instruction::new(Mnemonic::PUSH_rr(Target::HL), 1, 4)),
            0xE6 => Some(Instruction::new(Mnemonic::AND_n, 2, 2)),
            0xE7 => Some(Instruction::new(Mnemonic::RST(0x0020), 1, 4)),
            0xE8 => Some(Instruction::new(Mnemonic::ADD_sp_n, 2, 4)),
            0xE9 => Some(Instruction::new(Mnemonic::JP_hl, 1, 1)),
            0xEA => Some(Instruction::new(Mnemonic::LD_nn_a, 3, 4)),
            0xEE => Some(Instruction::new(Mnemonic::XOR_n, 2, 2)),
            0xEF => Some(Instruction::new(Mnemonic::RST(0x0028), 1, 4)),
            0xF0 => Some(Instruction::new(Mnemonic::LDH_a_n, 2, 3)),
            0xF1 => Some(Instruction::new(Mnemonic::POP_af, 1, 3)),
            0xF3 => Some(Instruction::new(Mnemonic::DisableInterrupt, 1, 1)),
            0xF5 => Some(Instruction::new(Mnemonic::PUSH_rr(Target::AF), 1, 4)),
            0xF6 => Some(Instruction::new(Mnemonic::OR_n, 2, 2)),
            0xF7 => Some(Instruction::new(Mnemonic::RST(0x0030), 1, 4)),
            0xF8 => Some(Instruction::new(Mnemonic::LD_hl_sp_plus_n, 2, 3)),
            0xF9 => Some(Instruction::new(Mnemonic::LD_sp_hl, 1, 2)),
            0xFA => Some(Instruction::new(Mnemonic::LD_a_nn, 3, 4)),
            0xFE => Some(Instruction::new(Mnemonic::CP_n, 2, 2)),
            0xFF => Some(Instruction::new(Mnemonic::RST(0x0038), 1, 4)),
            _ => None,
        }
    }

    /// Decodes one extension byte against the extended table, reached only
    /// via the prefix-escape opcode. `None` marks a coverage fault.
    #[verifier::rlimit(100)]
    pub fn from_prefix(value: u8) -> (r: Option<Instruction>)
        ensures
            r == spec_from_prefix(value),
            r matches Some(i) ==> wf_instruction(i),
    {
        match value {
            0x00 => Some(Instruction::new(Mnemonic::RLC_r(Target::B), 2, 2)),
            0x01 => Some(Instruction::new(Mnemonic::RLC_r(Target::C), 2, 2)),
            0x02 => Some(Instruction::new(Mnemonic::RLC_r(Target::D), 2, 2)),
            0x03 => Some(Instruction::new(Mnemonic::RLC_r(Target::E), 2, 2)),
            0x04 => Some(Instruction::new(Mnemonic::RLC_r(Target::H), 2, 2)),
            0x05 => Some(Instruction::new(Mnemonic::RLC_r(Target::L), 2, 2)),
            0x07 => Some(Instruction::new(Mnemonic::RLC_r(Target::A), 2, 2)),
            0x08 => Some(Instruction::new(Mnemonic::RRC_r(Target::B), 2, 2)),
            0x09 => Some(Instruction::new(Mnemonic::RRC_r(Target::C), 2, 2)),
            0x0A => Some(Instruction::new(Mnemonic::RRC_r(Target::D), 2, 2)),
            0x0B => Some(Instruction::new(Mnemonic::RRC_r(Target::E), 2, 2)),
            0x0C => Some(Instruction::new(Mnemonic::RRC_r(Target::H), 2, 2)),
            0x0D => Some(Instruction::new(Mnemonic::RRC_r(Target::L), 2, 2)),
            0x0F => Some(Instruction::new(Mnemonic::RRC_r(Target::A), 2, 2)),
            0x10 => Some(Instruction::new(Mnemonic::RL_r(Target::B), 2, 2)),
            0x11 => Some(Instruction::new(Mnemonic::RL_r(Target::C), 2, 2)),
            0x12 => Some(Instruction::new(Mnemonic::RL_r(Target::D), 2, 2)),
            0x13 => Some(Instruction::new(Mnemonic::RL_r(Target::E), 2, 2)),
            0x14 => Some(Instruction::new(Mnemonic::RL_r(Target::H), 2, 2)),
            0x15 => Some(Instruction::new(Mnemonic::RL_r(Target::L), 2, 2)),
            0x17 => Some(Instruction::new(Mnemonic::RL_r(Target::A), 2, 2)),
            0x18 => Some(Instruction::new(Mnemonic::RR_r(Target::B), 2, 2)),
            0x19 => Some(Instruction::new(Mnemonic::RR_r(Target::C), 2, 2)),
            0x1A => Some(Instruction::new(Mnemonic::RR_r(Target::D), 2, 2)),
            0x1B => Some(Instruction::new(Mnemonic::RR_r(Target::E), 2, 2)),
            0x1C => Some(Instruction::new(Mnemonic::RR_r(Target::H), 2, 2)),
            0x1D => Some(Instruction::new(Mnemonic::RR_r(Target::L), 2, 2)),
            0x1F => Some(Instruction::new(Mnemonic::RR_r(Target::A), 2, 2)),
            0x20 => Some(Instruction::new(Mnemonic::SLA_r(Target::B), 2, 2)),
            0x21 => Some(Instruction::new(Mnemonic::SLA_r(Target::C), 2, 2)),
            0x22 => Some(Instruction::new(Mnemonic::SLA_r(Target::D), 2, 2)),
            0x23 => Some(Instruction::new(Mnemonic::SLA_r(Target::E), 2, 2)),
            0x24 => Some(Instruction::new(Mnemonic::SLA_r(Target::H), 2, 2)),
            0x25 => Some(Instruction::new(Mnemonic::SLA_r(Target::L), 2, 2)),
            0x27 => Some(Instruction::new(Mnemonic::SLA_r(Target::A), 2, 2)),
            0x28 => Some(Instruction::new(Mnemonic::SRA_r(Target::B), 2, 2)),
            0x29 => Some(Instruction::new(Mnemonic::SRA_r(Target::C), 2, 2)),
            0x2A => Some(Instruction::new(Mnemonic::SRA_r(Target::D), 2, 2)),
            0x2B => Some(Instruction::new(Mnemonic::SRA_r(Target::E), 2, 2)),
            0x2C => Some(Instruction::new(Mnemonic::SRA_r(Target::H), 2, 2)),
            0x2D => Some(Instruction::new(Mnemonic::SRA_r(Target::L), 2, 2)),
            0x2F => Some(Instruction::new(Mnemonic::SRA_r(Target::A), 2, 2)),
            0x30 => Some(Instruction::new(Mnemonic::SWAP_r(Target::B), 2, 2)),
            0x31 => Some(Instruction::new(Mnemonic::SWAP_r(Target::C), 2, 2)),
            0x32 => Some(Instruction::new(Mnemonic::SWAP_r(Target::D), 2, 2)),
            0x33 => Some(Instruction::new(Mnemonic::SWAP_r(Target::E), 2, 2)),
            0x34 => Some(Instruction::new(Mnemonic::SWAP_r(Target::H), 2, 2)),
            0x35 => Some(Instruction::new(Mnemonic::SWAP_r(Target::L), 2, 2)),
            0x37 => Some(Instruction::new(Mnemonic::SWAP_r(Target::A), 2, 2)),
            0x38 => Some(Instruction::new(Mnemonic::SRL_r(Target::B), 2, 2)),
            0x39 => Some(Instruction::new(Mnemonic::SRL_r(Target::C), 2, 2)),
            0x3A => Some(Instruction::new(Mnemonic::SRL_r(Target::D), 2, 2)),
            0x3B => Some(Instruction::new(Mnemonic::SRL_r(Target::E), 2, 2)),
            0x3C => Some(Instruction::new(Mnemonic::SRL_r(Target::H), 2, 2)),
            0x3D => Some(Instruction::new(Mnemonic::SRL_r(Target::L), 2, 2)),
            0x3F => Some(Instruction::new(Mnemonic::SRL_r(Target::A), 2, 2)),
            0x87 => Some(Instruction::new(Mnemonic::RES_b_r(0, Target::A), 2, 2)),
            _ => None,
        }
    }
}

} // verus!
