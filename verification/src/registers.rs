use vstd::prelude::*;

use crate::flags_register::FlagsRegister;
use crate::flags_register::lemma_flags_pack_unpack;
use crate::instruction::Target;
use crate::instruction::is_byte_target;
use crate::instruction::is_pair_target;

verus! {

/// The register file: seven independent 8-bit registers plus the flags.
/// The 16-bit pairs AF, BC, DE and HL are computed views over these fields,
/// never stored separately; AF's low byte is always the packed flags byte.
pub struct Registers {
    pub a: u8,
    pub b: u8,
    pub c: u8,
    pub d: u8,
    pub e: u8,
    pub f: FlagsRegister,
    pub h: u8,
    pub l: u8,
}

impl Registers {
    /// The value of the single 8-bit register a byte target selects.
    pub open spec fn spec_get_register(self, t: Target) -> u8
        recommends
            is_byte_target(t),
    {
        match t {
            Target::A => self.a,
            Target::B => self.b,
            Target::C => self.c,
            Target::D => self.d,
            Target::E => self.e,
            Target::H => self.h,
            Target::L => self.l,
            _ => 0,
        }
    }

    /// The register file after writing one 8-bit register.
    pub open spec fn spec_set_register(self, t: Target, value: u8) -> Registers
        recommends
            is_byte_target(t),
    {
        match t {
            Target::A => Registers { a: value, ..self },
            Target::B => Registers { b: value, ..self },
            Target::C => Registers { c: value, ..self },
            Target::D => Registers { d: value, ..self },
            Target::E => Registers { e: value, ..self },
            Target::H => Registers { h: value, ..self },
            Target::L => Registers { l: value, ..self },
            _ => self,
        }
    }

    /// The high byte of a 16-bit pair view.
    pub open spec fn spec_pair_high(self, t: Target) -> u8
        recommends
            is_pair_target(t),
    {
        match t {
            Target::AF => self.a,
            Target::BC => self.b,
            Target::DE => self.d,
            Target::HL => self.h,
            _ => 0,
        }
    }

    /// The low byte of a 16-bit pair view; for AF it is the packed flags
    /// byte.
    pub open spec fn spec_pair_low(self, t: Target) -> u8
        recommends
            is_pair_target(t),
    {
        match t {
            Target::AF => self.f.spec_pack(),
            Target::BC => self.c,
            Target::DE => self.e,
            Target::HL => self.l,
            _ => 0,
        }
    }

    /// The computed value of a 16-bit pair: high byte times 256 plus low
    /// byte.
    pub open spec fn spec_get_pair(self, t: Target) -> u16
        recommends
            is_pair_target(t),
    {
        (self.spec_pair_high(t) * 256 + self.spec_pair_low(t)) as u16
    }

    /// The register file after writing a 16-bit pair: both halves change as
    /// one logical operation; writing AF unpacks the low byte into the
    /// flags, which drops its low nibble.
    pub open spec fn spec_set_pair(self, t: Target, value: u16) -> Registers
        recommends
            is_pair_target(t),
    {
        match t {
            Target::AF => Registers {
                a: (value / 256) as u8,
                f: FlagsRegister::spec_unpack((value % 256) as u8),
                ..self
            },
            Target::BC => Registers { b: (value / 256) as u8, c: (value % 256) as u8, ..self },
            Target::DE => Registers { d: (value / 256) as u8, e: (value % 256) as u8, ..self },
            Target::HL => Registers { h: (value / 256) as u8, l: (value % 256) as u8, ..self },
            _ => self,
        }
    }

    /// The documented post-boot register values; the flags preset follows
    /// the header checksum rule.
    pub fn new(enable_flags: bool) -> (r: Registers)
        ensures
            r.a == 0x01,
            r.b == 0x00,
            r.c == 0x13,
            r.d == 0x00,
            r.e == 0xD8,
            r.f == (FlagsRegister {
                zero: false,
                subtract: false,
                half_carry: enable_flags,
                carry: enable_flags,
            }),
            r.h == 0x01,
            r.l == 0x4D,
    {
        Registers {
            a: 0x01,
            b: 0x00,
            c: 0x13,
            d: 0x00,
            e: 0xD8,
            f: FlagsRegister::new(enable_flags),
            h: 0x01,
            l: 0x4D,
        }
    }

    pub fn get_af(&self) -> (r: u16)
        ensures
            r == self.spec_get_pair(Target::AF),
    {
        let f: u8 = self.f.pack();
        (self.a as u16) * 256 + (f as u16)
    }

    pub fn set_af(&mut self, value: u16)
        ensures
            *final(self) == old(self).spec_set_pair(Target::AF, value),
    {
        self.a = (value / 256) as u8;
        self.f = FlagsRegister::unpack((value % 256) as u8);
    }

    pub fn get_bc(&self) -> (r: u16)
        ensures
            r == self.spec_get_pair(Target::BC),
    {
        (self.b as u16) * 256 + (self.c as u16)
    }

    pub fn set_bc(&mut self, value: u16)
        ensures
            *final(self) == old(self).spec_set_pair(Target::BC, value),
    {
        self.b = (value / 256) as u8;
        self.c = (value % 256) as u8;
    }

    pub fn get_de(&self) -> (r: u16)
        ensures
            r == self.spec_get_pair(Target::DE),
    {
        (self.d as u16) * 256 + (self.e as u16)
    }

    pub fn set_de(&mut self, value: u16)
        ensures
            *final(self) == old(self).spec_set_pair(Target::DE, value),
    {
        self.d = (value / 256) as u8;
        self.e = (value % 256) as u8;
    }

    pub fn get_hl(&self) -> (r: u16)
        ensures
            r == self.spec_get_pair(Target::HL),
    {
        (self.h as u16) * 256 + (self.l as u16)
    }

    pub fn set_hl(&mut self, value: u16)
        ensures
            *final(self) == old(self).spec_set_pair(Target::HL, value),
    {
        self.h = (value / 256) as u8;
        self.l = (value % 256) as u8;
    }

    pub fn get_a(&self) -> (r: u8)
        ensures
            r == self.a,
    {
        self.a
    }

    pub fn set_a(&mut self, value: u8)
        ensures
            *final(self) == (Registers { a: value, ..*old(self) }),
    {
        self.a = value;
    }

    pub fn get_b(&self) -> (r: u8)
        ensures
            r == self.b,
    {
        self.b
    }

    pub fn set_b(&mut self, value: u8)
        ensures
            *final(self) == (Registers { b: value, ..*old(self) }),
    {
        self.b = value;
    }

    pub fn get_c(&self) -> (r: u8)
        ensures
            r == self.c,
    {
        self.c
    }

    pub fn set_c(&mut self, value: u8)
        ensures
            *final(self) == (Registers { c: value, ..*old(self) }),
    {
        self.c = value;
    }

    pub fn get_d(&self) -> (r: u8)
        ensures
            r == self.d,
    {
        self.d
    }

    pub fn set_d(&mut self, value: u8)
        ensures
            *final(self) == (Registers { d: value, ..*old(self) }),
    {
        self.d = value;
    }

    pub fn get_e(&self) -> (r: u8)
        ensures
            r == self.e,
    {
        self.e
    }

    pub fn set_e(&mut self, value: u8)
        ensures
            *final(self) == (Registers { e: value, ..*old(self) }),
    {
        self.e = value;
    }

    /// The packed flags byte, which is also AF's low byte.
    pub fn get_f(&self) -> (r: u8)
        ensures
            r == self.f.spec_pack(),
    {
        self.f.pack()
    }

    pub fn get_h(&self) -> (r: u8)
        ensures
            r == self.h,
    {
        self.h
    }

    pub fn set_h(&mut self, value: u8)
        ensures
            *final(self) == (Registers { h: value, ..*old(self) }),
    {
        self.h = value;
    }

    pub fn get_l(&self) -> (r: u8)
        ensures
            r == self.l,
    {
        self.l
    }

    pub fn set_l(&mut self, value: u8)
        ensures
            *final(self) == (Registers { l: value, ..*old(self) }),
    {
        self.l = value;
    }

    /// Reads any single 8-bit register through its selector. The contract
    /// rules out pair selectors, so no runtime check is needed.
    pub fn get_register_value(&self, reg_target: &Target) -> (r: u8)
        requires
            is_byte_target(*reg_target),
        ensures
            r == self.spec_get_register(*reg_target),
    {
        match reg_target {
            Target::A => self.get_a(),
            Target::B => self.get_b(),
            Target::C => self.get_c(),
            Target::D => self.get_d(),
            Target::E => self.get_e(),
            Target::H => self.get_h(),
            Target::L => self.get_l(),
            _ => unreached(),
        }
    }

    /// Reads any 16-bit pair through its selector. The contract rules out
    /// byte selectors.
    pub fn get_pair_value(&self, pair_target: &Target) -> (r: u16)
        requires
            is_pair_target(*pair_target),
        ensures
            r == self.spec_get_pair(*pair_target),
    {
        match pair_target {
            Target::AF => self.get_af(),
            Target::BC => self.get_bc(),
            Target::DE => self.get_de(),
            Target::HL => self.get_hl(),
            _ => unreached(),
        }
    }

    /// Writes any single 8-bit register through its selector, so the engine
    /// can operate generically over "any register" without per-opcode
    /// branching. The contract rules out pair selectors.
    pub fn set_register_value(&mut self, reg_target: &Target, value: u8)
        requires
            is_byte_target(*reg_target),
        ensures
            *final(self) == old(self).spec_set_register(*reg_target, value),
    {
        match reg_target {
            Target::A => self.set_a(value),
            Target::B => self.set_b(value),
            Target::C => self.set_c(value),
            Target::D => self.set_d(value),
            Target::E => self.set_e(value),
            Target::H => self.set_h(value),
            Target::L => self.set_l(value),
            _ => unreached(),
        }
    }

    /// Writes any 16-bit pair through its selector. The contract rules out
    /// byte selectors.
    pub fn set_pair_value(&mut self, pair_target: &Target, value: u16)
        requires
            is_pair_target(*pair_target),
        ensures
            *final(self) == old(self).spec_set_pair(*pair_target, value),
    {
        match pair_target {
            Target::AF => self.set_af(value),
            Target::BC => self.set_bc(value),
            Target::DE => self.set_de(value),
            Target::HL => self.set_hl(value),
            _ => unreached(),
        }
    }
}

/// Law: writing a 16-bit pair and reading it back returns the value, and
/// the constituent bytes hold its high and low halves. For AF the law holds
/// on values whose low nibble is zero: the flags byte forces bits 3-0 to
/// zero, so other values cannot be stored exactly.
pub proof fn lemma_pair_round_trip(regs: Registers, pair: Target, v: u16)
    requires
        is_pair_target(pair),
        pair == Target::AF ==> v % 16 == 0,
    ensures
        regs.spec_set_pair(pair, v).spec_get_pair(pair) == v,
        regs.spec_set_pair(pair, v).spec_pair_high(pair) == v / 256,
        regs.spec_set_pair(pair, v).spec_pair_low(pair) == v % 256,
{
    if pair == Target::AF {
        assert(v % 256 % 16 == 0) by {
            assert(v == 256 * (v / 256) + v % 256);
            assert(v % 16 == (256 * (v / 256) + v % 256) % 16);
        }
        lemma_flags_pack_unpack((v % 256) as u8);
    }
}

/// Law: AF's low byte has a zero low nibble in every register state,
/// because it is always the packed flags byte.
pub proof fn lemma_af_low_nibble(regs: Registers)
    ensures
        regs.spec_get_pair(Target::AF) % 16 == 0,
{
}

} // verus!
