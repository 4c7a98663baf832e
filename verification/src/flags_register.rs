use vstd::prelude::*;

verus! {

/// The four condition flags of the CPU. They travel as one byte: bits 7-4
/// hold Zero, Subtract, HalfCarry and Carry in that order, bits 3-0 are
/// always zero.
#[derive(Clone, Copy, Debug, PartialEq, Eq, Structural)]
pub struct FlagsRegister {
    pub zero: bool,
    pub subtract: bool,
    pub half_carry: bool,
    pub carry: bool,
}

impl FlagsRegister {
    /// The byte encoding of the flags: each flag contributes its bit weight,
    /// so the high nibble carries the flags and the low nibble is zero.
    pub open spec fn spec_pack(self) -> u8 {
        ((if self.zero { 128int } else { 0int })
            + (if self.subtract { 64int } else { 0int })
            + (if self.half_carry { 32int } else { 0int })
            + (if self.carry { 16int } else { 0int })) as u8
    }

    /// The flags read back from a byte: each flag is its own bit of the high
    /// nibble; the low nibble is ignored.
    pub open spec fn spec_unpack(byte: u8) -> FlagsRegister {
        FlagsRegister {
            zero: byte / 128 % 2 == 1,
            subtract: byte / 64 % 2 == 1,
            half_carry: byte / 32 % 2 == 1,
            carry: byte / 16 % 2 == 1,
        }
    }

    /// Power-on preset: carry and half-carry are set exactly when the
    /// cartridge header checksum was nonzero; zero and subtract start clear.
    pub fn new(enable_flags: bool) -> (r: FlagsRegister)
        ensures
            r == (FlagsRegister {
                zero: false,
                subtract: false,
                half_carry: enable_flags,
                carry: enable_flags,
            }),
    {
        FlagsRegister { zero: false, subtract: false, half_carry: enable_flags, carry: enable_flags }
    }

    /// Overwrites all four flags as one atomic update.
    pub fn set_flags(&mut self, zero: bool, subtract: bool, half_carry: bool, carry: bool)
        ensures
            *final(self) == (FlagsRegister { zero, subtract, half_carry, carry }),
    {
        self.zero = zero;
        self.subtract = subtract;
        self.half_carry = half_carry;
        self.carry = carry;
    }

    pub fn get_zero(&self) -> (r: bool)
        ensures
            r == self.zero,
    {
        self.zero
    }

    pub fn get_subtract(&self) -> (r: bool)
        ensures
            r == self.subtract,
    {
        self.subtract
    }

    pub fn get_half_carry(&self) -> (r: bool)
        ensures
            r == self.half_carry,
    {
        self.half_carry
    }

    pub fn get_carry(&self) -> (r: bool)
        ensures
            r == self.carry,
    {
        self.carry
    }

    /// Packs the four flags into their byte encoding.
    pub fn pack(&self) -> (r: u8)
        ensures
            r == self.spec_pack(),
            r % 16 == 0,
    {
        (if self.zero { 128u8 } else { 0u8 })
            + (if self.subtract { 64u8 } else { 0u8 })
            + (if self.half_carry { 32u8 } else { 0u8 })
            + (if self.carry { 16u8 } else { 0u8 })
    }

    /// Reads four flags out of a byte encoding; the low nibble is ignored.
    pub fn unpack(byte: u8) -> (r: FlagsRegister)
        ensures
            r == FlagsRegister::spec_unpack(byte),
    {
        FlagsRegister {
            zero: byte / 128 % 2 == 1,
            subtract: byte / 64 % 2 == 1,
            half_carry: byte / 32 % 2 == 1,
            carry: byte / 16 % 2 == 1,
        }
    }
}

/// Law: packing is lossless. For every combination of the four flags,
/// unpacking the packed byte returns the same flags, and the packed byte's
/// low nibble is zero.
pub proof fn lemma_flags_round_trip(f: FlagsRegister)
    ensures
        FlagsRegister::spec_unpack(f.spec_pack()) == f,
        f.spec_pack() % 16 == 0,
{
}

/// Law: a byte whose low nibble is zero is reproduced exactly by unpacking
/// it and packing the result. This is the other direction of the round trip,
/// which the AF register pair relies on.
pub proof fn lemma_flags_pack_unpack(byte: u8)
    requires
        byte % 16 == 0,
    ensures
        FlagsRegister::spec_unpack(byte).spec_pack() == byte,
{
}

} // verus!
