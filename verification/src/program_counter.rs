use vstd::prelude::*;

verus! {

/// The address at which execution starts, the first address after the boot
/// ROM.
pub const ENTRY_POINT: u16 = 0x0100;

/// The 16-bit address cursor of the CPU. All movement wraps silently modulo
/// 65536.
pub struct ProgramCounter {
    pub value: u16,
}

impl ProgramCounter {
    pub fn new() -> (r: ProgramCounter)
        ensures
            r.value == ENTRY_POINT,
    {
        ProgramCounter { value: ENTRY_POINT }
    }

    pub fn get(&self) -> (r: u16)
        ensures
            r == self.value,
    {
        self.value
    }

    pub fn set(&mut self, value: u16)
        ensures
            final(self).value == value,
    {
        self.value = value;
    }

    /// Adds a signed 8-bit displacement to the counter, with exact
    /// two's-complement relative-branch semantics modulo 65536.
    pub fn relative_jump(&mut self, value: i8)
        ensures
            final(self).value == (old(self).value + value) % 0x10000,
    {
        self.value = self.value.wrapping_add_signed(value as i16);
    }

    /// Fetch-and-increment: returns the current address and advances the
    /// counter by one, wrapping modulo 65536.
    pub fn next(&mut self) -> (r: u16)
        ensures
            r == old(self).value,
            final(self).value == (old(self).value + 1) % 0x10000,
    {
        let old_value = self.value;
        self.value = self.value.wrapping_add(1);
        old_value
    }
}

} // verus!
