use vstd::prelude::*;

verus! {

/// Bit 0: carry.
pub const FLAG_C: u8 = 0x01;
/// Bit 1: zero.
pub const FLAG_Z: u8 = 0x02;
/// Bit 2: interrupt disable.
pub const FLAG_I: u8 = 0x04;
/// Bit 3: decimal.
pub const FLAG_D: u8 = 0x08;
/// Bit 6: overflow.
pub const FLAG_V: u8 = 0x40;
/// Bit 7: negative.
pub const FLAG_N: u8 = 0x80;
/// All six physical flags.
pub const ALL_FLAGS: u8 = 0xCF;
/// Bit 4 of a pushed status byte: the B flag.
pub const STACK_B: u8 = 0x10;
/// Bit 5 of a pushed status byte: always 1.
pub const STACK_R: u8 = 0x20;

/// The byte pushed onto the stack for a status value.
pub open spec fn stack_byte_of(bits: u8, set_b_flag: bool) -> u8 {
    (if set_b_flag { bits | STACK_B } else { bits & !STACK_B }) | STACK_R
}

/// The CPU status flags (`NV..DIZC`).
#[derive(Clone, Copy, Debug)]
pub struct StatusRegister {
    bits: u8,
}

impl StatusRegister {
    /// The raw bits held.
    pub closed spec fn value(self) -> u8 {
        self.bits
    }

    /// Creates a new `StatusRegister` in its power-on state (`0x24`).
    pub fn new() -> (r: Self)
        ensures
            r.value() == 0x24,
    {
        Self { bits: 0x24 }
    }

    /// The raw bits held.
    pub fn bits(&self) -> (r: u8)
        ensures
            r == self.value(),
    {
        self.bits
    }

    /// Whether every bit of `flag` is set.
    pub fn contains(&self, flag: u8) -> (r: bool)
        ensures
            r == (self.value() & flag == flag),
    {
        self.bits & flag == flag
    }

    /// Sets or clears the bits of `flag`.
    pub fn set(&mut self, flag: u8, value: bool)
        ensures
            final(self).value() == if value {
                old(self).value() | flag
            } else {
                old(self).value() & !flag
            },
    {
        if value {
            self.bits = self.bits | flag;
        } else {
            self.bits = self.bits & !flag;
        }
    }

    /// Sets the bits of `flag`.
    pub fn insert(&mut self, flag: u8)
        ensures
            final(self).value() == old(self).value() | flag,
    {
        self.bits = self.bits | flag;
    }

    /// Clears the bits of `flag`.
    pub fn remove(&mut self, flag: u8)
        ensures
            final(self).value() == old(self).value() & !flag,
    {
        self.bits = self.bits & !flag;
    }

    /// The byte pushed onto the stack: bit 5 is always 1, bit 4 is
    /// `set_b_flag` (true for BRK/PHP, false for NMI/IRQ).
    pub fn as_stack_byte(&self, set_b_flag: bool) -> (r: u8)
        ensures
            r == stack_byte_of(self.value(), set_b_flag),
            r & STACK_R == STACK_R,
            (r & STACK_B == STACK_B) == set_b_flag,
            r & ALL_FLAGS == self.value() & ALL_FLAGS,
    {
        proof {
            lemma_stack_byte_bits(self.bits, set_b_flag);
        }
        let with_b: u8 = if set_b_flag {
            self.bits | STACK_B
        } else {
            self.bits & !STACK_B
        };
        with_b | STACK_R
    }

    /// Loads the flags from a byte pulled off the stack; bits 4 and 5 are
    /// dropped, as they are no physical flags.
    pub fn set_from_stack_byte(&mut self, val: u8)
        ensures
            final(self).value() == val & ALL_FLAGS,
    {
        self.bits = val & ALL_FLAGS;
    }
}

proof fn lemma_stack_byte_bits(x: u8, b: bool)
    ensures
        stack_byte_of(x, b) & STACK_R == STACK_R,
        (stack_byte_of(x, b) & STACK_B == STACK_B) == b,
        stack_byte_of(x, b) & ALL_FLAGS == x & ALL_FLAGS,
{
    if b {
        assert(((x | 0x10u8) | 0x20u8) & 0x20u8 == 0x20u8
            && ((x | 0x10u8) | 0x20u8) & 0x10u8 == 0x10u8
            && ((x | 0x10u8) | 0x20u8) & 0xCFu8 == x & 0xCFu8) by (bit_vector);
    } else {
        assert(((x & !0x10u8) | 0x20u8) & 0x20u8 == 0x20u8
            && ((x & !0x10u8) | 0x20u8) & 0x10u8 != 0x10u8
            && ((x & !0x10u8) | 0x20u8) & 0xCFu8 == x & 0xCFu8) by (bit_vector);
    }
}

/// Pushing the status onto the stack and pulling it back restores every
/// physical flag.
pub proof fn lemma_stack_round_trip(s: StatusRegister, set_b_flag: bool)
    ensures
        stack_byte_of(s.value(), set_b_flag) & ALL_FLAGS == s.value() & ALL_FLAGS,
{
    lemma_stack_byte_bits(s.value(), set_b_flag);
}

} // verus!
