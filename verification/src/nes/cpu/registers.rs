//! The CPU's registers and status flags.

use vstd::prelude::*;

pub use crate::cycle::status::{FLAG_C, FLAG_Z, FLAG_I, FLAG_D, FLAG_V, FLAG_N, ALL_FLAGS, STACK_B, STACK_R};

verus! {

/// The status flags (`NV..DIZC`); bits 4 and 5 exist only on the stack.
#[derive(Clone, Copy, Debug)]
pub struct Status {
    pub bits: u8,
}

impl Status {
    /// Every bit of `flag` is set.
    pub open spec fn has(self, flag: u8) -> bool {
        self.bits & flag == flag
    }

    /// The status with the bits of `flag` set (`v`) or cleared.
    pub open spec fn with(self, flag: u8, v: bool) -> Status {
        Status { bits: if v { self.bits | flag } else { self.bits & !flag } }
    }

    /// The raw bits.
    pub fn bits(&self) -> (r: u8)
        ensures
            r == self.bits,
    {
        self.bits
    }

    /// Whether every bit of `flag` is set.
    pub fn contains(&self, flag: u8) -> (r: bool)
        ensures
            r == self.has(flag),
    {
        self.bits & flag == flag
    }

    /// Sets (`v`) or clears the bits of `flag`.
    pub fn set(&mut self, flag: u8, v: bool)
        ensures
            *final(self) == old(self).with(flag, v),
    {
        if v {
            self.bits = self.bits | flag;
        } else {
            self.bits = self.bits & !flag;
        }
    }

    /// Sets the bits of `flag`.
    pub fn insert(&mut self, flag: u8)
        ensures
            *final(self) == old(self).with(flag, true),
    {
        self.bits = self.bits | flag;
    }

    /// Clears the bits of `flag`.
    pub fn remove(&mut self, flag: u8)
        ensures
            *final(self) == old(self).with(flag, false),
    {
        self.bits = self.bits & !flag;
    }

    /// The byte pushed onto the stack: bit 5 set, bit 4 the B flag.
    pub fn as_byte(&self, b_flag: bool) -> (r: u8)
        ensures
            r == (if b_flag { (self.bits | STACK_R) | STACK_B } else { self.bits | STACK_R }),
    {
        let with_r: u8 = self.bits | STACK_R;
        if b_flag {
            with_r | STACK_B
        } else {
            with_r
        }
    }
}

impl From<u8> for Status {
    /// The flags of a byte; bits 4 and 5 are dropped.
    fn from(value: u8) -> (r: Self) {
        Status { bits: value & ALL_FLAGS }
    }
}

impl vstd::std_specs::convert::FromSpecImpl<u8> for Status {
    open spec fn obeys_from_spec() -> bool {
        true
    }

    open spec fn from_spec(v: u8) -> Self {
        Status { bits: v & ALL_FLAGS }
    }
}

/// The flags of a byte read from the stack.
pub open spec fn status_of(v: u8) -> Status {
    Status { bits: v & ALL_FLAGS }
}

/// A status pushed as a byte and pulled back is the status again.
pub proof fn lemma_status_stack_round_trip(p: Status, b_flag: bool)
    requires
        p.bits & !ALL_FLAGS == 0,
    ensures
        status_of(if b_flag { (p.bits | STACK_R) | STACK_B } else { p.bits | STACK_R }) == p,
{
    let x = p.bits;
    assert(x & !0xCFu8 == 0 ==> ((x | 0x20u8) | 0x10u8) & 0xCFu8 == x && (x | 0x20u8) & 0xCFu8 == x) by (bit_vector);
}

/// The registers.
#[derive(Debug, Clone, Copy)]
pub struct Register {
    pub a: u8,
    pub x: u8,
    pub y: u8,
    pub p: Status,
    pub sp: u8,
    pub pc: u16,
}

} // verus!
