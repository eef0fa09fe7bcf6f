//! Register helpers of the board's CPU: a 16-bit word kept as two bytes,
//! and the stack pointer.

use vstd::prelude::*;
use crate::bits::{make_word, low_byte, high_byte, word_of, lo_of, hi_of};

verus! {

/// The page of the zero page.
pub const ZERO_PAGE: u8 = 0x00;
/// The page of the stack.
pub const STACK_PAGE: u8 = 0x01;

/// A 16-bit word as its low and high byte.
#[derive(Debug, Clone, Copy)]
pub struct Word {
    pub lo: u8,
    pub hi: u8,
}

impl Word {
    /// The word whose little-endian bytes are `bytes`.
    pub fn from_le_bytes(bytes: [u8; 2]) -> (r: Self)
        ensures
            r.lo == bytes[0],
            r.hi == bytes[1],
    {
        let w: u16 = make_word(bytes[0], bytes[1]);
        Self::from(w)
    }

    /// The zero-page address `lo`.
    pub fn from_zeropage(lo: u8) -> (r: Self)
        ensures
            r.lo == lo,
            r.hi == ZERO_PAGE,
    {
        Self::from_le_bytes([lo, ZERO_PAGE])
    }
}

impl From<Word> for u16 {
    fn from(value: Word) -> (r: Self) {
        make_word(value.lo, value.hi)
    }
}

impl vstd::std_specs::convert::FromSpecImpl<Word> for u16 {
    open spec fn obeys_from_spec() -> bool {
        true
    }

    open spec fn from_spec(v: Word) -> u16 {
        word_of(v.lo, v.hi)
    }
}

impl From<u16> for Word {
    fn from(value: u16) -> (r: Self) {
        Self { lo: low_byte(value), hi: high_byte(value) }
    }
}

impl vstd::std_specs::convert::FromSpecImpl<u16> for Word {
    open spec fn obeys_from_spec() -> bool {
        true
    }

    open spec fn from_spec(v: u16) -> Word {
        Word { lo: lo_of(v), hi: hi_of(v) }
    }
}

/// The stack pointer: the low byte of an address in page 1.
#[derive(Debug, Clone, Copy)]
pub struct StackPtr {
    pub inner: u8,
}

impl From<StackPtr> for u8 {
    fn from(value: StackPtr) -> (r: Self) {
        value.inner
    }
}

impl vstd::std_specs::convert::FromSpecImpl<StackPtr> for u8 {
    open spec fn obeys_from_spec() -> bool {
        true
    }

    open spec fn from_spec(v: StackPtr) -> u8 {
        v.inner
    }
}

impl From<u8> for StackPtr {
    fn from(value: u8) -> (r: Self) {
        Self { inner: value }
    }
}

impl vstd::std_specs::convert::FromSpecImpl<u8> for StackPtr {
    open spec fn obeys_from_spec() -> bool {
        true
    }

    open spec fn from_spec(v: u8) -> StackPtr {
        StackPtr { inner: v }
    }
}

impl From<StackPtr> for u16 {
    /// The stack address the pointer designates.
    fn from(value: StackPtr) -> (r: Self) {
        make_word(value.inner, STACK_PAGE)
    }
}

impl vstd::std_specs::convert::FromSpecImpl<StackPtr> for u16 {
    open spec fn obeys_from_spec() -> bool {
        true
    }

    open spec fn from_spec(v: StackPtr) -> u16 {
        word_of(v.inner, STACK_PAGE)
    }
}

/// A word turned into a number and back is the same word, and the other
/// way round.
pub proof fn lemma_word_round_trip(w: Word, v: u16)
    ensures
        lo_of(word_of(w.lo, w.hi)) == w.lo && hi_of(word_of(w.lo, w.hi)) == w.hi,
        word_of(lo_of(v), hi_of(v)) == v,
{
    crate::bits::lemma_word_split(v);
    crate::bits::lemma_word_bytes(w.lo, w.hi);
}

} // verus!
