use vstd::prelude::*;
use crate::bits::{hi_of, lo_of, word_of, make_word, low_byte, high_byte};
use crate::cycle::address::{CrossingState, crossing_of, wrap_byte};

verus! {

/// Byte access to a 16-bit word (little endian).
pub trait U16Ext {
    spec fn word(&self) -> u16;

    fn low(&self) -> (r: u8)
        ensures
            r == lo_of(self.word()),
    ;

    fn high(&self) -> (r: u8)
        ensures
            r == hi_of(self.word()),
    ;

    fn with_low(&self, byte: u8) -> (r: u16)
        ensures
            r == word_of(byte, hi_of(self.word())),
    ;

    fn with_high(&self, byte: u8) -> (r: u16)
        ensures
            r == word_of(lo_of(self.word()), byte),
    ;

    fn set_low(&mut self, byte: u8)
        ensures
            final(self).word() == word_of(byte, hi_of(old(self).word())),
    ;

    fn set_high(&mut self, byte: u8)
        ensures
            final(self).word() == word_of(lo_of(old(self).word()), byte),
    ;
}

impl U16Ext for u16 {
    open spec fn word(&self) -> u16 {
        *self
    }

    fn low(&self) -> (r: u8) {
        low_byte(*self)
    }

    fn high(&self) -> (r: u8) {
        high_byte(*self)
    }

    fn with_low(&self, byte: u8) -> (r: u16) {
        make_word(byte, self.high())
    }

    fn with_high(&self, byte: u8) -> (r: u16) {
        make_word(self.low(), byte)
    }

    fn set_low(&mut self, byte: u8) {
        *self = self.with_low(byte);
    }

    fn set_high(&mut self, byte: u8) {
        *self = self.with_high(byte);
    }
}

/// A 16-bit value whose low byte can be indexed with the page crossing
/// kept aside until `fix_page`.
pub struct CrossingAddr {
    inner: u16,
    state: CrossingState,
}

impl CrossingAddr {
    /// The value as it currently reads.
    pub closed spec fn value(self) -> u16 {
        self.inner
    }

    /// The pending page crossing.
    pub closed spec fn crossing(self) -> CrossingState {
        self.state
    }

    /// The value as it currently reads.
    pub fn get(&self) -> (r: u16)
        ensures
            r == self.value(),
    {
        self.inner
    }

    pub fn is_crossed(&self) -> (r: bool)
        ensures
            r == !(self.crossing() is CurrentPage),
    {
        matches!(self.state, CrossingState::NextPage | CrossingState::PreviousPage)
    }

    /// Adds an index to the low byte only.
    pub fn apply_index(&mut self, idx: u8)
        ensures
            final(self).value() == word_of(wrap_byte(lo_of(old(self).value()) + idx), hi_of(old(self).value())),
            final(self).crossing() == crossing_of(lo_of(old(self).value()) + idx),
    {
        let lo: u8 = low_byte(self.inner);
        let sum: u16 = lo as u16 + idx as u16;
        self.inner.set_low((sum % 256) as u8);
        self.state = if sum > 255 {
            CrossingState::NextPage
        } else {
            CrossingState::CurrentPage
        };
    }

    /// Adds a signed offset to the low byte only.
    pub fn apply_index_signed(&mut self, idx: i8)
        ensures
            final(self).value() == word_of(wrap_byte(lo_of(old(self).value()) + idx), hi_of(old(self).value())),
            final(self).crossing() == crossing_of(lo_of(old(self).value()) + idx),
    {
        let lo: u8 = low_byte(self.inner);
        let sum: i16 = lo as i16 + idx as i16;
        let crossed: bool = sum < 0 || sum > 255;
        let fixed_lo: u8 = if sum < 0 { (sum + 256) as u8 } else { (sum % 256) as u8 };
        self.inner.set_low(fixed_lo);
        self.state = if !crossed {
            CrossingState::CurrentPage
        } else if idx > 0 {
            CrossingState::NextPage
        } else {
            CrossingState::PreviousPage
        };
    }

    /// Applies the pending crossing to the high byte.
    pub fn fix_page(&mut self)
        ensures
            final(self).crossing() is CurrentPage,
            final(self).value() == match old(self).crossing() {
                CrossingState::CurrentPage => old(self).value(),
                CrossingState::NextPage => word_of(
                    lo_of(old(self).value()),
                    ((hi_of(old(self).value()) + 1) % 256) as u8,
                ),
                CrossingState::PreviousPage => word_of(
                    lo_of(old(self).value()),
                    ((hi_of(old(self).value()) + 255) % 256) as u8,
                ),
            },
    {
        match self.state {
            CrossingState::CurrentPage => {},
            CrossingState::NextPage => {
                let h: u8 = self.inner.high();
                self.inner.set_high(h.wrapping_add(1));
            },
            CrossingState::PreviousPage => {
                let h: u8 = self.inner.high();
                self.inner.set_high(h.wrapping_sub(1));
            },
        }
        self.state = CrossingState::CurrentPage;
    }
}

impl From<u16> for CrossingAddr {
    fn from(value: u16) -> (r: Self) {
        CrossingAddr { inner: value, state: CrossingState::CurrentPage }
    }
}

impl vstd::std_specs::convert::FromSpecImpl<u16> for CrossingAddr {
    open spec fn obeys_from_spec() -> bool {
        true
    }

    closed spec fn from_spec(v: u16) -> Self {
        CrossingAddr { inner: v, state: CrossingState::CurrentPage }
    }
}

} // verus!
