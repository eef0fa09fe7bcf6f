use vstd::prelude::*;
use crate::bits::{hi_of, lo_of, word_of, make_word, low_byte, high_byte};

verus! {

/// Where an indexed address stands relative to the page it started in.
#[derive(Clone, Copy, Debug)]
pub enum CrossingState {
    CurrentPage,
    NextPage,
    PreviousPage,
}

/// A zero-page pointer that can be turned into a full bus address.
pub trait ZeropageAddress {
    fn as_address(&self) -> Address;
}

impl ZeropageAddress for u8 {
    fn as_address(&self) -> (r: Address)
        ensures
            r.value() == *self as u16,
            r.crossing() is CurrentPage,
    {
        Address::new(*self as u16)
    }
}

/// A 16-bit bus address that remembers whether indexing its low byte
/// left the original page (and the high byte still waits for a fix-up).
#[derive(Clone, Copy, Debug)]
pub struct Address {
    inner: u16,
    state: CrossingState,
}

impl Address {
    /// The address value as the bus sees it.
    pub closed spec fn value(self) -> u16 {
        self.inner
    }

    /// The pending page crossing.
    pub closed spec fn crossing(self) -> CrossingState {
        self.state
    }

    pub fn new(addr: u16) -> (r: Self)
        ensures
            r.value() == addr,
            r.crossing() is CurrentPage,
    {
        Self { inner: addr, state: CrossingState::CurrentPage }
    }

    pub fn as_u16(&self) -> (r: u16)
        ensures
            r == self.value(),
    {
        self.inner
    }

    /// The same address taken on the zero page (its high byte cleared).
    pub fn as_zeropage(&self) -> (r: Self)
        ensures
            r == self.zeropage(),
            r.value() == self.value() % 256,
            r.crossing() is CurrentPage,
    {
        Self::new(self.inner % 256)
    }

    pub fn is_crossed(&self) -> (r: bool)
        ensures
            r == !(self.crossing() is CurrentPage),
    {
        matches!(self.state, CrossingState::NextPage | CrossingState::PreviousPage)
    }

    /// Replaces the low byte, keeping the high byte.
    pub fn set_lo(&mut self, byte: u8)
        ensures
            *final(self) == old(self).with_lo(byte),
            final(self).value() == word_of(byte, hi_of(old(self).value())),
            final(self).crossing() == old(self).crossing(),
    {
        let hi: u8 = high_byte(self.inner);
        self.inner = make_word(byte, hi);
    }

    /// Replaces the high byte, keeping the low byte.
    pub fn set_hi(&mut self, byte: u8)
        ensures
            *final(self) == old(self).with_hi(byte),
            final(self).value() == word_of(lo_of(old(self).value()), byte),
            final(self).crossing() == old(self).crossing(),
    {
        let lo: u8 = low_byte(self.inner);
        self.inner = make_word(lo, byte);
    }

    /// Advances to the next address, wrapping at the end of the address space.
    pub fn increment(&mut self)
        ensures
            *final(self) == old(self).incremented(),
            final(self).value() == (old(self).value() + 1) % 0x10000,
            final(self).crossing() == old(self).crossing(),
    {
        self.inner = self.inner.wrapping_add(1);
    }

    /// Adds an index to the low byte only; a carry out of it is remembered
    /// as a crossing into the next page.
    pub fn apply_index(&mut self, idx: u8)
        ensures
            *final(self) == old(self).indexed(idx as int),
            final(self).value() == word_of(
                ((lo_of(old(self).value()) + idx) % 256) as u8,
                hi_of(old(self).value()),
            ),
            final(self).crossing() == crossing_of(lo_of(old(self).value()) + idx),
    {
        let lo: u8 = low_byte(self.inner);
        let sum: u16 = lo as u16 + idx as u16;
        let idxed_lo: u8 = (sum % 256) as u8;
        self.set_lo(idxed_lo);
        self.state = if sum > 255 {
            CrossingState::NextPage
        } else {
            CrossingState::CurrentPage
        };
    }

    /// Adds an index within the zero page: the result wraps inside page 0.
    pub fn apply_index_zeropage(&mut self, idx: u8)
        ensures
            final(self).value() == (old(self).value() + idx) % 0x10000 % 256,
            final(self).crossing() is CurrentPage,
    {
        self.inner = self.inner.wrapping_add(idx as u16);
        self.set_hi(0x00);
        self.state = CrossingState::CurrentPage;
    }

    /// Adds a signed offset to the low byte only; leaving the page upwards
    /// or downwards is remembered for `fix_page`.
    pub fn apply_index_signed(&mut self, idx: i8)
        ensures
            *final(self) == old(self).indexed(idx as int),
            final(self).value() == word_of(wrap_byte(lo_of(old(self).value()) + idx), hi_of(old(self).value())),
            final(self).crossing() == crossing_of(lo_of(old(self).value()) + idx),
    {
        let lo: u8 = low_byte(self.inner);
        let sum: i16 = lo as i16 + idx as i16;
        let crossed: bool = sum < 0 || sum > 255;
        let fixed_lo: u8 = if sum < 0 { (sum + 256) as u8 } else { (sum % 256) as u8 };
        self.set_lo(fixed_lo);
        self.state = if !crossed {
            CrossingState::CurrentPage
        } else if idx > 0 {
            CrossingState::NextPage
        } else {
            CrossingState::PreviousPage
        };
    }

    /// Applies the pending crossing to the high byte.
    pub fn fix_page(&mut self)
        ensures
            *final(self) == old(self).page_fixed(),
            final(self).crossing() is CurrentPage,
            old(self).crossing() is CurrentPage ==> final(self).value() == old(self).value(),
    {
        let hi: u8 = high_byte(self.inner);
        match self.state {
            CrossingState::CurrentPage => {},
            CrossingState::NextPage => {
                self.set_hi(hi.wrapping_add(1));
            },
            CrossingState::PreviousPage => {
                self.set_hi(hi.wrapping_sub(1));
            },
        }
        self.state = CrossingState::CurrentPage;
    }
}

/// The crossing that adding `t` to a low byte leaves pending.
pub open spec fn crossing_of(t: int) -> CrossingState {
    if t > 255 {
        CrossingState::NextPage
    } else if t < 0 {
        CrossingState::PreviousPage
    } else {
        CrossingState::CurrentPage
    }
}

/// The byte that `t` (in `-256..512`) wraps to.
pub open spec fn wrap_byte(t: int) -> u8 {
    (if t < 0 { t + 256 } else { t % 256 }) as u8
}

impl Address {
    /// The address with its low byte replaced.
    pub closed spec fn with_lo(self, byte: u8) -> Address {
        Address { inner: word_of(byte, hi_of(self.inner)), ..self }
    }

    /// The address with its high byte replaced.
    pub closed spec fn with_hi(self, byte: u8) -> Address {
        Address { inner: word_of(lo_of(self.inner), byte), ..self }
    }

    /// The next address, wrapping at the end of the address space.
    pub closed spec fn incremented(self) -> Address {
        Address { inner: ((self.inner + 1) % 0x10000) as u16, ..self }
    }

    /// The address on the zero page, with no crossing pending.
    pub closed spec fn zeropage(self) -> Address {
        Address { inner: self.inner % 256, state: CrossingState::CurrentPage }
    }

    /// The address after indexing its low byte by `idx`.
    pub closed spec fn indexed(self, idx: int) -> Address {
        Address {
            inner: word_of(wrap_byte(lo_of(self.inner) + idx), hi_of(self.inner)),
            state: crossing_of(lo_of(self.inner) + idx),
        }
    }

    /// The address after its pending crossing was applied to the high byte.
    pub closed spec fn page_fixed(self) -> Address {
        Address {
            inner: match self.state {
                CrossingState::CurrentPage => self.inner,
                CrossingState::NextPage => word_of(lo_of(self.inner), ((hi_of(self.inner) + 1) % 256) as u8),
                CrossingState::PreviousPage => word_of(lo_of(self.inner), ((hi_of(self.inner) + 255) % 256) as u8),
            },
            state: CrossingState::CurrentPage,
        }
    }
}

/// Indexing an address and then fixing its page gives the full 16-bit sum,
/// wrapped at the end of the address space.
pub proof fn lemma_index_then_fix_is_add(a: Address, idx: u8)
    ensures
        a.indexed(idx as int).page_fixed().value() == (a.value() + idx) % 0x10000,
{
}

/// Indexing an address by a signed offset and then fixing its page gives
/// the signed 16-bit sum, wrapped at both ends of the address space.
pub proof fn lemma_signed_index_then_fix_is_add(a: Address, idx: i8)
    ensures
        a.indexed(idx as int).page_fixed().value() == (a.value() + idx + 0x10000) % 0x10000,
{
}

} // verus!
