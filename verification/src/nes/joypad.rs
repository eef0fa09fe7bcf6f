//! The standard controller: a latch of eight buttons read back one bit at
//! a time.

use vstd::prelude::*;

verus! {

/// The snapshot after one read: the bits move down by one and a 1 comes in
/// at the top (an official controller reports 1 once its eight buttons are
/// out).
pub open spec fn shift_out(s: u8) -> u8 {
    0x80 | (s >> 1)
}

/// The snapshot after `n` reads.
pub open spec fn shifted_n(s: u8, n: nat) -> u8
    decreases n,
{
    if n == 0 {
        s
    } else {
        shift_out(shifted_n(s, (n - 1) as nat))
    }
}

/// A controller.
#[derive(Debug, Clone, Copy)]
pub struct Joypad {
    current: u8,
    snapshot: u8,
}

impl Joypad {
    /// The buttons held now, one bit each (bit 0: A, then B, Select, Start,
    /// Up, Down, Left, Right).
    pub closed spec fn current(self) -> u8 {
        self.current
    }

    /// The latched buttons still to be read out.
    pub closed spec fn snapshot(self) -> u8 {
        self.snapshot
    }

    /// Records the buttons held now.
    pub fn update(&mut self, v: u8)
        ensures
            final(self).current() == v,
            final(self).snapshot() == old(self).snapshot(),
    {
        self.current = v;
    }

    /// Latches the buttons held now for reading.
    pub fn strobo(&mut self)
        ensures
            final(self).current() == old(self).current(),
            final(self).snapshot() == old(self).current(),
    {
        self.snapshot = self.current;
    }

    /// Reads the next button: bit 0 of the latch, which then shifts.
    pub fn read(&mut self) -> (r: u8)
        ensures
            r == old(self).snapshot() & 1,
            final(self).snapshot() == shift_out(old(self).snapshot()),
            final(self).current() == old(self).current(),
    {
        let res: u8 = self.snapshot & 0x01;
        self.snapshot = 0x80 | (self.snapshot >> 1);
        res
    }
}

impl Default for Joypad {
    fn default() -> (r: Self)
        ensures
            r.current() == 0,
            r.snapshot() == 0,
    {
        Self { current: 0, snapshot: 0 }
    }
}

/// The latch after `k` reads (`k <= 8`): `k` ones shifted in at the top
/// above the buttons not yet read.
spec fn after_reads(s: u8, k: u8) -> u8 {
    ((0xFFu16 << (8 - k) as u16) as u8) | (s >> k)
}

proof fn lemma_latch_bits()
    by (bit_vector)
    ensures
        forall|s: u8| #![trigger s >> 0u8] ((0xFFu16 << 8u16) as u8) | (s >> 0u8) == s,
        forall|s: u8, k: u8| #![trigger s >> k, s >> (k + 1) as u8]
            k < 8 ==> (0x80u8 | ((((0xFFu16 << (8 - k) as u16) as u8) | (s >> k)) >> 1u8))
                == (((0xFFu16 << (8 - (k + 1)) as u16) as u8) | (s >> (k + 1) as u8)),
        forall|s: u8, k: u8| #![trigger s >> k]
            k < 8 ==> (((0xFFu16 << (8 - k) as u16) as u8) | (s >> k)) & 1 == (s >> k) & 1,
        forall|s: u8| #![trigger s >> 8u8] ((0xFFu16 << 0u16) as u8) | (s >> 8u8) == 0xFF,
        0x80u8 | (0xFFu8 >> 1u8) == 0xFF,
        0xFFu8 & 1u8 == 1u8,
{
}

proof fn lemma_shifted_n_form(s: u8, n: nat)
    requires
        n <= 8,
    ensures
        shifted_n(s, n) == after_reads(s, n as u8),
    decreases n,
{
    lemma_latch_bits();
    if n == 0 {
        assert(s >> 0u8 == s >> 0u8);
    } else {
        lemma_shifted_n_form(s, (n - 1) as nat);
        let k: u8 = (n - 1) as u8;
        assert(s >> k == s >> k);
        assert(s >> (k + 1) as u8 == s >> (k + 1) as u8);
        assert(shifted_n(s, n) == shift_out(shifted_n(s, (n - 1) as nat)));
        assert(shift_out(after_reads(s, k)) == after_reads(s, (k + 1) as u8));
        assert((k + 1) as u8 == n as u8);
    }
}

/// After a strobe, the first eight reads report the latched buttons from
/// bit 0 up, and every read after that reports 1.
pub proof fn lemma_reads_report_buttons_in_order(s: u8, n: nat)
    ensures
        n < 8 ==> shifted_n(s, n) & 1 == (s >> n as u8) & 1,
        n >= 8 ==> shifted_n(s, n) & 1 == 1,
{
    lemma_latch_bits();
    if n < 8 {
        lemma_shifted_n_form(s, n);
        assert(s >> n as u8 == s >> n as u8);
    } else {
        lemma_reads_stay_high(s, n);
    }
}

proof fn lemma_reads_stay_high(s: u8, n: nat)
    requires
        n >= 8,
    ensures
        shifted_n(s, n) == 0xFF,
    decreases n,
{
    lemma_latch_bits();
    if n == 8 {
        lemma_shifted_n_form(s, 8);
        assert(s >> 8u8 == s >> 8u8);
    } else {
        lemma_reads_stay_high(s, (n - 1) as nat);
    }
}

} // verus!
