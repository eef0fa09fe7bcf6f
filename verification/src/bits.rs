use vstd::prelude::*;

verus! {

/// The low byte of a 16-bit word.
pub open spec fn lo_of(w: u16) -> u8 {
    (w % 256) as u8
}

/// The high byte of a 16-bit word.
pub open spec fn hi_of(w: u16) -> u8 {
    (w / 256) as u8
}

/// The 16-bit word made of a low and a high byte (little endian).
pub open spec fn word_of(lo: u8, hi: u8) -> u16 {
    (hi * 256 + lo) as u16
}

/// Builds a 16-bit word from its low and high bytes.
pub fn make_word(lo: u8, hi: u8) -> (r: u16)
    ensures
        r == word_of(lo, hi),
        r == hi * 256 + lo,
        lo_of(r) == lo,
        hi_of(r) == hi,
{
    hi as u16 * 256 + lo as u16
}

/// The low byte of a 16-bit word.
pub fn low_byte(w: u16) -> (r: u8)
    ensures
        r == lo_of(w),
        r == w % 256,
{
    (w % 256) as u8
}

/// The high byte of a 16-bit word.
pub fn high_byte(w: u16) -> (r: u8)
    ensures
        r == hi_of(w),
        r == w / 256,
{
    (w / 256) as u8
}

/// A word is the composition of its two bytes.
pub proof fn lemma_word_split(w: u16)
    ensures
        word_of(lo_of(w), hi_of(w)) == w,
{
}

/// The bytes of a word made of two bytes are those bytes.
pub proof fn lemma_word_bytes(lo: u8, hi: u8)
    ensures
        lo_of(word_of(lo, hi)) == lo,
        hi_of(word_of(lo, hi)) == hi,
{
}

/// Copies `len` bytes of `data` starting at `start` into a new vector.
pub fn copy_range(data: &[u8], start: usize, len: usize) -> (r: Vec<u8>)
    requires
        start + len <= data@.len(),
    ensures
        r@ == data@.subrange(start as int, start + len),
{
    let mut r: Vec<u8> = Vec::with_capacity(len);
    let n: usize = data.len();
    let mut i: usize = 0;
    while i < len
        invariant
            i <= len,
            n == data@.len(),
            start + len <= data@.len(),
            r@ == data@.subrange(start as int, start + i),
        decreases len - i,
    {
        r.push(data[start + i]);
        i = i + 1;
    }
    r
}

/// Facts about masks and shifts of bytes.
pub proof fn lemma_u8_field_bounds()
    by (bit_vector)
    ensures
        forall|x: u8| #![trigger x & 0x0F] x & 0x0F <= 15,
        forall|x: u8| #![trigger x & 0xF0] (x & 0xF0) >> 4 <= 15,
        forall|x: u8| #![trigger x & 0x03] x & 0x03 <= 3 && x & 0x03 == x % 4,
        forall|x: u8| #![trigger x & 0x0C] (x & 0x0C) >> 2 <= 3,
        forall|x: u8| #![trigger x & 0x07] x & 0x07 == x % 8,
        forall|x: u8| #![trigger x & 0x1F] x & 0x1F == x % 0x20,
        forall|x: u8| #![trigger x & 0x3F] x & 0x3F == x % 0x40,
        forall|x: u8| #![trigger x & 0x01] x & 0x01 == x % 2,
        forall|x: u8| #![trigger x & 0x02] (x & 0x02 == 0) == ((x / 2) % 2 == 0),
        forall|x: u8| #![trigger x >> 1u8] x >> 1u8 == x / 2,
        forall|x: u8| #![trigger x >> 3u8] x >> 3u8 == x / 8,
        forall|x: u8| #![trigger x & 0x80] (x & 0x80 == 0) == (x < 0x80),
        forall|x: u8| #![trigger x & 0x40] (x & 0x40 == 0) == ((x / 64) % 2 == 0),
        forall|x: u8| #![trigger !x] !x == (255 - x) as u8,
        forall|x: u8| #![trigger x << 1u8] x << 1u8 == ((x as int * 2) % 256) as u8,
        forall|x: u8| #![trigger (x << 1u8) | 0x01u8] (x << 1u8) | 0x01u8 == ((x as int * 2 + 1) % 256) as u8,
        forall|x: u8| #![trigger (x >> 1u8) | 0x80u8] (x >> 1u8) | 0x80u8 == (x / 2 + 128) as u8,
{
}

/// Facts about masks and shifts of 16-bit words.
pub proof fn lemma_u16_bits()
    by (bit_vector)
    ensures
        forall|x: u16| #![trigger x << 1u16] x << 1u16 == ((x as int * 2) % 0x10000) as u16,
        forall|x: u16, k: u16| #![trigger (x >> k) & 0x01] k < 16 ==> (x >> k) & 0x01 == (x >> k) % 2,
        forall|x: u16, low: u8| #![trigger (x & 0xFF00) | (low as u16)]
            (x & 0xFF00) | (low as u16) == ((x / 256) * 256 + low as u16) as u16,
        forall|v: u16| #![trigger v & 0x001F] v & 0x001F <= 31,
        forall|v: u16| #![trigger v & 0x3FFF] v & 0x3FFF <= 0x3FFF,
        forall|a: u16, b: u16| #![trigger ((a & 0x2) << 1u16) | (b & 0x2)] ((a & 0x2) << 1u16) | (b & 0x2) <= 6,
        forall|v: u16| #![trigger v & 0x7000] (v & 0x7000) >> 12u16 <= 7,
        forall|v: u16| #![trigger v & 0x03E0] (v & 0x03E0) >> 5u16 <= 31,
        forall|v: u16| #![trigger v & 0x7FFF]
            (v & 0x7FFF) >= (v & 0x3FFF) && ((v & 0x7FFF) & 0x1F) == ((v & 0x3FFF) & 0x1F),
        forall|a1: u8, a0: u8, p1: u8, p0: u8| #![trigger (a1 << 3u8) | (a0 << 2u8) | (p1 << 1u8) | p0]
            a1 < 2 && a0 < 2 && p1 < 2 && p0 < 2 ==> (a1 << 3u8) | (a0 << 2u8) | (p1 << 1u8) | p0
                == (8 * a1 + 4 * a0 + 2 * p1 + p0) as u8,
{
}

} // verus!
