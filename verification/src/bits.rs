use vstd::prelude::*;

verus! {

/// The 16-bit word with low byte `lo` and high byte `hi`.
pub open spec fn word(lo: u8, hi: u8) -> u16 {
    (hi * 256 + lo) as u16
}

/// The low byte of a word.
pub open spec fn low_byte(w: u16) -> u8 {
    (w % 256) as u8
}

/// The high byte of a word.
pub open spec fn high_byte(w: u16) -> u8 {
    (w / 256) as u8
}

/// `a + b` in 16-bit arithmetic.
pub open spec fn add16(a: u16, b: int) -> u16 {
    ((a + b) % 65536) as u16
}

/// The value of a byte read as a two's-complement number.
pub open spec fn signed(b: u8) -> int {
    if b < 128 {
        b as int
    } else {
        b - 256
    }
}

/// Whether every bit of `flag` is set in `bits`.
pub open spec fn has_flag(bits: u8, flag: u8) -> bool {
    bits & flag == flag
}

/// `bits` with the bits of `flag` set or cleared.
pub open spec fn with_flag(bits: u8, flag: u8, on: bool) -> u8 {
    if on {
        bits | flag
    } else {
        bits & !flag
    }
}

/// Whether two addresses lie on different 256-byte pages.
pub open spec fn page_crossed(a: u16, b: u16) -> bool {
    a / 256 != b / 256
}

/// Puts two bytes together to a word.
pub fn make_word(lo: u8, hi: u8) -> (w: u16)
    ensures
        w == word(lo, hi),
{
    let w = ((hi as u16) << 8) | (lo as u16);
    assert(((hi as u16) << 8) | (lo as u16) == (hi as u16) * 256 + (lo as u16)) by (bit_vector);
    w
}

/// Takes a word apart: the low byte first, then the high byte.
pub fn split_word(w: u16) -> (bytes: (u8, u8))
    ensures
        bytes.0 == low_byte(w),
        bytes.1 == high_byte(w),
        word(bytes.0, bytes.1) == w,
{
    let lo = (w & 0xFF) as u8;
    let hi = (w >> 8) as u8;
    assert(w & 0xFF == w % 256 && w >> 8 == w / 256) by (bit_vector);
    (lo, hi)
}

/// Whether two addresses lie on different 256-byte pages.
pub fn different_pages(a: u16, b: u16) -> (crossed: bool)
    ensures
        crossed == page_crossed(a, b),
{
    assert(a & 0xFF00 == (a / 256) * 256 && b & 0xFF00 == (b / 256) * 256) by (bit_vector);
    a & 0xFF00 != b & 0xFF00
}

} // verus!
