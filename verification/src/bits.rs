use vstd::prelude::*;

verus! {

/// `a + b` modulo 2^16.
pub open spec fn wadd16(a: u16, b: u16) -> u16 {
    vstd::wrapping::u16_specs::wrapping_add(a, b)
}

/// `a - b` modulo 2^16.
pub open spec fn wsub16(a: u16, b: u16) -> u16 {
    vstd::wrapping::u16_specs::wrapping_sub(a, b)
}

/// `a + b` modulo 2^8.
pub open spec fn wadd8(a: u8, b: u8) -> u8 {
    vstd::wrapping::u8_specs::wrapping_add(a, b)
}

/// `a - b` modulo 2^8.
pub open spec fn wsub8(a: u8, b: u8) -> u8 {
    vstd::wrapping::u8_specs::wrapping_sub(a, b)
}

/// The little-endian 16-bit word made of `lo` and `hi`.
pub open spec fn word(lo: u8, hi: u8) -> u16 {
    (hi * 256 + lo) as u16
}

/// The low byte of a word.
pub open spec fn lo_byte(w: u16) -> u8 {
    (w % 256) as u8
}

/// The high byte of a word.
pub open spec fn hi_byte(w: u16) -> u8 {
    (w / 256) as u8
}

/// Bit `i` of `b`.
pub open spec fn bit(b: u8, i: u8) -> bool {
    ((b as int) / pow2_u8(i)) % 2 == 1
}

/// 2 to the power `i`, for `i < 8`.
pub open spec fn pow2_u8(i: u8) -> int {
    if i == 0 { 1 } else if i == 1 { 2 } else if i == 2 { 4 } else if i == 3 { 8 }
    else if i == 4 { 16 } else if i == 5 { 32 } else if i == 6 { 64 } else { 128 }
}

/// 1 for `true`, 0 for `false`.
pub open spec fn b2u(b: bool) -> u8 {
    if b { 1 } else { 0 }
}

/// Builds the word of `lo` and `hi`.
pub fn make_word(lo: u8, hi: u8) -> (r: u16)
    ensures
        r == word(lo, hi),
        lo_byte(r) == lo,
        hi_byte(r) == hi,
{
    let r = ((hi as u16) << 8) | (lo as u16);
    assert(((hi as u16) << 8) | (lo as u16) == (hi as u16) * 256 + (lo as u16)) by (bit_vector);
    r
}

/// Bit `i` of `byte` (`i < 8`), as the shift-and-mask that the hardware logic uses.
pub fn get_bit(byte: u8, i: u8) -> (r: bool)
    requires
        i < 8,
    ensures
        r == bit(byte, i),
{
    let r = (byte >> i) & 1 == 1;
    proof { lemma_bit(byte, i); }
    r
}

pub proof fn lemma_bit(byte: u8, i: u8)
    requires
        i < 8,
    ensures
        ((byte >> i) & 1 == 1) == bit(byte, i),
        (byte >> i) & 1 == (if bit(byte, i) { 1u8 } else { 0u8 }),
{
    lemma_byte_ops(byte);
}

/// Shifts and masks of a byte, as arithmetic.
pub proof fn lemma_byte_ops(b: u8)
    by (bit_vector)
    ensures
        (b >> 0u8) & 1 == b % 2,
        (b >> 1u8) & 1 == (b / 2) % 2,
        (b >> 2u8) & 1 == (b / 4) % 2,
        (b >> 3u8) & 1 == (b / 8) % 2,
        (b >> 4u8) & 1 == (b / 16) % 2,
        (b >> 5u8) & 1 == (b / 32) % 2,
        (b >> 6u8) & 1 == (b / 64) % 2,
        (b >> 7u8) & 1 == (b / 128) % 2,
        b >> 6 == b / 64,
        b >> 4 == b / 16,
        b >> 3 == b / 8,
        b >> 1 == b / 2,
        b & 0b1111 == b % 16,
        b & 0b111 == b % 8,
        b & 0b11 == b % 4,
        b & 0b0111_1111 == b % 128,
        b & 0b11110000 == (b / 16) * 16,
        (b >> 4) & 0b111 == (b / 16) % 8,
        (b >> 7 == 1) == (b >= 128),
        ((b & 1) == 1) == (b % 2 == 1),
        !b == 255 - b,
{
}

/// Shifting a byte left by one, as arithmetic.
pub proof fn lemma_shl1(b: u8)
    by (bit_vector)
    ensures
        b << 1 == (b * 2) % 256,
{
}

/// Bits 2-3 of a byte, as arithmetic.
pub proof fn lemma_bits_2_3(b: u8)
    by (bit_vector)
    ensures
        (b & 0b00001100 == 0b00001000) == ((b / 4) % 4 == 2),
{
}

/// A timer register with a new low byte, as arithmetic.
pub proof fn lemma_timer_ops(t: u16, byte: u8)
    by (bit_vector)
    ensures
        (t >> 8) << 8 | (byte as u16) == (t / 256) * 256 + byte,
{
}

/// Shifting a carry bit into the low end of a byte (ROL), as arithmetic.
pub proof fn lemma_rotate_ops(byte: u8, c: u8)
    by (bit_vector)
    ensures
        c <= 1 ==> (byte << 1) | c == (byte * 2 + c) % 256,
{
}

} // verus!
