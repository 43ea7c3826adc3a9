use vstd::prelude::*;

verus! {

/// The low byte of a 16-bit value.
pub open spec fn low_byte(v: u16) -> u8 {
    (v % 256) as u8
}

/// The high byte of a 16-bit value.
pub open spec fn high_byte(v: u16) -> u8 {
    (v / 256) as u8
}

/// The 16-bit value made of a high and a low byte.
pub open spec fn word(hi: u8, lo: u8) -> u16 {
    (hi * 256 + lo) as u16
}

/// Addition modulo 2^16.
pub open spec fn wrap16(x: int) -> u16 {
    (x % 0x10000) as u16
}

/// Addition modulo 2^8.
pub open spec fn wrap8(x: int) -> u8 {
    (x % 0x100) as u8
}

pub proof fn lemma_word_parts(hi: u16, lo: u16)
    by (bit_vector)
    requires
        hi < 256,
        lo < 256,
    ensures
        (hi << 8) | lo == hi * 256 + lo,
        ((hi << 8) | lo) >> 8 == hi,
        ((hi << 8) | lo) & 0xFF == lo,
{
}

pub proof fn lemma_split_word(v: u16)
    by (bit_vector)
    ensures
        v >> 8 == v / 256,
        v & 0xFF == v % 256,
        (v >> 8) < 256,
        (v & 0xFF00) == (v / 256) * 256,
{
}

pub proof fn lemma_byte_bits(b: u8)
    by (bit_vector)
    ensures
        (b & 0x01 != 0) == (b % 2 == 1),
        (b & 0x02 != 0) == ((b / 2) % 2 == 1),
        (b & 0x04 != 0) == ((b / 4) % 2 == 1),
        (b & 0x08 != 0) == ((b / 8) % 2 == 1),
        (b & 0x10 != 0) == ((b / 16) % 2 == 1),
        (b & 0x20 != 0) == ((b / 32) % 2 == 1),
        (b & 0x40 != 0) == ((b / 64) % 2 == 1),
        (b & 0x80 != 0) == ((b / 128) % 2 == 1),
        (b & 0x80 != 0) == (b >= 128),
        b >> 1 == b / 2,
        (b & 0x01) == b % 2,
{
}

pub proof fn lemma_or_fresh_bit(s: u8)
    by (bit_vector)
    ensures
        s < 0x01 ==> s | 0x01 == s + 0x01,
        s < 0x02 ==> s | 0x02 == s + 0x02,
        s < 0x04 ==> s | 0x04 == s + 0x04,
        s < 0x08 ==> s | 0x08 == s + 0x08,
        s < 0x10 ==> s | 0x10 == s + 0x10,
        s < 0x20 ==> s | 0x20 == s + 0x20,
        s < 0x40 ==> s | 0x40 == s + 0x40,
        s < 0x80 ==> s | 0x80 == s + 0x80,
{
}

pub proof fn lemma_byte_from_bits(b: u8)
    by (bit_vector)
    ensures
        b == (if b % 2 == 1 { 1u8 } else { 0u8 }) + (if (b / 2) % 2 == 1 { 2u8 } else { 0u8 })
            + (if (b / 4) % 2 == 1 { 4u8 } else { 0u8 }) + (if (b / 8) % 2 == 1 { 8u8 } else { 0u8 })
            + (if (b / 16) % 2 == 1 { 16u8 } else { 0u8 }) + (if (b / 32) % 2 == 1 { 32u8 } else { 0u8 })
            + (if (b / 64) % 2 == 1 { 64u8 } else { 0u8 }) + (if (b / 128) % 2 == 1 { 128u8 } else { 0u8 }),
{
}

pub proof fn lemma_bits_of_byte(c0: bool, c1: bool, c2: bool, c3: bool, c4: bool, c5: bool, c6: bool, c7: bool)
    by (bit_vector)
    ensures
        ({
            let s: u8 = ((if c0 { 1u8 } else { 0u8 }) + (if c1 { 2u8 } else { 0u8 }) + (if c2 { 4u8 } else { 0u8 })
                + (if c3 { 8u8 } else { 0u8 }) + (if c4 { 16u8 } else { 0u8 }) + (if c5 { 32u8 } else { 0u8 })
                + (if c6 { 64u8 } else { 0u8 }) + (if c7 { 128u8 } else { 0u8 })) as u8;
            &&& (s % 2 == 1) == c0
            &&& ((s / 2) % 2 == 1) == c1
            &&& ((s / 4) % 2 == 1) == c2
            &&& ((s / 8) % 2 == 1) == c3
            &&& ((s / 16) % 2 == 1) == c4
            &&& ((s / 32) % 2 == 1) == c5
            &&& ((s / 64) % 2 == 1) == c6
            &&& ((s / 128) % 2 == 1) == c7
        }),
{
}

pub proof fn lemma_page_start(v: u16)
    by (bit_vector)
    ensures
        (v & 0x00FF == 0x00FF) == (v % 256 == 255),
        v % 256 == 255 ==> v & 0xFF00 == v - 255,
{
}

pub proof fn lemma_byte_complement(v: u8)
    by (bit_vector)
    ensures
        !v == 255 - v,
{
}

pub proof fn lemma_byte_shifts(v: u8, c: u8)
    by (bit_vector)
    requires
        c <= 1,
    ensures
        v << 1 == ((v * 2) % 256) as u8,
        (v << 1) | c == ((v * 2 + c) % 256) as u8,
        (v >> 1) | (c << 7) == (v / 2 + c * 128) as u8,
        (v & 0x40 != 0) == ((v / 64) % 2 == 1),
{
}

pub proof fn lemma_widened_shift(v: u16)
    by (bit_vector)
    requires
        v < 256,
    ensures
        v << 1 == v * 2,
{
}

pub proof fn lemma_overflow_bits(a: u8, v: u8, r: u8)
    by (bit_vector)
    ensures
        (((a ^ r) & (v ^ r) & 0x80) != 0) == (((a >= 128) == (v >= 128)) && ((r >= 128) != (a >= 128))),
{
}

pub proof fn lemma_signed_offset(offset: u8)
    by (bit_vector)
    ensures
        offset < 128 ==> (offset as i8 as i16 as u16) == offset as u16,
        offset >= 128 ==> (offset as i8 as i16 as u16) == (offset as u16) + 0xFF00,
{
}

pub proof fn lemma_status_masks(c0: bool, c1: bool, c2: bool, c3: bool, c4: bool, c5: bool, c6: bool, c7: bool)
    by (bit_vector)
    ensures
        ({
            let low: u8 = ((if c0 { 1u8 } else { 0u8 }) + (if c1 { 2u8 } else { 0u8 }) + (if c2 { 4u8 } else { 0u8 })
                + (if c3 { 8u8 } else { 0u8 })) as u8;
            let high: u8 = ((if c6 { 64u8 } else { 0u8 }) + (if c7 { 128u8 } else { 0u8 })) as u8;
            let s: u8 = (low + (if c4 { 16u8 } else { 0u8 }) + (if c5 { 32u8 } else { 0u8 }) + high) as u8;
            &&& s | 0x30 == (low + 48 + high) as u8
            &&& (s & !0x10u8) | 0x20 == (low + 32 + high) as u8
        }),
{
}

} // verus!
