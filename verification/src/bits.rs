use vstd::prelude::*;

verus! {

/// Masks, shifts and complements of a byte, in arithmetic terms.
pub proof fn lemma_u8_bits(x: u8)
    by (bit_vector)
    ensures
        (x & 0x80 != 0) == (x >= 128),
        (x & 0x80 == 0x80) == (x >= 128),
        (x & 0x80) >> 7 == (if x >= 128 { 1u8 } else { 0u8 }),
        x & 0xF == x % 16,
        x >> 4 == x / 16,
        (x >> 4) & 0xF == x / 16,
        x & 0xF0 == (x / 16) * 16,
        x ^ 0xFF == (255 - x) as u8,
        !x == (255 - x) as u8,
        x & 0xFF == x,
        (x & 1 == 1) == (x % 2 == 1),
        x & 7 < 8,
        x >> 6 == x / 64,
        (x >> 3) & 7 == (x / 8) % 8,
        x <= 1 ==> (x ^ 1) == 1 - x,
        x >> 3 == x / 8,
        x & 7 == x % 8,
        x & 0x1F == x % 32,
        x >> 1 == x / 2,
        x >> 2 == x / 4,
        (x >> 2) & 3 == (x / 4) % 4,
        (x >> 4) & 3 == (x / 16) % 4,
        x & 3 == x % 4,
        (x >> 3) & 1 == (x / 8) % 2,
        (x >> 2) & 1 == (x / 4) % 2,
        (x >> 1) & 1 == (x / 2) % 2,
        x & 1 == x % 2,
        ((x as u16) << 8) == (x as u16) * 256,
        x >> 0u8 == x,
        x >> 8u8 == 0,
{
}

/// Flipping one of the low four bits keeps a 4-bit value below 16.
pub proof fn lemma_flip_low_bit(p: u8, mask: u8)
    by (bit_vector)
    requires
        p < 16,
        mask == 1 || mask == 2 || mask == 4 || mask == 8,
    ensures
        p ^ mask < 16,
{
}

/// Masks, shifts and complements of a 16-bit word, in arithmetic terms.
pub proof fn lemma_u16_bits(x: u16)
    by (bit_vector)
    ensures
        (x & 0x8000 != 0) == (x >= 0x8000),
        x & 0xFFFF == x,
        x & 0xFFF == x % 4096,
        !x == (0xFFFF - x) as u16,
        x >> 13 == x / 0x2000,
        (x >> 13) < 8,
        x & 0x1FFF == x % 0x2000,
        x & 0x3FFF == x % 0x4000,
        x & 0x7FF == x % 0x800,
        (x & 0x7FE) >> 1 == (x % 0x800) / 2,
        x & 0x3800 == (x / 0x800) % 8 * 0x800,
        x & 0x3F00 == (x / 0x100) % 64 * 0x100,
        x & 0xFF == x % 256,
        x & 0x3FFC == (x % 0x4000) / 4 * 4,
        x & 0x3 == x % 4,
        x & 1 == x % 2,
{
}

/// Register selectors with constant values.
pub proof fn lemma_selectors()
    by (bit_vector)
    ensures
        7u8 & 7 == 7u8,
        0u8 & 7 == 0u8,
        1u8 & 7 == 1u8,
        2u8 & 7 == 2u8,
        3u8 & 7 == 3u8,
        4u8 & 7 == 4u8,
        5u8 & 7 == 5u8,
        0u8 & 3 == 0u8,
        1u8 & 3 == 1u8,
        2u8 & 3 == 2u8,
        3u8 & 3 == 3u8,
{
}

} // verus!
