//! Arithmetic meaning of the shifts, masks and truncating casts that register
//! files are made of.
use vstd::prelude::*;

verus! {

/// The low 8 bits of a register value.
pub open spec fn low8(value: usize) -> u8 {
    (value % 0x100) as u8
}

/// The low 16 bits of a register value.
pub open spec fn low16(value: usize) -> u16 {
    (value % 0x1_0000) as u16
}

/// The low 32 bits of a register value.
pub open spec fn low32(value: usize) -> u32 {
    (value as u64 % 0x1_0000_0000) as u32
}

/// The low 16 bits of a 32-bit value.
pub open spec fn low16_of_32(value: u32) -> u16 {
    (value % 0x1_0000) as u16
}

/// A 64-bit word from its two halves.
pub open spec fn word64(high: u32, low: u32) -> u64 {
    (high * 0x1_0000_0000 + low) as u64
}

/// The number whose little-endian bytes are `bytes`.
pub open spec fn le_value(bytes: Seq<u8>) -> nat
    decreases bytes.len(),
{
    if bytes.len() == 0 {
        0
    } else {
        bytes[0] as nat + 0x100 * le_value(bytes.drop_first())
    }
}

/// Casting to `u8` keeps the low 8 bits.
pub proof fn lemma_low8(value: usize)
    ensures
        value as u8 == low8(value),
{
    assert(value as u8 == (value % 0x100) as u8) by (bit_vector);
}

/// Casting to `u16` keeps the low 16 bits.
pub proof fn lemma_low16(value: usize)
    ensures
        value as u16 == low16(value),
{
    assert(value as u16 == (value % 0x1_0000) as u16) by (bit_vector);
}

/// Casting to `u32` keeps the low 32 bits.
pub proof fn lemma_low32(value: usize)
    ensures
        value as u32 == low32(value),
{
    assert(value as u32 == (value as u64 % 0x1_0000_0000) as u32) by (bit_vector);
}

/// Casting a 32-bit value to `u16` keeps the low 16 bits.
pub proof fn lemma_low16_of_32(value: u32)
    ensures
        value as u16 == low16_of_32(value),
{
    assert(value as u16 == (value % 0x1_0000) as u16) by (bit_vector);
}

/// Shifting one half up and or-ing the other in joins them.
pub proof fn lemma_word64(high: u32, low: u32)
    ensures
        (high as u64) << 32 | (low as u64) == word64(high, low),
{
    assert(((high as u64) << 32) == (high as u64) * 0x1_0000_0000) by (bit_vector);
    assert((high as u64) << 32 | (low as u64) == (((high as u64) << 32) + (low as u64)) as u64)
        by (bit_vector);
}

/// Bytes shifted into their places and or-ed together are a 32-bit number.
pub proof fn lemma_bytes_join(b3: u8, b2: u8, b1: u8, b0: u8)
    ensures
        (b3 as u32) << 24 | (b2 as u32) << 16 | (b1 as u32) << 8 | (b0 as u32) == b3 * 0x100_0000
            + b2 * 0x1_0000 + b1 * 0x100 + b0,
{
    assert((b3 as u32) << 24 | (b2 as u32) << 16 | (b1 as u32) << 8 | (b0 as u32) == b3
        * 0x100_0000 + b2 * 0x1_0000 + b1 * 0x100 + b0) by (bit_vector);
}

/// The little-endian value of one, two and four bytes.
pub proof fn lemma_le_value(bytes: Seq<u8>)
    ensures
        bytes.len() == 1 ==> le_value(bytes) == bytes[0],
        bytes.len() == 2 ==> le_value(bytes) == bytes[0] + 0x100 * bytes[1],
        bytes.len() == 4 ==> le_value(bytes) == bytes[0] + 0x100 * bytes[1] + 0x1_0000 * bytes[2]
            + 0x100_0000 * bytes[3],
{
    reveal_with_fuel(le_value, 5);
}

} // verus!
