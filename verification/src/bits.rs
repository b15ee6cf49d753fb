//! Bit-level facts about register words, stated in arithmetic form so that
//! the rest of the crate can reason about flags and fields with ordinary
//! integer arithmetic.
use vstd::prelude::*;

verus! {

/// Single-bit tests and low-bit fields of a 32-bit register word.
pub proof fn lemma_u32_bits(x: u32)
    by (bit_vector)
    ensures
        (x & 1u32) != 0 <==> x % 2 == 1,
        (x & 2u32) != 0 <==> (x / 2) % 2 == 1,
        (x & 4u32) != 0 <==> (x / 4) % 2 == 1,
        (x & 8u32) != 0 <==> (x / 8) % 2 == 1,
        (x & 0x10u32) != 0 <==> (x / 16) % 2 == 1,
        (x & 0x20u32) != 0 <==> (x / 32) % 2 == 1,
        (x & 0x40u32) != 0 <==> (x / 64) % 2 == 1,
        (x & 0x100u32) != 0 <==> (x / 256) % 2 == 1,
        x & 3u32 == x % 4,
        x & 0xfu32 == x % 16,
        x & 0xffu32 == x % 256,
        x & 0x7fffu32 == x % 32768,
        x & !0x7fffu32 == x - x % 32768,
        (x & 0x7fffu32) | 0x8000u32 == x % 32768 + 32768,
        (x & 0x000f_fe00u32) >> 9u32 == (x % 1048576) / 512,
{
}

/// Single-bit tests of a 16-bit register word.
pub proof fn lemma_u16_bits(x: u16)
    by (bit_vector)
    ensures
        (x & 1u16) != 0 <==> x % 2 == 1,
        (x & 0x20u16) != 0 <==> (x / 32) % 2 == 1,
{
}

/// Single-bit tests and low-bit fields of an 8-bit register.
pub proof fn lemma_u8_bits(x: u8)
    by (bit_vector)
    ensures
        (x & 0x40u8) != 0 <==> (x / 64) % 2 == 1,
        (x & 0x80u8) != 0 <==> x >= 128,
        x & 0xfu8 == x % 16,
        x & 0x1fu8 == x % 32,
{
}

/// Low-bit fields of a machine word.
pub proof fn lemma_usize_bits(x: usize)
    by (bit_vector)
    ensures
        x & 3usize == x % 4,
        x & 0xffusize == x % 256,
        (x >> 8usize) & 0xffusize == (x / 256) % 256,
{
}

/// The values of the constant flag combinations used by the drivers.
pub proof fn lemma_flag_constants()
    by (bit_vector)
    ensures
        (0x8u32 | 0x4u32) == 0xcu32,
        (0x1000u16 | 2u16) == 0x1002u16,
        (0x1000u16 | 4u16) == 0x1004u16,
        (0x1002u16 | 4u16) == 0x1006u16,
        (0x0002u32 | 0x0001u32 | 0u32) == 3u32,
        (0x0002u32 | 0x0001u32 | 0x20u32) == 0x23u32,
        (0x0001u32 | 0u32) == 1u32,
        (0x0001u32 | 0x20u32) == 0x21u32,
        (0x01u32 | 0x02u32 | 0x10u32 | 0x20u32 | 0x80u32 | (0x4u32 << 8u32) | (0x02u32 << 16u32))
            == 0x0002_04b3u32,
        (0x0002u16 | 0x0004u16 | 0x0008u16 | 0x0010u16 | 0x0020u16 | 0x0080u16) == 0x00beu16,
        (0x0001u16 | 0x0008u16 | 0x0010u16 | 0x0080u16) == 0x99u16,
        0xffu8 & !(1u8 << 3u8) == 0xf7u8,
        0xf7u8 & !(1u8 << 4u8) == 0xe7u8,
        0xffu8 & !(1u8 << 0u8) == 0xfeu8,
        0xfeu8 & !(1u8 << 4u8) == 0xeeu8,
        0xffu8 & !(1u8 << 6u8) == 0xbfu8,
        0xffu8 & !(1u8 << 7u8) == 0x7fu8,
{
}

} // verus!
