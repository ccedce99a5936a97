//! Facts about the bit-level packing of values into registers.
use vstd::prelude::*;

verus! {

/// A signed 32-bit value widened into a register and truncated again is unchanged.
pub proof fn lemma_i32_through_register(x: i32)
    by (bit_vector)
    ensures
        ((x as u32) as u64) as i32 == x,
        (x as u64) as i32 == x,
        (x as u64) as u32 == x as u32,
{
}

/// Two 16-bit halves packed into a 32-bit value come apart again, and every 32-bit value is the
/// packing of its halves.
pub proof fn lemma_u32_halves(hi: u16, lo: u16, v: u32)
    by (bit_vector)
    ensures
        ((((hi as u32) << 16u32) | (lo as u32)) >> 16u32) as u16 == hi,
        (((hi as u32) << 16u32) | (lo as u32)) as u16 == lo,
        ((((v >> 16u32) as u16) as u32) << 16u32) | (((v as u16) as u32)) == v,
{
}

/// A 64-bit value is determined by its 8 bytes.
pub proof fn lemma_u64_bytes_determine(x: u64, y: u64)
    by (bit_vector)
    requires
        (x >> 56u64) as u8 == (y >> 56u64) as u8,
        (x >> 48u64) as u8 == (y >> 48u64) as u8,
        (x >> 40u64) as u8 == (y >> 40u64) as u8,
        (x >> 32u64) as u8 == (y >> 32u64) as u8,
        (x >> 24u64) as u8 == (y >> 24u64) as u8,
        (x >> 16u64) as u8 == (y >> 16u64) as u8,
        (x >> 8u64) as u8 == (y >> 8u64) as u8,
        x as u8 == y as u8,
    ensures
        x == y,
{
}

/// A 64-bit value is the join of its 8 bytes.
pub proof fn lemma_u64_from_bytes(x: u64)
    by (bit_vector)
    ensures
        ((((x >> 56u64) as u8) as u64) << 56u64) | ((((x >> 48u64) as u8) as u64) << 48u64) | ((((x
            >> 40u64) as u8) as u64) << 40u64) | ((((x >> 32u64) as u8) as u64) << 32u64) | ((((x
            >> 24u64) as u8) as u64) << 24u64) | ((((x >> 16u64) as u8) as u64) << 16u64) | ((((x
            >> 8u64) as u8) as u64) << 8u64) | ((x as u8) as u64) == x,
{
}

/// Two 16-bit endpoint IDs packed into bits [31:16] and [15:0] of a register come apart again.
pub proof fn lemma_u64_id_halves(hi: u16, lo: u16)
    by (bit_vector)
    ensures
        ((((hi as u64) << 16u64) | (lo as u64)) >> 16u64) as u16 == hi,
        (((hi as u64) << 16u64) | (lo as u64)) as u16 == lo,
{
}

/// Four bytes joined least significant first into a 32-bit word come apart again.
pub proof fn lemma_le_word_bytes(b0: u8, b1: u8, b2: u8, b3: u8)
    by (bit_vector)
    ensures
        ((b0 as u32) | ((b1 as u32) << 8u32) | ((b2 as u32) << 16u32) | ((b3 as u32) << 24u32))
            as u8 == b0,
        (((b0 as u32) | ((b1 as u32) << 8u32) | ((b2 as u32) << 16u32) | ((b3 as u32) << 24u32))
            >> 8u32) as u8 == b1,
        (((b0 as u32) | ((b1 as u32) << 8u32) | ((b2 as u32) << 16u32) | ((b3 as u32) << 24u32))
            >> 16u32) as u8 == b2,
        (((b0 as u32) | ((b1 as u32) << 8u32) | ((b2 as u32) << 16u32) | ((b3 as u32) << 24u32))
            >> 24u32) as u8 == b3,
{
}

/// Eight bytes joined most significant first into a 64-bit value come apart again.
pub proof fn lemma_be_u64_bytes(b0: u8, b1: u8, b2: u8, b3: u8, b4: u8, b5: u8, b6: u8, b7: u8)
    by (bit_vector)
    ensures
        ({
            let x = ((b0 as u64) << 56u64) | ((b1 as u64) << 48u64) | ((b2 as u64) << 40u64) | ((
            b3 as u64) << 32u64) | ((b4 as u64) << 24u64) | ((b5 as u64) << 16u64) | ((
            b6 as u64) << 8u64) | (b7 as u64);
            &&& (x >> 56u64) as u8 == b0
            &&& (x >> 48u64) as u8 == b1
            &&& (x >> 40u64) as u8 == b2
            &&& (x >> 32u64) as u8 == b3
            &&& (x >> 24u64) as u8 == b4
            &&& (x >> 16u64) as u8 == b5
            &&& (x >> 8u64) as u8 == b6
            &&& x as u8 == b7
        }),
{
}

/// A 32-bit value with bit 31 clear is below 2^31.
pub proof fn lemma_bit31_clear(x: u32)
    by (bit_vector)
    ensures
        (x & 0x8000_0000u32 == 0) <==> x < 0x8000_0000u32,
{
}

/// The framework message kinds of direct messages all have bit 31 set.
pub proof fn lemma_fwk_msg_kinds()
    by (bit_vector)
    ensures
        0x8000_0000u32 & 0x8000_0000u32 != 0,
        0x8000_0001u32 & 0x8000_0000u32 != 0,
        0x8000_0002u32 & 0x8000_0000u32 != 0,
        0x8000_0004u32 & 0x8000_0000u32 != 0,
        0x8000_0005u32 & 0x8000_0000u32 != 0,
        0x8000_0006u32 & 0x8000_0000u32 != 0,
        0x8000_0007u32 & 0x8000_0000u32 != 0,
        0x8000_0008u32 & 0x8000_0000u32 != 0,
        0x8000_0009u32 & 0x8000_0000u32 != 0,
        0x8000_0000u64 & 0x8000_0000u64 != 0,
        0u32 & 0x8000_0000u32 == 0,
        0u64 & 0x8000_0000u64 == 0,
{
}

/// Eight bytes joined least significant first into a 64-bit value come apart again.
pub proof fn lemma_le_u64_bytes(b0: u8, b1: u8, b2: u8, b3: u8, b4: u8, b5: u8, b6: u8, b7: u8)
    by (bit_vector)
    ensures
        ({
            let x = (b0 as u64) | ((b1 as u64) << 8u64) | ((b2 as u64) << 16u64) | ((b3 as u64)
                << 24u64) | ((b4 as u64) << 32u64) | ((b5 as u64) << 40u64) | ((b6 as u64)
                << 48u64) | ((b7 as u64) << 56u64);
            &&& x as u8 == b0
            &&& (x >> 8u64) as u8 == b1
            &&& (x >> 16u64) as u8 == b2
            &&& (x >> 24u64) as u8 == b3
            &&& (x >> 32u64) as u8 == b4
            &&& (x >> 40u64) as u8 == b5
            &&& (x >> 48u64) as u8 == b6
            &&& (x >> 56u64) as u8 == b7
        }),
{
}

/// Reading a register as a 32-bit (or narrower) value sees only its low 32 bits.
pub proof fn lemma_low_half(x: u64)
    by (bit_vector)
    ensures
        ((x as u32) as u64) as u32 == x as u32,
        ((x as u32) as u64) as i32 == x as i32,
        ((x as u32) as u64) as u16 == x as u16,
        ((x as u32) as u64) as u8 == x as u8,
        (((x as u32) as u64) >> 16u64) as u16 == (x >> 16u64) as u16,
{
}

/// A register whose low 32 bits are all ones reads as -1 in 32 bits, and -1 written into a
/// register sets all of its bits.
pub proof fn lemma_low_half_minus_one(x: u64)
    by (bit_vector)
    ensures
        x as u32 == 0xffff_ffffu32 <==> x as i32 == -1i32,
        (-1i32) as u64 == 0xffff_ffff_ffff_ffffu64,
{
}

/// Packing a high and a low half side by side is the arithmetic `high * 2^16 + low` (or
/// `high * 2^32 + low`), and taking a 64-bit value apart gives its quotient and remainder by 2^32.
pub proof fn lemma_packing_arith(hi: u16, lo: u16, x: u64)
    by (bit_vector)
    ensures
        ((hi as u32) << 16u32) | (lo as u32) == (hi as u32) * 0x1_0000u32 + (lo as u32),
        ((hi as u64) << 16u64) | (lo as u64) == (hi as u64) * 0x1_0000u64 + (lo as u64),
        x as u32 == x % 0x1_0000_0000u64,
        (x >> 32u64) as u32 == x / 0x1_0000_0000u64,
{
}

/// A handle joined from two 32-bit words is `high * 2^32 + low`.
pub proof fn lemma_handle_words(lo: u32, hi: u32)
    by (bit_vector)
    ensures
        ((hi as u64) << 32u64) | (lo as u64) == (hi as u64) * 0x1_0000_0000u64 + (lo as u64),
{
}

/// Bytes joined least significant first weigh 1, 2^8, 2^16, 2^24; joined most significant
/// first they weigh 2^56 down to 1.
pub proof fn lemma_byte_weights(b0: u8, b1: u8, b2: u8, b3: u8, b4: u8, b5: u8, b6: u8, b7: u8)
    by (bit_vector)
    ensures
        (b0 as u32) | ((b1 as u32) << 8u32) | ((b2 as u32) << 16u32) | ((b3 as u32) << 24u32)
            == (b0 as u32) + (b1 as u32) * 0x100u32 + (b2 as u32) * 0x1_0000u32 + (b3 as u32)
            * 0x100_0000u32,
        ((b0 as u64) << 56u64) | ((b1 as u64) << 48u64) | ((b2 as u64) << 40u64) | ((b3 as u64)
            << 32u64) | ((b4 as u64) << 24u64) | ((b5 as u64) << 16u64) | ((b6 as u64) << 8u64) | (
        b7 as u64) == (b0 as u64) * 0x100_0000_0000_0000u64 + (b1 as u64) * 0x1_0000_0000_0000u64
            + (b2 as u64) * 0x100_0000_0000u64 + (b3 as u64) * 0x1_0000_0000u64 + (b4 as u64)
            * 0x100_0000u64 + (b5 as u64) * 0x1_0000u64 + (b6 as u64) * 0x100u64 + (b7 as u64),
{
}

} // verus!
