//! Bit-slicing and sign-extension primitives underlying every instruction
//! format parser.

use vstd::arithmetic::power2::{lemma2_to64, lemma2_to64_rest, lemma_pow2_adds, pow2};
use vstd::bits::{
    lemma_u64_low_bits_mask_is_mod, lemma_u64_pow2_no_overflow, lemma_u64_shl_is_mul,
    low_bits_mask,
};
use vstd::prelude::*;

verus! {

/// The bits of `n` from position `start` to position `end` (both inclusive,
/// position 0 being the least significant bit), shifted down to position 0.
pub open spec fn spec_get_bits(n: u64, start: u64, end: u64) -> u64
    recommends
        start <= end < 64,
        end - start < 63,
{
    (n >> start) & (((1u64 << (end - start + 1)) - 1) as u64)
}

/// Gets the bits from `n` in the interval from `start` to `end`. Position 0
/// refers to the least significant bit.
pub fn get_bits(n: u64, start: u64, end: u64) -> (r: u64)
    requires
        start <= end,
        end < 64,
        end - start < 63,
    ensures
        r == spec_get_bits(n, start, end),
        r < pow2((end - start + 1) as nat),
{
    let width: u64 = end - start + 1;
    proof {
        assert(1u64 << width >= 1 && (1u64 << width) - 1 < 0x8000_0000_0000_0000)
            by (bit_vector)
            requires
                0 < width < 64,
        ;
        lemma_u64_pow2_no_overflow(width as nat);
        lemma_u64_shl_is_mul(1u64, width);
        assert((n >> start) & (((1u64 << width) - 1) as u64) <= ((1u64 << width) - 1) as u64)
            by (bit_vector);
    }
    let mask: u64 = (1u64 << width) - 1;
    (n >> start) & mask
}

/// A bit slice is bounded by two to the power of its width.
pub proof fn lemma_get_bits_bound(n: u64, start: u64, end: u64)
    requires
        start <= end,
        end < 64,
        end - start < 63,
    ensures
        spec_get_bits(n, start, end) < pow2((end - start + 1) as nat),
{
    let width: u64 = (end - start + 1) as u64;
    assert(1u64 << width >= 1) by (bit_vector)
        requires
            0 < width < 64,
    ;
    lemma_u64_pow2_no_overflow(width as nat);
    lemma_u64_shl_is_mul(1u64, width);
    assert((n >> start) & (((1u64 << width) - 1) as u64) <= ((1u64 << width) - 1) as u64)
        by (bit_vector);
    assert(spec_get_bits(n, start, end) == (n >> start) & (((1u64 << width) - 1) as u64));
}

/// The value of the low `bit_width` bits of `value`, read as a two's-complement
/// signed quantity: the arithmetic sign extension of a `bit_width`-bit field.
pub open spec fn spec_sign_extend_32(value: u32, bit_width: u8) -> i32
    recommends
        1 <= bit_width <= 32,
{
    let m = (value as nat) % pow2(bit_width as nat);
    if m >= pow2((bit_width - 1) as nat) {
        (m - pow2(bit_width as nat)) as i32
    } else {
        m as i32
    }
}

/// Sign-extends the low `bit_width` bits of `value` to a full signed 32-bit
/// value; bits of `value` at or above `bit_width` are ignored.
pub fn sign_extend_32(value: u32, bit_width: u8) -> (r: i32)
    requires
        1 <= bit_width <= 32,
    ensures
        r == spec_sign_extend_32(value, bit_width),
{
    let bw: u64 = bit_width as u64;
    proof {
        lemma_u64_pow2_no_overflow(bw as nat);
        lemma_u64_pow2_no_overflow((bw - 1) as nat);
        lemma_u64_shl_is_mul(1u64, bw);
        lemma_u64_shl_is_mul(1u64, (bw - 1) as u64);
        lemma_u64_low_bits_mask_is_mod(value as u64, bw as nat);
        assert((1u64 << bw) - 1 == low_bits_mask(bw as nat));
        lemma_pow2_adds((bw - 1) as nat, 1);
        lemma2_to64();
    }
    let modulus: u64 = 1u64 << bw;
    let m: u64 = (value as u64) & (modulus - 1);
    let half: u64 = 1u64 << (bw - 1);
    if m >= half {
        ((m as i64) - (modulus as i64)) as i32
    } else {
        m as i32
    }
}

/// The value of the low `bit_width` bits of `value`, read as a two's-complement
/// signed quantity: the arithmetic sign extension of a `bit_width`-bit field.
pub open spec fn spec_sign_extend_64(value: u64, bit_width: u8) -> i64
    recommends
        1 <= bit_width <= 64,
{
    let m = (value as nat) % pow2(bit_width as nat);
    if m >= pow2((bit_width - 1) as nat) {
        (m - pow2(bit_width as nat)) as i64
    } else {
        m as i64
    }
}

/// Sign-extends the low `bit_width` bits of `value` to a full signed 64-bit
/// value; bits of `value` at or above `bit_width` are ignored.
pub fn sign_extend_64(value: u64, bit_width: u8) -> (r: i64)
    requires
        1 <= bit_width <= 64,
    ensures
        r == spec_sign_extend_64(value, bit_width),
{
    proof {
        lemma2_to64();
        lemma2_to64_rest();
    }
    if bit_width == 64 {
        let half: u64 = 1u64 << 63u64;
        proof {
            assert(1u64 << 63u64 == 0x8000_0000_0000_0000) by (bit_vector);
            assert((value as nat) % pow2(64) == value as nat) by {
                assert(value < pow2(64));
            }
        }
        if value >= half {
            ((value as i128) - 0x1_0000_0000_0000_0000i128) as i64
        } else {
            value as i64
        }
    } else {
        let bw: u64 = bit_width as u64;
        proof {
            lemma_u64_pow2_no_overflow(bw as nat);
            lemma_u64_pow2_no_overflow((bw - 1) as nat);
            lemma_u64_shl_is_mul(1u64, bw);
            lemma_u64_shl_is_mul(1u64, (bw - 1) as u64);
            lemma_u64_low_bits_mask_is_mod(value, bw as nat);
            assert((1u64 << bw) - 1 == low_bits_mask(bw as nat));
            lemma_pow2_adds((bw - 1) as nat, 1);
        }
        let modulus: u64 = 1u64 << bw;
        let m: u64 = value & (modulus - 1);
        let half: u64 = 1u64 << (bw - 1);
        if m >= half {
            ((m as i128) - (modulus as i128)) as i64
        } else {
            m as i64
        }
    }
}

/// The low 32 bits of `value`.
pub fn unsigned_32(value: u64) -> (r: u64)
    ensures
        r == value % 0x1_0000_0000,
        r == spec_get_bits(value, 0, 31),
{
    proof {
        assert((value >> 0u64) & (((1u64 << 32u64) - 1) as u64) == value % 0x1_0000_0000)
            by (bit_vector);
    }
    get_bits(value, 0, 31)
}

} // verus!
