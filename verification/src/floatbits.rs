//! IEEE-754 bit patterns of floating-point metadata.
//!
//! The library keeps every float as its bit pattern: `f32` values as `u32`,
//! `f64` values as `u64`. This module states the two facts that validation
//! needs about such patterns: which `f32` patterns are finite and positive,
//! and which `f32` pattern an `f64` narrows to (`as f32`, round to nearest,
//! ties to even).

use vstd::prelude::*;

verus! {

/// Bit pattern of `+inf` as `f32`; every finite positive `f32` lies below it.
pub const F32_INFINITY_BITS: u32 = 0x7F80_0000;

/// `true` when the `f32` with these bits is finite and strictly positive
/// (sign bit clear, not zero, exponent field not all ones).
pub open spec fn f32_positive_finite(bits: u32) -> bool {
    0 < bits < F32_INFINITY_BITS
}

/// `f32` bit pattern that `f64::from_bits(bits) as f32` produces.
///
/// Sign is kept; NaN stays a quiet NaN with the top payload bits; values too
/// large for `f32` become infinity; the 52-bit fraction is rounded to 23 bits
/// (or to fewer in the subnormal range) to nearest, ties to even; `f64`
/// subnormals and values below half the least `f32` subnormal become zero.
pub open spec fn f64_to_f32_bits(bits: u64) -> u32 {
    let sign: u32 = ((bits >> 63u64) as u32) << 31u32;
    let exp: u64 = (bits >> 52u64) & 0x7FFu64;
    let frac: u64 = bits & 0xF_FFFF_FFFF_FFFFu64;
    if exp == 0x7FF {
        if frac == 0 {
            sign | F32_INFINITY_BITS
        } else {
            sign | 0x7FC0_0000u32 | ((frac >> 29u64) as u32)
        }
    } else if exp == 0 {
        sign
    } else if exp > 1150 {
        sign | F32_INFINITY_BITS
    } else if exp >= 897 {
        let base: u64 = ((exp - 896) as u64) << 23u64 | (frac >> 29u64);
        let rem: u64 = frac & 0x1FFF_FFFFu64;
        let up: u64 = if rem > 0x1000_0000u64 || (rem == 0x1000_0000u64 && base & 1u64 == 1u64) {
            1
        } else {
            0
        };
        sign | ((base + up) as u32)
    } else if 926 - exp > 60 {
        sign
    } else {
        let shift: u64 = (926 - exp) as u64;
        let full: u64 = frac | 0x10_0000_0000_0000u64;
        let q: u64 = full >> shift;
        let rem: u64 = full & ((1u64 << shift) - 1) as u64;
        let half: u64 = 1u64 << (shift - 1) as u64;
        let up: u64 = if rem > half || (rem == half && q & 1u64 == 1u64) {
            1
        } else {
            0
        };
        sign | ((q + up) as u32)
    }
}

/// Narrows an `f64` bit pattern to the `f32` bit pattern of the same value
/// rounded as `as f32` rounds.
pub fn narrow_f64_bits(bits: u64) -> (res: u32)
    ensures
        res == f64_to_f32_bits(bits),
{
    let sign: u32 = ((bits >> 63u64) as u32) << 31u32;
    let exp: u64 = (bits >> 52u64) & 0x7FFu64;
    let frac: u64 = bits & 0xF_FFFF_FFFF_FFFFu64;
    assert(exp <= 0x7FF) by (bit_vector)
        requires
            exp == (bits >> 52u64) & 0x7FFu64,
    ;
    if exp == 0x7FF {
        if frac == 0 {
            sign | F32_INFINITY_BITS
        } else {
            sign | 0x7FC0_0000u32 | ((frac >> 29u64) as u32)
        }
    } else if exp == 0 {
        sign
    } else if exp > 1150 {
        sign | F32_INFINITY_BITS
    } else if exp >= 897 {
        let hi: u64 = exp - 896;
        let base: u64 = hi << 23u64 | (frac >> 29u64);
        let rem: u64 = frac & 0x1FFF_FFFFu64;
        assert(base < 0x8000_0000u64) by (bit_vector)
            requires
                base == hi << 23u64 | (frac >> 29u64),
                1 <= hi <= 254,
                frac == bits & 0xF_FFFF_FFFF_FFFFu64,
        ;
        let up: u64 = if rem > 0x1000_0000u64 || (rem == 0x1000_0000u64 && base & 1u64 == 1u64) {
            1
        } else {
            0
        };
        sign | ((base + up) as u32)
    } else if 926 - exp > 60 {
        sign
    } else {
        let shift: u64 = 926 - exp;
        let full: u64 = frac | 0x10_0000_0000_0000u64;
        let q: u64 = full >> shift;
        assert(1u64 << shift >= 1) by (bit_vector)
            requires
                shift <= 60,
        ;
        let rem: u64 = full & ((1u64 << shift) - 1);
        let half: u64 = 1u64 << (shift - 1);
        assert(q < 0x80_0000u64) by (bit_vector)
            requires
                q == full >> shift,
                30 <= shift <= 60,
                full == frac | 0x10_0000_0000_0000u64,
                frac == bits & 0xF_FFFF_FFFF_FFFFu64,
        ;
        let up: u64 = if rem > half || (rem == half && q & 1u64 == 1u64) {
            1
        } else {
            0
        };
        sign | ((q + up) as u32)
    }
}

} // verus!
