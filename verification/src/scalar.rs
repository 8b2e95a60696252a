//! Scalar bit patterns.
//!
//! The compositor stores every quantity that the GPU reads as a 32-bit
//! float — positions, sizes, color channels, blur radii — as the raw
//! `u32` bit pattern of that float. The logic here never does float
//! arithmetic; it only moves bits, tests them for zero, and produces the
//! bit pattern of a small nonnegative integer (a pixel count) when a
//! surface dimension has to enter an instance record.

use vstd::prelude::*;
use vstd::arithmetic::power2::{pow2, lemma_pow2_unfold, lemma_pow2_adds, lemma_pow2_strictly_increases, lemma2_to64};

verus! {

/// Bit pattern of `1.0f32`: the default opaque-white color channel.
pub const ONE_BITS: u32 = 0x3F80_0000;

/// Bit pattern of positive zero.
pub const POS_ZERO_BITS: u32 = 0;

/// Bit pattern of negative zero.
pub const NEG_ZERO_BITS: u32 = 0x8000_0000;

/// Largest pixel count whose float representation is exact
/// (2^24 - 1; every integer below 2^24 is an exact 32-bit float).
pub const MAX_EXACT_PIXELS: u32 = 0x00FF_FFFF;

/// A bit pattern denotes the float value zero exactly when it is one of
/// the two IEEE 754 zeros.
pub open spec fn zero_bits(b: u32) -> bool {
    b == POS_ZERO_BITS || b == NEG_ZERO_BITS
}

/// Runtime test matching `zero_bits`.
pub fn is_zero_bits(b: u32) -> (r: bool)
    ensures
        r == zero_bits(b),
{
    b == POS_ZERO_BITS || b == NEG_ZERO_BITS
}

/// Floor of the base-2 logarithm; 0 for inputs below 2.
pub open spec fn floor_log2(v: nat) -> nat
    decreases v,
{
    if v < 2 {
        0
    } else {
        1 + floor_log2(v / 2)
    }
}

/// The IEEE 754 single-precision bit pattern of a small pixel count.
/// Well defined for `v < 2^24`, where the representation is exact:
/// a biased exponent of `floor_log2(v) + 127` and the 23 mantissa bits
/// of `v` shifted so that its leading bit drops out.
pub open spec fn f32_bits_of_px(v: u32) -> u32 {
    if v == 0 {
        0
    } else {
        let e = floor_log2(v as nat);
        (((e + 127) * 0x80_0000 + (v as nat) * pow2((23 - e) as nat)) - 0x80_0000) as u32
    }
}

/// `2^e <= v < 2^(e+1)` characterizes `floor_log2(v) == e`.
proof fn lemma_floor_log2_bounds(v: nat)
    requires
        v >= 1,
    ensures
        pow2(floor_log2(v)) <= v < pow2(floor_log2(v) + 1),
    decreases v,
{
    if v < 2 {
        lemma2_to64();
    } else {
        lemma_floor_log2_bounds(v / 2);
        let e = floor_log2(v / 2);
        lemma_pow2_unfold(e + 1);
        lemma_pow2_unfold(e + 2);
        assert(pow2(e + 1) == 2 * pow2(e));
        assert(pow2(e + 2) == 2 * pow2(e + 1));
    }
}

/// The bracket `2^e <= v < 2^(e+1)` determines `floor_log2(v)`.
proof fn lemma_floor_log2_is(v: nat, e: nat)
    requires
        pow2(e) <= v,
        v < pow2(e + 1),
    ensures
        floor_log2(v) == e,
    decreases v,
{
    lemma2_to64();
    if e == 0 {
    } else {
        lemma_pow2_unfold(e);
        lemma_pow2_unfold(e + 1);
        lemma_floor_log2_is(v / 2, (e - 1) as nat);
    }
}

/// Runtime computation of the exact float bit pattern of a pixel count.
pub fn px_to_f32_bits(v: u32) -> (r: u32)
    requires
        v <= MAX_EXACT_PIXELS,
    ensures
        r == f32_bits_of_px(v),
{
    if v == 0 {
        return 0;
    }
    let mut e: u32 = 0;
    let mut p: u32 = 1;
    proof {
        lemma2_to64();
    }
    while p * 2 <= v
        invariant
            1 <= v <= MAX_EXACT_PIXELS,
            p == pow2(e as nat),
            p <= v,
            e <= 23,
        decreases v - p,
    {
        proof {
            lemma_pow2_unfold((e + 1) as nat);
            lemma2_to64();
            if e >= 23 {
                // p would already be 2^23, so 2p exceeds every allowed v.
                assert(false);
            }
        }
        p = p * 2;
        e = e + 1;
    }
    proof {
        // p <= v < 2p pins floor_log2(v) to e.
        lemma_pow2_unfold((e + 1) as nat);
        lemma_floor_log2_is(v as nat, e as nat);
    }
    let shift = pow2_u32(23 - e);
    proof {
        lemma2_to64();
        lemma_pow2_adds((23 - e) as nat, e as nat);
        // v * shift < 2^24 because v < 2 * p and p * shift == 2^23.
        assert((v as nat) * (shift as nat) < 0x100_0000) by (nonlinear_arith)
            requires
                (v as nat) < 2 * (p as nat),
                (p as nat) * (shift as nat) == 0x80_0000,
                shift >= 1,
        ;
        assert((p as nat) * (shift as nat) <= (v as nat) * (shift as nat)) by (nonlinear_arith)
            requires
                p <= v,
                shift >= 1,
        ;
    }
    (e + 127) * 0x80_0000 + v * shift - 0x80_0000
}

/// Runtime power of two, for exponents small enough to fit in `u32`.
fn pow2_u32(e: u32) -> (r: u32)
    requires
        e <= 23,
    ensures
        r == pow2(e as nat),
{
    let mut i: u32 = 0;
    let mut p: u32 = 1;
    proof {
        lemma2_to64();
    }
    while i < e
        invariant
            i <= e <= 23,
            p == pow2(i as nat),
        decreases e - i,
    {
        proof {
            lemma_pow2_unfold((i + 1) as nat);
            lemma2_to64();
            if i + 1 < 23 {
                lemma_pow2_strictly_increases((i + 1) as nat, 23);
            }
        }
        p = p * 2;
        i = i + 1;
    }
    p
}

} // verus!
