//! Bit patterns of IEEE-754 binary32 values, computed on integers.
//!
//! The shader reads its parameters as 32-bit floats. This module produces
//! the exact bit pattern that Rust's `n as f32` yields for an unsigned
//! integer `n`: the nearest representable value, ties going to an even
//! significand.
use vstd::arithmetic::power2::*;
use vstd::prelude::*;

verus! {

/// Number of explicit significand bits of a binary32 value.
pub const MANTISSA_BITS: u32 = 23;

/// Bit pattern of `0.0`.
pub const ZERO_BITS: u32 = 0;

/// Index of the highest set bit of a positive number.
pub open spec fn high_bit(n: nat) -> nat
    decreases n,
{
    if n <= 1 {
        0
    } else {
        1 + high_bit(n / 2)
    }
}

/// `n / 2^s`, rounded to the nearest integer, ties to even.
pub open spec fn round_shift(n: nat, s: nat) -> nat {
    let q = n / pow2(s);
    let r = n % pow2(s);
    if s == 0 {
        q
    } else if r > pow2((s - 1) as nat) || (r == pow2((s - 1) as nat) && q % 2 == 1) {
        q + 1
    } else {
        q
    }
}

/// Bit pattern of the binary32 value nearest to `n`, ties to even.
///
/// With `e` the index of the highest set bit, the value is `q * 2^(e - 23)`
/// for a 24-bit significand `q`; the biased exponent `127 + e` and the
/// significand without its leading bit combine to `(126 + e) * 2^23 + q`.
/// A significand that rounds up to `2^24` carries into the exponent.
pub open spec fn f32_bits_of_nat(n: nat) -> nat {
    if n == 0 {
        0
    } else {
        let e = high_bit(n);
        if e <= 23 {
            (126 + e) * pow2(23) + n * pow2((23 - e) as nat)
        } else {
            (126 + e) * pow2(23) + round_shift(n, (e - 23) as nat)
        }
    }
}

proof fn lemma_high_bit(n: nat, e: nat)
    requires
        pow2(e) <= n < pow2(e + 1),
    ensures
        high_bit(n) == e,
    decreases e,
{
    lemma_pow2_unfold(e + 1);
    if e == 0 {
        lemma2_to64();
    } else {
        lemma_pow2_unfold(e);
        lemma_high_bit(n / 2, (e - 1) as nat);
    }
}

/// The bit pattern of `n as f32`.
pub fn f32_bits_from_u32(n: u32) -> (r: u32)
    ensures
        r as nat == f32_bits_of_nat(n as nat),
{
    if n == 0 {
        return ZERO_BITS;
    }
    let mut e: u32 = 0;
    let mut p: u32 = 1;
    proof {
        lemma2_to64();
    }
    while p <= n / 2
        invariant
            1 <= p <= n,
            p as nat == pow2(e as nat),
            e < 32,
        decreases n - p,
    {
        proof {
            lemma_pow2_unfold((e + 1) as nat);
            lemma2_to64();
            if e + 1 >= 32 {
                if e + 1 > 32 {
                    lemma_pow2_strictly_increases(32, (e + 1) as nat);
                }
            }
        }
        p = p * 2;
        e = e + 1;
    }
    proof {
        lemma_pow2_unfold((e + 1) as nat);
        lemma_high_bit(n as nat, e as nat);
        lemma2_to64();
    }
    let base: u32 = (126 + e) * 8388608;
    if e <= MANTISSA_BITS {
        let k: u32 = 8388608 / p;
        proof {
            lemma_pow2_subtracts(e as nat, 23);
            lemma_pow2_adds(e as nat, (23 - e) as nat);
            assert(p * k == 8388608);
            assert(n * k < 16777216) by (nonlinear_arith)
                requires
                    n < 2 * p,
                    p * k == 8388608,
                    k > 0,
            ;
        }
        base + n * k
    } else {
        let d: u32 = p / 8388608;
        proof {
            lemma_pow2_subtracts(23, e as nat);
            lemma_pow2_adds(23, (e - 23) as nat);
            lemma_pow2_unfold((e - 23) as nat);
            assert(d * 8388608 == p);
            assert(n / d < 16777216) by (nonlinear_arith)
                requires
                    n < 2 * p,
                    d * 8388608 == p,
                    d > 0,
            ;
        }
        let q: u32 = n / d;
        let r: u32 = n % d;
        let half: u32 = d / 2;
        if r > half || (r == half && q % 2 == 1) {
            base + q + 1
        } else {
            base + q
        }
    }
}

} // verus!
