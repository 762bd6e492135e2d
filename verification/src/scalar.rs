//! IEEE-754 scalars as bit patterns.
//!
//! A pattern is read as sign, biased exponent and fraction. The magnitude of a
//! finite pattern is a natural number of units: one unit is `2^-149` in single
//! precision and `2^-1074` in double precision, the smallest positive number
//! of each format.

use vstd::arithmetic::power2::{lemma2_to64, lemma_pow2_pos, lemma_pow2_unfold, pow2};
use vstd::prelude::*;

verus! {

/// Single-precision `0.0`.
pub const ZERO: u32 = 0;

/// Single-precision `1.0`.
pub const ONE: u32 = 0x3f80_0000;

/// Double-precision `0.0`.
pub const DZERO: u64 = 0;

/// Double-precision `1.0`.
pub const DONE: u64 = 0x3ff0_0000_0000_0000;

/// The sign bit is set.
pub open spec fn negative32(b: u32) -> bool {
    b >= 0x8000_0000
}

/// The pattern without its sign bit.
pub open spec fn abs32(b: u32) -> u32 {
    if b >= 0x8000_0000 {
        (b - 0x8000_0000) as u32
    } else {
        b
    }
}

/// The biased exponent: 8 bits.
pub open spec fn exponent32(b: u32) -> nat {
    (abs32(b) / 0x80_0000) as nat
}

/// The fraction: 23 bits.
pub open spec fn fraction32(b: u32) -> nat {
    (abs32(b) % 0x80_0000) as nat
}

/// The pattern encodes a NaN: exponent all ones, fraction non-zero.
pub open spec fn is_nan32(b: u32) -> bool {
    abs32(b) > 0x7f80_0000
}

/// The pattern encodes an infinity.
pub open spec fn is_infinite32(b: u32) -> bool {
    abs32(b) == 0x7f80_0000
}

/// The pattern encodes a number: zero, subnormal or normal.
pub open spec fn is_finite32(b: u32) -> bool {
    abs32(b) < 0x7f80_0000
}

/// The pattern encodes `+0.0` or `-0.0`.
pub open spec fn is_zero32(b: u32) -> bool {
    abs32(b) == 0
}

/// The magnitude in units of `2^-149`, as the exponent and fraction give it.
/// For a finite pattern this is the absolute value of the number.
pub open spec fn magnitude32(b: u32) -> nat {
    if exponent32(b) == 0 {
        fraction32(b)
    } else {
        (0x80_0000 + fraction32(b)) * pow2((exponent32(b) - 1) as nat)
    }
}

/// IEEE-754 equality of two single-precision patterns: neither is a NaN, and
/// they are the same pattern or both a zero of either sign.
pub open spec fn same32(a: u32, b: u32) -> bool {
    &&& !is_nan32(a)
    &&& !is_nan32(b)
    &&& (a == b || (is_zero32(a) && is_zero32(b)))
}

/// The sign bit is set.
pub open spec fn negative64(b: u64) -> bool {
    b >= 0x8000_0000_0000_0000
}

/// The pattern without its sign bit.
pub open spec fn abs64(b: u64) -> u64 {
    if b >= 0x8000_0000_0000_0000 {
        (b - 0x8000_0000_0000_0000) as u64
    } else {
        b
    }
}

/// The biased exponent: 11 bits.
pub open spec fn exponent64(b: u64) -> nat {
    (abs64(b) / 0x10_0000_0000_0000) as nat
}

/// The fraction: 52 bits.
pub open spec fn fraction64(b: u64) -> nat {
    (abs64(b) % 0x10_0000_0000_0000) as nat
}

/// The pattern encodes a NaN: exponent all ones, fraction non-zero.
pub open spec fn is_nan64(b: u64) -> bool {
    abs64(b) > 0x7ff0_0000_0000_0000
}

/// The pattern encodes an infinity.
pub open spec fn is_infinite64(b: u64) -> bool {
    abs64(b) == 0x7ff0_0000_0000_0000
}

/// The pattern encodes a number: zero, subnormal or normal.
pub open spec fn is_finite64(b: u64) -> bool {
    abs64(b) < 0x7ff0_0000_0000_0000
}

/// The pattern encodes `+0.0` or `-0.0`.
pub open spec fn is_zero64(b: u64) -> bool {
    abs64(b) == 0
}

/// The magnitude in units of `2^-1074`, as the exponent and fraction give it.
/// For a finite pattern this is the absolute value of the number.
pub open spec fn magnitude64(b: u64) -> nat {
    if exponent64(b) == 0 {
        fraction64(b)
    } else {
        (0x10_0000_0000_0000 + fraction64(b)) * pow2((exponent64(b) - 1) as nat)
    }
}

/// IEEE-754 equality of two double-precision patterns: neither is a NaN, and
/// they are the same pattern or both a zero of either sign.
pub open spec fn same64(a: u64, b: u64) -> bool {
    &&& !is_nan64(a)
    &&& !is_nan64(b)
    &&& (a == b || (is_zero64(a) && is_zero64(b)))
}

/// Compares two single-precision patterns as the numbers they encode.
pub fn eq32(a: u32, b: u32) -> (r: bool)
    ensures
        r == same32(a, b),
{
    let ma: u32 = if a >= 0x8000_0000 {
        a - 0x8000_0000
    } else {
        a
    };
    let mb: u32 = if b >= 0x8000_0000 {
        b - 0x8000_0000
    } else {
        b
    };
    ma <= 0x7f80_0000 && mb <= 0x7f80_0000 && (a == b || (ma == 0 && mb == 0))
}

/// Compares two double-precision patterns as the numbers they encode.
pub fn eq64(a: u64, b: u64) -> (r: bool)
    ensures
        r == same64(a, b),
{
    let ma: u64 = if a >= 0x8000_0000_0000_0000 {
        a - 0x8000_0000_0000_0000
    } else {
        a
    };
    let mb: u64 = if b >= 0x8000_0000_0000_0000 {
        b - 0x8000_0000_0000_0000
    } else {
        b
    };
    ma <= 0x7ff0_0000_0000_0000 && mb <= 0x7ff0_0000_0000_0000 && (a == b || (ma == 0 && mb
        == 0))
}

/// Equality of numbers is symmetric, and reflexive on everything but a NaN.
pub proof fn lemma_same32(a: u32, b: u32)
    ensures
        same32(a, b) == same32(b, a),
        same32(a, a) == !is_nan32(a),
{
}

/// Equality of numbers is symmetric, and reflexive on everything but a NaN.
pub proof fn lemma_same64(a: u64, b: u64)
    ensures
        same64(a, b) == same64(b, a),
        same64(a, a) == !is_nan64(a),
{
}

/// The distance from the number of a finite pattern to the next one up.
pub open spec fn ulp32(a: u32) -> nat {
    if exponent32(a) <= 1 {
        1
    } else {
        pow2((exponent32(a) - 1) as nat)
    }
}

/// The next pattern up encodes the next number up: patterns without a sign
/// are ordered as their numbers are, through every exponent and up to the
/// infinity, which stands where `2^128` would.
pub proof fn lemma_magnitude32_step(a: u32)
    requires
        a < 0x7f80_0000,
    ensures
        magnitude32((a + 1) as u32) == magnitude32(a) + ulp32(a),
        ulp32(a) >= 1,
{
    let e = exponent32(a);
    let f = fraction32(a);
    let n = (a + 1) as u32;
    lemma2_to64();
    if f + 1 < 0x80_0000 {
        assert(exponent32(n) == e);
        assert(fraction32(n) == f + 1);
        if e >= 1 {
            let p = pow2((e - 1) as nat);
            lemma_pow2_pos((e - 1) as nat);
            assert((0x80_0000 + (f + 1)) * p == (0x80_0000 + f) * p + p) by (nonlinear_arith);
        }
    } else {
        assert(exponent32(n) == e + 1);
        assert(fraction32(n) == 0);
        if e >= 1 {
            let p = pow2((e - 1) as nat);
            lemma_pow2_pos((e - 1) as nat);
            lemma_pow2_unfold(e);
            assert(0x80_0000 * (2 * p) == (0x80_0000 + f) * p + p) by (nonlinear_arith)
                requires
                    f == 0x7f_ffff,
            ;
        } else {
            assert(0x80_0000 * pow2(0) == 0x80_0000) by (nonlinear_arith)
                requires
                    pow2(0) == 1,
            ;
        }
    }
}

/// A pattern below the second binade encodes its own value in units: the
/// subnormal numbers and the first normal ones are evenly spaced.
pub proof fn lemma_magnitude32_small(a: u32)
    requires
        a < 0x100_0000,
    ensures
        magnitude32(a) == a,
{
    lemma2_to64();
    if exponent32(a) == 1 {
        assert((0x80_0000 + fraction32(a)) * pow2(0) == 0x80_0000 + fraction32(a))
            by (nonlinear_arith)
            requires
                pow2(0) == 1,
        ;
    }
}

/// With exponent `e` and a significand `c` that may have just carried into
/// the next binade, the magnitude is `c * 2^(e - 1)`.
pub proof fn lemma_magnitude32_normal(e: nat, c: nat)
    requires
        1 <= e <= 254,
        0x80_0000 <= c <= 0x100_0000,
    ensures
        (e - 1) * 0x80_0000 + c <= 0x7f80_0000,
        magnitude32(((e - 1) * 0x80_0000 + c) as u32) == c * pow2((e - 1) as nat),
{
    let a = ((e - 1) * 0x80_0000 + c) as u32;
    let p = pow2((e - 1) as nat);
    lemma_pow2_unfold(e);
    if c < 0x100_0000 {
        assert(exponent32(a) == e);
        assert(fraction32(a) == c - 0x80_0000);
    } else {
        assert(a == (e + 1) * 0x80_0000);
        assert(exponent32(a) == e + 1);
        assert(fraction32(a) == 0);
        assert(0x80_0000 * (2 * p) == 0x100_0000 * p) by (nonlinear_arith);
    }
}

/// Patterns without a sign are ordered as their numbers are.
pub proof fn lemma_magnitude32_increases(a: u32, b: u32)
    requires
        a < b <= 0x7f80_0000,
    ensures
        magnitude32(a) < magnitude32(b),
    decreases b - a,
{
    lemma_magnitude32_step((b - 1) as u32);
    if a < b - 1 {
        lemma_magnitude32_increases(a, (b - 1) as u32);
    }
}

/// `same32` is equality of the numbers: two patterns that are not NaN are the
/// same exactly if their magnitudes agree and, unless both are zero, their
/// signs.
pub proof fn lemma_same32_numbers(a: u32, b: u32)
    requires
        !is_nan32(a),
        !is_nan32(b),
    ensures
        same32(a, b) <==> magnitude32(a) == magnitude32(b) && (negative32(a) == negative32(b)
            || magnitude32(a) == 0),
{
    let x = abs32(a);
    let y = abs32(b);
    assert(magnitude32(a) == magnitude32(x));
    assert(magnitude32(b) == magnitude32(y));
    lemma_magnitude32_small(0);
    if x < y {
        lemma_magnitude32_increases(x, y);
    }
    if y < x {
        lemma_magnitude32_increases(y, x);
    }
    if 0 < x {
        lemma_magnitude32_increases(0, x);
    }
}

/// The distance from the number of a finite pattern to the next one up.
pub open spec fn ulp64(a: u64) -> nat {
    if exponent64(a) <= 1 {
        1
    } else {
        pow2((exponent64(a) - 1) as nat)
    }
}

/// The next pattern up encodes the next number up: patterns without a sign
/// are ordered as their numbers are, through every exponent and up to the
/// infinity, which stands where `2^1024` would.
pub proof fn lemma_magnitude64_step(a: u64)
    requires
        a < 0x7ff0_0000_0000_0000,
    ensures
        magnitude64((a + 1) as u64) == magnitude64(a) + ulp64(a),
        ulp64(a) >= 1,
{
    let e = exponent64(a);
    let f = fraction64(a);
    let n = (a + 1) as u64;
    lemma2_to64();
    if f + 1 < 0x10_0000_0000_0000 {
        assert(exponent64(n) == e);
        assert(fraction64(n) == f + 1);
        if e >= 1 {
            let p = pow2((e - 1) as nat);
            lemma_pow2_pos((e - 1) as nat);
            assert((0x10_0000_0000_0000 + (f + 1)) * p == (0x10_0000_0000_0000 + f) * p + p)
                by (nonlinear_arith);
        }
    } else {
        assert(exponent64(n) == e + 1);
        assert(fraction64(n) == 0);
        if e >= 1 {
            let p = pow2((e - 1) as nat);
            lemma_pow2_pos((e - 1) as nat);
            lemma_pow2_unfold(e);
            assert(0x10_0000_0000_0000 * (2 * p) == (0x10_0000_0000_0000 + f) * p + p)
                by (nonlinear_arith)
                requires
                    f == 0xf_ffff_ffff_ffff,
            ;
        } else {
            assert(0x10_0000_0000_0000 * pow2(0) == 0x10_0000_0000_0000) by (nonlinear_arith)
                requires
                    pow2(0) == 1,
            ;
        }
    }
}

/// Patterns without a sign are ordered as their numbers are.
pub proof fn lemma_magnitude64_increases(a: u64, b: u64)
    requires
        a < b <= 0x7ff0_0000_0000_0000,
    ensures
        magnitude64(a) < magnitude64(b),
    decreases b - a,
{
    lemma_magnitude64_step((b - 1) as u64);
    if a < b - 1 {
        lemma_magnitude64_increases(a, (b - 1) as u64);
    }
}

/// `same64` is equality of the numbers: two patterns that are not NaN are the
/// same exactly if their magnitudes agree and, unless both are zero, their
/// signs.
pub proof fn lemma_same64_numbers(a: u64, b: u64)
    requires
        !is_nan64(a),
        !is_nan64(b),
    ensures
        same64(a, b) <==> magnitude64(a) == magnitude64(b) && (negative64(a) == negative64(b)
            || magnitude64(a) == 0),
{
    let x = abs64(a);
    let y = abs64(b);
    assert(magnitude64(a) == magnitude64(x));
    assert(magnitude64(b) == magnitude64(y));
    assert(magnitude64(0) == 0);
    if x < y {
        lemma_magnitude64_increases(x, y);
    }
    if y < x {
        lemma_magnitude64_increases(y, x);
    }
    if 0 < x {
        lemma_magnitude64_increases(0, x);
    }
}

} // verus!
