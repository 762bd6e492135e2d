//! Conversion of scalars between single and double precision.
//!
//! Widening is exact. Narrowing rounds to the nearest single-precision number,
//! ties to the one with an even fraction, and to an infinity beyond the range.
//! A NaN stays a NaN: the sign is kept, the quiet bit is set and the fraction
//! keeps its leading bits.

use crate::scalar::{
    abs32, abs64, exponent32, exponent64, fraction32, fraction64, is_finite32, is_finite64,
    is_infinite32, is_infinite64, is_nan32, is_nan64, lemma_magnitude32_increases,
    lemma_magnitude32_normal, lemma_magnitude32_small, lemma_magnitude32_step,
    lemma_magnitude64_increases, lemma_same32_numbers, lemma_same64_numbers, magnitude32,
    magnitude64, negative32, negative64, same32, same64, ulp32,
};
use vstd::arithmetic::div_mod::{
    lemma_basic_div, lemma_div_by_multiple, lemma_fundamental_div_mod, lemma_mod_multiples_basic,
    lemma_small_mod,
};
use vstd::arithmetic::mul::lemma_mul_strict_inequality;
use vstd::arithmetic::power2::{
    lemma2_to64, lemma2_to64_rest, lemma_pow2_adds, lemma_pow2_pos,
    lemma_pow2_strictly_increases, lemma_pow2_unfold, pow2,
};
use vstd::bits::lemma_u64_shl_is_mul;
use vstd::prelude::*;

verus! {

/// The index of the highest set bit of a positive number; zero for zero.
pub open spec fn top_bit(n: nat) -> nat
    decreases n,
{
    if n <= 1 {
        0
    } else {
        1 + top_bit(n / 2)
    }
}

/// `top_bit(n)` is below every `k` with `n < 2^(k + 1)` and reaches every `k`
/// with `2^k <= n`.
pub proof fn lemma_top_bit_bounds(n: nat, k: nat)
    ensures
        n < pow2(k + 1) ==> top_bit(n) <= k,
        n >= pow2(k) ==> top_bit(n) >= k,
    decreases k,
{
    lemma2_to64();
    if k > 0 {
        lemma_top_bit_bounds(n / 2, (k - 1) as nat);
        lemma_pow2_unfold(k);
        lemma_pow2_unfold(k + 1);
    }
}

/// A positive number lies between the power of two of its highest bit and the
/// next one.
pub proof fn lemma_top_bit_range(n: nat)
    requires
        n >= 1,
    ensures
        pow2(top_bit(n)) <= n < pow2(top_bit(n) + 1),
    decreases n,
{
    lemma2_to64();
    if n > 1 {
        lemma_top_bit_range(n / 2);
        lemma_pow2_unfold(top_bit(n));
        lemma_pow2_unfold(top_bit(n) + 1);
    }
}

/// The double-precision pattern of the same number.
///
/// A normal number keeps its fraction and has its exponent re-biased. A
/// subnormal number becomes normal: its fraction is scaled until the highest
/// bit is the implicit one.
#[verifier::opaque]
pub open spec fn widen_spec(b: u32) -> u64 {
    let s: int = if negative32(b) {
        0x8000_0000_0000_0000
    } else {
        0
    };
    let e = exponent32(b) as int;
    let f = fraction32(b) as int;
    let a: int = if e == 255 {
        if f == 0 {
            0x7ff0_0000_0000_0000
        } else {
            0x7ff8_0000_0000_0000 + (f % 0x40_0000) * 0x2000_0000
        }
    } else if e != 0 {
        (e + 896) * 0x10_0000_0000_0000 + f * 0x2000_0000
    } else if f == 0 {
        0
    } else {
        let k = top_bit(f as nat);
        (k + 874) * 0x10_0000_0000_0000 + (f * pow2((23 - k) as nat) - 0x80_0000) * 0x2000_0000
    };
    (s + a) as u64
}

/// Converts a single-precision pattern to double precision.
pub fn widen(b: u32) -> (r: u64)
    ensures
        r == widen_spec(b),
{
    reveal(widen_spec);
    let s: u64 = if b >= 0x8000_0000 {
        0x8000_0000_0000_0000
    } else {
        0
    };
    let a: u32 = if b >= 0x8000_0000 {
        b - 0x8000_0000
    } else {
        b
    };
    let e: u64 = (a / 0x80_0000) as u64;
    let f: u64 = (a % 0x80_0000) as u64;
    if e == 255 {
        if f == 0 {
            s + 0x7ff0_0000_0000_0000
        } else {
            s + (0x7ff8_0000_0000_0000 + (f % 0x40_0000) * 0x2000_0000)
        }
    } else if e != 0 {
        s + ((e + 896) * 0x10_0000_0000_0000 + f * 0x2000_0000)
    } else if f == 0 {
        s
    } else {
        let mut g: u64 = f;
        let mut x: u64 = 897;
        proof {
            lemma2_to64();
            assert(f * pow2(0) == f);
        }
        while g < 0x80_0000
            invariant
                1 <= g < 0x100_0000,
                874 <= x <= 897,
                g == f * pow2((897 - x) as nat),
                top_bit(g as nat) == top_bit(f as nat) + (897 - x),
            decreases 0x100_0000 - g,
        {
            proof {
                lemma2_to64();
                lemma_top_bit_bounds(g as nat, 22);
                lemma_pow2_unfold((898 - x) as nat);
                assert((f * pow2((897 - x) as nat)) * 2 == f * (pow2((897 - x) as nat) * 2))
                    by (nonlinear_arith);
                assert(top_bit((g * 2) as nat) == 1 + top_bit(g as nat)) by {
                    assert((g * 2) as nat / 2 == g as nat);
                }
            }
            g = g * 2;
            x = x - 1;
        }
        proof {
            lemma2_to64();
            lemma_top_bit_bounds(g as nat, 23);
        }
        s + (x * 0x10_0000_0000_0000 + (g - 0x80_0000) * 0x2000_0000)
    }
}

/// Widening keeps the sign and the class of a pattern, and the number of a
/// finite one: its magnitude counts the same quantity in the finer unit,
/// `2^925` of which make one single-precision unit.
pub proof fn lemma_widen_exact(b: u32)
    ensures
        negative64(widen_spec(b)) == negative32(b),
        is_nan64(widen_spec(b)) == is_nan32(b),
        is_infinite64(widen_spec(b)) == is_infinite32(b),
        is_finite32(b) ==> magnitude64(widen_spec(b)) == magnitude32(b) * pow2(925),
{
    reveal(widen_spec);
    let e = exponent32(b);
    let f = fraction32(b);
    let r = widen_spec(b);
    lemma2_to64();
    lemma_pow2_pos(925);
    if e == 255 {
    } else if e != 0 {
        assert(exponent64(r) == e + 896);
        assert(fraction64(r) == f * 0x2000_0000);
        lemma_pow2_adds(29, (e + 895) as nat);
        lemma_pow2_adds((e - 1) as nat, 925);
        let p = pow2((e + 895) as nat);
        assert((0x10_0000_0000_0000 + f * 0x2000_0000) * p == (0x80_0000 + f) * (0x2000_0000 * p))
            by (nonlinear_arith);
        assert(((0x80_0000 + f) * pow2((e - 1) as nat)) * pow2(925) == (0x80_0000 + f) * (pow2(
            (e - 1) as nat,
        ) * pow2(925))) by (nonlinear_arith);
    } else if f == 0 {
        assert(magnitude32(b) * pow2(925) == 0) by (nonlinear_arith)
            requires
                magnitude32(b) == 0,
        ;
    } else {
        let k = top_bit(f);
        lemma_top_bit_bounds(f, 22);
        lemma_top_bit_range(f);
        let q = pow2((23 - k) as nat);
        let g = f * q;
        lemma_pow2_pos((23 - k) as nat);
        lemma_pow2_adds(k, (23 - k) as nat);
        lemma_pow2_adds(k + 1, (23 - k) as nat);
        assert(0x80_0000 <= g < 0x100_0000) by {
            assert(pow2(k) * q <= f * q) by (nonlinear_arith)
                requires
                    pow2(k) <= f,
                    q > 0,
            ;
            lemma_mul_strict_inequality(f as int, pow2(k + 1) as int, q as int);
        }
        assert(exponent64(r) == k + 874);
        assert(fraction64(r) == (g - 0x80_0000) * 0x2000_0000);
        let p = pow2((k + 873) as nat);
        lemma_pow2_adds(29, (k + 873) as nat);
        lemma_pow2_adds((23 - k) as nat, (k + 902) as nat);
        assert((0x10_0000_0000_0000 + (g - 0x80_0000) * 0x2000_0000) * p == f * (q * (0x2000_0000
            * p))) by (nonlinear_arith)
            requires
                g == f * q,
        ;
    }
}

/// `n / 2^shift` rounded to the nearest natural number, a tie to the even one.
pub open spec fn round_shift(n: nat, shift: nat) -> nat
    recommends
        shift >= 1,
{
    let q = n / pow2(shift);
    let rem = n % pow2(shift);
    let half = pow2(shift) / 2;
    if rem > half || (rem == half && q % 2 == 1) {
        q + 1
    } else {
        q
    }
}

/// The single-precision pattern nearest to the number.
///
/// The significand, with its implicit bit, loses its low bits by
/// `round_shift`: 29 of them where the result is normal, more where it is
/// subnormal. A carry out of the fraction moves into the exponent, up to the
/// infinity. A subnormal double is far below the smallest single and
/// becomes a zero.
#[verifier::opaque]
pub open spec fn narrow_spec(b: u64) -> u32 {
    let s: int = if negative64(b) {
        0x8000_0000
    } else {
        0
    };
    let e = exponent64(b) as int;
    let f = fraction64(b) as int;
    let a: int = if e == 2047 {
        if f == 0 {
            0x7f80_0000
        } else {
            0x7fc0_0000 + (f / 0x2000_0000) % 0x40_0000
        }
    } else if e >= 1151 {
        0x7f80_0000
    } else if e == 0 {
        0
    } else if e > 896 {
        (e - 897) * 0x80_0000 + round_shift((0x10_0000_0000_0000 + f) as nat, 29)
    } else {
        round_shift((0x10_0000_0000_0000 + f) as nat, (926 - e) as nat) as int
    };
    (s + a) as u32
}

/// Converts a double-precision pattern to single precision.
pub fn narrow(b: u64) -> (r: u32)
    ensures
        r == narrow_spec(b),
{
    reveal(narrow_spec);
    let s: u32 = if b >= 0x8000_0000_0000_0000 {
        0x8000_0000
    } else {
        0
    };
    let a: u64 = if b >= 0x8000_0000_0000_0000 {
        b - 0x8000_0000_0000_0000
    } else {
        b
    };
    let e: u64 = a / 0x10_0000_0000_0000;
    let f: u64 = a % 0x10_0000_0000_0000;
    if e == 2047 {
        if f == 0 {
            s + 0x7f80_0000
        } else {
            s + (0x7fc0_0000 + ((f / 0x2000_0000) % 0x40_0000) as u32)
        }
    } else if e >= 1151 {
        s + 0x7f80_0000
    } else if e == 0 {
        s
    } else {
        let sig: u64 = 0x10_0000_0000_0000 + f;
        if e > 896 {
            proof {
                lemma2_to64();
            }
            let q: u64 = sig / 0x2000_0000;
            let rem: u64 = sig % 0x2000_0000;
            let base: u64 = (e - 897) * 0x80_0000 + q;
            if rem > 0x1000_0000 || (rem == 0x1000_0000 && q % 2 == 1) {
                s + (base + 1) as u32
            } else {
                s + base as u32
            }
        } else {
            let shift: u64 = 926 - e;
            if shift >= 54 {
                proof {
                    lemma2_to64_rest();
                    if shift > 54 {
                        lemma_pow2_strictly_increases(54, shift as nat);
                    }
                    lemma_round_shift_small(sig as nat, shift as nat);
                }
                s
            } else {
                proof {
                    lemma2_to64();
                    lemma2_to64_rest();
                    lemma_pow2_strictly_increases(shift as nat, 54);
                    lemma_pow2_pos(shift as nat);
                    lemma_u64_shl_is_mul(1, shift);
                    lemma_pow2_unfold(shift as nat);
                }
                let p: u64 = 1u64 << shift;
                let q: u64 = sig / p;
                let rem: u64 = sig % p;
                let half: u64 = p / 2;
                proof {
                    if shift > 30 {
                        lemma_pow2_strictly_increases(30, shift as nat);
                    }
                    lemma_fundamental_div_mod(sig as int, p as int);
                    assert(q < 0x80_0000) by (nonlinear_arith)
                        requires
                            sig == p * q + rem,
                            sig < 0x20_0000_0000_0000,
                            p >= 0x4000_0000,
                            rem >= 0,
                    ;
                }
                if rem > half || (rem == half && q % 2 == 1) {
                    s + (q + 1) as u32
                } else {
                    s + q as u32
                }
            }
        }
    }
}

/// A number below half of `2^shift` rounds to zero.
pub proof fn lemma_round_shift_small(n: nat, shift: nat)
    requires
        shift >= 1,
        2 * n < pow2(shift),
    ensures
        round_shift(n, shift) == 0,
{
    lemma_pow2_pos(shift);
    lemma_basic_div(n as int, pow2(shift) as int);
    lemma_small_mod(n, pow2(shift));
}

/// A multiple of `2^shift` loses nothing when it is rounded.
pub proof fn lemma_round_shift_exact(m: nat, shift: nat)
    requires
        shift >= 1,
    ensures
        round_shift(m * pow2(shift), shift) == m,
{
    lemma_pow2_pos(shift);
    lemma_pow2_pos((shift - 1) as nat);
    lemma_pow2_unfold(shift);
    lemma_div_by_multiple(m as int, pow2(shift) as int);
    lemma_mod_multiples_basic(m as int, pow2(shift) as int);
}

/// Widening and then narrowing gives back every pattern that is not a NaN,
/// bit for bit, and gives a NaN for a NaN.
pub proof fn lemma_widen_narrow(b: u32)
    ensures
        !is_nan32(b) ==> narrow_spec(widen_spec(b)) == b,
        is_nan32(b) ==> is_nan32(narrow_spec(widen_spec(b))),
{
    reveal(widen_spec);
    reveal(narrow_spec);
    let e = exponent32(b);
    let f = fraction32(b);
    let r = widen_spec(b);
    lemma2_to64();
    if e == 255 {
        if f != 0 {
            assert(exponent64(r) == 2047);
            assert(fraction64(r) == 0x8_0000_0000_0000 + (f % 0x40_0000) * 0x2000_0000);
        }
    } else if e != 0 {
        assert(exponent64(r) == e + 896);
        assert(fraction64(r) == f * 0x2000_0000);
        assert(0x10_0000_0000_0000 + f * 0x2000_0000 == (0x80_0000 + f) * pow2(29));
        lemma_round_shift_exact(0x80_0000 + f, 29);
    } else if f == 0 {
    } else {
        let k = top_bit(f);
        lemma_top_bit_bounds(f, 22);
        lemma_top_bit_range(f);
        let q = pow2((23 - k) as nat);
        let g = f * q;
        lemma_pow2_pos((23 - k) as nat);
        lemma_pow2_adds(k, (23 - k) as nat);
        lemma_pow2_adds(k + 1, (23 - k) as nat);
        assert(0x80_0000 <= g < 0x100_0000) by {
            assert(pow2(k) * q <= f * q) by (nonlinear_arith)
                requires
                    pow2(k) <= f,
                    q > 0,
            ;
            lemma_mul_strict_inequality(f as int, pow2(k + 1) as int, q as int);
        }
        assert(exponent64(r) == k + 874);
        assert(fraction64(r) == (g - 0x80_0000) * 0x2000_0000);
        lemma_pow2_adds((23 - k) as nat, 29);
        assert(0x10_0000_0000_0000 + (g - 0x80_0000) * 0x2000_0000 == f * (q * pow2(29)))
            by (nonlinear_arith)
            requires
                g == f * q,
                pow2(29) == 0x2000_0000,
        ;
        lemma_round_shift_exact(f, (52 - k) as nat);
    }
}

/// `round_shift(n, shift)` is a nearest natural number to `n / 2^shift`: twice
/// `n` lies between the two midpoints around it, and strictly between them
/// where the result is odd.
pub proof fn lemma_round_shift_nearest(n: nat, shift: nat)
    requires
        shift >= 1,
    ensures
        ({
            let c = round_shift(n, shift);
            let p = pow2(shift);
            &&& c == n / p || c == n / p + 1
            &&& (2 * c - 1) * p <= 2 * n <= (2 * c + 1) * p
            &&& c % 2 == 1 ==> (2 * c - 1) * p < 2 * n < (2 * c + 1) * p
        }),
{
    let p = pow2(shift);
    let q = n / p;
    let rem = n % p;
    let half = p / 2;
    lemma_pow2_pos(shift);
    lemma_pow2_pos((shift - 1) as nat);
    lemma_pow2_unfold(shift);
    lemma_fundamental_div_mod(n as int, p as int);
    assert(p == 2 * half);
    assert(n == p * q + rem);
    assert(0 <= rem < p);
    let c = round_shift(n, shift);
    if c == q {
        assert(2 * rem <= p);
        assert((2 * c - 1) * p < 2 * n && 2 * n <= (2 * c + 1) * p) by (nonlinear_arith)
            requires
                c == q,
                n == p * q + rem,
                0 <= rem,
                2 * rem <= p,
                p > 0,
        ;
        if c % 2 == 1 {
            assert(rem < half);
            assert(2 * n < (2 * c + 1) * p) by (nonlinear_arith)
                requires
                    c == q,
                    n == p * q + rem,
                    2 * rem < p,
            ;
        }
    } else {
        assert(c == q + 1);
        assert(2 * rem >= p);
        assert((2 * c - 1) * p <= 2 * n && 2 * n < (2 * c + 1) * p) by (nonlinear_arith)
            requires
                c == q + 1,
                n == p * q + rem,
                rem < p,
                2 * rem >= p,
                p > 0,
        ;
        if c % 2 == 1 {
            assert(rem > half);
            assert((2 * c - 1) * p < 2 * n) by (nonlinear_arith)
                requires
                    c == q + 1,
                    n == p * q + rem,
                    2 * rem > p,
            ;
        }
    }
}

/// `a` is the pattern, without its sign, of the single-precision number
/// nearest to the quantity `v`, which is counted in double-precision units.
///
/// Twice `v` lies between the midpoints to the neighbours below and above,
/// and strictly between them where the fraction of `a` is odd: a tie goes to
/// the even neighbour. Above the largest number the infinity takes part as
/// `2^128`, so a quantity rounds to it from the midpoint on.
pub open spec fn rounds_to(v: nat, a: u32) -> bool {
    let unit = pow2(925);
    let here = magnitude32(a);
    &&& a <= 0x7f80_0000
    &&& a > 0 ==> {
        let below = (magnitude32((a - 1) as u32) + here) * unit;
        if a % 2 == 0 {
            below <= 2 * v
        } else {
            below < 2 * v
        }
    }
    &&& a < 0x7f80_0000 ==> {
        let above = (here + magnitude32((a + 1) as u32)) * unit;
        if a % 2 == 0 {
            2 * v <= above
        } else {
            2 * v < above
        }
    }
}

/// Where the result is normal: the significand loses 29 bits.
proof fn lemma_rounds_normal(e: nat, f: nat)
    requires
        897 <= e <= 1150,
        f < 0x10_0000_0000_0000,
    ensures
        ({
            let c = round_shift(0x10_0000_0000_0000 + f, 29);
            &&& 0x80_0000 <= c <= 0x100_0000
            &&& rounds_to(
                (0x10_0000_0000_0000 + f) * pow2((e - 1) as nat),
                ((e - 897) * 0x80_0000 + c) as u32,
            )
        }),
{
    let sig = 0x10_0000_0000_0000 + f;
    let c = round_shift(sig, 29);
    let x = (e - 896) as nat;
    let s = pow2(29);
    let p = pow2((e - 1) as nat);
    let k = pow2((x - 1) as nat);
    let unit = pow2(925);
    let v = sig * p;
    lemma2_to64();
    lemma_pow2_pos((e - 1) as nat);
    lemma_pow2_pos((x - 1) as nat);
    lemma_pow2_pos(925);
    lemma_round_shift_nearest(sig, 29);
    lemma_fundamental_div_mod(sig as int, s as int);
    let q = sig / s;
    assert(0x80_0000 <= q < 0x100_0000);
    let a = ((x - 1) * 0x80_0000 + c) as u32;
    lemma_pow2_adds((x - 1) as nat, 925);
    lemma_pow2_adds(29, (e - 1) as nat);
    assert(k * unit == s * p);
    lemma_magnitude32_normal(x, c);
    assert(magnitude32(a) == c * k);
    assert(a % 2 == c % 2);
    assert(2 * v == (2 * sig) * p) by (nonlinear_arith)
        requires
            v == sig * p,
    ;
    if c > 0x80_0000 {
        lemma_magnitude32_normal(x, (c - 1) as nat);
        assert(magnitude32((a - 1) as u32) == (c - 1) * k);
        assert(((c - 1) * k + c * k) * unit == ((2 * c - 1) * s) * p) by (nonlinear_arith)
            requires
                k * unit == s * p,
        ;
        assert(((2 * c - 1) * s) * p <= (2 * sig) * p) by (nonlinear_arith)
            requires
                (2 * c - 1) * s <= 2 * sig,
                p > 0,
        ;
        if c % 2 == 1 {
            assert(((2 * c - 1) * s) * p < (2 * sig) * p) by (nonlinear_arith)
                requires
                    (2 * c - 1) * s < 2 * sig,
                    p > 0,
            ;
        }
    } else {
        assert(c == q);
        lemma_magnitude32_step((a - 1) as u32);
        let below = magnitude32((a - 1) as u32);
        assert((below + c * k) * unit <= (2 * sig) * p) by (nonlinear_arith)
            requires
                below <= c * k,
                k * unit == s * p,
                c * s <= sig,
                unit > 0,
                p > 0,
                k > 0,
                s > 0,
        ;
    }
    if a < 0x7f80_0000 {
        lemma_magnitude32_step(a);
        let step = ulp32(a);
        assert(step >= k) by {
            if c < 0x100_0000 {
                assert(exponent32(a) == x);
            } else {
                assert(exponent32(a) == x + 1);
                lemma_pow2_unfold(x);
            }
        }
        assert((c * k + (c * k + step)) * unit >= ((2 * c + 1) * s) * p) by (nonlinear_arith)
            requires
                step >= k,
                k * unit == s * p,
                unit > 0,
        ;
        assert((2 * sig) * p <= ((2 * c + 1) * s) * p) by (nonlinear_arith)
            requires
                2 * sig <= (2 * c + 1) * s,
                p > 0,
        ;
        if c % 2 == 1 {
            assert((2 * sig) * p < ((2 * c + 1) * s) * p) by (nonlinear_arith)
                requires
                    2 * sig < (2 * c + 1) * s,
                    p > 0,
            ;
        }
    }
}

/// Where the result is subnormal, or the first normal number by a carry:
/// the significand loses `926 - e` bits.
proof fn lemma_rounds_subnormal(e: nat, f: nat)
    requires
        1 <= e <= 896,
        f < 0x10_0000_0000_0000,
    ensures
        ({
            let c = round_shift(0x10_0000_0000_0000 + f, (926 - e) as nat);
            &&& c <= 0x80_0000
            &&& rounds_to((0x10_0000_0000_0000 + f) * pow2((e - 1) as nat), c as u32)
        }),
{
    let sig = 0x10_0000_0000_0000 + f;
    let shift = (926 - e) as nat;
    let c = round_shift(sig, shift);
    let s = pow2(shift);
    let p = pow2((e - 1) as nat);
    let unit = pow2(925);
    let v = sig * p;
    lemma2_to64();
    lemma2_to64_rest();
    lemma_pow2_pos((e - 1) as nat);
    lemma_pow2_pos(shift);
    lemma_round_shift_nearest(sig, shift);
    lemma_fundamental_div_mod(sig as int, s as int);
    let q = sig / s;
    if shift > 30 {
        lemma_pow2_strictly_increases(30, shift);
    }
    assert(q < 0x80_0000) by (nonlinear_arith)
        requires
            sig == s * q + sig % s,
            sig % s >= 0,
            sig < 0x20_0000_0000_0000,
            s >= 0x4000_0000,
    ;
    lemma_pow2_adds(shift, (e - 1) as nat);
    assert(unit == s * p);
    let a = c as u32;
    lemma_magnitude32_small(a);
    assert(2 * v == (2 * sig) * p) by (nonlinear_arith)
        requires
            v == sig * p,
    ;
    if a > 0 {
        lemma_magnitude32_small((a - 1) as u32);
        assert(((c - 1) + c) * unit == ((2 * c - 1) * s) * p) by (nonlinear_arith)
            requires
                unit == s * p,
        ;
        assert(((2 * c - 1) * s) * p <= (2 * sig) * p) by (nonlinear_arith)
            requires
                (2 * c - 1) * s <= 2 * sig,
                p > 0,
        ;
        if c % 2 == 1 {
            assert(((2 * c - 1) * s) * p < (2 * sig) * p) by (nonlinear_arith)
                requires
                    (2 * c - 1) * s < 2 * sig,
                    p > 0,
            ;
        }
    }
    lemma_magnitude32_small((a + 1) as u32);
    assert((c + (c + 1)) * unit == ((2 * c + 1) * s) * p) by (nonlinear_arith)
        requires
            unit == s * p,
    ;
    assert((2 * sig) * p <= ((2 * c + 1) * s) * p) by (nonlinear_arith)
        requires
            2 * sig <= (2 * c + 1) * s,
            p > 0,
    ;
    if c % 2 == 1 {
        assert((2 * sig) * p < ((2 * c + 1) * s) * p) by (nonlinear_arith)
            requires
                2 * sig < (2 * c + 1) * s,
                p > 0,
        ;
    }
}

/// A subnormal double is below half of the smallest single: it rounds to zero.
proof fn lemma_rounds_tiny(f: nat)
    requires
        f < 0x10_0000_0000_0000,
    ensures
        rounds_to(f, 0),
{
    lemma2_to64();
    lemma2_to64_rest();
    lemma_pow2_strictly_increases(53, 925);
    lemma_magnitude32_small(0);
    lemma_magnitude32_small(1);
    assert((0 + 1) * pow2(925) == pow2(925)) by (nonlinear_arith);
}

/// From `2^128` on, a number rounds to the infinity.
proof fn lemma_rounds_overflow(e: nat, f: nat)
    requires
        1151 <= e <= 2046,
        f < 0x10_0000_0000_0000,
    ensures
        rounds_to((0x10_0000_0000_0000 + f) * pow2((e - 1) as nat), 0x7f80_0000),
{
    let sig = 0x10_0000_0000_0000 + f;
    let p = pow2((e - 1) as nat);
    let unit = pow2(925);
    let k = pow2(253);
    let top = pow2(1150);
    lemma2_to64();
    lemma2_to64_rest();
    lemma_pow2_pos(253);
    lemma_pow2_pos(1150);
    lemma_magnitude32_normal(254, 0x100_0000);
    lemma_magnitude32_normal(254, 0xff_ffff);
    assert(magnitude32(0x7f80_0000) == 0x100_0000 * k);
    assert(magnitude32(0x7f7f_ffff) == 0xff_ffff * k);
    lemma_pow2_adds(253, 925);
    lemma_pow2_adds(28, 1150);
    assert(k * unit == 0x1000_0000 * top);
    if e > 1151 {
        lemma_pow2_strictly_increases(1150, (e - 1) as nat);
    }
    assert(p >= top);
    assert((0xff_ffff * k + 0x100_0000 * k) * unit < 2 * (sig * p)) by (nonlinear_arith)
        requires
            k * unit == 0x1000_0000 * top,
            p >= top,
            top > 0,
            sig >= 0x10_0000_0000_0000,
    ;
}

/// Narrowing gives the nearest single-precision number, a tie going to the
/// even neighbour and everything from `2^128` on to the infinity. It keeps
/// the sign, and an infinity or a NaN stays what it is.
pub proof fn lemma_narrow_nearest(b: u64)
    ensures
        negative32(narrow_spec(b)) == negative64(b),
        is_nan32(narrow_spec(b)) == is_nan64(b),
        is_infinite64(b) ==> is_infinite32(narrow_spec(b)),
        is_finite64(b) ==> rounds_to(magnitude64(b), abs32(narrow_spec(b))),
{
    reveal(narrow_spec);
    let e = exponent64(b);
    let f = fraction64(b);
    lemma2_to64();
    if e == 2047 {
    } else if e >= 1151 {
        lemma_rounds_overflow(e, f);
    } else if e == 0 {
        lemma_rounds_tiny(f);
    } else if e > 896 {
        lemma_rounds_normal(e, f);
    } else {
        lemma_rounds_subnormal(e, f);
    }
}

/// At most one pattern is nearest to a quantity: `rounds_to` names the result
/// of rounding, not one of several.
pub proof fn lemma_rounds_to_unique(v: nat, a: u32, b: u32)
    requires
        rounds_to(v, a),
        rounds_to(v, b),
    ensures
        a == b,
{
    if a < b {
        lemma_between_neighbours(v, a, b);
    } else if b < a {
        lemma_between_neighbours(v, b, a);
    }
}

/// A quantity that rounds to a pattern rounds to none above it.
proof fn lemma_between_neighbours(v: nat, a: u32, b: u32)
    requires
        a < b,
        rounds_to(v, a),
    ensures
        !rounds_to(v, b),
{
    if b <= 0x7f80_0000 {
        let unit = pow2(925);
        let next = (a + 1) as u32;
        let prev = (b - 1) as u32;
        lemma_pow2_pos(925);
        lemma_magnitude32_step(a);
        if next < b {
            lemma_magnitude32_increases(a, prev);
            lemma_magnitude32_increases(next, b);
        }
        let above = magnitude32(a) + magnitude32(next);
        let below = magnitude32(prev) + magnitude32(b);
        assert(above * unit <= below * unit) by (nonlinear_arith)
            requires
                above <= below,
                unit > 0,
        ;
        if next < b {
            assert(above * unit < below * unit) by (nonlinear_arith)
                requires
                    above < below,
                    unit > 0,
            ;
        }
    }
}

/// Widening keeps comparisons: two patterns encode equal numbers exactly if
/// their widened patterns do.
pub proof fn lemma_widen_same(a: u32, b: u32)
    ensures
        same64(widen_spec(a), widen_spec(b)) == same32(a, b),
{
    let x = widen_spec(a);
    let y = widen_spec(b);
    lemma_widen_exact(a);
    lemma_widen_exact(b);
    if !is_nan32(a) && !is_nan32(b) {
        lemma_same32_numbers(a, b);
        lemma_same64_numbers(x, y);
        lemma_pow2_pos(925);
        let unit = pow2(925);
        let m = magnitude32(a);
        let n = magnitude32(b);
        if is_finite32(a) && is_finite32(b) {
            assert(m * unit == n * unit <==> m == n) by (nonlinear_arith)
                requires
                    unit > 0,
            ;
            assert(m * unit == 0 <==> m == 0) by (nonlinear_arith)
                requires
                    unit > 0,
            ;
        } else if is_finite32(a) {
            lemma_magnitude32_increases(abs32(a), abs32(b));
            lemma_magnitude64_increases(abs64(x), abs64(y));
            assert(magnitude32(a) == magnitude32(abs32(a)));
            assert(magnitude32(b) == magnitude32(abs32(b)));
            assert(magnitude64(x) == magnitude64(abs64(x)));
            assert(magnitude64(y) == magnitude64(abs64(y)));
        } else if is_finite32(b) {
            lemma_magnitude32_increases(abs32(b), abs32(a));
            lemma_magnitude64_increases(abs64(y), abs64(x));
            assert(magnitude32(a) == magnitude32(abs32(a)));
            assert(magnitude32(b) == magnitude32(abs32(b)));
            assert(magnitude64(x) == magnitude64(abs64(x)));
            assert(magnitude64(y) == magnitude64(abs64(y)));
        } else {
            assert(magnitude32(a) == magnitude32(abs32(a)));
            assert(magnitude32(b) == magnitude32(abs32(b)));
            assert(magnitude64(x) == magnitude64(abs64(x)));
            assert(magnitude64(y) == magnitude64(abs64(y)));
            lemma_magnitude32_increases(0, 0x7f80_0000);
            lemma_magnitude64_increases(0, 0x7ff0_0000_0000_0000);
        }
    }
}

} // verus!
