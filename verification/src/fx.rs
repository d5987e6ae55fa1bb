//! Fixed-point arithmetic used throughout the pipeline.
//!
//! A fixed-point number is an `i64` holding `value * FX_ONE`, with
//! `FX_ONE = 2^16`. Multiplication and division of two fixed-point
//! numbers therefore rescale by `FX_ONE`, truncating toward zero the
//! way hardware float-to-int conversion would.

use vstd::prelude::*;

verus! {

/// The fixed-point scale: the representation of 1.0.
pub const FX_ONE: i64 = 65536;

/// Truncating (round-toward-zero) division, the semantics of machine
/// signed division, defined for a positive divisor.
pub open spec fn tdiv(a: int, b: int) -> int {
    if a >= 0 {
        a / b
    } else {
        -((-a) / b)
    }
}

/// Truncating division for any non-zero divisor: the sign of the result
/// is the sign of `a * b`, the magnitude is `|a| / |b|`.
pub open spec fn sdiv(a: int, b: int) -> int {
    if b >= 0 {
        tdiv(a, b)
    } else {
        tdiv(-a, -b)
    }
}

/// The product of two fixed-point numbers, rescaled back to fixed point.
pub open spec fn fx_mul_spec(a: int, b: int) -> int {
    tdiv(a * b, FX_ONE as int)
}

/// The quotient of two fixed-point numbers, rescaled to fixed point.
pub open spec fn fx_div_spec(a: int, b: int) -> int {
    sdiv(a * FX_ONE, b)
}

/// Truncating division on `i128`, for a positive divisor.
pub fn tdiv128(a: i128, b: i128) -> (r: i128)
    requires
        b > 0,
        a > i128::MIN,
    ensures
        r == tdiv(a as int, b as int),
{
    if a >= 0 {
        ((a as u128) / (b as u128)) as i128
    } else {
        proof {
            vstd::arithmetic::div_mod::lemma_div_nonincreasing(-(a as int), b as int);
        }
        let q: u128 = ((-a) as u128) / (b as u128);
        -(q as i128)
    }
}

/// Truncating division on `i128` for any non-zero divisor.
pub fn sdiv128(a: i128, b: i128) -> (r: i128)
    requires
        b != 0,
        a > i128::MIN,
        b > i128::MIN,
    ensures
        r == sdiv(a as int, b as int),
{
    if b > 0 {
        tdiv128(a, b)
    } else {
        tdiv128(-a, -b)
    }
}

/// Truncating division never grows the magnitude of a bounded dividend:
/// if `|x| <= m * b` then `|tdiv(x, b)| <= m`.
pub proof fn lemma_tdiv_bound(x: int, b: int, m: int)
    requires
        b > 0,
        0 <= m,
        -(m * b) <= x <= m * b,
    ensures
        -m <= tdiv(x, b) <= m,
{
    if x >= 0 {
        vstd::arithmetic::div_mod::lemma_div_is_ordered(x, m * b, b);
        vstd::arithmetic::div_mod::lemma_div_multiples_vanish(m, b);
        vstd::arithmetic::div_mod::lemma_div_pos_is_pos(x, b);
        assert(b * m == m * b) by (nonlinear_arith);
    } else {
        vstd::arithmetic::div_mod::lemma_div_is_ordered(-x, m * b, b);
        vstd::arithmetic::div_mod::lemma_div_multiples_vanish(m, b);
        vstd::arithmetic::div_mod::lemma_div_pos_is_pos(-x, b);
        assert(b * m == m * b) by (nonlinear_arith);
    }
}

/// Truncating division is monotone in the dividend.
pub proof fn lemma_tdiv_is_ordered(a: int, b: int, d: int)
    requires
        a <= b,
        d > 0,
    ensures
        tdiv(a, d) <= tdiv(b, d),
{
    if a >= 0 {
        vstd::arithmetic::div_mod::lemma_div_is_ordered(a, b, d);
    } else if b >= 0 {
        vstd::arithmetic::div_mod::lemma_div_pos_is_pos(-a, d);
        vstd::arithmetic::div_mod::lemma_div_pos_is_pos(b, d);
    } else {
        vstd::arithmetic::div_mod::lemma_div_is_ordered(-b, -a, d);
    }
}

/// Dividing an exact multiple of the divisor recovers the factor.
pub proof fn lemma_tdiv_multiple(k: int, d: int)
    requires
        d > 0,
    ensures
        tdiv(d * k, d) == k,
{
    if k >= 0 {
        vstd::arithmetic::div_mod::lemma_div_multiples_vanish(k, d);
    } else {
        vstd::arithmetic::div_mod::lemma_div_multiples_vanish(-k, d);
        assert(-(d * k) == d * -k) by (nonlinear_arith);
    }
}

/// The product of two fixed-point numbers, truncated toward zero back to
/// the fixed-point scale.
pub fn fx_mul(a: i64, b: i64) -> (r: i64)
    requires
        -(i64::MAX as int) * (FX_ONE as int) <= a * b <= (i64::MAX as int) * (FX_ONE as int),
    ensures
        r == fx_mul_spec(a as int, b as int),
{
    proof {
        lemma_tdiv_bound(a as int * b as int, FX_ONE as int, i64::MAX as int);
    }
    let p: i128 = (a as i128) * (b as i128);
    tdiv128(p, FX_ONE as i128) as i64
}

/// The quotient of two fixed-point numbers, truncated toward zero, at the
/// fixed-point scale.
pub fn fx_div(a: i64, b: i64) -> (r: i64)
    requires
        b != 0,
        -(i64::MAX as int) * ((if b >= 0 { b as int } else { -(b as int) })) <= a * FX_ONE <= (
        i64::MAX as int) * ((if b >= 0 { b as int } else { -(b as int) })),
    ensures
        r == fx_div_spec(a as int, b as int),
{
    let p: i128 = (a as i128) * (FX_ONE as i128);
    proof {
        if b >= 0 {
            lemma_tdiv_bound(a as int * FX_ONE as int, b as int, i64::MAX as int);
        } else {
            lemma_tdiv_bound(-(a as int * FX_ONE as int), -(b as int), i64::MAX as int);
        }
    }
    sdiv128(p, b as i128) as i64
}

/// Truncating division by a non-zero divisor never grows the
/// magnitude of the dividend.
pub proof fn lemma_sdiv_le(a: int, d: int)
    requires
        d != 0,
    ensures
        sdiv(a, d) <= (if a >= 0 { a } else { -a }),
        -(if a >= 0 { a } else { -a }) <= sdiv(a, d),
{
    let abs_a = if a >= 0 { a } else { -a };
    let abs_d = if d >= 0 { d } else { -d };
    vstd::arithmetic::div_mod::lemma_div_nonincreasing(abs_a, abs_d);
    vstd::arithmetic::div_mod::lemma_div_pos_is_pos(abs_a, abs_d);
}

/// Multiplying a non-negative value by a divisor of at least one never
/// shrinks it.
pub proof fn lemma_ge_one_mul(m: int, d: int)
    by (nonlinear_arith)
    requires
        0 <= m,
        1 <= d,
    ensures
        m <= m * d,
{
}

/// A quotient of positive values with dividend at least the divisor is
/// at least one.
pub proof fn lemma_tdiv_ge_one(a: int, b: int)
    requires
        0 < b <= a,
    ensures
        tdiv(a, b) >= 1,
{
    vstd::arithmetic::div_mod::lemma_div_is_ordered(b, a, b);
    vstd::arithmetic::div_mod::lemma_div_by_self(b);
}

/// The floor of the square root of a non-negative integer, as the unique
/// `r >= 0` with `r * r <= n < (r + 1) * (r + 1)`.
pub open spec fn sqrt_floor(n: int) -> int {
    choose|r: int| 0 <= r && #[trigger] (r * r) <= n && n < (r + 1) * (r + 1)
}

/// Any witness of the square-root-floor property is `sqrt_floor(n)`.
pub proof fn lemma_sqrt_floor_is(n: int, r: int)
    requires
        0 <= r,
        r * r <= n,
        n < (r + 1) * (r + 1),
    ensures
        sqrt_floor(n) == r,
{
    assert(exists|q: int| 0 <= q && #[trigger] (q * q) <= n && n < (q + 1) * (q + 1)) by {
        assert(0 <= r && r * r <= n && n < (r + 1) * (r + 1));
    }
    let q = sqrt_floor(n);
    assert(0 <= q && q * q <= n && n < (q + 1) * (q + 1));
    assert(q == r) by (nonlinear_arith)
        requires
            0 <= r,
            r * r <= n,
            n < (r + 1) * (r + 1),
            0 <= q,
            q * q <= n,
            n < (q + 1) * (q + 1),
    ;
}

/// Floor of the square root of a 64-bit value, by bisection.
pub fn isqrt64(v: u64) -> (r: u64)
    ensures
        (r as int) * (r as int) <= v as int,
        (v as int) < (r as int + 1) * (r as int + 1),
        r <= 0xffff_ffff,
        r == sqrt_floor(v as int),
{
    let mut lo: u64 = 0;
    let mut hi: u64 = 0x1_0000_0000;
    while lo + 1 < hi
        invariant
            lo < hi <= 0x1_0000_0000,
            (lo as int) * (lo as int) <= v as int,
            (v as int) < (hi as int) * (hi as int),
        decreases hi - lo,
    {
        let mid: u64 = lo + (hi - lo) / 2;
        proof {
            assert(mid < hi);
            assert((mid as int) * (mid as int) <= 0xffff_ffff * 0xffff_ffff)
                by (nonlinear_arith)
                requires
                    0 <= mid <= 0xffff_ffff,
            ;
        }
        if mid * mid <= v {
            lo = mid;
        } else {
            hi = mid;
        }
    }
    proof {
        lemma_sqrt_floor_is(v as int, lo as int);
    }
    lo
}

} // verus!
