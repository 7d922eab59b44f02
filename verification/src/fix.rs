//! Saturating fixed-point scalar arithmetic with 16 fractional bits.
//!
//! Every scalar in the simulation (positions, velocities, tuning parameters,
//! compressed distances) is an `i64` holding `value * 65536`. All operations
//! saturate at `LIMIT` instead of overflowing, so they are total functions,
//! and each executable operation is pinned to an exact mathematical
//! specification.

use vstd::prelude::*;

verus! {

/// The fixed-point representation of 1.0.
pub const ONE: i64 = 65536;

/// Magnitude bound for every fixed-point result (2^60): operations clamp
/// here rather than overflow.
pub const LIMIT: i64 = 1152921504606846976;

/// The fixed-point representation of 0.5.
pub const HALF: i64 = 32768;

/// Clamp a mathematical integer into `[-LIMIT, LIMIT]`.
pub open spec fn clampf(x: int) -> int {
    if x > LIMIT {
        LIMIT as int
    } else if x < -LIMIT {
        -LIMIT
    } else {
        x
    }
}

/// Truncating division (rounding toward zero), defined for positive divisors.
pub open spec fn tdiv(a: int, b: int) -> int {
    if a >= 0 {
        a / b
    } else {
        -((-a) / b)
    }
}

/// Saturating fixed-point addition.
pub open spec fn spec_fadd(a: int, b: int) -> int {
    clampf(a + b)
}

/// Saturating fixed-point subtraction.
pub open spec fn spec_fsub(a: int, b: int) -> int {
    clampf(a - b)
}

/// Saturating fixed-point multiplication: `a * b / ONE`, truncated.
pub open spec fn spec_fmul(a: int, b: int) -> int {
    clampf(tdiv(a * b, ONE as int))
}

/// Saturating fixed-point division by a positive scalar: `a * ONE / b`,
/// truncated.
pub open spec fn spec_fdiv(a: int, b: int) -> int {
    clampf(tdiv(a * ONE, b))
}

/// `r` is the integer square root of `n`.
pub open spec fn is_sqrt(n: int, r: int) -> bool {
    0 <= r && r * r <= n && n < (r + 1) * (r + 1)
}

/// The integer square root as a function, well defined for `n >= 0` by
/// `lemma_is_sqrt_unique`.
pub open spec fn sqrt_floor(n: int) -> int {
    choose|r: int| is_sqrt(n, r)
}

/// Clamp a wide intermediate into the fixed-point range.
pub(crate) fn clamp_i128(s: i128) -> (r: i64)
    ensures
        r == clampf(s as int),
{
    if s > LIMIT as i128 {
        LIMIT
    } else if s < -(LIMIT as i128) {
        -LIMIT
    } else {
        s as i64
    }
}

/// Saturating fixed-point addition.
pub fn fadd(a: i64, b: i64) -> (r: i64)
    ensures
        r == spec_fadd(a as int, b as int),
{
    clamp_i128(a as i128 + b as i128)
}

/// Saturating fixed-point subtraction.
pub fn fsub(a: i64, b: i64) -> (r: i64)
    ensures
        r == spec_fsub(a as int, b as int),
{
    clamp_i128(a as i128 - b as i128)
}

/// Truncating division of a wide intermediate by a positive divisor.
pub(crate) fn divt_i128(p: i128, d: i128) -> (r: i128)
    requires
        1 <= d,
        i128::MIN < p,
    ensures
        r == tdiv(p as int, d as int),
{
    if p >= 0 {
        let q: u128 = (p as u128) / (d as u128);
        q as i128
    } else {
        let m: u128 = (-p) as u128;
        let q: u128 = m / (d as u128);
        -(q as i128)
    }
}

/// Products of two `i64` values stay well inside the `i128` range.
pub(crate) proof fn lemma_wide_product(a: int, b: int)
    requires
        -0x8000000000000000 <= a <= 0x7fffffffffffffff,
        -0x8000000000000000 <= b <= 0x7fffffffffffffff,
    ensures
        -0x40000000000000000000000000000000 <= a * b
            <= 0x40000000000000000000000000000000,
{
    assert(-0x40000000000000000000000000000000 <= a * b
        <= 0x40000000000000000000000000000000) by (nonlinear_arith)
        requires
            -0x8000000000000000 <= a <= 0x7fffffffffffffff,
            -0x8000000000000000 <= b <= 0x7fffffffffffffff,
    ;
}

/// Saturating fixed-point multiplication.
pub fn fmul(a: i64, b: i64) -> (r: i64)
    ensures
        r == spec_fmul(a as int, b as int),
{
    proof {
        lemma_wide_product(a as int, b as int);
    }
    let p: i128 = (a as i128) * (b as i128);
    let q: i128 = divt_i128(p, 65536);
    clamp_i128(q)
}

/// Saturating fixed-point division by a positive divisor.
pub fn fdiv(a: i64, b: i64) -> (r: i64)
    requires
        1 <= b,
    ensures
        r == spec_fdiv(a as int, b as int),
{
    proof {
        lemma_wide_product(a as int, ONE as int);
    }
    let p: i128 = (a as i128) * 65536;
    let q: i128 = divt_i128(p, b as i128);
    clamp_i128(q)
}

/// Integer square root of a wide unsigned value.
pub fn isqrt(n: u128) -> (r: u64)
    ensures
        is_sqrt(n as int, r as int),
        r == sqrt_floor(n as int),
{
    let mut lo: u128 = 0;
    let mut hi: u128 = 1u128 << 64;
    assert((1u128 << 64) == 0x10000000000000000u128) by (bit_vector);
    while hi - lo > 1
        invariant
            lo < hi,
            hi <= 0x10000000000000000u128,
            (lo * lo) as int <= n as int,
            (n as int) < (hi as int) * (hi as int),
        decreases hi - lo,
    {
        let mid: u128 = lo + (hi - lo) / 2;
        assert(mid * mid < 0x100000000000000000000000000000000) by (nonlinear_arith)
            requires
                mid < 0x10000000000000000u128,
        ;
        if mid * mid <= n {
            lo = mid;
        } else {
            hi = mid;
        }
    }
    proof {
        assert(is_sqrt(n as int, lo as int));
        lemma_is_sqrt_unique(n as int, lo as int, sqrt_floor(n as int));
    }
    lo as u64
}

/// The integer square root is unique, so `sqrt_floor` is well defined.
pub proof fn lemma_is_sqrt_unique(n: int, r1: int, r2: int)
    requires
        is_sqrt(n, r1),
        is_sqrt(n, r2),
    ensures
        r1 == r2,
{
    if r1 < r2 {
        assert((r1 + 1) * (r1 + 1) <= r2 * r2) by (nonlinear_arith)
            requires
                0 <= r1 + 1 <= r2,
        ;
    }
    if r2 < r1 {
        assert((r2 + 1) * (r2 + 1) <= r1 * r1) by (nonlinear_arith)
            requires
                0 <= r2 + 1 <= r1,
        ;
    }
}

/// A product of nonnegative factors gives a nonnegative fixed-point result.
pub proof fn lemma_fmul_nonneg(a: int, b: int)
    requires
        0 <= a,
        0 <= b,
    ensures
        0 <= spec_fmul(a, b) <= LIMIT,
{
    assert(0 <= a * b) by (nonlinear_arith)
        requires
            0 <= a,
            0 <= b,
    ;
    lemma_tdiv_bounds(a * b, ONE as int);
}

/// Truncating division is monotone in the dividend for nonnegative
/// dividends and a fixed positive divisor.
pub proof fn lemma_tdiv_monotone(a: int, b: int, d: int)
    requires
        0 <= a <= b,
        1 <= d,
    ensures
        tdiv(a, d) <= tdiv(b, d),
{
    vstd::arithmetic::div_mod::lemma_div_is_ordered(a, b, d);
}

/// Bounds of truncating division for nonnegative dividends.
pub proof fn lemma_tdiv_bounds(a: int, d: int)
    requires
        0 <= a,
        1 <= d,
    ensures
        0 <= tdiv(a, d) <= a,
{
    vstd::arithmetic::div_mod::lemma_div_pos_is_pos(a, d);
    vstd::arithmetic::div_mod::lemma_div_nonincreasing(a, d);
}

} // verus!
