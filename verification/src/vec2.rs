//! Two-dimensional fixed-point vectors: componentwise arithmetic, magnitude,
//! and squared-distance comparison.

use vstd::prelude::*;

use crate::fix::clampf;
use crate::fix::fadd;
use crate::fix::fsub;
use crate::fix::is_sqrt;
use crate::fix::isqrt;
use crate::fix::lemma_is_sqrt_unique;
use crate::fix::lemma_wide_product;
use crate::fix::spec_fadd;
use crate::fix::spec_fsub;
use crate::fix::sqrt_floor;
use crate::fix::LIMIT;

verus! {

/// A pair of fixed-point scalars.
#[derive(Clone, Copy, Debug, PartialEq, Eq, Structural)]
pub struct V2 {
    pub x: i64,
    pub y: i64,
}

/// The zero vector.
pub open spec fn v2_zero() -> V2 {
    V2 { x: 0, y: 0 }
}

/// Componentwise saturating addition.
pub open spec fn spec_vadd(a: V2, b: V2) -> V2 {
    V2 { x: spec_fadd(a.x as int, b.x as int) as i64, y: spec_fadd(a.y as int, b.y as int) as i64 }
}

/// Componentwise saturating subtraction.
pub open spec fn spec_vsub(a: V2, b: V2) -> V2 {
    V2 { x: spec_fsub(a.x as int, b.x as int) as i64, y: spec_fsub(a.y as int, b.y as int) as i64 }
}

/// The magnitude of `v`, clamped into the fixed-point range.
pub open spec fn spec_norm(v: V2) -> int {
    clampf(sqrt_floor(v.x * v.x + v.y * v.y))
}

/// The exact squared distance between two points (unclamped mathematical
/// value).
pub open spec fn spec_dist2(a: V2, b: V2) -> int {
    (a.x - b.x) * (a.x - b.x) + (a.y - b.y) * (a.y - b.y)
}

pub fn vadd(a: V2, b: V2) -> (r: V2)
    ensures
        r == spec_vadd(a, b),
{
    V2 { x: fadd(a.x, b.x), y: fadd(a.y, b.y) }
}

pub fn vsub(a: V2, b: V2) -> (r: V2)
    ensures
        r == spec_vsub(a, b),
{
    V2 { x: fsub(a.x, b.x), y: fsub(a.y, b.y) }
}

/// Squares are nonnegative.
pub(crate) proof fn lemma_square_nonneg(a: int)
    ensures
        0 <= a * a,
{
    assert(0 <= a * a) by (nonlinear_arith);
}

/// The magnitude of a vector.
pub fn vnorm(v: V2) -> (r: i64)
    ensures
        r == spec_norm(v),
        0 <= r <= LIMIT,
{
    proof {
        lemma_wide_product(v.x as int, v.x as int);
        lemma_wide_product(v.y as int, v.y as int);
        lemma_square_nonneg(v.x as int);
        lemma_square_nonneg(v.y as int);
    }
    let xx: i128 = (v.x as i128) * (v.x as i128);
    let yy: i128 = (v.y as i128) * (v.y as i128);
    let sum: u128 = (xx as u128) + (yy as u128);
    let root: u64 = isqrt(sum);
    proof {
        assert(is_sqrt(sum as int, root as int));
        lemma_is_sqrt_unique(sum as int, root as int, sqrt_floor(sum as int));
    }
    if root > LIMIT as u64 {
        LIMIT
    } else {
        root as i64
    }
}

/// Whether two points are at squared distance at least `min_sep * min_sep`.
pub fn far_from(a: V2, b: V2, min_sep: i64) -> (r: bool)
    requires
        0 <= min_sep,
    ensures
        r == (spec_dist2(a, b) >= min_sep * min_sep),
{
    let dx: i128 = (a.x as i128) - (b.x as i128);
    let dy: i128 = (a.y as i128) - (b.y as i128);
    let adx: u128 = if dx < 0 {
        (-dx) as u128
    } else {
        dx as u128
    };
    let ady: u128 = if dy < 0 {
        (-dy) as u128
    } else {
        dy as u128
    };
    proof {
        lemma_abs_square(dx as int, adx as int);
        lemma_abs_square(dy as int, ady as int);
        lemma_wide_product(min_sep as int, min_sep as int);
        assert(adx * adx <= 0xffffffffffffffff * 0xffffffffffffffff) by (nonlinear_arith)
            requires
                adx <= 0xffffffffffffffffu128,
        ;
        assert(ady * ady <= 0xffffffffffffffff * 0xffffffffffffffff) by (nonlinear_arith)
            requires
                ady <= 0xffffffffffffffffu128,
        ;
    }
    let s1: u128 = adx * adx;
    let s2: u128 = ady * ady;
    let m: u128 = (min_sep as u128) * (min_sep as u128);
    if s1 >= m {
        true
    } else {
        s2 >= m - s1
    }
}

/// The square of a value equals the square of its absolute value.
proof fn lemma_abs_square(d: int, a: int)
    requires
        a == if d < 0 {
            -d
        } else {
            d
        },
    ensures
        a * a == d * d,
{
    assert(a * a == d * d) by (nonlinear_arith)
        requires
            a == if d < 0 {
                -d
            } else {
                d
            },
    ;
}

} // verus!
