//! The fixed population of attracting bodies and the gravity field they
//! generate.

use vstd::prelude::*;

use crate::fix::fadd;
use crate::fix::fdiv;
use crate::fix::fmul;
use crate::fix::HALF;
use crate::fix::lemma_tdiv_bounds;
use crate::fix::spec_fadd;
use crate::fix::spec_fdiv;
use crate::fix::spec_fmul;
use crate::fix::tdiv;
use crate::fix::LIMIT;
use crate::fix::ONE;
use crate::vec2::spec_vadd;
use crate::vec2::spec_vsub;
use crate::vec2::v2_zero;
use crate::vec2::vadd;
use crate::vec2::vnorm;
use crate::vec2::vsub;
use crate::vec2::V2;

verus! {

/// An immovable attracting body: a world position and a mass/size scale.
#[derive(Clone, Copy, Debug, PartialEq, Eq, Structural)]
pub struct Body {
    pub pos: V2,
    pub scale: i64,
}

/// Softening constant added to every distance, so the field stays finite as
/// the distance goes to zero (two fixed-point units).
pub const SOFTEN: i64 = 131072;

/// The softened distance from `pt` to the body: always at least `SOFTEN`.
pub open spec fn spec_soft_len(b: Body, pt: V2) -> int {
    spec_fadd(crate::vec2::spec_norm(spec_vsub(b.pos, pt)), SOFTEN as int)
}

/// The acceleration one body contributes at `pt`: the unit direction toward
/// the body, scaled by the inverse square of the softened distance and by
/// twice the body's scale.
pub open spec fn spec_contrib(b: Body, pt: V2) -> V2 {
    let imp = spec_vsub(b.pos, pt);
    let len = spec_soft_len(b, pt);
    let len2 = spec_fmul(len, len);
    let inv2 = spec_fdiv(ONE as int, len2);
    let s2 = spec_fadd(b.scale as int, b.scale as int);
    V2 {
        x: spec_fmul(spec_fmul(spec_fdiv(imp.x as int, len), inv2), s2) as i64,
        y: spec_fmul(spec_fmul(spec_fdiv(imp.y as int, len), inv2), s2) as i64,
    }
}

/// Left fold of the first `n` bodies' contributions at `pt`.
pub open spec fn spec_grav_upto(bodies: Seq<Body>, pt: V2, n: int) -> V2
    decreases n,
{
    if n <= 0 {
        v2_zero()
    } else {
        spec_vadd(spec_grav_upto(bodies, pt, n - 1), spec_contrib(bodies[n - 1], pt))
    }
}

/// The net gravitational acceleration at `pt`: the damped sum over all
/// bodies.
pub open spec fn spec_grav(bodies: Seq<Body>, pt: V2) -> V2 {
    let sum = spec_grav_upto(bodies, pt, bodies.len() as int);
    V2 {
        x: spec_fmul(sum.x as int, HALF as int) as i64,
        y: spec_fmul(sum.y as int, HALF as int) as i64,
    }
}

/// A softened length is a positive fixed-point divisor, and so is its
/// square.
proof fn lemma_soft_len_pos(len: int)
    requires
        SOFTEN <= len <= LIMIT,
    ensures
        1 <= spec_fmul(len, len) <= LIMIT,
{
    assert(SOFTEN * SOFTEN <= len * len <= LIMIT * LIMIT) by (nonlinear_arith)
        requires
            SOFTEN <= len <= LIMIT,
    ;
    lemma_tdiv_bounds(len * len, ONE as int);
    vstd::arithmetic::div_mod::lemma_div_is_ordered(
        (SOFTEN * SOFTEN) as int,
        len * len,
        ONE as int,
    );
    assert(SOFTEN * SOFTEN == 17179869184) by (nonlinear_arith);
    assert(tdiv(17179869184, ONE as int) == 262144) by {
        vstd::arithmetic::div_mod::lemma_fundamental_div_mod_converse(
            17179869184,
            65536,
            262144,
            0,
        );
    };
}

/// An empty field exerts no force anywhere.
pub proof fn lemma_grav_empty(bodies: Seq<Body>, pt: V2)
    requires
        bodies.len() == 0,
    ensures
        spec_grav(bodies, pt) == v2_zero(),
{
    let sum = spec_grav_upto(bodies, pt, bodies.len() as int);
    assert(sum == v2_zero());
    vstd::arithmetic::mul::lemma_mul_by_zero_is_zero(HALF as int);
    vstd::arithmetic::div_mod::lemma_div_of0(ONE as int);
}

/// Net acceleration at a point from the whole body set.
pub fn grav_accel(bodies: &Vec<Body>, pt: V2) -> (r: V2)
    ensures
        r == spec_grav(bodies@, pt),
{
    let mut acc = V2 { x: 0, y: 0 };
    let n = bodies.len();
    for i in 0..n
        invariant
            n == bodies@.len(),
            acc == spec_grav_upto(bodies@, pt, i as int),
    {
        let b = bodies[i];
        let imp = vsub(b.pos, pt);
        let norm = vnorm(imp);
        let len = fadd(norm, SOFTEN);
        proof {
            lemma_soft_len_pos(len as int);
        }
        let len2 = fmul(len, len);
        let inv2 = fdiv(ONE, len2);
        let s2 = fadd(b.scale, b.scale);
        let cx = fmul(fmul(fdiv(imp.x, len), inv2), s2);
        let cy = fmul(fmul(fdiv(imp.y, len), inv2), s2);
        acc = vadd(acc, V2 { x: cx, y: cy });
        assert(acc == spec_grav_upto(bodies@, pt, i + 1));
    }
    V2 { x: fmul(acc.x, HALF), y: fmul(acc.y, HALF) }
}

} // verus!
