//! Random placement of the body population: raw draws come from a seeded
//! generator, the shaping into world coordinates is exact fixed-point
//! arithmetic, and a rejection loop keeps every pair of bodies at least
//! `MIN_SEP` apart.

use vstd::prelude::*;

use rand::RngCore;

use crate::body::Body;
use crate::fix::fmul;
use crate::fix::lemma_fmul_nonneg;
use crate::fix::spec_fmul;
use crate::fix::ONE;
use crate::vec2::far_from;
use crate::vec2::spec_dist2;
use crate::vec2::V2;

verus! {

/// Minimum separation between two bodies (40 in fixed point).
pub const MIN_SEP: i64 = 2621440;

/// World radius of the body population (900 in fixed point).
pub const WORLD_RADIUS: i64 = 58982400;

/// Candidates drawn for one body before it is skipped.
pub const PLACE_TRIES: usize = 64;

#[verifier::external_type_specification]
#[verifier::external_body]
pub struct ExStdRng(rand::rngs::StdRng);

/// Relies on rand's `SeedableRng::seed_from_u64` for `StdRng`: builds the
/// generator from the seed. Nothing is assumed of the stream it produces.
#[verifier::external_body]
fn rng_from_seed(seed: u64) -> rand::rngs::StdRng {
    <rand::rngs::StdRng as rand::SeedableRng>::seed_from_u64(seed)
}

/// Relies on rand's `RngCore::next_u32` for `StdRng`: one 32-bit draw;
/// nothing is promised of the value.
#[verifier::external_body]
fn rng_next_u32(rng: &mut rand::rngs::StdRng) -> (r: u32) {
    rng.next_u32()
}

/// A raw draw shaped into a coordinate: the upper half of the draw as a
/// fraction of one, cubed (to thin out the rim), scaled to the world
/// radius, with the given sign.
pub open spec fn spec_shape_coord(u: int, neg: bool) -> int {
    let f = u / 65536;
    let m = spec_fmul(spec_fmul(spec_fmul(f, f), f), WORLD_RADIUS as int);
    if neg {
        -m
    } else {
        m
    }
}

pub fn shape_coord(u: u32, neg: bool) -> (r: i64)
    ensures
        r == spec_shape_coord(u as int, neg),
        -WORLD_RADIUS <= r <= WORLD_RADIUS,
{
    let f: i64 = (u / 65536) as i64;
    proof {
        lemma_shape_bounds(f as int);
    }
    let c = fmul(fmul(f, f), f);
    let m = fmul(c, WORLD_RADIUS);
    if neg {
        -m
    } else {
        m
    }
}

/// The cubed fraction stays inside `[0, ONE)`, so the shaped coordinate
/// stays inside the world radius.
proof fn lemma_shape_bounds(f: int)
    requires
        0 <= f < ONE,
    ensures
        0 <= spec_fmul(f, f) < ONE,
        0 <= spec_fmul(spec_fmul(f, f), f) < ONE,
        0 <= spec_fmul(spec_fmul(spec_fmul(f, f), f), WORLD_RADIUS as int) <= WORLD_RADIUS,
{
    lemma_fmul_nonneg(f, f);
    lemma_fmul_below_one(f, f);
    lemma_fmul_nonneg(spec_fmul(f, f), f);
    lemma_fmul_below_one(spec_fmul(f, f), f);
    let c = spec_fmul(spec_fmul(f, f), f);
    lemma_fmul_nonneg(c, WORLD_RADIUS as int);
    assert(c * WORLD_RADIUS <= (ONE - 1) * WORLD_RADIUS) by (nonlinear_arith)
        requires
            0 <= c <= ONE - 1,
    ;
    vstd::arithmetic::div_mod::lemma_div_is_ordered(
        c * WORLD_RADIUS,
        (ONE - 1) * WORLD_RADIUS,
        ONE as int,
    );
    assert((ONE - 1) * WORLD_RADIUS == WORLD_RADIUS * ONE - WORLD_RADIUS) by (nonlinear_arith);
    vstd::arithmetic::div_mod::lemma_div_pos_is_pos(c * WORLD_RADIUS, ONE as int);
    vstd::arithmetic::div_mod::lemma_multiply_divide_le(
        c * WORLD_RADIUS,
        ONE as int,
        WORLD_RADIUS as int,
    );
    assert(c * WORLD_RADIUS <= ONE * WORLD_RADIUS) by (nonlinear_arith)
        requires
            0 <= c <= ONE - 1,
    ;
}

/// A product of two values below one stays below one.
proof fn lemma_fmul_below_one(a: int, b: int)
    requires
        0 <= a < ONE,
        0 <= b < ONE,
    ensures
        spec_fmul(a, b) < ONE,
{
    assert(a * b < ONE * ONE) by (nonlinear_arith)
        requires
            0 <= a < ONE,
            0 <= b < ONE,
    ;
    vstd::arithmetic::mul::lemma_mul_nonnegative(a, b);
    vstd::arithmetic::div_mod::lemma_multiply_divide_lt(a * b, ONE as int, ONE as int);
}

/// A raw draw shaped into a body scale: a fraction of one plus a small
/// floor, so no body is massless.
pub fn shape_scale(u: u32) -> (r: i64)
    ensures
        r == u as int / 65536 + 3277,
        3277 <= r < ONE + 3277,
{
    let f: i64 = (u / 65536) as i64;
    f + 3277
}

/// Whether a candidate position is at least `MIN_SEP` from every placed
/// body.
fn all_far(bodies: &Vec<Body>, p: V2) -> (r: bool)
    ensures
        r == forall|i: int|
            #![trigger bodies@[i]]
            0 <= i < bodies@.len() ==> spec_dist2(bodies@[i].pos, p) >= MIN_SEP * MIN_SEP,
{
    let n = bodies.len();
    let mut i: usize = 0;
    while i < n
        invariant
            i <= n,
            n == bodies@.len(),
            forall|j: int|
                #![trigger bodies@[j]]
                0 <= j < i ==> spec_dist2(bodies@[j].pos, p) >= MIN_SEP * MIN_SEP,
        decreases n - i,
    {
        if !far_from(bodies[i].pos, p, MIN_SEP) {
            return false;
        }
        i = i + 1;
    }
    true
}

/// Place up to `count` bodies at seeded-random positions, rejecting any
/// candidate closer than `MIN_SEP` to a body already placed; a body whose
/// candidates are all rejected is skipped, so every returned set is
/// pairwise separated and every body lies within the world radius. The
/// first body never lacks candidates (there is nothing yet to collide
/// with), so asking for at least one body always yields at least one.
pub fn generate_bodies(seed: u64, count: usize) -> (r: Vec<Body>)
    ensures
        r@.len() <= count,
        1 <= count ==> 1 <= r@.len(),
        forall|i: int, j: int|
            #![trigger r@[i], r@[j]]
            0 <= i < j < r@.len() ==> spec_dist2(r@[i].pos, r@[j].pos) >= MIN_SEP * MIN_SEP,
        forall|i: int|
            #![trigger r@[i]]
            0 <= i < r@.len() ==> 3277 <= r@[i].scale < ONE + 3277 && -WORLD_RADIUS <= r@[i].pos.x
                <= WORLD_RADIUS && -WORLD_RADIUS <= r@[i].pos.y <= WORLD_RADIUS,
{
    let mut rng = rng_from_seed(seed);
    let mut out: Vec<Body> = Vec::new();
    let mut b: usize = 0;
    while b < count
        invariant
            b <= count,
            out@.len() <= b,
            1 <= b ==> 1 <= out@.len(),
            forall|i: int, j: int|
                #![trigger out@[i], out@[j]]
                0 <= i < j < out@.len() ==> spec_dist2(out@[i].pos, out@[j].pos) >= MIN_SEP
                    * MIN_SEP,
            forall|i: int|
                #![trigger out@[i]]
                0 <= i < out@.len() ==> 3277 <= out@[i].scale < ONE + 3277 && -WORLD_RADIUS <= out@[
                    i
                ].pos.x <= WORLD_RADIUS && -WORLD_RADIUS <= out@[i].pos.y <= WORLD_RADIUS,
        decreases count - b,
    {
        let mut t: usize = 0;
        let mut placed = false;
        let ghost pre_len = out@.len();
        while t < PLACE_TRIES && !placed
            invariant
                t <= PLACE_TRIES,
                pre_len <= b,
                placed ==> out@.len() == pre_len + 1,
                !placed ==> out@.len() == pre_len,
                t > 0 && pre_len == 0 ==> placed,
                forall|i: int, j: int|
                    #![trigger out@[i], out@[j]]
                    0 <= i < j < out@.len() ==> spec_dist2(out@[i].pos, out@[j].pos) >= MIN_SEP
                        * MIN_SEP,
                forall|i: int|
                    #![trigger out@[i]]
                    0 <= i < out@.len() ==> 3277 <= out@[i].scale < ONE + 3277 && -WORLD_RADIUS
                        <= out@[i].pos.x <= WORLD_RADIUS && -WORLD_RADIUS <= out@[i].pos.y
                        <= WORLD_RADIUS,
            decreases PLACE_TRIES - t,
        {
            let ux = rng_next_u32(&mut rng);
            let sx = rng_next_u32(&mut rng);
            let uy = rng_next_u32(&mut rng);
            let sy = rng_next_u32(&mut rng);
            let p = V2 { x: shape_coord(ux, sx % 2 == 1), y: shape_coord(uy, sy % 2 == 1) };
            if all_far(&out, p) {
                let us = rng_next_u32(&mut rng);
                let body = Body { pos: p, scale: shape_scale(us) };
                proof {
                    assert forall|i: int| 0 <= i < out@.len() implies spec_dist2(
                        out@[i].pos,
                        body.pos,
                    ) >= MIN_SEP * MIN_SEP by {}
                }
                out.push(body);
                placed = true;
            }
            t = t + 1;
        }
        b = b + 1;
    }
    out
}

} // verus!
