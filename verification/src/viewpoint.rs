//! The single moving entity and the shared integration step: semi-implicit
//! Euler under pressed acceleration plus gravity.

use vstd::prelude::*;

use crate::body::grav_accel;
use crate::body::lemma_grav_empty;
use crate::body::spec_grav;
use crate::body::Body;
use crate::fix::LIMIT;
use crate::vec2::spec_vadd;
use crate::vec2::v2_zero;
use crate::vec2::vadd;
use crate::vec2::V2;

verus! {

/// The viewpoint: the only entity that moves.
#[derive(Clone, Copy, Debug, PartialEq, Eq, Structural)]
pub struct Viewpoint {
    pub pos: V2,
    pub vel: V2,
}

/// One micro integration step: the velocity gains the pressed acceleration
/// plus gravity at the current position, then the position gains the new
/// velocity.
pub open spec fn spec_micro_step(bodies: Seq<Body>, accel: V2, pos: V2, vel: V2) -> (V2, V2) {
    let v1 = spec_vadd(vel, spec_vadd(accel, spec_grav(bodies, pos)));
    (spec_vadd(pos, v1), v1)
}

/// `k` micro steps in sequence.
pub open spec fn spec_sim_steps(bodies: Seq<Body>, accel: V2, pos: V2, vel: V2, k: nat) -> (
    V2,
    V2,
)
    decreases k,
{
    if k == 0 {
        (pos, vel)
    } else {
        let prev = spec_sim_steps(bodies, accel, pos, vel, (k - 1) as nat);
        spec_micro_step(bodies, accel, prev.0, prev.1)
    }
}

/// Running `k1` steps and then `k2` more is the same as running `k1 + k2`.
pub proof fn lemma_sim_steps_add(bodies: Seq<Body>, accel: V2, pos: V2, vel: V2, k1: nat, k2: nat)
    ensures
        spec_sim_steps(bodies, accel, pos, vel, k1 + k2) == spec_sim_steps(
            bodies,
            accel,
            spec_sim_steps(bodies, accel, pos, vel, k1).0,
            spec_sim_steps(bodies, accel, pos, vel, k1).1,
            k2,
        ),
    decreases k2,
{
    if k2 > 0 {
        lemma_sim_steps_add(bodies, accel, pos, vel, k1, (k2 - 1) as nat);
    }
}

/// With no bodies, no pressed acceleration, and a viewpoint at rest, the
/// predicted path never moves: any number of steps leaves the state where
/// it started.
pub proof fn lemma_sim_steps_static(bodies: Seq<Body>, pos: V2, k: nat)
    requires
        bodies.len() == 0,
        -LIMIT <= pos.x <= LIMIT,
        -LIMIT <= pos.y <= LIMIT,
    ensures
        spec_sim_steps(bodies, v2_zero(), pos, v2_zero(), k) == (pos, v2_zero()),
    decreases k,
{
    if k > 0 {
        lemma_sim_steps_static(bodies, pos, (k - 1) as nat);
        lemma_grav_empty(bodies, pos);
    }
}

/// With no bodies, a rightward (or zero) pressed acceleration, and a
/// rightward (or zero) starting velocity, the predicted x coordinate never
/// decreases as the path extends, and the velocity stays rightward.
pub proof fn lemma_sim_steps_monotone_x(bodies: Seq<Body>, accel: V2, pos: V2, vel: V2, k: nat)
    requires
        bodies.len() == 0,
        0 <= accel.x,
        0 <= vel.x,
        pos.x <= LIMIT,
    ensures
        pos.x <= spec_sim_steps(bodies, accel, pos, vel, k).0.x <= LIMIT,
        0 <= spec_sim_steps(bodies, accel, pos, vel, k).1.x,
    decreases k,
{
    if k > 0 {
        lemma_sim_steps_monotone_x(bodies, accel, pos, vel, (k - 1) as nat);
        let prev = spec_sim_steps(bodies, accel, pos, vel, (k - 1) as nat);
        lemma_grav_empty(bodies, prev.0);
    }
}

/// The monotone-drift form over two horizon depths: a later point of the
/// same predicted path never lies left of an earlier one.
pub proof fn lemma_drift_monotone_x(
    bodies: Seq<Body>,
    accel: V2,
    pos: V2,
    vel: V2,
    k1: nat,
    k2: nat,
)
    requires
        bodies.len() == 0,
        0 <= accel.x,
        0 <= vel.x,
        pos.x <= LIMIT,
        k1 <= k2,
    ensures
        spec_sim_steps(bodies, accel, pos, vel, k1).0.x <= spec_sim_steps(
            bodies,
            accel,
            pos,
            vel,
            k2,
        ).0.x,
{
    lemma_sim_steps_monotone_x(bodies, accel, pos, vel, k1);
    let mid = spec_sim_steps(bodies, accel, pos, vel, k1);
    lemma_sim_steps_add(bodies, accel, pos, vel, k1, (k2 - k1) as nat);
    lemma_sim_steps_monotone_x(bodies, accel, mid.0, mid.1, (k2 - k1) as nat);
}

impl Viewpoint {
    /// Advance one frame under the given pressed acceleration.
    pub fn step(&mut self, bodies: &Vec<Body>, accel: V2)
        ensures
            final(self).pos == spec_micro_step(bodies@, accel, old(self).pos, old(self).vel).0,
            final(self).vel == spec_micro_step(bodies@, accel, old(self).pos, old(self).vel).1,
    {
        let g = grav_accel(bodies, self.pos);
        self.vel = vadd(self.vel, vadd(accel, g));
        self.pos = vadd(self.pos, self.vel);
    }
}

} // verus!
