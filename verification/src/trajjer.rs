//! The amortized future-trajectory buffer: a fixed-capacity store of
//! predicted world positions, a head index delimiting the valid region
//! `[head, TRAJ_CAP)`, and a parallel store of their screen projections.
//!
//! Every `TRAJ_SCALING` ticks the head advances, consuming the oldest point;
//! when the valid region falls below the required horizon, a refill shifts
//! it far left and extends it to the end of the buffer by integrating
//! `TRAJ_SCALING` micro-steps per slot, so the cost of prediction is
//! amortized over many frames.

use vstd::prelude::*;

use rayon::iter::IndexedParallelIterator;
use rayon::iter::IntoParallelRefIterator;
use rayon::iter::IntoParallelRefMutIterator;
use rayon::iter::ParallelIterator;

use crate::body::Body;
use crate::sig::spec_project_pt;
use crate::sig::spec_traj_len;
use crate::sig::SigConfig;
use crate::sig::TRAJ_CAP;
use crate::sig::TRAJ_RESERVE;
use crate::vec2::v2_zero;
use crate::vec2::vadd;
use crate::vec2::V2;
use crate::viewpoint::lemma_sim_steps_add;
use crate::viewpoint::spec_sim_steps;
use crate::viewpoint::Viewpoint;

verus! {

/// Micro integration steps folded into one stored trajectory slot, and
/// frames per consumed slot.
pub const TRAJ_SCALING: usize = 20;

/// Horizon lengths above this are projected with the data-parallel pass.
pub const PAR_THRESHOLD: usize = 900;

/// The buffer and its validity window.
pub struct Trajjer {
    buf: Vec<V2>,
    buf_projected: Vec<V2>,
    head: usize,
    cycler: usize,
    last_vel: V2,
}

/// The mathematical state of the buffer.
pub struct TrajView {
    pub buf: Seq<V2>,
    pub projected: Seq<V2>,
    pub head: int,
    pub cycler: int,
    pub last_vel: V2,
}

impl View for Trajjer {
    type V = TrajView;

    closed spec fn view(&self) -> TrajView {
        TrajView {
            buf: self.buf@,
            projected: self.buf_projected@,
            head: self.head as int,
            cycler: self.cycler as int,
            last_vel: self.last_vel,
        }
    }
}

/// Well-formedness: both stores are full-capacity and the indices are in
/// range.
pub open spec fn wf(t: TrajView) -> bool {
    &&& t.buf.len() == TRAJ_CAP
    &&& t.projected.len() == TRAJ_CAP
    &&& 0 <= t.head <= TRAJ_CAP
    &&& 0 <= t.cycler < TRAJ_SCALING
}

/// The state of one tick of the buffer, given the tuning, the bodies, the
/// pressed acceleration, and the live viewpoint.
///
/// The cycler advances; when it wraps, the head consumes one slot. If the
/// remaining valid region still covers the required horizon nothing else
/// happens. Otherwise the region is refilled: it is shifted so it starts at
/// an anchor well left of where it is needed, and the slots after it are
/// filled by integrating `TRAJ_SCALING` micro-steps per slot, seeded from
/// the cached tail state (or from the live viewpoint when the region was
/// empty).
pub open spec fn spec_tick(
    t: TrajView,
    cfg: SigConfig,
    bodies: Seq<Body>,
    accel: V2,
    me: Viewpoint,
) -> TrajView {
    let wrap = t.cycler + 1 >= TRAJ_SCALING;
    let cyc = if wrap {
        0
    } else {
        t.cycler + 1
    };
    let head1 = if wrap {
        t.head + 1
    } else {
        t.head
    };
    let req = spec_traj_len(cfg.horizon_length as int);
    let vlen = if head1 < TRAJ_CAP {
        TRAJ_CAP - head1
    } else {
        0
    };
    if vlen >= req {
        TrajView { head: head1, cycler: cyc, ..t }
    } else {
        let left = if head1 > 2 * req + TRAJ_RESERVE {
            head1 - (2 * req + TRAJ_RESERVE)
        } else {
            0
        };
        let cfrom = if vlen > 0 {
            left + vlen
        } else {
            left + 1
        };
        let seedp = if vlen > 0 {
            t.buf[TRAJ_CAP - 1]
        } else {
            me.pos
        };
        let seedv = if vlen > 0 {
            t.last_vel
        } else {
            me.vel
        };
        let newbuf = Seq::new(
            TRAJ_CAP as nat,
            |j: int|
                if j < left {
                    t.buf[j]
                } else if vlen > 0 && j < cfrom {
                    t.buf[head1 + (j - left)]
                } else if j < cfrom {
                    me.pos
                } else {
                    spec_sim_steps(
                        bodies,
                        accel,
                        seedp,
                        seedv,
                        ((j - cfrom + 1) * TRAJ_SCALING) as nat,
                    ).0
                },
        );
        let lastv = spec_sim_steps(
            bodies,
            accel,
            seedp,
            seedv,
            ((TRAJ_CAP - cfrom) * TRAJ_SCALING) as nat,
        ).1;
        TrajView { buf: newbuf, projected: t.projected, head: left, cycler: cyc, last_vel: lastv }
    }
}

/// The state after the projection pass: every slot of the valid window gets
/// the screen position of its world point, as seen from `origin`; nothing
/// else changes.
pub open spec fn spec_project_slice(t: TrajView, cfg: SigConfig, window: V2, origin: V2) -> TrajView {
    let req = spec_traj_len(cfg.horizon_length as int);
    TrajView {
        projected: Seq::new(
            TRAJ_CAP as nat,
            |j: int|
                if t.head <= j < t.head + req {
                    spec_project_pt(cfg, origin, t.buf[j], window)
                } else {
                    t.projected[j]
                },
        ),
        ..t
    }
}

/// Run `TRAJ_SCALING` micro integration steps from the given state.
fn macro_step_run(bodies: &Vec<Body>, accel: V2, pos: V2, vel: V2) -> (r: (V2, V2))
    ensures
        r.0 == spec_sim_steps(bodies@, accel, pos, vel, TRAJ_SCALING as nat).0,
        r.1 == spec_sim_steps(bodies@, accel, pos, vel, TRAJ_SCALING as nat).1,
{
    let mut p = pos;
    let mut v = vel;
    let mut t: usize = 0;
    while t < TRAJ_SCALING
        invariant
            t <= TRAJ_SCALING,
            p == spec_sim_steps(bodies@, accel, pos, vel, t as nat).0,
            v == spec_sim_steps(bodies@, accel, pos, vel, t as nat).1,
        decreases TRAJ_SCALING - t,
    {
        let g = crate::body::grav_accel(bodies, p);
        v = vadd(v, vadd(accel, g));
        p = vadd(p, v);
        t = t + 1;
    }
    (p, v)
}

/// Relies on rayon's `par_iter`/`zip`/`for_each`: the closure runs exactly
/// once per aligned pair of slots, writing into each destination slot the
/// verified projection of the same-index source slot; slots outside the
/// range are untouched.
#[verifier::external_body]
fn par_project(
    src: &Vec<V2>,
    dst: &mut Vec<V2>,
    start: usize,
    len: usize,
    cfg: SigConfig,
    origin: V2,
    window: V2,
)
    requires
        start + len <= src@.len(),
        start + len <= old(dst)@.len(),
    ensures
        final(dst)@.len() == old(dst)@.len(),
        forall|j: int|
            start <= j < start + len ==> final(dst)@[j] == spec_project_pt(
                cfg,
                origin,
                src@[j],
                window,
            ),
        forall|j: int|
            0 <= j < final(dst)@.len() && !(start <= j < start + len) ==> final(dst)@[j] == old(
                dst,
            )@[j],
{
    let s = &src[start..start + len];
    let d = &mut dst[start..start + len];
    s.par_iter().zip(d.par_iter_mut()).for_each(
        |pair: (&V2, &mut V2)|
            {
                *pair.1 = crate::sig::project_point(cfg, origin, *pair.0, window);
            },
    );
}

impl Trajjer {
    /// A fresh buffer: empty valid region (`head == TRAJ_CAP`), so the
    /// first tick performs a full computation; the cycler is about to wrap.
    pub fn new() -> (r: Trajjer)
        ensures
            wf(r@),
            r@.head == TRAJ_CAP,
            r@.cycler == TRAJ_SCALING - 1,
            r@.last_vel == v2_zero(),
            forall|j: int| 0 <= j < TRAJ_CAP ==> r@.buf[j] == v2_zero(),
            forall|j: int| 0 <= j < TRAJ_CAP ==> r@.projected[j] == v2_zero(),
    {
        let mut buf: Vec<V2> = Vec::new();
        let mut buf_projected: Vec<V2> = Vec::new();
        let mut i: usize = 0;
        while i < TRAJ_CAP
            invariant
                i <= TRAJ_CAP,
                buf@.len() == i,
                buf_projected@.len() == i,
                forall|j: int| 0 <= j < i ==> buf@[j] == v2_zero(),
                forall|j: int| 0 <= j < i ==> buf_projected@[j] == v2_zero(),
            decreases TRAJ_CAP - i,
        {
            buf.push(V2 { x: 0, y: 0 });
            buf_projected.push(V2 { x: 0, y: 0 });
            i = i + 1;
        }
        Trajjer {
            buf,
            buf_projected,
            head: TRAJ_CAP,
            cycler: TRAJ_SCALING - 1,
            last_vel: V2 { x: 0, y: 0 },
        }
    }

    /// The current head index.
    pub fn head(&self) -> (r: usize)
        ensures
            r == self@.head,
    {
        self.head
    }

    /// The cached tail velocity.
    pub fn last_vel(&self) -> (r: V2)
        ensures
            r == self@.last_vel,
    {
        self.last_vel
    }

    /// One stored world-space trajectory point.
    pub fn world_point(&self, i: usize) -> (r: V2)
        requires
            wf(self@),
            i < TRAJ_CAP,
        ensures
            r == self@.buf[i as int],
    {
        self.buf[i]
    }

    /// Drop the whole cached window, forcing the next tick to recompute it
    /// from live state. Called whenever the pressed acceleration changes,
    /// since the prediction assumed it would stay constant.
    pub fn clear_traj(&mut self)
        ensures
            final(self)@ == (TrajView { head: TRAJ_CAP as int, cycler: 0, ..old(self)@ }),
    {
        self.head = TRAJ_CAP;
        self.cycler = 0;
    }

    /// Advance one frame, refilling the window if it fell below the
    /// required horizon.
    pub fn tick(&mut self, cfg: &SigConfig, bodies: &Vec<Body>, accel: V2, me: &Viewpoint)
        requires
            wf(old(self)@),
        ensures
            final(self)@ == spec_tick(old(self)@, *cfg, bodies@, accel, *me),
            wf(final(self)@),
    {
        proof {
            lemma_tick_wf(old(self)@, *cfg, bodies@, accel, *me);
        }
        self.cycler = self.cycler + 1;
        if self.cycler == TRAJ_SCALING {
            self.cycler = 0;
            self.head = self.head + 1;
        }
        let ghost gcyc = self.cycler as int;
        let req = cfg.traj_len();
        let vlen = if self.head < TRAJ_CAP {
            TRAJ_CAP - self.head
        } else {
            0
        };
        if vlen < req {
            let head1 = self.head;
            let left = if head1 > 2 * req + TRAJ_RESERVE {
                head1 - (2 * req + TRAJ_RESERVE)
            } else {
                0
            };
            let ghost gseedp = if vlen > 0 {
                old(self)@.buf[TRAJ_CAP - 1]
            } else {
                me.pos
            };
            let ghost gseedv = if vlen > 0 {
                old(self)@.last_vel
            } else {
                me.vel
            };
            let mut prev: V2;
            let mut vel: V2;
            let cfrom: usize;
            if vlen > 0 {
                let mut t: usize = 0;
                while t < vlen
                    invariant
                        t <= vlen,
                        vlen == TRAJ_CAP - head1,
                        0 < vlen,
                        left + vlen <= TRAJ_CAP,
                        left <= head1 < TRAJ_CAP,
                        self@.buf.len() == TRAJ_CAP,
                        self@.projected == old(self)@.projected,
                        self@.cycler == gcyc,
                        self@.head == head1,
                        self@.last_vel == old(self)@.last_vel,
                        forall|j: int| 0 <= j < left ==> self@.buf[j] == old(self)@.buf[j],
                        forall|j: int|
                            left <= j < left + t ==> self@.buf[j] == old(self)@.buf[
                                head1 + (j - left)
                            ],
                        forall|j: int|
                            left + t <= j < TRAJ_CAP ==> self@.buf[j] == old(self)@.buf[j],
                    decreases vlen - t,
                {
                    let v = self.buf[head1 + t];
                    self.buf.set(left + t, v);
                    t = t + 1;
                }
                prev = self.buf[TRAJ_CAP - 1];
                vel = self.last_vel;
                cfrom = left + vlen;
                assert(prev == gseedp);
            } else {
                self.buf.set(left, me.pos);
                prev = me.pos;
                vel = me.vel;
                cfrom = left + 1;
            }
            let mut i: usize = cfrom;
            while i < TRAJ_CAP
                invariant
                    cfrom <= i <= TRAJ_CAP,
                    cfrom <= TRAJ_CAP,
                    left < cfrom,
                    self@.buf.len() == TRAJ_CAP,
                    self@.projected == old(self)@.projected,
                    self@.cycler == gcyc,
                    self@.last_vel == old(self)@.last_vel,
                    prev == spec_sim_steps(
                        bodies@,
                        accel,
                        gseedp,
                        gseedv,
                        ((i - cfrom) * TRAJ_SCALING) as nat,
                    ).0,
                    vel == spec_sim_steps(
                        bodies@,
                        accel,
                        gseedp,
                        gseedv,
                        ((i - cfrom) * TRAJ_SCALING) as nat,
                    ).1,
                    forall|j: int| 0 <= j < left ==> self@.buf[j] == old(self)@.buf[j],
                    forall|j: int|
                        left <= j < cfrom ==> self@.buf[j] == (if vlen > 0 {
                            old(self)@.buf[head1 + (j - left)]
                        } else {
                            me.pos
                        }),
                    forall|j: int|
                        cfrom <= j < i ==> self@.buf[j] == spec_sim_steps(
                            bodies@,
                            accel,
                            gseedp,
                            gseedv,
                            ((j - cfrom + 1) * TRAJ_SCALING) as nat,
                        ).0,
                decreases TRAJ_CAP - i,
            {
                let stepped = macro_step_run(bodies, accel, prev, vel);
                proof {
                    lemma_sim_steps_add(
                        bodies@,
                        accel,
                        gseedp,
                        gseedv,
                        ((i - cfrom) * TRAJ_SCALING) as nat,
                        TRAJ_SCALING as nat,
                    );
                }
                prev = stepped.0;
                vel = stepped.1;
                self.buf.set(i, prev);
                i = i + 1;
            }
            self.head = left;
            self.last_vel = vel;
            proof {
                let spec_result = spec_tick(old(self)@, *cfg, bodies@, accel, *me);
                assert(self@.buf =~= spec_result.buf);
                assert(self@.projected =~= spec_result.projected);
            }
        }
    }
}

impl Trajjer {
    /// Recompute the screen projections of the valid window from the
    /// viewpoint's current position. World points do not change here; only
    /// their projections do, because the origin moves every frame. Long
    /// windows use the data-parallel pass; both paths produce the same
    /// state.
    pub fn project_slice(&mut self, cfg: &SigConfig, window: V2, origin: V2)
        requires
            wf(old(self)@),
            old(self)@.head + spec_traj_len(cfg.horizon_length as int) <= TRAJ_CAP,
        ensures
            final(self)@ == spec_project_slice(old(self)@, *cfg, window, origin),
            wf(final(self)@),
    {
        let req = cfg.traj_len();
        let head = self.head;
        if req > PAR_THRESHOLD {
            par_project(&self.buf, &mut self.buf_projected, head, req, *cfg, origin, window);
        } else {
            let mut i: usize = head;
            while i < head + req
                invariant
                    head <= i <= head + req,
                    head + req <= TRAJ_CAP,
                    head == old(self)@.head,
                    self@.buf == old(self)@.buf,
                    self@.buf.len() == TRAJ_CAP,
                    self@.head == old(self)@.head,
                    self@.cycler == old(self)@.cycler,
                    self@.last_vel == old(self)@.last_vel,
                    self@.projected.len() == TRAJ_CAP,
                    forall|j: int|
                        head <= j < i ==> self@.projected[j] == spec_project_pt(
                            *cfg,
                            origin,
                            self@.buf[j],
                            window,
                        ),
                    forall|j: int|
                        0 <= j < TRAJ_CAP && !(head <= j < i) ==> self@.projected[j] == old(
                            self,
                        )@.projected[j],
                decreases head + req - i,
            {
                let p = crate::sig::project_point(*cfg, origin, self.buf[i], window);
                self.buf_projected.set(i, p);
                i = i + 1;
            }
        }
        proof {
            let spec_result = spec_project_slice(old(self)@, *cfg, window, origin);
            assert(self@.projected =~= spec_result.projected);
        }
    }

    /// The projected points of the currently exposed window, in order.
    pub fn get_projected_slice(&self, cfg: &SigConfig) -> (r: Vec<V2>)
        requires
            wf(self@),
            self@.head + spec_traj_len(cfg.horizon_length as int) <= TRAJ_CAP,
        ensures
            r@ == self@.projected.subrange(
                self@.head,
                self@.head + spec_traj_len(cfg.horizon_length as int),
            ),
    {
        let req = cfg.traj_len();
        let head = self.head;
        let mut out: Vec<V2> = Vec::new();
        let mut i: usize = 0;
        while i < req
            invariant
                i <= req,
                head == self@.head,
                head + req <= TRAJ_CAP,
                self@.projected.len() == TRAJ_CAP,
                out@.len() == i,
                forall|j: int| 0 <= j < i ==> out@[j] == self@.projected[head + j],
            decreases req - i,
        {
            out.push(self.buf_projected[head + i]);
            i = i + 1;
        }
        proof {
            assert(out@ =~= self@.projected.subrange(self@.head, self@.head + req));
        }
        out
    }
}

/// The four index bounds that quarter a window of length `req` for
/// graduated-color rendering: `0 == b.0 <= b.1 <= b.2 <= b.3 <= b.4 == req`,
/// so the quarters `[b.k, b.k+1)` are contiguous, non-overlapping, and
/// together cover `[0, req)`.
pub fn quarter_bounds(req: usize) -> (b: (usize, usize, usize, usize, usize))
    requires
        req <= TRAJ_CAP,
    ensures
        b.0 == 0,
        b.1 == req as int / 4,
        b.2 == req as int * 2 / 4,
        b.3 == req as int * 3 / 4,
        b.4 == req,
        b.0 <= b.1 <= b.2 <= b.3 <= b.4,
{
    proof {
        vstd::arithmetic::div_mod::lemma_div_is_ordered(req as int, req as int * 2, 4);
        vstd::arithmetic::div_mod::lemma_div_is_ordered(req as int * 2, req as int * 3, 4);
        vstd::arithmetic::div_mod::lemma_multiply_divide_le(req as int * 3, 4, req as int);
    }
    (0, req / 4, req * 2 / 4, req * 3 / 4, req)
}

/// Reading the horizon always gives a length in `[TRAJ_MIN, TRAJ_CAP -
/// TRAJ_RESERVE]`.
pub proof fn lemma_traj_len_range(h: int)
    ensures
        crate::sig::TRAJ_MIN <= spec_traj_len(h) <= TRAJ_CAP - TRAJ_RESERVE,
{
    if h > 0 {
        crate::fix::lemma_tdiv_bounds(h, crate::fix::ONE as int);
    }
}

/// A tick preserves well-formedness, and always leaves the valid region at
/// least as long as the required horizon: the head stays within capacity.
pub proof fn lemma_tick_wf(t: TrajView, cfg: SigConfig, bodies: Seq<Body>, accel: V2, me: Viewpoint)
    requires
        wf(t),
    ensures
        wf(spec_tick(t, cfg, bodies, accel, me)),
        spec_tick(t, cfg, bodies, accel, me).head + spec_traj_len(cfg.horizon_length as int)
            <= TRAJ_CAP,
{
    lemma_traj_len_range(cfg.horizon_length as int);
}

/// Monotonic consumption: while the cached window still covers the
/// required horizon, a tick only moves the head forward (by zero or one
/// slot) and leaves the stored world points untouched; only a refill or an
/// invalidation ever moves the head back.
pub proof fn lemma_tick_monotone_consumption(
    t: TrajView,
    cfg: SigConfig,
    bodies: Seq<Body>,
    accel: V2,
    me: Viewpoint,
)
    requires
        wf(t),
        TRAJ_CAP - (if t.cycler + 1 >= TRAJ_SCALING {
            t.head + 1
        } else {
            t.head
        }) >= spec_traj_len(cfg.horizon_length as int),
    ensures
        t.head <= spec_tick(t, cfg, bodies, accel, me).head <= t.head + 1,
        spec_tick(t, cfg, bodies, accel, me).buf == t.buf,
        spec_tick(t, cfg, bodies, accel, me).last_vel == t.last_vel,
{
}

/// Idempotence of the projection pass: projecting twice from the same
/// viewpoint, with no tick in between, gives exactly the state of
/// projecting once.
pub proof fn lemma_project_slice_idempotent(t: TrajView, cfg: SigConfig, window: V2, origin: V2)
    requires
        wf(t),
    ensures
        spec_project_slice(spec_project_slice(t, cfg, window, origin), cfg, window, origin)
            == spec_project_slice(t, cfg, window, origin),
{
    let t1 = spec_project_slice(t, cfg, window, origin);
    let t2 = spec_project_slice(t1, cfg, window, origin);
    assert(t2.projected =~= t1.projected);
}

/// Continuity of a refill that shifts a non-empty region: the first newly
/// computed world point is exactly one macro-step of integration ahead of
/// the cached tail state, so the copy introduces no discontinuity.
pub proof fn lemma_refill_continuity(
    t: TrajView,
    cfg: SigConfig,
    bodies: Seq<Body>,
    accel: V2,
    me: Viewpoint,
)
    requires
        wf(t),
        (if t.cycler + 1 >= TRAJ_SCALING {
            t.head + 1
        } else {
            t.head
        }) < TRAJ_CAP,
        TRAJ_CAP - (if t.cycler + 1 >= TRAJ_SCALING {
            t.head + 1
        } else {
            t.head
        }) < spec_traj_len(cfg.horizon_length as int),
    ensures
        ({
            let head1 = if t.cycler + 1 >= TRAJ_SCALING {
                t.head + 1
            } else {
                t.head
            };
            let req = spec_traj_len(cfg.horizon_length as int);
            let vlen = TRAJ_CAP - head1;
            let left = if head1 > 2 * req + TRAJ_RESERVE {
                head1 - (2 * req + TRAJ_RESERVE)
            } else {
                0
            };
            spec_tick(t, cfg, bodies, accel, me).buf[left + vlen] == spec_sim_steps(
                bodies,
                accel,
                t.buf[TRAJ_CAP - 1],
                t.last_vel,
                TRAJ_SCALING as nat,
            ).0
        }),
{
    lemma_traj_len_range(cfg.horizon_length as int);
}

/// With no bodies and no pressed acceleration, a refill from a resting
/// viewpoint predicts a constant path: every valid world point is the
/// viewpoint's own position.
pub proof fn lemma_static_refill(
    t: TrajView,
    cfg: SigConfig,
    bodies: Seq<Body>,
    accel: V2,
    me: Viewpoint,
)
    requires
        wf(t),
        t.head == TRAJ_CAP,
        bodies.len() == 0,
        accel == crate::vec2::v2_zero(),
        me.vel == crate::vec2::v2_zero(),
        -crate::fix::LIMIT <= me.pos.x <= crate::fix::LIMIT,
        -crate::fix::LIMIT <= me.pos.y <= crate::fix::LIMIT,
    ensures
        ({
            let res = spec_tick(t, cfg, bodies, accel, me);
            forall|j: int| res.head <= j < TRAJ_CAP ==> res.buf[j] == me.pos
        }),
{
    lemma_traj_len_range(cfg.horizon_length as int);
    let res = spec_tick(t, cfg, bodies, accel, me);
    assert forall|j: int| res.head <= j < TRAJ_CAP implies res.buf[j] == me.pos by {
        let head1 = if t.cycler + 1 >= TRAJ_SCALING {
            t.head + 1
        } else {
            t.head
        };
        let req = spec_traj_len(cfg.horizon_length as int);
        let left = if head1 > 2 * req + TRAJ_RESERVE {
            head1 - (2 * req + TRAJ_RESERVE)
        } else {
            0
        };
        if j > left {
            crate::viewpoint::lemma_sim_steps_static(
                bodies,
                me.pos,
                ((j - (left + 1) + 1) * TRAJ_SCALING) as nat,
            );
        }
    }
}

/// With no bodies, a rightward pressed acceleration, and a rightward (or
/// resting) viewpoint, a refill from an invalidated buffer predicts a path
/// whose x coordinates never decrease with the buffer index.
pub proof fn lemma_forward_refill_monotone_x(
    t: TrajView,
    cfg: SigConfig,
    bodies: Seq<Body>,
    accel: V2,
    me: Viewpoint,
)
    requires
        wf(t),
        t.head == TRAJ_CAP,
        bodies.len() == 0,
        0 <= accel.x,
        0 <= me.vel.x,
        me.pos.x <= crate::fix::LIMIT,
    ensures
        ({
            let res = spec_tick(t, cfg, bodies, accel, me);
            forall|j1: int, j2: int|
                res.head <= j1 <= j2 < TRAJ_CAP ==> res.buf[j1].x <= res.buf[j2].x
        }),
{
    lemma_traj_len_range(cfg.horizon_length as int);
    let res = spec_tick(t, cfg, bodies, accel, me);
    assert forall|j1: int, j2: int|
        res.head <= j1 <= j2 < TRAJ_CAP implies res.buf[j1].x <= res.buf[j2].x by {
        let head1 = if t.cycler + 1 >= TRAJ_SCALING {
            t.head + 1
        } else {
            t.head
        };
        let req = spec_traj_len(cfg.horizon_length as int);
        let left = if head1 > 2 * req + TRAJ_RESERVE {
            head1 - (2 * req + TRAJ_RESERVE)
        } else {
            0
        };
        let cfrom = left + 1;
        if j1 == left && j2 == left {
        } else if j1 == left {
            crate::viewpoint::lemma_sim_steps_monotone_x(
                bodies,
                accel,
                me.pos,
                me.vel,
                ((j2 - cfrom + 1) * TRAJ_SCALING) as nat,
            );
        } else {
            crate::viewpoint::lemma_sim_steps_monotone_x(
                bodies,
                accel,
                me.pos,
                me.vel,
                ((j1 - cfrom + 1) * TRAJ_SCALING) as nat,
            );
            crate::viewpoint::lemma_drift_monotone_x(
                bodies,
                accel,
                me.pos,
                me.vel,
                ((j1 - cfrom + 1) * TRAJ_SCALING) as nat,
                ((j2 - cfrom + 1) * TRAJ_SCALING) as nat,
            );
        }
    }
}

/// An invalidated buffer (`head == TRAJ_CAP`, as `clear_traj` leaves it)
/// refills from the live viewpoint on the next tick: the head moves to a
/// fresh anchor and the first slot of the new region holds the viewpoint's
/// own position, not a shifted stale point.
pub proof fn lemma_invalidation_forces_fresh_refill(
    t: TrajView,
    cfg: SigConfig,
    bodies: Seq<Body>,
    accel: V2,
    me: Viewpoint,
)
    requires
        wf(t),
        t.head == TRAJ_CAP,
    ensures
        ({
            let head1 = if t.cycler + 1 >= TRAJ_SCALING {
                t.head + 1
            } else {
                t.head
            };
            let req = spec_traj_len(cfg.horizon_length as int);
            let left = if head1 > 2 * req + TRAJ_RESERVE {
                head1 - (2 * req + TRAJ_RESERVE)
            } else {
                0
            };
            &&& spec_tick(t, cfg, bodies, accel, me).head == left
            &&& left + req <= TRAJ_CAP
            &&& spec_tick(t, cfg, bodies, accel, me).buf[left] == me.pos
            &&& spec_tick(t, cfg, bodies, accel, me).buf[left + 1] == spec_sim_steps(
                bodies,
                accel,
                me.pos,
                me.vel,
                TRAJ_SCALING as nat,
            ).0
        }),
{
    lemma_traj_len_range(cfg.horizon_length as int);
}

} // verus!
