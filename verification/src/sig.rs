//! The six-scalar tuning configuration, the nonlinear distance compression
//! ("sig"), the world-to-screen projection built on it, and the scroll-wheel
//! parameter adjustment.

use vstd::prelude::*;

use crate::fix::clampf;
use crate::fix::clamp_i128;
use crate::fix::divt_i128;
use crate::fix::fadd;
use crate::fix::fdiv;
use crate::fix::fmul;
use crate::fix::fsub;
use crate::fix::is_sqrt;
use crate::fix::isqrt;
use crate::fix::lemma_is_sqrt_unique;
use crate::fix::spec_fsub;
use crate::fix::sqrt_floor;
use crate::fix::lemma_fmul_nonneg;
use crate::fix::lemma_tdiv_bounds;
use crate::fix::lemma_tdiv_monotone;
use crate::fix::lemma_wide_product;
use crate::fix::spec_fadd;
use crate::fix::spec_fdiv;
use crate::fix::spec_fmul;
use crate::fix::tdiv;
use crate::fix::HALF;
use crate::fix::LIMIT;
use crate::fix::ONE;
use crate::vec2::spec_norm;
use crate::vec2::spec_vsub;
use crate::vec2::vnorm;
use crate::vec2::vsub;
use crate::vec2::V2;

verus! {

/// Capacity of the trajectory buffer, in macro-steps.
pub const TRAJ_CAP: usize = 8000;

/// Slots at the top of the buffer never granted to the horizon, so a refill
/// always has room to anchor left of the required window.
pub const TRAJ_RESERVE: usize = 100;

/// Smallest horizon the trajectory buffer will maintain.
pub const TRAJ_MIN: usize = 8;

/// Screen radius scale of the projection (250 in fixed point).
pub const SCREEN_RADIUS: i64 = 16384000;

/// Smallest rendered body scale (0.005 in fixed point), so distant bodies
/// stay visible as a dot.
pub const MIN_RENDER: i64 = 328;

/// The six tuning scalars. No bounds are enforced when they are written;
/// each consumer clamps where it reads.
#[derive(Clone, Copy, Debug, PartialEq, Eq, Structural)]
pub struct SigConfig {
    pub decay_rate: i64,
    pub midpoint_offset: i64,
    pub size_exponent: i64,
    pub size_scale: i64,
    pub zoom_scale: i64,
    pub horizon_length: i64,
}

impl Default for SigConfig {
    /// The startup tuning values (0.02, -0.04, 0.6, 0.22, 1.5, 100 in fixed
    /// point).
    fn default() -> (c: Self)
        ensures
            c == (SigConfig {
                decay_rate: 1311,
                midpoint_offset: -2621i64,
                size_exponent: 39322,
                size_scale: 14418,
                zoom_scale: 98304,
                horizon_length: 6553600,
            }),
    {
        SigConfig {
            decay_rate: 1311,
            midpoint_offset: -2621,
            size_exponent: 39322,
            size_scale: 14418,
            zoom_scale: 98304,
            horizon_length: 6553600,
        }
    }
}

/// The horizon length read as a whole number of macro-steps, clamped into
/// `[TRAJ_MIN, TRAJ_CAP - TRAJ_RESERVE]`.
pub open spec fn spec_traj_len(h: int) -> int {
    let n = if h <= 0 {
        0
    } else {
        tdiv(h, ONE as int)
    };
    let capped = if n < TRAJ_CAP - TRAJ_RESERVE {
        n
    } else {
        TRAJ_CAP - TRAJ_RESERVE
    };
    if capped < TRAJ_MIN {
        TRAJ_MIN as int
    } else {
        capped
    }
}

/// The nonnegative scaled distance fed to the compression curve.
pub open spec fn sig_input(decay: int, d: int) -> int {
    let d0 = if d < 0 {
        0
    } else {
        d
    };
    let r0 = if decay < 0 {
        0
    } else {
        decay
    };
    spec_fmul(d0, r0)
}

/// The curve softness derived from the midpoint offset: one plus its
/// clamped magnitude. Only the magnitude of the offset matters here: a
/// larger offset in either direction flattens the start of the curve.
pub open spec fn sig_softness(m: int) -> int {
    ONE + clampf(if m < 0 {
        -m
    } else {
        m
    })
}

/// The compression core: `u / (u + c)` in fixed point.
pub open spec fn sig_core(u: int, c: int) -> int {
    tdiv(u * ONE, u + c)
}

/// The compressed ("sigged") value of a distance: zero at zero, strictly
/// below one, monotone, saturating toward one as the distance grows. The
/// compression is the rational curve `u / (u + c)` — the exactly
/// computable stand-in for an exponential sigmoid — so the midpoint
/// offset shapes the curve through its magnitude alone.
pub open spec fn spec_sig(decay: int, m: int, d: int) -> int {
    sig_core(sig_input(decay, d), sig_softness(m))
}

/// The compression core stays inside `[0, ONE)`.
pub proof fn lemma_sig_core_bounds(u: int, c: int)
    requires
        0 <= u,
        1 <= c,
    ensures
        0 <= sig_core(u, c) < ONE,
        u == 0 ==> sig_core(u, c) == 0,
{
    vstd::arithmetic::mul::lemma_mul_nonnegative(u, ONE as int);
    vstd::arithmetic::div_mod::lemma_div_pos_is_pos(u * ONE, u + c);
    assert(u * ONE < (u + c) * ONE) by (nonlinear_arith)
        requires
            0 <= u,
            1 <= c,
    ;
    vstd::arithmetic::div_mod::lemma_multiply_divide_lt(u * ONE, u + c, ONE as int);
    if u == 0 {
        assert(u * ONE == 0) by (nonlinear_arith)
            requires
                u == 0,
        ;
        vstd::arithmetic::div_mod::lemma_div_nonincreasing(0, u + c);
    }
}

/// The compression core is monotone in the scaled distance.
pub proof fn lemma_sig_core_monotone(u1: int, u2: int, c: int)
    requires
        0 <= u1 <= u2,
        1 <= c,
    ensures
        sig_core(u1, c) <= sig_core(u2, c),
{
    let q1 = sig_core(u1, c);
    lemma_sig_core_bounds(u1, c);
    vstd::arithmetic::div_mod::lemma_fundamental_div_mod(u1 * ONE, u1 + c);
    assert(q1 * (u1 + c) <= u1 * ONE) by {
        vstd::arithmetic::mul::lemma_mul_is_commutative(q1, u1 + c);
        assert(0 <= (u1 * ONE) % (u1 + c));
    };
    assert(q1 * (u2 + c) <= u2 * ONE) by (nonlinear_arith)
        requires
            q1 * (u1 + c) <= u1 * ONE,
            0 <= q1 < ONE,
            0 <= u1 <= u2,
            1 <= c,
    ;
    assert((u2 + c) * q1 <= u2 * ONE) by {
        vstd::arithmetic::mul::lemma_mul_is_commutative(q1, u2 + c);
    };
    vstd::arithmetic::div_mod::lemma_div_multiples_vanish(q1, u2 + c);
    vstd::arithmetic::div_mod::lemma_div_is_ordered((u2 + c) * q1, u2 * ONE, u2 + c);
    vstd::arithmetic::mul::lemma_mul_nonnegative(u2, ONE as int);
    vstd::arithmetic::div_mod::lemma_div_pos_is_pos(u2 * ONE, u2 + c);
}

/// The compressed distance is monotone non-decreasing in the distance.
pub proof fn lemma_sig_monotone(decay: int, m: int, d1: int, d2: int)
    requires
        d1 <= d2,
    ensures
        spec_sig(decay, m, d1) <= spec_sig(decay, m, d2),
{
    let d01 = if d1 < 0 {
        0
    } else {
        d1
    };
    let d02 = if d2 < 0 {
        0
    } else {
        d2
    };
    let r0 = if decay < 0 {
        0
    } else {
        decay
    };
    vstd::arithmetic::mul::lemma_mul_inequality(d01, d02, r0);
    vstd::arithmetic::mul::lemma_mul_nonnegative(d01, r0);
    lemma_tdiv_monotone(d01 * r0, d02 * r0, ONE as int);
    lemma_fmul_nonneg(d01, r0);
    lemma_fmul_nonneg(d02, r0);
    lemma_sig_core_monotone(sig_input(decay, d1), sig_input(decay, d2), sig_softness(m));
}

/// The compressed distance stays inside `[0, ONE)` and is zero at distance
/// zero.
pub proof fn lemma_sig_bounds(decay: int, m: int, d: int)
    ensures
        0 <= spec_sig(decay, m, d) < ONE,
        d <= 0 ==> spec_sig(decay, m, d) == 0,
{
    let d0 = if d < 0 {
        0
    } else {
        d
    };
    let r0 = if decay < 0 {
        0
    } else {
        decay
    };
    lemma_fmul_nonneg(d0, r0);
    lemma_sig_core_bounds(sig_input(decay, d), sig_softness(m));
    if d <= 0 {
        assert(d0 * r0 == 0) by (nonlinear_arith)
            requires
                d0 == 0,
        ;
        lemma_tdiv_bounds(0, ONE as int);
    }
}

impl SigConfig {
    /// The number of trajectory macro-steps the horizon asks for.
    pub fn traj_len(&self) -> (r: usize)
        ensures
            r == spec_traj_len(self.horizon_length as int),
            TRAJ_MIN <= r <= TRAJ_CAP - TRAJ_RESERVE,
    {
        let h = self.horizon_length;
        let n: u64 = if h <= 0 {
            0
        } else {
            (h as u64) / 65536
        };
        proof {
            if h > 0 {
                lemma_tdiv_bounds(h as int, ONE as int);
            }
        }
        let capped: usize = if n < (TRAJ_CAP - TRAJ_RESERVE) as u64 {
            n as usize
        } else {
            TRAJ_CAP - TRAJ_RESERVE
        };
        if capped < TRAJ_MIN {
            TRAJ_MIN
        } else {
            capped
        }
    }

    /// The compressed value of a distance under the current parameters.
    pub fn sig(&self, d: i64) -> (s: i64)
        ensures
            s == spec_sig(self.decay_rate as int, self.midpoint_offset as int, d as int),
            0 <= s < ONE,
            d <= 0 ==> s == 0,
    {
        let d0: i64 = if d < 0 {
            0
        } else {
            d
        };
        let r0: i64 = if self.decay_rate < 0 {
            0
        } else {
            self.decay_rate
        };
        let u = fmul(d0, r0);
        proof {
            lemma_fmul_nonneg(d0 as int, r0 as int);
        }
        let m128: i128 = self.midpoint_offset as i128;
        let am: i64 = clamp_i128(if m128 < 0 {
            -m128
        } else {
            m128
        });
        let c: i64 = ONE + am;
        proof {
            lemma_wide_product(u as int, ONE as int);
            lemma_sig_core_bounds(u as int, c as int);
        }
        let p: i128 = (u as i128) * 65536;
        let q: i128 = divt_i128(p, (u as i128) + (c as i128));
        let s = q as i64;
        proof {
            lemma_sig_bounds(self.decay_rate as int, self.midpoint_offset as int, d as int);
        }
        s
    }
}

/// The compressed distance from `origin` to `pt`: zero when they coincide.
pub open spec fn spec_project_sigged(cfg: SigConfig, origin: V2, pt: V2) -> int {
    spec_sig(cfg.decay_rate as int, cfg.midpoint_offset as int, spec_norm(spec_vsub(pt, origin)))
}

/// Screen position of a world point: the unit direction from the viewpoint,
/// scaled by the compressed distance, centered in the viewport. A point at
/// the viewpoint itself maps to the viewport center.
pub open spec fn spec_project_pt(cfg: SigConfig, origin: V2, pt: V2, window: V2) -> V2 {
    let rel = spec_vsub(pt, origin);
    let dist = spec_norm(rel);
    let cx = spec_fmul(window.x as int, HALF as int);
    let cy = spec_fmul(window.y as int, HALF as int);
    if dist == 0 {
        V2 { x: cx as i64, y: cy as i64 }
    } else {
        let s = spec_sig(cfg.decay_rate as int, cfg.midpoint_offset as int, dist);
        let nd = spec_fmul(spec_fmul(s, SCREEN_RADIUS as int), cfg.zoom_scale as int);
        V2 {
            x: spec_fadd(spec_fmul(spec_fdiv(rel.x as int, dist), nd), cx) as i64,
            y: spec_fadd(spec_fmul(spec_fdiv(rel.y as int, dist), nd), cy) as i64,
        }
    }
}

impl SigConfig {
    /// Project a world point into screen space, also returning its
    /// compressed distance.
    pub fn project(&self, origin: V2, pt: V2, window: V2) -> (r: (V2, i64))
        ensures
            r.0 == spec_project_pt(*self, origin, pt, window),
            r.1 == spec_project_sigged(*self, origin, pt),
            0 <= r.1 < ONE,
    {
        let rel = vsub(pt, origin);
        let dist = vnorm(rel);
        let cx = fmul(window.x, HALF);
        let cy = fmul(window.y, HALF);
        if dist == 0 {
            proof {
                lemma_sig_bounds(self.decay_rate as int, self.midpoint_offset as int, 0);
            }
            (V2 { x: cx, y: cy }, 0)
        } else {
            let s = self.sig(dist);
            let nd = fmul(fmul(s, SCREEN_RADIUS), self.zoom_scale);
            let px = fadd(fmul(fdiv(rel.x, dist), nd), cx);
            let py = fadd(fmul(fdiv(rel.y, dist), nd), cy);
            (V2 { x: px, y: py }, s)
        }
    }
}

/// Screen position alone, for the bulk projection passes.
pub fn project_point(cfg: SigConfig, origin: V2, pt: V2, window: V2) -> (r: V2)
    ensures
        r == spec_project_pt(cfg, origin, pt, window),
{
    cfg.project(origin, pt, window).0
}

/// Fixed-point square root of a value in `[0, ONE]`.
pub open spec fn spec_sqrt_fix(v: int) -> int {
    sqrt_floor(v * ONE)
}

fn sqrt_fix(v: i64) -> (r: i64)
    requires
        0 <= v <= ONE,
    ensures
        r == spec_sqrt_fix(v as int),
        0 <= r <= ONE,
{
    let n: u128 = (v as u128) * 65536;
    let root = isqrt(n);
    proof {
        assert(is_sqrt(n as int, root as int));
        lemma_is_sqrt_unique(n as int, root as int, sqrt_floor(n as int));
        assert(root as int <= 65536) by (nonlinear_arith)
            requires
                0 <= root as int,
                (root as int) * (root as int) <= 65536 * 65536,
        ;
    }
    root as i64
}

/// Left fold multiplying `acc` by `b`, `k` times.
pub open spec fn pow_int_loop(acc: int, b: int, k: nat) -> int
    decreases k,
{
    if k == 0 {
        acc
    } else {
        pow_int_loop(spec_fmul(acc, b), b, (k - 1) as nat)
    }
}

/// Left fold over the `k` lowest fractional-exponent bits: `prev` is the
/// running `2^-i`-th root of the base, and bit `k - 1` of `f` decides
/// whether the current root joins the product.
pub open spec fn pow_frac_loop(prev: int, acc: int, f: int, k: nat) -> int
    decreases k,
{
    if k == 0 {
        acc
    } else {
        let s = spec_sqrt_fix(prev);
        let acc2 = if (f / (vstd::arithmetic::power2::pow2((k - 1) as nat) as int)) % 2 == 1 {
            spec_fmul(acc, s)
        } else {
            acc
        };
        pow_frac_loop(s, acc2, f, (k - 1) as nat)
    }
}

/// Fixed-point power of a base clamped into `[0, ONE]` by an exponent
/// clamped into `[0, 32]`: the integer part by repeated multiplication, the
/// fractional part by a 16-bit square-root chain.
pub open spec fn spec_fpow(b: int, e: int) -> int {
    let b0 = if b < 0 {
        0
    } else if b > ONE {
        ONE as int
    } else {
        b
    };
    let e0 = if e < 0 {
        0
    } else if e > 2097152 {
        2097152
    } else {
        e
    };
    let n = e0 / (ONE as int);
    let f = e0 % (ONE as int);
    spec_fmul(pow_int_loop(ONE as int, b0, n as nat), pow_frac_loop(b0, ONE as int, f, 16))
}

/// Fixed-point power, total over all inputs by clamping.
pub fn fpow(b: i64, e: i64) -> (r: i64)
    ensures
        r == spec_fpow(b as int, e as int),
{
    let b0: i64 = if b < 0 {
        0
    } else if b > ONE {
        ONE
    } else {
        b
    };
    let e0: i64 = if e < 0 {
        0
    } else if e > 2097152 {
        2097152
    } else {
        e
    };
    let n: u64 = (e0 as u64) / 65536;
    proof {
        vstd::arithmetic::div_mod::lemma_fundamental_div_mod(e0 as int, 65536);
        lemma_tdiv_bounds(e0 as int, 65536);
        vstd::arithmetic::div_mod::lemma_div_is_ordered(e0 as int, 2097152, 65536);
    }
    let f: i64 = e0 - (n as i64) * 65536;
    let mut ip: i64 = ONE;
    let mut k: u64 = n;
    while k > 0
        invariant
            pow_int_loop(ip as int, b0 as int, k as nat) == pow_int_loop(
                ONE as int,
                b0 as int,
                n as nat,
            ),
        decreases k,
    {
        ip = fmul(ip, b0);
        k = k - 1;
    }
    let mut acc: i64 = ONE;
    let mut prev: i64 = b0;
    let mut j: u64 = 16;
    while j > 0
        invariant
            0 <= prev <= ONE,
            0 <= f < 65536,
            j <= 16,
            pow_frac_loop(prev as int, acc as int, f as int, j as nat) == pow_frac_loop(
                b0 as int,
                ONE as int,
                f as int,
                16,
            ),
        decreases j,
    {
        let s = sqrt_fix(prev);
        let sh: u64 = j - 1;
        let fraw: u64 = f as u64;
        let bit: u64 = (fraw >> sh) & 1;
        proof {
            vstd::bits::lemma_u64_shr_is_div(fraw, sh);
            vstd::bits::lemma_u64_low_bits_mask_is_mod(fraw >> sh, 1);
            vstd::bits::lemma_low_bits_mask_values();
            vstd::arithmetic::power2::lemma2_to64();
            vstd::arithmetic::power2::lemma_pow2_pos(sh as nat);
        }
        if bit == 1 {
            acc = fmul(acc, s);
        }
        prev = s;
        j = j - 1;
    }
    fmul(ip, acc)
}

/// The rendered scale of a body: its own scale times the size factor, faded
/// by the compressed distance raised to the size exponent, floored at
/// `MIN_RENDER`.
pub open spec fn spec_render_scale(cfg: SigConfig, scale: int, sigged: int) -> int {
    let base = spec_fsub(ONE as int, sigged);
    let powed = spec_fpow(base, cfg.size_exponent as int);
    let v = spec_fmul(spec_fmul(scale, cfg.size_scale as int), powed);
    if v < MIN_RENDER {
        MIN_RENDER as int
    } else {
        v
    }
}

impl SigConfig {
    /// The scale at which a body should be drawn, given its compressed
    /// distance.
    pub fn render_scale(&self, scale: i64, sigged: i64) -> (r: i64)
        ensures
            r == spec_render_scale(*self, scale as int, sigged as int),
            r >= MIN_RENDER,
    {
        let base = fsub(ONE, sigged);
        let powed = fpow(base, self.size_exponent);
        let v = fmul(fmul(scale, self.size_scale), powed);
        if v < MIN_RENDER {
            MIN_RENDER
        } else {
            v
        }
    }
}

/// Which tuning scalar a scroll event adjusts.
#[derive(Clone, Copy, Debug, PartialEq, Eq, Structural)]
pub enum ParamId {
    DecayRate,
    MidpointOffset,
    SizeExponent,
    SizeScale,
    ZoomScale,
    HorizonLength,
}

/// The scroll target: one scalar, or the special paired selection that
/// adjusts decay rate and size scale together.
#[derive(Clone, Copy, Debug, PartialEq, Eq, Structural)]
pub enum ParamSel {
    Single(ParamId),
    Paired,
}

/// One scroll step: up multiplies by 10/9, down by 9/10.
pub open spec fn spec_scrolled(v: int, up: bool) -> int {
    if up {
        clampf(tdiv(v * 10, 9))
    } else {
        clampf(tdiv(v * 9, 10))
    }
}

fn scrolled(v: i64, up: bool) -> (r: i64)
    ensures
        r == spec_scrolled(v as int, up),
{
    if up {
        clamp_i128(divt_i128((v as i128) * 10, 9))
    } else {
        clamp_i128(divt_i128((v as i128) * 9, 10))
    }
}

/// The configuration after a scroll event on the given selection.
pub open spec fn spec_apply_scroll(c: SigConfig, sel: ParamSel, up: bool) -> SigConfig {
    match sel {
        ParamSel::Single(ParamId::DecayRate) => SigConfig {
            decay_rate: spec_scrolled(c.decay_rate as int, up) as i64,
            ..c
        },
        ParamSel::Single(ParamId::MidpointOffset) => SigConfig {
            midpoint_offset: spec_scrolled(c.midpoint_offset as int, up) as i64,
            ..c
        },
        ParamSel::Single(ParamId::SizeExponent) => SigConfig {
            size_exponent: spec_scrolled(c.size_exponent as int, up) as i64,
            ..c
        },
        ParamSel::Single(ParamId::SizeScale) => SigConfig {
            size_scale: spec_scrolled(c.size_scale as int, up) as i64,
            ..c
        },
        ParamSel::Single(ParamId::ZoomScale) => SigConfig {
            zoom_scale: spec_scrolled(c.zoom_scale as int, up) as i64,
            ..c
        },
        ParamSel::Single(ParamId::HorizonLength) => SigConfig {
            horizon_length: spec_scrolled(c.horizon_length as int, up) as i64,
            ..c
        },
        ParamSel::Paired => SigConfig {
            decay_rate: spec_scrolled(c.decay_rate as int, up) as i64,
            size_scale: spec_scrolled(c.size_scale as int, up) as i64,
            ..c
        },
    }
}

impl SigConfig {
    /// Apply one scroll step to the selected parameter(s).
    pub fn apply_scroll(&mut self, sel: ParamSel, up: bool)
        ensures
            *final(self) == spec_apply_scroll(*old(self), sel, up),
    {
        match sel {
            ParamSel::Single(ParamId::DecayRate) => {
                self.decay_rate = scrolled(self.decay_rate, up);
            },
            ParamSel::Single(ParamId::MidpointOffset) => {
                self.midpoint_offset = scrolled(self.midpoint_offset, up);
            },
            ParamSel::Single(ParamId::SizeExponent) => {
                self.size_exponent = scrolled(self.size_exponent, up);
            },
            ParamSel::Single(ParamId::SizeScale) => {
                self.size_scale = scrolled(self.size_scale, up);
            },
            ParamSel::Single(ParamId::ZoomScale) => {
                self.zoom_scale = scrolled(self.zoom_scale, up);
            },
            ParamSel::Single(ParamId::HorizonLength) => {
                self.horizon_length = scrolled(self.horizon_length, up);
            },
            ParamSel::Paired => {
                self.decay_rate = scrolled(self.decay_rate, up);
                self.size_scale = scrolled(self.size_scale, up);
            },
        }
    }

    /// Read one tuning scalar.
    pub fn get_param(&self, id: ParamId) -> (r: i64)
        ensures
            r == match id {
                ParamId::DecayRate => self.decay_rate,
                ParamId::MidpointOffset => self.midpoint_offset,
                ParamId::SizeExponent => self.size_exponent,
                ParamId::SizeScale => self.size_scale,
                ParamId::ZoomScale => self.zoom_scale,
                ParamId::HorizonLength => self.horizon_length,
            },
    {
        match id {
            ParamId::DecayRate => self.decay_rate,
            ParamId::MidpointOffset => self.midpoint_offset,
            ParamId::SizeExponent => self.size_exponent,
            ParamId::SizeScale => self.size_scale,
            ParamId::ZoomScale => self.zoom_scale,
            ParamId::HorizonLength => self.horizon_length,
        }
    }
}

} // verus!
