//! The whole simulation state and its per-frame / per-input transitions:
//! input commands mutate the axes, viewpoint, selector and tuning; a frame
//! advances the viewpoint, ticks the trajectory buffer, and reprojects the
//! window. Every transition is pinned to a spec-level function of the
//! previous state, so runs are deterministic by construction.

use vstd::prelude::*;

use crate::axes::press_accel;
use crate::axes::spec_bump_minus;
use crate::axes::spec_bump_plus;
use crate::axes::spec_press_accel;
use crate::axes::AxisState;
use crate::body::Body;
use crate::sig::spec_apply_scroll;
use crate::sig::ParamSel;
use crate::sig::SigConfig;
use crate::sig::TRAJ_CAP;
use crate::trajjer::lemma_tick_wf;
use crate::trajjer::spec_project_slice;
use crate::trajjer::spec_tick;
use crate::trajjer::wf;
use crate::trajjer::TrajView;
use crate::trajjer::Trajjer;
use crate::trajjer::TRAJ_SCALING;
use crate::vec2::v2_zero;
use crate::vec2::V2;
use crate::viewpoint::spec_micro_step;
use crate::viewpoint::Viewpoint;

verus! {

/// A discrete input event from the input boundary.
#[derive(Clone, Copy, Debug, PartialEq, Eq, Structural)]
pub enum Command {
    BumpXMinus,
    BumpXPlus,
    BumpYMinus,
    BumpYPlus,
    Stop,
    Recenter(V2),
    Select(ParamSel),
    Scroll(bool),
}

/// One item of a run: a frame tick, or an input command between frames.
#[derive(Clone, Copy, Debug, PartialEq, Eq, Structural)]
pub enum Event {
    Frame,
    Input(Command),
}

/// The full simulation state.
pub struct State {
    viewpoint: Viewpoint,
    bodies: Vec<Body>,
    window: V2,
    cfg: SigConfig,
    x_axis: AxisState,
    y_axis: AxisState,
    press_accel: V2,
    selector: ParamSel,
    trajjer: Trajjer,
}

/// The mathematical state.
pub struct StateView {
    pub viewpoint: Viewpoint,
    pub bodies: Seq<Body>,
    pub window: V2,
    pub cfg: SigConfig,
    pub x_axis: AxisState,
    pub y_axis: AxisState,
    pub press_accel: V2,
    pub selector: ParamSel,
    pub traj: TrajView,
}

impl View for State {
    type V = StateView;

    closed spec fn view(&self) -> StateView {
        StateView {
            viewpoint: self.viewpoint,
            bodies: self.bodies@,
            window: self.window,
            cfg: self.cfg,
            x_axis: self.x_axis,
            y_axis: self.y_axis,
            press_accel: self.press_accel,
            selector: self.selector,
            traj: self.trajjer@,
        }
    }
}

/// Well-formedness: the buffer is well formed and the cached
/// pressed-acceleration vector agrees with the axes.
pub open spec fn wf_state(s: StateView) -> bool {
    &&& wf(s.traj)
    &&& s.press_accel == spec_press_accel(s.x_axis, s.y_axis)
}

/// Invalidate the prediction window and recompute the pressed
/// acceleration: run after every change the prediction depended on.
pub open spec fn spec_recompute(s: StateView) -> StateView {
    StateView {
        press_accel: spec_press_accel(s.x_axis, s.y_axis),
        traj: TrajView { head: TRAJ_CAP as int, cycler: 0, ..s.traj },
        ..s
    }
}

/// The state after one input command.
pub open spec fn spec_apply_command(s: StateView, c: Command) -> StateView {
    match c {
        Command::BumpXMinus => spec_recompute(
            StateView { x_axis: spec_bump_minus(s.x_axis), ..s },
        ),
        Command::BumpXPlus => spec_recompute(StateView { x_axis: spec_bump_plus(s.x_axis), ..s }),
        Command::BumpYMinus => spec_recompute(
            StateView { y_axis: spec_bump_minus(s.y_axis), ..s },
        ),
        Command::BumpYPlus => spec_recompute(StateView { y_axis: spec_bump_plus(s.y_axis), ..s }),
        Command::Stop => spec_recompute(
            StateView {
                viewpoint: Viewpoint { pos: s.viewpoint.pos, vel: v2_zero() },
                ..s
            },
        ),
        Command::Recenter(p) => spec_recompute(
            StateView { viewpoint: Viewpoint { pos: p, vel: s.viewpoint.vel }, ..s },
        ),
        Command::Select(sel) => StateView { selector: sel, ..s },
        Command::Scroll(up) => StateView { cfg: spec_apply_scroll(s.cfg, s.selector, up), ..s },
    }
}

/// The state after one frame: the viewpoint integrates one step, the
/// buffer ticks with the new viewpoint, and the valid window is reprojected
/// from the new position.
pub open spec fn spec_update_frame(s: StateView) -> StateView {
    let stepped = spec_micro_step(s.bodies, s.press_accel, s.viewpoint.pos, s.viewpoint.vel);
    let vp = Viewpoint { pos: stepped.0, vel: stepped.1 };
    let t1 = spec_tick(s.traj, s.cfg, s.bodies, s.press_accel, vp);
    let t2 = spec_project_slice(t1, s.cfg, s.window, vp.pos);
    StateView { viewpoint: vp, traj: t2, ..s }
}

/// One event.
pub open spec fn spec_apply_event(s: StateView, e: Event) -> StateView {
    match e {
        Event::Frame => spec_update_frame(s),
        Event::Input(c) => spec_apply_command(s, c),
    }
}

/// A whole run: the events applied in order.
pub open spec fn spec_run(s: StateView, evs: Seq<Event>) -> StateView
    decreases evs.len(),
{
    if evs.len() == 0 {
        s
    } else {
        spec_run(spec_apply_event(s, evs[0]), evs.skip(1))
    }
}

/// Every event preserves well-formedness.
pub proof fn lemma_apply_event_wf(s: StateView, e: Event)
    requires
        wf_state(s),
    ensures
        wf_state(spec_apply_event(s, e)),
{
    match e {
        Event::Frame => {
            let stepped = spec_micro_step(
                s.bodies,
                s.press_accel,
                s.viewpoint.pos,
                s.viewpoint.vel,
            );
            let vp = Viewpoint { pos: stepped.0, vel: stepped.1 };
            lemma_tick_wf(s.traj, s.cfg, s.bodies, s.press_accel, vp);
        },
        Event::Input(_) => {},
    }
}

/// Determinism: two runs from equal states under the same events end in
/// equal states. Together with each executable transition being pinned to
/// its spec function, two independent executions over the same bodies and
/// events produce identical trajectory buffers.
pub proof fn lemma_run_deterministic(s1: StateView, s2: StateView, evs: Seq<Event>)
    requires
        s1 == s2,
    ensures
        spec_run(s1, evs) == spec_run(s2, evs),
{
}

/// The initial buffer: everything zeroed, empty valid region, cycler about
/// to wrap.
pub open spec fn spec_initial_traj() -> TrajView {
    TrajView {
        buf: Seq::new(TRAJ_CAP as nat, |j: int| v2_zero()),
        projected: Seq::new(TRAJ_CAP as nat, |j: int| v2_zero()),
        head: TRAJ_CAP as int,
        cycler: TRAJ_SCALING - 1,
        last_vel: v2_zero(),
    }
}

/// The initial state over a fixed body set: viewpoint at the origin at
/// rest, neutral axes, default tuning, the paired selector, and an empty
/// prediction window.
pub open spec fn spec_initial_state(bodies: Seq<Body>, window: V2) -> StateView {
    StateView {
        viewpoint: Viewpoint { pos: v2_zero(), vel: v2_zero() },
        bodies: bodies,
        window: window,
        cfg: SigConfig {
            decay_rate: 1311,
            midpoint_offset: -2621i64,
            size_exponent: 39322,
            size_scale: 14418,
            zoom_scale: 98304,
            horizon_length: 6553600,
        },
        x_axis: AxisState::Zero,
        y_axis: AxisState::Zero,
        press_accel: v2_zero(),
        selector: ParamSel::Paired,
        traj: spec_initial_traj(),
    }
}

impl State {
    /// A fresh simulation over the given bodies and viewport.
    pub fn new(bodies: Vec<Body>, window: V2) -> (r: State)
        ensures
            r@ == spec_initial_state(bodies@, window),
            wf_state(r@),
    {
        let trajjer = Trajjer::new();
        let r = State {
            viewpoint: Viewpoint { pos: V2 { x: 0, y: 0 }, vel: V2 { x: 0, y: 0 } },
            bodies,
            window,
            cfg: SigConfig::default(),
            x_axis: AxisState::Zero,
            y_axis: AxisState::Zero,
            press_accel: V2 { x: 0, y: 0 },
            selector: ParamSel::Paired,
            trajjer,
        };
        proof {
            assert(r@.traj.buf =~= spec_initial_traj().buf);
            assert(r@.traj.projected =~= spec_initial_traj().projected);
        }
        r
    }

    /// The live viewpoint.
    pub fn viewpoint(&self) -> (r: Viewpoint)
        ensures
            r == self@.viewpoint,
    {
        self.viewpoint
    }

    /// The current tuning.
    pub fn config(&self) -> (r: SigConfig)
        ensures
            r == self@.cfg,
    {
        self.cfg
    }

    /// The current scroll selection.
    pub fn selector(&self) -> (r: ParamSel)
        ensures
            r == self@.selector,
    {
        self.selector
    }

    /// The cached pressed-acceleration vector.
    pub fn press_accel_value(&self) -> (r: V2)
        ensures
            r == self@.press_accel,
    {
        self.press_accel
    }

    /// How many bodies the field holds.
    pub fn body_count(&self) -> (r: usize)
        ensures
            r == self@.bodies.len(),
    {
        self.bodies.len()
    }

    /// One body.
    pub fn body_at(&self, i: usize) -> (r: Body)
        requires
            i < self@.bodies.len(),
        ensures
            r == self@.bodies[i as int],
    {
        self.bodies[i]
    }

    /// The trajectory buffer, for reading its window.
    pub fn trajjer(&self) -> (r: &Trajjer)
        ensures
            r@ == self@.traj,
    {
        &self.trajjer
    }

    /// Invalidate the prediction and recompute the pressed acceleration.
    fn recompute_press_accel(&mut self)
        ensures
            final(self)@ == spec_recompute(old(self)@),
    {
        self.trajjer.clear_traj();
        self.press_accel = press_accel(self.x_axis, self.y_axis);
    }

    /// Apply one input command.
    pub fn apply_command(&mut self, c: Command)
        requires
            wf_state(old(self)@),
        ensures
            final(self)@ == spec_apply_command(old(self)@, c),
            wf_state(final(self)@),
    {
        match c {
            Command::BumpXMinus => {
                self.x_axis.bump_minus();
                self.recompute_press_accel();
            },
            Command::BumpXPlus => {
                self.x_axis.bump_plus();
                self.recompute_press_accel();
            },
            Command::BumpYMinus => {
                self.y_axis.bump_minus();
                self.recompute_press_accel();
            },
            Command::BumpYPlus => {
                self.y_axis.bump_plus();
                self.recompute_press_accel();
            },
            Command::Stop => {
                self.viewpoint.vel = V2 { x: 0, y: 0 };
                self.recompute_press_accel();
            },
            Command::Recenter(p) => {
                self.viewpoint.pos = p;
                self.recompute_press_accel();
            },
            Command::Select(sel) => {
                self.selector = sel;
            },
            Command::Scroll(up) => {
                let sel = self.selector;
                self.cfg.apply_scroll(sel, up);
            },
        }
    }

    /// Advance one frame.
    pub fn update(&mut self)
        requires
            wf_state(old(self)@),
        ensures
            final(self)@ == spec_update_frame(old(self)@),
            wf_state(final(self)@),
    {
        let accel = self.press_accel;
        self.viewpoint.step(&self.bodies, accel);
        proof {
            lemma_tick_wf(old(self)@.traj, self@.cfg, self@.bodies, accel, self@.viewpoint);
        }
        self.trajjer.tick(&self.cfg, &self.bodies, accel, &self.viewpoint);
        self.trajjer.project_slice(&self.cfg, self.window, self.viewpoint.pos);
    }

    /// Apply one event.
    pub fn apply_event(&mut self, e: Event)
        requires
            wf_state(old(self)@),
        ensures
            final(self)@ == spec_apply_event(old(self)@, e),
            wf_state(final(self)@),
    {
        match e {
            Event::Frame => {
                self.update();
            },
            Event::Input(c) => {
                self.apply_command(c);
            },
        }
    }

    /// Drive a whole run of events in order.
    pub fn run_events(&mut self, evs: &Vec<Event>)
        requires
            wf_state(old(self)@),
        ensures
            final(self)@ == spec_run(old(self)@, evs@),
            wf_state(final(self)@),
    {
        let n = evs.len();
        let mut i: usize = 0;
        proof {
            assert(evs@.skip(0) =~= evs@);
        }
        while i < n
            invariant
                i <= n,
                n == evs@.len(),
                wf_state(self@),
                spec_run(self@, evs@.skip(i as int)) == spec_run(old(self)@, evs@),
            decreases n - i,
        {
            let e = evs[i];
            self.apply_event(e);
            proof {
                assert(evs@.skip(i as int).skip(1) =~= evs@.skip(i + 1));
            }
            i = i + 1;
        }
    }
}

} // verus!
