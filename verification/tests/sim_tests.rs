//! The trajectory buffer, the frame loop, and the properties of whole runs:
//! idempotent projection, refill continuity, invalidation, monotone
//! consumption, determinism, and the parallel projection path.

use fisheye_drift::body::grav_accel;
use fisheye_drift::body::Body;
use fisheye_drift::fix::ONE;
use fisheye_drift::gen::generate_bodies;
use fisheye_drift::gen::MIN_SEP;
use fisheye_drift::sig::ParamId;
use fisheye_drift::sig::ParamSel;
use fisheye_drift::sig::SigConfig;
use fisheye_drift::sig::TRAJ_CAP;
use fisheye_drift::state::Command;
use fisheye_drift::state::Event;
use fisheye_drift::state::State;
use fisheye_drift::trajjer::quarter_bounds;
use fisheye_drift::trajjer::Trajjer;
use fisheye_drift::vec2::V2;
use fisheye_drift::viewpoint::Viewpoint;

fn window() -> V2 {
    V2 {
        x: 800 * ONE,
        y: 600 * ONE,
    }
}

fn no_bodies() -> Vec<Body> {
    Vec::new()
}

#[test]
fn gravity_of_empty_field_is_zero() {
    let bodies = no_bodies();
    let g = grav_accel(&bodies, V2 { x: 5 * ONE, y: -9 * ONE });
    assert_eq!(g, V2 { x: 0, y: 0 });
}

#[test]
fn gravity_of_single_body_exact() {
    let bodies = vec![Body {
        pos: V2 { x: 100 * ONE, y: 0 },
        scale: ONE,
    }];
    let g = grav_accel(&bodies, V2 { x: 0, y: 0 });
    // softened length 102, inverse square, doubled scale, halved sum
    assert_eq!(g, V2 { x: 5, y: 0 });
    // the pull is toward the body
    let g2 = grav_accel(&bodies, V2 { x: 200 * ONE, y: 0 });
    assert!(g2.x < 0);
}

#[test]
fn viewpoint_integration_exact() {
    let bodies = no_bodies();
    let mut vp = Viewpoint {
        pos: V2 { x: 0, y: 0 },
        vel: V2 { x: 0, y: 0 },
    };
    vp.step(&bodies, V2 { x: 26, y: 0 });
    assert_eq!(vp.vel, V2 { x: 26, y: 0 });
    assert_eq!(vp.pos, V2 { x: 26, y: 0 });
    vp.step(&bodies, V2 { x: 26, y: 0 });
    assert_eq!(vp.vel, V2 { x: 52, y: 0 });
    assert_eq!(vp.pos, V2 { x: 78, y: 0 });
}

#[test]
fn projection_pass_is_idempotent() {
    let cfg: SigConfig = Default::default();
    let bodies = no_bodies();
    let me = Viewpoint {
        pos: V2 { x: 3 * ONE, y: 4 * ONE },
        vel: V2 { x: 5, y: -5 },
    };
    let mut t = Trajjer::new();
    t.tick(&cfg, &bodies, V2 { x: 26, y: 0 }, &me);
    let origin = V2 { x: ONE, y: 2 * ONE };
    t.project_slice(&cfg, window(), origin);
    let first = t.get_projected_slice(&cfg);
    t.project_slice(&cfg, window(), origin);
    let second = t.get_projected_slice(&cfg);
    assert_eq!(first, second);
}

#[test]
fn static_viewpoint_with_no_bodies_predicts_a_constant_path() {
    let mut s = State::new(no_bodies(), window());
    s.update();
    let head = s.trajjer().head();
    assert!(head < TRAJ_CAP);
    let start = s.viewpoint().pos;
    assert_eq!(start, V2 { x: 0, y: 0 });
    for i in head..TRAJ_CAP {
        assert_eq!(s.trajjer().world_point(i), start);
    }
}

#[test]
fn positive_x_press_gives_monotone_forward_trajectory() {
    let mut s = State::new(no_bodies(), window());
    s.apply_command(Command::BumpXPlus);
    s.update();
    let head = s.trajjer().head();
    let mut prev_x = i64::MIN;
    for i in head..TRAJ_CAP {
        let p = s.trajjer().world_point(i);
        assert!(p.x >= prev_x);
        prev_x = p.x;
    }
    assert!(prev_x > 0);
}

#[test]
fn invalidation_forces_a_fresh_refill_on_next_tick() {
    let mut s = State::new(no_bodies(), window());
    s.update();
    assert!(s.trajjer().head() < TRAJ_CAP);
    // an input change drops the whole window
    s.apply_command(Command::BumpXPlus);
    assert_eq!(s.trajjer().head(), TRAJ_CAP);
    // the next frame recomputes from live state: the first slot of the new
    // region holds the viewpoint's own (fresh) position
    s.update();
    let head = s.trajjer().head();
    assert_eq!(head, TRAJ_CAP - 300);
    assert_eq!(s.trajjer().world_point(head), s.viewpoint().pos);
}

#[test]
fn head_only_advances_between_refills() {
    let mut s = State::new(no_bodies(), window());
    s.update();
    let mut prev_head = s.trajjer().head();
    let mut refills = 0usize;
    for _ in 0..9000 {
        s.update();
        let h = s.trajjer().head();
        if h < prev_head {
            refills += 1;
        } else {
            assert!(h == prev_head || h == prev_head + 1);
        }
        assert!(h + s.config().traj_len() <= TRAJ_CAP);
        prev_head = h;
    }
    assert!(refills >= 1);
}

#[test]
fn refill_continues_exactly_from_the_cached_tail() {
    // constant-acceleration flight with no bodies, so one macro-step of
    // integration is reproducible in plain arithmetic
    let mut s = State::new(no_bodies(), window());
    s.apply_command(Command::BumpXPlus);
    s.update();
    let mut prev_head = s.trajjer().head();
    let mut checked = false;
    for _ in 0..9000 {
        let tail = s.trajjer().world_point(TRAJ_CAP - 1);
        let tail_vel = s.trajjer().last_vel();
        s.update();
        let h = s.trajjer().head();
        if h < prev_head && prev_head < TRAJ_CAP {
            // a refill that shifted a non-empty region: its first newly
            // computed point must be one macro-step past the old tail
            let vlen = TRAJ_CAP - (prev_head + 1);
            let cfrom = h + vlen;
            let mut p = tail;
            let mut v = tail_vel;
            for _ in 0..20 {
                v.x += 26;
                p.x += v.x;
                p.y += v.y;
            }
            assert_eq!(s.trajjer().world_point(cfrom), p);
            // and the copied region ends with the old tail itself
            assert_eq!(s.trajjer().world_point(cfrom - 1), tail);
            checked = true;
            break;
        }
        prev_head = h;
    }
    assert!(checked);
}

#[test]
fn identical_runs_produce_identical_buffers() {
    let bodies1 = generate_bodies(7, 25);
    let bodies2 = generate_bodies(7, 25);
    assert_eq!(bodies1, bodies2);
    let mut events: Vec<Event> = Vec::new();
    events.push(Event::Input(Command::BumpXPlus));
    for _ in 0..45 {
        events.push(Event::Frame);
    }
    events.push(Event::Input(Command::BumpYMinus));
    events.push(Event::Input(Command::Scroll(true)));
    for _ in 0..30 {
        events.push(Event::Frame);
    }
    events.push(Event::Input(Command::Stop));
    events.push(Event::Input(Command::Select(ParamSel::Single(
        ParamId::ZoomScale,
    ))));
    events.push(Event::Input(Command::Scroll(false)));
    events.push(Event::Input(Command::Recenter(V2 {
        x: 50 * ONE,
        y: -20 * ONE,
    })));
    for _ in 0..25 {
        events.push(Event::Frame);
    }
    let mut s1 = State::new(bodies1, window());
    let mut s2 = State::new(bodies2, window());
    s1.run_events(&events);
    s2.run_events(&events);
    assert_eq!(s1.viewpoint(), s2.viewpoint());
    assert_eq!(s1.config(), s2.config());
    assert_eq!(s1.trajjer().head(), s2.trajjer().head());
    assert_eq!(s1.trajjer().last_vel(), s2.trajjer().last_vel());
    for i in s1.trajjer().head()..TRAJ_CAP {
        assert_eq!(s1.trajjer().world_point(i), s2.trajjer().world_point(i));
    }
    assert_eq!(
        s1.trajjer().get_projected_slice(&s1.config()),
        s2.trajjer().get_projected_slice(&s2.config())
    );
}

#[test]
fn generated_bodies_respect_minimum_separation() {
    let bodies = generate_bodies(0, 25);
    assert!(bodies.len() <= 25);
    assert!(bodies.len() >= 20);
    for i in 0..bodies.len() {
        for j in (i + 1)..bodies.len() {
            let dx = (bodies[i].pos.x - bodies[j].pos.x) as i128;
            let dy = (bodies[i].pos.y - bodies[j].pos.y) as i128;
            assert!(dx * dx + dy * dy >= (MIN_SEP as i128) * (MIN_SEP as i128));
        }
        assert!(bodies[i].scale >= 3277);
    }
}

#[test]
fn asking_for_bodies_always_places_the_first() {
    // the first candidate has nothing to collide with, so one body is owed
    // whatever the generator draws
    for seed in 0..32u64 {
        let one = generate_bodies(seed, 1);
        assert_eq!(one.len(), 1);
        let many = generate_bodies(seed, 10);
        assert!(!many.is_empty());
        assert!(many.len() <= 10);
    }
    assert!(generate_bodies(3, 0).is_empty());
}

#[test]
fn parallel_projection_matches_the_sequential_formula() {
    let mut cfg: SigConfig = Default::default();
    // a horizon above the threshold takes the data-parallel path
    cfg.horizon_length = 1000 * ONE;
    assert!(cfg.traj_len() > 900);
    let bodies = vec![Body {
        pos: V2 { x: 30 * ONE, y: 40 * ONE },
        scale: ONE,
    }];
    let me = Viewpoint {
        pos: V2 { x: 2 * ONE, y: ONE },
        vel: V2 { x: 40, y: -15 },
    };
    let mut t = Trajjer::new();
    t.tick(&cfg, &bodies, V2 { x: 26, y: 18 }, &me);
    let origin = V2 { x: 5 * ONE, y: -ONE };
    t.project_slice(&cfg, window(), origin);
    let head = t.head();
    let slice = t.get_projected_slice(&cfg);
    assert_eq!(slice.len(), cfg.traj_len());
    for (k, projected) in slice.iter().enumerate() {
        let world = t.world_point(head + k);
        let expected = cfg.project(origin, world, window()).0;
        assert_eq!(*projected, expected);
        // a moving viewpoint means projections differ from world points
    }
    let any_changed = (0..slice.len()).any(|k| slice[k] != t.world_point(head + k));
    assert!(any_changed);
}

#[test]
fn quarter_bounds_partition_the_window() {
    let b = quarter_bounds(100);
    assert_eq!(b, (0, 25, 50, 75, 100));
    let b7 = quarter_bounds(7);
    assert_eq!(b7, (0, 1, 3, 5, 7));
    let b0 = quarter_bounds(0);
    assert_eq!(b0, (0, 0, 0, 0, 0));
}

#[test]
fn scroll_changes_the_visible_horizon() {
    let mut s = State::new(no_bodies(), window());
    s.apply_command(Command::Select(ParamSel::Single(ParamId::HorizonLength)));
    s.apply_command(Command::Scroll(false));
    assert_eq!(s.config().horizon_length, 5898240);
    s.update();
    assert_eq!(s.config().traj_len(), 90);
    let slice = s.trajjer().get_projected_slice(&s.config());
    assert_eq!(slice.len(), 90);
}
