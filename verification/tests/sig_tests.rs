//! Distance compression, projection, power curve, horizon clamping, and
//! scroll adjustment.

use fisheye_drift::fix::LIMIT;
use fisheye_drift::fix::ONE;
use fisheye_drift::sig::fpow;
use fisheye_drift::sig::ParamId;
use fisheye_drift::sig::ParamSel;
use fisheye_drift::sig::SigConfig;
use fisheye_drift::sig::MIN_RENDER;
use fisheye_drift::vec2::V2;

fn default_cfg() -> SigConfig {
    Default::default()
}

#[test]
fn sig_is_zero_at_zero_distance() {
    let cfg = default_cfg();
    assert_eq!(cfg.sig(0), 0);
    assert_eq!(cfg.sig(-5 * ONE), 0);
}

#[test]
fn sig_exact_value_at_distance_100() {
    let cfg = default_cfg();
    assert_eq!(cfg.sig(100 * ONE), 43119);
    assert_eq!(cfg.sig(ONE), 1236);
}

#[test]
fn sig_stays_in_unit_range_and_is_monotone() {
    let cfg = default_cfg();
    let mut prev = 0i64;
    let mut d = 0i64;
    while d < 4000 * ONE {
        let s = cfg.sig(d);
        assert!(0 <= s && s < ONE);
        assert!(s >= prev);
        prev = s;
        d += 13 * ONE + 7;
    }
    // very large distances approach but never reach one
    let far = cfg.sig(LIMIT);
    assert!(far < ONE);
    assert!(far >= prev);
}

#[test]
fn projection_of_distant_point_exact() {
    let cfg = default_cfg();
    let origin = V2 { x: 0, y: 0 };
    let pt = V2 { x: 100 * ONE, y: 0 };
    let window = V2 { x: 800 * ONE, y: 600 * ONE };
    let (screen, sigged) = cfg.project(origin, pt, window);
    assert_eq!(sigged, 43119);
    assert_eq!(screen, V2 { x: 42384025, y: 19660800 });
}

#[test]
fn projection_at_zero_distance_hits_viewport_center() {
    let cfg = default_cfg();
    let p = V2 { x: 7 * ONE, y: -3 * ONE };
    let window = V2 { x: 800 * ONE, y: 600 * ONE };
    let (screen, sigged) = cfg.project(p, p, window);
    assert_eq!(sigged, 0);
    assert_eq!(screen, V2 { x: 400 * ONE, y: 300 * ONE });
}

#[test]
fn fpow_square_root_and_identity() {
    // 0.25 ^ 0.5 == 0.5
    assert_eq!(fpow(ONE / 4, ONE / 2), ONE / 2);
    // 1.0 ^ e == 1.0
    assert_eq!(fpow(ONE, 39322), ONE);
    // b ^ 1.0 == b for exact squares
    assert_eq!(fpow(ONE, ONE), ONE);
    // 0 ^ e with positive e is 0
    assert_eq!(fpow(0, ONE), 0);
}

#[test]
fn render_scale_default_and_floor() {
    let cfg = default_cfg();
    // sigged == 0: full size, scale * size_scale
    assert_eq!(cfg.render_scale(ONE, 0), 14418);
    // almost fully compressed: floored at the minimum dot size
    assert_eq!(cfg.render_scale(ONE, ONE - 1), MIN_RENDER);
    assert!(cfg.render_scale(1, ONE / 2) >= MIN_RENDER);
}

#[test]
fn traj_len_clamps_at_both_ends() {
    let mut cfg = default_cfg();
    assert_eq!(cfg.traj_len(), 100);
    cfg.horizon_length = -5;
    assert_eq!(cfg.traj_len(), 8);
    cfg.horizon_length = 9 * ONE;
    assert_eq!(cfg.traj_len(), 9);
    cfg.horizon_length = 1_000_000_000_000;
    assert_eq!(cfg.traj_len(), 7900);
}

#[test]
fn scroll_single_parameter_exact() {
    let mut cfg = default_cfg();
    cfg.apply_scroll(ParamSel::Single(ParamId::HorizonLength), true);
    assert_eq!(cfg.horizon_length, 7281777);
    cfg.apply_scroll(ParamSel::Single(ParamId::HorizonLength), false);
    assert_eq!(cfg.horizon_length, 6553599);
    // untouched fields keep their values
    assert_eq!(cfg.decay_rate, 1311);
    assert_eq!(cfg.size_scale, 14418);
}

#[test]
fn scroll_paired_adjusts_decay_and_size_scale_together() {
    let mut cfg = default_cfg();
    cfg.apply_scroll(ParamSel::Paired, true);
    assert_eq!(cfg.decay_rate, 1456);
    assert_eq!(cfg.size_scale, 16020);
    assert_eq!(cfg.midpoint_offset, -2621);
    let mut cfg2 = default_cfg();
    cfg2.apply_scroll(ParamSel::Paired, false);
    assert_eq!(cfg2.decay_rate, 1179);
    assert_eq!(cfg2.size_scale, 12976);
}

#[test]
fn get_param_reads_each_scalar() {
    let cfg = default_cfg();
    assert_eq!(cfg.get_param(ParamId::DecayRate), 1311);
    assert_eq!(cfg.get_param(ParamId::MidpointOffset), -2621);
    assert_eq!(cfg.get_param(ParamId::SizeExponent), 39322);
    assert_eq!(cfg.get_param(ParamId::SizeScale), 14418);
    assert_eq!(cfg.get_param(ParamId::ZoomScale), 98304);
    assert_eq!(cfg.get_param(ParamId::HorizonLength), 6553600);
}
