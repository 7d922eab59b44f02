//! The tri-state axis machine and the combined pressed acceleration.

use fisheye_drift::axes::press_accel;
use fisheye_drift::axes::AxisState;
use fisheye_drift::axes::ACCEL;
use fisheye_drift::fix::fadd;
use fisheye_drift::fix::fmul;
use fisheye_drift::fix::fsub;
use fisheye_drift::fix::LIMIT;
use fisheye_drift::fix::ONE;
use fisheye_drift::vec2::vnorm;
use fisheye_drift::vec2::V2;

#[test]
fn bump_toward_direction_engages_axis() {
    let mut a = AxisState::Zero;
    a.bump_plus();
    assert_eq!(a, AxisState::Plus);
    assert_eq!(a.value(), ACCEL);
    let mut b = AxisState::Zero;
    b.bump_minus();
    assert_eq!(b, AxisState::Minus);
    assert_eq!(b.value(), -ACCEL);
}

#[test]
fn bump_against_engaged_axis_cancels_to_neutral() {
    let mut a = AxisState::Plus;
    a.bump_minus();
    assert_eq!(a, AxisState::Zero);
    assert_eq!(a.value(), 0);
    // a second opposite bump engages the other direction
    a.bump_minus();
    assert_eq!(a, AxisState::Minus);
    // and bumping the held direction again changes nothing
    a.bump_minus();
    assert_eq!(a, AxisState::Minus);
}

#[test]
fn single_axis_acceleration_is_full_strength() {
    assert_eq!(
        press_accel(AxisState::Plus, AxisState::Zero),
        V2 { x: ACCEL, y: 0 }
    );
    assert_eq!(
        press_accel(AxisState::Zero, AxisState::Minus),
        V2 { x: 0, y: -ACCEL }
    );
    assert_eq!(
        press_accel(AxisState::Zero, AxisState::Zero),
        V2 { x: 0, y: 0 }
    );
}

#[test]
fn diagonal_acceleration_is_normalized() {
    // 26 * 5 / 7 == 18, toward both signs
    assert_eq!(
        press_accel(AxisState::Plus, AxisState::Plus),
        V2 { x: 18, y: 18 }
    );
    assert_eq!(
        press_accel(AxisState::Minus, AxisState::Plus),
        V2 { x: -18, y: 18 }
    );
}

#[test]
fn fixed_point_ops_are_exact_and_saturate() {
    assert_eq!(fadd(3 * ONE, 4 * ONE), 7 * ONE);
    assert_eq!(fsub(3 * ONE, 4 * ONE), -ONE);
    assert_eq!(fmul(3 * ONE, ONE / 2), 3 * ONE / 2);
    // truncation toward zero
    assert_eq!(fmul(1, 3), 0);
    assert_eq!(fmul(-1, 3), 0);
    // saturation at the clamp bound
    assert_eq!(fadd(LIMIT, LIMIT), LIMIT);
    assert_eq!(fsub(-LIMIT, LIMIT), -LIMIT);
    assert_eq!(fmul(LIMIT, LIMIT), LIMIT);
}

#[test]
fn vector_magnitude_is_euclidean() {
    assert_eq!(vnorm(V2 { x: 3 * ONE, y: 4 * ONE }), 5 * ONE);
    assert_eq!(vnorm(V2 { x: 0, y: 0 }), 0);
    assert_eq!(vnorm(V2 { x: -3 * ONE, y: 4 * ONE }), 5 * ONE);
}
