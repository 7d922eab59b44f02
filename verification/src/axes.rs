//! The two tri-state input axes: a small debounced state machine per axis,
//! and the combined pressed-acceleration vector with diagonal normalization.

use vstd::prelude::*;

use crate::fix::divt_i128;
use crate::fix::tdiv;
use crate::vec2::V2;

verus! {

/// Acceleration granted by a held axis (0.0004 in fixed point).
pub const ACCEL: i64 = 26;

/// One tri-state axis.
#[derive(Clone, Copy, Debug, PartialEq, Eq, Structural)]
pub enum AxisState {
    Minus,
    Zero,
    Plus,
}

/// A bump toward the negative direction: cancels `Plus` to `Zero` instead
/// of reversing it.
pub open spec fn spec_bump_minus(a: AxisState) -> AxisState {
    match a {
        AxisState::Plus => AxisState::Zero,
        AxisState::Zero => AxisState::Minus,
        AxisState::Minus => AxisState::Minus,
    }
}

/// A bump toward the positive direction.
pub open spec fn spec_bump_plus(a: AxisState) -> AxisState {
    match a {
        AxisState::Minus => AxisState::Zero,
        AxisState::Zero => AxisState::Plus,
        AxisState::Plus => AxisState::Plus,
    }
}

/// The signed acceleration an axis contributes.
pub open spec fn spec_axis_value(a: AxisState) -> int {
    match a {
        AxisState::Minus => -ACCEL,
        AxisState::Zero => 0,
        AxisState::Plus => ACCEL as int,
    }
}

/// The pressed-acceleration vector: both axis values, scaled by 5/7
/// (approximating 1/sqrt(2)) when both axes are engaged, so diagonal motion
/// matches axis-aligned speed.
pub open spec fn spec_press_accel(x: AxisState, y: AxisState) -> V2 {
    let vx = spec_axis_value(x);
    let vy = spec_axis_value(y);
    if x != AxisState::Zero && y != AxisState::Zero {
        V2 { x: tdiv(vx * 5, 7) as i64, y: tdiv(vy * 5, 7) as i64 }
    } else {
        V2 { x: vx as i64, y: vy as i64 }
    }
}

impl AxisState {
    pub fn bump_minus(&mut self)
        ensures
            *final(self) == spec_bump_minus(*old(self)),
    {
        match *self {
            AxisState::Plus => {
                *self = AxisState::Zero;
            },
            AxisState::Zero => {
                *self = AxisState::Minus;
            },
            AxisState::Minus => {},
        }
    }

    pub fn bump_plus(&mut self)
        ensures
            *final(self) == spec_bump_plus(*old(self)),
    {
        match *self {
            AxisState::Minus => {
                *self = AxisState::Zero;
            },
            AxisState::Zero => {
                *self = AxisState::Plus;
            },
            AxisState::Plus => {},
        }
    }

    pub fn value(self) -> (r: i64)
        ensures
            r == spec_axis_value(self),
    {
        match self {
            AxisState::Minus => -ACCEL,
            AxisState::Zero => 0,
            AxisState::Plus => ACCEL,
        }
    }
}

/// The combined pressed-acceleration vector of both axes.
pub fn press_accel(x: AxisState, y: AxisState) -> (r: V2)
    ensures
        r == spec_press_accel(x, y),
{
    let vx = x.value();
    let vy = y.value();
    if x != AxisState::Zero && y != AxisState::Zero {
        let qx = divt_i128(vx as i128 * 5, 7);
        let qy = divt_i128(vy as i128 * 5, 7);
        V2 { x: qx as i64, y: qy as i64 }
    } else {
        V2 { x: vx, y: vy }
    }
}

} // verus!
