//! A small orbital-drift sandbox core: a fixed set of attracting bodies, a
//! moving viewpoint, a nonlinear ("fisheye") world-to-screen projection, and
//! an amortized sliding-window buffer that predicts the viewpoint's future
//! path. All scalar quantities are fixed-point integers (16 fractional bits),
//! so every formula is exact and checked.

pub mod axes;
pub mod body;
pub mod fix;
pub mod gen;
pub mod sig;
pub mod state;
pub mod trajjer;
pub mod vec2;
pub mod viewpoint;

pub use fix::ONE;
