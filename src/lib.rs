//! Planar motion of a steerable boat under throttle and rudder control.
//!
//! All physical quantities are fixed-point integers: the integer [`fixed::UNIT`]
//! stands for the real number 1, so `1_500_000` is 1.5 (metres, seconds,
//! radians, ...). Sines and cosines are supplied by the caller in a
//! [`vessel::Steering`]; every other part of a tick is computed here.
pub mod config;
pub mod fixed;
pub mod laws;
pub mod vessel;

pub use config::Configuration;
pub use fixed::{isqrt_u128, mul_fixed, HALF_PI, MAX_COEFF, MAX_SPEED, PI, UNIT};
pub use vessel::{apply_input, Rudder, Ship, Steering, Vec2, STRAIGHT};
