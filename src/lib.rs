//! A first-person kinematic character controller.
//!
//! Every quantity is held in fixed point: lengths in micro-units, time in
//! microseconds, angles in micro-degrees, and dimensionless factors scaled by
//! [`fixed::SCALE`]. The controller turns key states and mouse samples into a
//! movement intent and a look accumulator, integrates vertical motion with
//! coyote time and gravity, and derives body yaw and camera pitch.

pub mod fixed;
pub mod settings;
pub mod input;
pub mod motion;
pub mod orientation;
