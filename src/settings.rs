use vstd::prelude::*;
use crate::fixed::LIMIT;

verus! {

/// Configuration of the controller, fixed for a session.
///
/// * `mouse_sensitivity`: micro-degrees of rotation per whole unit of raw
///   mouse delta;
/// * `grounded_tolerance`: microseconds during which a jump stays available
///   after ground contact was last reported;
/// * `movement_speed`, `jump_speed`: micro-units per second;
/// * `gravity`: micro-units per second squared.
#[derive(Clone, Copy, Debug, PartialEq, Eq)]
pub struct FpsSettings {
    pub mouse_sensitivity: i64,
    pub grounded_tolerance: i64,
    pub movement_speed: i64,
    pub jump_speed: i64,
    pub gravity: i64,
}

/// `x` lies within the magnitude bound of the fixed-point representation.
pub open spec fn bounded(x: int) -> bool {
    -LIMIT <= x <= LIMIT
}

impl FpsSettings {
    /// Every value is within range and the tolerance is not negative.
    pub open spec fn wf(&self) -> bool {
        &&& bounded(self.mouse_sensitivity as int)
        &&& 0 <= self.grounded_tolerance <= LIMIT
        &&& bounded(self.movement_speed as int)
        &&& bounded(self.jump_speed as int)
        &&& bounded(self.gravity as int)
    }

    /// Settings from the five values, or `None` where one is out of range or
    /// the tolerance is negative.
    pub fn new(
        mouse_sensitivity: i64,
        grounded_tolerance: i64,
        movement_speed: i64,
        jump_speed: i64,
        gravity: i64,
    ) -> (r: Option<FpsSettings>)
        ensures
            r is Some <==> (FpsSettings {
                mouse_sensitivity,
                grounded_tolerance,
                movement_speed,
                jump_speed,
                gravity,
            }).wf(),
            r is Some ==> r->0 == (FpsSettings {
                mouse_sensitivity,
                grounded_tolerance,
                movement_speed,
                jump_speed,
                gravity,
            }),
    {
        let s = FpsSettings {
            mouse_sensitivity,
            grounded_tolerance,
            movement_speed,
            jump_speed,
            gravity,
        };
        if -LIMIT <= mouse_sensitivity && mouse_sensitivity <= LIMIT && 0 <= grounded_tolerance
            && grounded_tolerance <= LIMIT && -LIMIT <= movement_speed && movement_speed <= LIMIT
            && -LIMIT <= jump_speed && jump_speed <= LIMIT && -LIMIT <= gravity && gravity <= LIMIT {
            Some(s)
        } else {
            None
        }
    }
}

impl Default for FpsSettings {
    /// Sensitivity 0.3 degrees per unit, tolerance 0.5 s, movement and jump
    /// speed 8 units/s, gravity -9.81 units/s².
    fn default() -> (r: FpsSettings)
        ensures
            r.mouse_sensitivity == 300_000,
            r.grounded_tolerance == 500_000,
            r.movement_speed == 8_000_000,
            r.jump_speed == 8_000_000,
            r.gravity == -9_810_000,
            r.wf(),
    {
        FpsSettings {
            mouse_sensitivity: 300_000,
            grounded_tolerance: 500_000,
            movement_speed: 8_000_000,
            jump_speed: 8_000_000,
            gravity: -9_810_000,
        }
    }
}

} // verus!
