use vstd::prelude::*;
use crate::input::LookInput;

verus! {

/// Orientation in micro-degrees: the body's yaw about the vertical axis and
/// the camera's pitch about the lateral axis.
#[derive(Clone, Copy, Debug, PartialEq, Eq)]
pub struct Orientation {
    pub body_yaw: i64,
    pub camera_pitch: i64,
}

/// The orientation after an update from the look accumulator: set from the
/// accumulated angles, not composed with the previous orientation.
pub open spec fn look_update(prev: Orientation, look: LookInput) -> Orientation {
    Orientation { body_yaw: look.yaw, camera_pitch: look.pitch }
}

impl Orientation {
    /// Facing straight ahead.
    pub fn identity() -> (r: Orientation)
        ensures
            r.body_yaw == 0 && r.camera_pitch == 0,
    {
        Orientation { body_yaw: 0, camera_pitch: 0 }
    }
}

/// Overwrites the orientation from the accumulated look angles: body yaw
/// from the yaw, camera pitch from the pitch. Nothing of the previous value
/// is kept.
pub fn player_look(orientation: &mut Orientation, look: &LookInput)
    ensures
        *final(orientation) == look_update(*old(orientation), *look),
{
    orientation.body_yaw = look.yaw;
    orientation.camera_pitch = look.pitch;
}

/// Two consecutive updates from the same look accumulator give the same
/// orientation, and the result does not depend on the orientation before.
pub proof fn lemma_orientation_overwrite(start: Orientation, other: Orientation, look: LookInput)
    ensures
        look_update(look_update(start, look), look) == look_update(start, look),
        look_update(start, look) == look_update(other, look),
{
}

} // verus!
