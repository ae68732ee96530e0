//! What the main loop does with each motion sensor reading.

use vstd::prelude::*;

verus! {

/// The motion sensor's reading compared with the one before.
#[derive(Clone, Copy, Debug, PartialEq, Eq, Structural)]
pub enum MotionChange {
    /// Motion now, none before: announce it, then measure.
    Started,
    /// Motion now and before: measure.
    Continuing,
    /// No motion now, motion before: announce it and blank the distance.
    Stopped,
    /// No motion now or before.
    Idle,
}

impl MotionChange {
    /// Whether the distance is to be measured, shown and handed to the rattle.
    pub open spec fn measures(self) -> bool {
        self == MotionChange::Started || self == MotionChange::Continuing
    }
}

/// Classify a reading against the previous one.
pub fn motion_change(prev_motion_detected: bool, is_motion_detected: bool) -> (c: MotionChange)
    ensures
        c.measures() == is_motion_detected,
        c == MotionChange::Started <==> (!prev_motion_detected && is_motion_detected),
        c == MotionChange::Stopped <==> (prev_motion_detected && !is_motion_detected),
        c == MotionChange::Idle <==> (!prev_motion_detected && !is_motion_detected),
{
    if is_motion_detected {
        if !prev_motion_detected {
            MotionChange::Started
        } else {
            MotionChange::Continuing
        }
    } else if prev_motion_detected {
        MotionChange::Stopped
    } else {
        MotionChange::Idle
    }
}

} // verus!
