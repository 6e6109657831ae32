//! The motion command: the timestamped target request received from the
//! autonomy stack, and the adoption policy applied to each inbound
//! delivery.

use vstd::prelude::*;

use crate::units::SCALAR_LIMIT;

verus! {

/// A point in time as the autonomy stack stamps it.
#[derive(Clone, Copy, PartialEq, Eq, Structural, Debug)]
pub struct TimeStamp {
    pub sec: i32,
    pub nsec: u32,
}

/// Lateral part of a motion command: target steering tire angle and
/// steering rotation rate, both in microradians (per second for the rate).
#[derive(Clone, Copy, PartialEq, Eq, Structural, Debug)]
pub struct LateralCommand {
    pub ts: TimeStamp,
    pub steering_tire_angle: i64,
    pub steering_tire_rotation_rate: i64,
}

/// Longitudinal part of a motion command: target speed (mm/s),
/// acceleration (mm/s^2) and jerk (mm/s^3).
#[derive(Clone, Copy, PartialEq, Eq, Structural, Debug)]
pub struct LongitudinalCommand {
    pub ts: TimeStamp,
    pub speed: i64,
    pub acceleration: i64,
    pub jerk: i64,
}

/// The most recently decoded target request from the autonomy stack.
/// Replaced wholesale on each successfully decoded inbound message and
/// never updated field by field.
#[derive(Clone, Copy, PartialEq, Eq, Structural, Debug)]
pub struct MotionCommand {
    pub ts: TimeStamp,
    pub lateral: LateralCommand,
    pub longitudinal: LongitudinalCommand,
}

impl MotionCommand {
    /// Every physical scalar of the command is within the fixed-point
    /// envelope, so each unit conversion applied to it stays in range.
    pub open spec fn wf(self) -> bool {
        &&& -SCALAR_LIMIT <= self.lateral.steering_tire_angle <= SCALAR_LIMIT
        &&& -SCALAR_LIMIT <= self.lateral.steering_tire_rotation_rate <= SCALAR_LIMIT
        &&& -SCALAR_LIMIT <= self.longitudinal.speed <= SCALAR_LIMIT
        &&& -SCALAR_LIMIT <= self.longitudinal.acceleration <= SCALAR_LIMIT
        &&& -SCALAR_LIMIT <= self.longitudinal.jerk <= SCALAR_LIMIT
    }

    /// The zeroed command a bridge starts from: zero timestamps, zero
    /// steering and zero longitudinal targets, so the vehicle coasts until
    /// a real command arrives.
    pub open spec fn neutral_spec() -> MotionCommand {
        MotionCommand {
            ts: TimeStamp { sec: 0, nsec: 0 },
            lateral: LateralCommand {
                ts: TimeStamp { sec: 0, nsec: 0 },
                steering_tire_angle: 0,
                steering_tire_rotation_rate: 0,
            },
            longitudinal: LongitudinalCommand {
                ts: TimeStamp { sec: 0, nsec: 0 },
                speed: 0,
                acceleration: 0,
                jerk: 0,
            },
        }
    }

    /// Builds the neutral command.
    pub fn neutral() -> (c: MotionCommand)
        ensures
            c == MotionCommand::neutral_spec(),
            c.wf(),
    {
        MotionCommand {
            ts: TimeStamp { sec: 0, nsec: 0 },
            lateral: LateralCommand {
                ts: TimeStamp { sec: 0, nsec: 0 },
                steering_tire_angle: 0,
                steering_tire_rotation_rate: 0,
            },
            longitudinal: LongitudinalCommand {
                ts: TimeStamp { sec: 0, nsec: 0 },
                speed: 0,
                acceleration: 0,
                jerk: 0,
            },
        }
    }
}

/// The command held after one inbound delivery: a successfully decoded
/// message (`Some`) replaces the stored command wholesale, a decode
/// failure (`None`) keeps the previous command untouched.
pub open spec fn adopt_spec(current: MotionCommand, decoded: Option<MotionCommand>) -> MotionCommand {
    match decoded {
        Some(c) => c,
        None => current,
    }
}

/// Applies the adoption policy to the outcome of decoding one inbound
/// message.
pub fn adopt(current: MotionCommand, decoded: Option<MotionCommand>) -> (r: MotionCommand)
    ensures
        r == adopt_spec(current, decoded),
{
    match decoded {
        Some(c) => c,
        None => current,
    }
}

/// An adopted command replaces the previous one in full: every part of
/// the result comes from the new command, never a field-wise mix of the
/// two.
pub proof fn lemma_update_replaces_wholly(prev: MotionCommand, c: MotionCommand)
    ensures
        adopt_spec(prev, Some(c)) == c,
        adopt_spec(prev, Some(c)).ts == c.ts,
        adopt_spec(prev, Some(c)).lateral == c.lateral,
        adopt_spec(prev, Some(c)).longitudinal == c.longitudinal,
{
}

/// A decode failure leaves the stored command exactly as it was: the
/// bridge keeps executing the last good command rather than defaulting to
/// neutral on one corrupt message.
pub proof fn lemma_stale_on_decode_failure(current: MotionCommand)
    ensures
        adopt_spec(current, None::<MotionCommand>) == current,
{
}

} // verus!
