//! The values exchanged at the bridge's edges each tick: what is observed
//! on the simulated actor, the status message published to the autonomy
//! stack, the target request handed to the feedback controller, and the
//! control applied back to the actor.

use vstd::prelude::*;

use crate::command::{MotionCommand, TimeStamp};
use crate::units::{
    heading_rate_nano, heading_rate_nano_spec, urad_to_mdeg, urad_to_mdeg_spec, SCALAR_LIMIT,
};

verus! {

/// Message header. The timestamp and frame id are placeholders kept at
/// zero and empty: real values are a documented gap of the design, not an
/// error.
pub struct StdMsgsHeader {
    pub ts: TimeStamp,
    pub frameid: String,
}

/// Status message published once per tick: longitudinal velocity in mm/s,
/// lateral velocity in mm/s (always zero: lateral velocity is not
/// modelled), heading rate in nano-units of the fixed convention.
pub struct CurrentVelocity {
    pub header: StdMsgsHeader,
    pub longitudinal_velocity: i64,
    pub lateral_velocity: i64,
    pub heading_rate: i64,
}

/// What the step loop reads fresh from the simulated actor before
/// publishing state: the norm of the velocity vector in mm/s and the
/// front-left wheel steer angle in millidegrees.
#[derive(Clone, Copy, PartialEq, Eq, Structural, Debug)]
pub struct VehicleObservation {
    pub velocity: i64,
    pub wheel_steer_angle: i64,
}

impl VehicleObservation {
    /// Both scalars are within the fixed-point envelope.
    pub open spec fn wf(self) -> bool {
        &&& -SCALAR_LIMIT <= self.velocity <= SCALAR_LIMIT
        &&& -SCALAR_LIMIT <= self.wheel_steer_angle <= SCALAR_LIMIT
    }
}

/// What the step loop reads from the simulated actor just before invoking
/// the controller: current speed in mm/s and road pitch in microradians.
#[derive(Clone, Copy, PartialEq, Eq, Structural, Debug)]
pub struct DriveObservation {
    pub current_speed: i64,
    pub pitch: i64,
}

/// Target request handed to the feedback controller: steering angle in
/// millidegrees with the sign already inverted for the simulator's
/// actuator frame, target speed in mm/s, target acceleration in mm/s^2.
#[derive(Clone, Copy, PartialEq, Eq, Structural, Debug)]
pub struct TargetRequest {
    pub steering_angle: i64,
    pub speed: i64,
    pub accel: i64,
}

/// Actuation produced by the feedback controller: throttle and brake in
/// milli (0..=1000), steer in milli (-1000..=1000), plus the gear flags.
#[derive(Clone, Copy, PartialEq, Eq, Structural, Debug)]
pub struct Output {
    pub throttle: i64,
    pub brake: i64,
    pub steer: i64,
    pub reverse: bool,
    pub hand_brake: bool,
}

/// Low-level control applied to the simulated actor. Throttle, steer and
/// brake are in milli-units as in [`Output`].
#[derive(Clone, Copy, PartialEq, Eq, Structural, Debug)]
pub struct VehicleControl {
    pub throttle: i64,
    pub steer: i64,
    pub brake: i64,
    pub hand_brake: bool,
    pub reverse: bool,
    pub manual_gear_shift: bool,
    pub gear: i32,
}

/// The steering target derived from a command: the command's steering
/// tire angle converted from microradians to millidegrees with the sign
/// inverted (positive autonomy-stack steering maps to negative degrees in
/// the actuator frame).
pub open spec fn target_steering_of(cmd: MotionCommand) -> int {
    -urad_to_mdeg_spec(cmd.lateral.steering_tire_angle as int)
}

/// Builds the target request for the feedback controller from a command
/// snapshot: steering sign-inverted and converted to millidegrees, speed
/// and acceleration carried over unchanged.
pub fn target_of(cmd: &MotionCommand) -> (t: TargetRequest)
    requires
        cmd.wf(),
    ensures
        t.steering_angle == target_steering_of(*cmd),
        t.speed == cmd.longitudinal.speed,
        t.accel == cmd.longitudinal.acceleration,
{
    TargetRequest {
        steering_angle: -urad_to_mdeg(cmd.lateral.steering_tire_angle),
        speed: cmd.longitudinal.speed,
        accel: cmd.longitudinal.acceleration,
    }
}

/// True iff `msg` is the status message the bridge publishes for the
/// observation `obs`: placeholder header (zero timestamp, empty frame
/// id), the observed velocity, zero lateral velocity, and the heading
/// rate derived from the wheel steer angle by the fixed scale.
pub open spec fn current_velocity_matches(msg: CurrentVelocity, obs: VehicleObservation) -> bool {
    &&& msg.header.ts.sec == 0
    &&& msg.header.ts.nsec == 0
    &&& msg.header.frameid@ == Seq::<char>::empty()
    &&& msg.longitudinal_velocity == obs.velocity
    &&& msg.lateral_velocity == 0
    &&& msg.heading_rate == heading_rate_nano_spec(obs.wheel_steer_angle as int)
}

/// Builds the status message for one observation of the vehicle.
pub fn current_velocity_of(obs: &VehicleObservation) -> (msg: CurrentVelocity)
    requires
        obs.wf(),
    ensures
        current_velocity_matches(msg, *obs),
{
    CurrentVelocity {
        header: StdMsgsHeader { ts: TimeStamp { sec: 0, nsec: 0 }, frameid: String::new() },
        longitudinal_velocity: obs.velocity,
        lateral_velocity: 0,
        heading_rate: heading_rate_nano(obs.wheel_steer_angle),
    }
}

/// Maps the controller's output to the control applied to the actor:
/// throttle, steer, brake and the reverse and hand-brake flags are taken
/// over directly; manual gear shift is always disabled and the gear is
/// fixed at the neutral/forward default, since gear selection beyond
/// reverse is out of the bridge's scope.
pub fn control_of(out: &Output) -> (ctrl: VehicleControl)
    ensures
        ctrl == (VehicleControl {
            throttle: out.throttle,
            steer: out.steer,
            brake: out.brake,
            hand_brake: out.hand_brake,
            reverse: out.reverse,
            manual_gear_shift: false,
            gear: 0,
        }),
{
    VehicleControl {
        throttle: out.throttle,
        steer: out.steer,
        brake: out.brake,
        hand_brake: out.hand_brake,
        reverse: out.reverse,
        manual_gear_shift: false,
        gear: 0,
    }
}

/// Sign and unit conversion of the steering target: the steering handed
/// to the controller is the command's angle converted to millidegrees and
/// sign-inverted, which is the same as converting the negated angle — the
/// inversion and the unit conversion commute exactly. The last clause
/// bounds the truncation: the target, scaled back by the conversion
/// ratio, differs from the negated input angle by less than one
/// millidegree's worth.
pub proof fn lemma_steering_sign_unit(cmd: MotionCommand)
    requires
        cmd.wf(),
    ensures
        target_steering_of(cmd) == -urad_to_mdeg_spec(cmd.lateral.steering_tire_angle as int),
        target_steering_of(cmd) == urad_to_mdeg_spec(-(cmd.lateral.steering_tire_angle as int)),
        -100_000_000 < 100_000_000 * target_steering_of(cmd) + 5_729_578 * (
        cmd.lateral.steering_tire_angle as int) < 100_000_000,
{
    let urad = cmd.lateral.steering_tire_angle as int;
    crate::units::lemma_urad_to_mdeg_odd(urad);
    if urad >= 0 {
        crate::units::lemma_urad_to_mdeg_close(urad);
    } else {
        crate::units::lemma_urad_to_mdeg_close(-urad);
    }
}

/// Neutral default: the target request derived from the neutral command a
/// bridge starts from is the zero request — zero steering, zero speed,
/// zero acceleration — so the vehicle coasts until a command arrives.
pub proof fn lemma_neutral_default()
    ensures
        target_steering_of(MotionCommand::neutral_spec()) == 0,
        MotionCommand::neutral_spec().longitudinal.speed == 0,
        MotionCommand::neutral_spec().longitudinal.acceleration == 0,
{
}

} // verus!
