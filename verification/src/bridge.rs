//! The vehicle bridge: owns the command store and the published-speed
//! scalar, and sequences one tick as a state machine — state publication
//! first, then command adoption and controller invocation, then actuation
//! application. The outside work of a tick (emitting the message on the
//! bus, querying the actor, running the numeric feedback controller,
//! applying the control) is done by the driving loop, which hands each
//! result back as the next event.

use std::sync::Arc;
use vstd::prelude::*;

use crate::command::MotionCommand;
use crate::messages::{
    control_of, current_velocity_matches, current_velocity_of, target_of, target_steering_of,
    CurrentVelocity, DriveObservation, Output, TargetRequest, VehicleControl, VehicleObservation,
};
use crate::store::CommandStore;

verus! {

/// Where the bridge stands within the current tick.
#[derive(Clone, Copy, PartialEq, Eq, Structural, Debug)]
pub enum TickPhase {
    /// No tick is under way; the next event must begin one.
    Ready,
    /// The status message of this tick has been built and handed out for
    /// publication; actuation has not been requested yet.
    StatePublished,
    /// The controller request of this tick has been handed out; its
    /// output has not been applied yet.
    AwaitingActuation,
}

/// One event from the driving loop.
pub enum TickEvent {
    /// A new tick begins; carries the freshly observed vehicle state.
    StateDue(VehicleObservation),
    /// The status message went out on the bus; carries the actor readings
    /// for the controller and the elapsed time since the previous tick in
    /// microseconds.
    StateSent(DriveObservation, u64),
    /// The feedback controller produced its actuation output.
    ActuationReady(Output),
}

/// What the driving loop must do next.
pub enum TickAction {
    /// Encode and publish this status message on the bus.
    PublishState(CurrentVelocity),
    /// Set the target on the feedback controller and step it with the
    /// carried readings.
    RunController(ControlRequest),
    /// Apply this control to the simulated actor.
    ApplyControl(VehicleControl),
    /// The event was out of order for the current phase; nothing changed.
    Rejected,
}

/// Everything one controller invocation needs: the adopted command
/// snapshot, the target request derived from it, the elapsed time in
/// microseconds, and the current speed (mm/s) and road pitch
/// (microradians) read from the actor.
#[derive(Clone, Copy, PartialEq, Eq, Structural, Debug)]
pub struct ControlRequest {
    pub command: MotionCommand,
    pub target: TargetRequest,
    pub elapsed_us: u64,
    pub current_speed: i64,
    pub pitch: i64,
}

/// The per-vehicle bridge: the command store shared with the
/// message-delivery side, the last published longitudinal speed, and the
/// tick phase.
pub struct VehicleBridge {
    /// The store the message-delivery side overwrites; share it by
    /// cloning the `Arc` outside verified code.
    pub store: Arc<CommandStore>,
    /// The last published longitudinal speed in mm/s; written only by the
    /// state-publication part of a tick.
    pub speed: i64,
    /// The bridge's position within the current tick.
    pub tick_phase: TickPhase,
}

impl VehicleBridge {
    /// Creates a bridge: neutral command stored, zero published speed,
    /// ready for its first tick.
    pub fn new() -> (b: VehicleBridge)
        ensures
            b.tick_phase is Ready,
            b.speed == 0,
    {
        VehicleBridge {
            store: Arc::new(CommandStore::new()),
            speed: 0,
            tick_phase: TickPhase::Ready,
        }
    }

    /// The last published longitudinal speed, exposed for external
    /// consumers such as diagnostics.
    pub fn current_speed_mms(&self) -> (r: i64)
        ensures
            r == self.speed,
    {
        self.speed
    }

    /// Tick part one — state publication: builds the status message for
    /// the observed vehicle state and retains the longitudinal speed in
    /// the published-speed scalar. The driving loop must emit the message
    /// on the bus before requesting actuation; a transport failure there
    /// is fatal to the tick and handled outside this crate.
    pub fn pub_current_velocity(&mut self, obs: &VehicleObservation) -> (msg: CurrentVelocity)
        requires
            old(self).tick_phase is Ready,
            obs.wf(),
        ensures
            final(self).tick_phase is StatePublished,
            final(self).store == old(self).store,
            final(self).speed == obs.velocity,
            current_velocity_matches(msg, *obs),
    {
        let msg = current_velocity_of(obs);
        self.speed = obs.velocity;
        self.tick_phase = TickPhase::StatePublished;
        msg
    }

    /// Tick part two — command adoption: snapshots the latest motion
    /// command from the store, derives the controller's target request
    /// from it, and packages it with the actor readings for the feedback
    /// controller. Requires the state of this tick to have been published
    /// first.
    pub fn update_carla_control(&mut self, drive: &DriveObservation, elapsed_us: u64) -> (req:
        ControlRequest)
        requires
            old(self).tick_phase is StatePublished,
        ensures
            final(self).tick_phase is AwaitingActuation,
            final(self).store == old(self).store,
            final(self).speed == old(self).speed,
            req.command.wf(),
            req.target.steering_angle == target_steering_of(req.command),
            req.target.speed == req.command.longitudinal.speed,
            req.target.accel == req.command.longitudinal.acceleration,
            req.elapsed_us == elapsed_us,
            req.current_speed == drive.current_speed,
            req.pitch == drive.pitch,
    {
        let command = self.store.read();
        let target = target_of(&command);
        self.tick_phase = TickPhase::AwaitingActuation;
        ControlRequest {
            command,
            target,
            elapsed_us,
            current_speed: drive.current_speed,
            pitch: drive.pitch,
        }
    }

    /// Tick part three — actuation: maps the controller's output to the
    /// control to apply to the actor and completes the tick.
    pub fn apply_carla_control(&mut self, out: &Output) -> (ctrl: VehicleControl)
        requires
            old(self).tick_phase is AwaitingActuation,
        ensures
            final(self).tick_phase is Ready,
            final(self).store == old(self).store,
            final(self).speed == old(self).speed,
            ctrl == (VehicleControl {
                throttle: out.throttle,
                steer: out.steer,
                brake: out.brake,
                hand_brake: out.hand_brake,
                reverse: out.reverse,
                manual_gear_shift: false,
                gear: 0,
            }),
    {
        self.tick_phase = TickPhase::Ready;
        control_of(out)
    }

    /// The per-tick entry point, as a state machine over events from the
    /// driving loop. Within one tick the order is strict: state
    /// publication, then controller invocation, then actuation. An event
    /// out of order — a second tick begun before the previous one
    /// completed included — is rejected and changes nothing.
    pub fn step(&mut self, ev: &TickEvent) -> (act: TickAction)
        requires
            ev matches TickEvent::StateDue(obs) ==> obs.wf(),
        ensures
            final(self).store == old(self).store,
            ev matches TickEvent::StateDue(obs) ==> old(self).tick_phase is Ready ==> {
                &&& act matches TickAction::PublishState(msg) && current_velocity_matches(msg, *obs)
                &&& final(self).tick_phase is StatePublished
                &&& final(self).speed == obs.velocity
            },
            ev matches TickEvent::StateSent(drive, elapsed_us) ==> old(self).tick_phase
                is StatePublished ==> {
                &&& act matches TickAction::RunController(req) && {
                    &&& req.command.wf()
                    &&& req.target.steering_angle == target_steering_of(req.command)
                    &&& req.target.speed == req.command.longitudinal.speed
                    &&& req.target.accel == req.command.longitudinal.acceleration
                    &&& req.elapsed_us == elapsed_us
                    &&& req.current_speed == drive.current_speed
                    &&& req.pitch == drive.pitch
                }
                &&& final(self).tick_phase is AwaitingActuation
                &&& final(self).speed == old(self).speed
            },
            ev matches TickEvent::ActuationReady(out) ==> old(self).tick_phase
                is AwaitingActuation ==> {
                &&& act matches TickAction::ApplyControl(ctrl) && ctrl == (VehicleControl {
                    throttle: out.throttle,
                    steer: out.steer,
                    brake: out.brake,
                    hand_brake: out.hand_brake,
                    reverse: out.reverse,
                    manual_gear_shift: false,
                    gear: 0,
                })
                &&& final(self).tick_phase is Ready
                &&& final(self).speed == old(self).speed
            },
            !({
                ||| ev matches TickEvent::StateDue(_) && old(self).tick_phase is Ready
                ||| ev matches TickEvent::StateSent(_, _) && old(self).tick_phase is StatePublished
                ||| ev matches TickEvent::ActuationReady(_) && old(self).tick_phase
                    is AwaitingActuation
            }) ==> {
                &&& act is Rejected
                &&& *final(self) == *old(self)
            },
    {
        match ev {
            TickEvent::StateDue(obs) => {
                if self.tick_phase == TickPhase::Ready {
                    let msg = self.pub_current_velocity(obs);
                    TickAction::PublishState(msg)
                } else {
                    TickAction::Rejected
                }
            },
            TickEvent::StateSent(drive, elapsed_us) => {
                if self.tick_phase == TickPhase::StatePublished {
                    let req = self.update_carla_control(drive, *elapsed_us);
                    TickAction::RunController(req)
                } else {
                    TickAction::Rejected
                }
            },
            TickEvent::ActuationReady(out) => {
                if self.tick_phase == TickPhase::AwaitingActuation {
                    let ctrl = self.apply_carla_control(out);
                    TickAction::ApplyControl(ctrl)
                } else {
                    TickAction::Rejected
                }
            },
        }
    }
}

} // verus!
