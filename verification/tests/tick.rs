use vehicle_bridge::bridge::{TickAction, TickEvent, TickPhase, VehicleBridge};
use vehicle_bridge::command::{
    LateralCommand, LongitudinalCommand, MotionCommand, TimeStamp,
};
use vehicle_bridge::messages::{DriveObservation, Output, VehicleObservation};

fn command(angle_urad: i64, speed_mms: i64, accel_mmss: i64) -> MotionCommand {
    MotionCommand {
        ts: TimeStamp { sec: 1, nsec: 2 },
        lateral: LateralCommand {
            ts: TimeStamp { sec: 1, nsec: 2 },
            steering_tire_angle: angle_urad,
            steering_tire_rotation_rate: 0,
        },
        longitudinal: LongitudinalCommand {
            ts: TimeStamp { sec: 1, nsec: 2 },
            speed: speed_mms,
            acceleration: accel_mmss,
            jerk: 0,
        },
    }
}

fn obs(velocity: i64, wheel: i64) -> VehicleObservation {
    VehicleObservation { velocity, wheel_steer_angle: wheel }
}

fn drive(speed: i64, pitch: i64) -> DriveObservation {
    DriveObservation { current_speed: speed, pitch }
}

const OUT: Output =
    Output { throttle: 320, brake: 0, steer: -150, reverse: false, hand_brake: false };

#[test]
fn published_state_carries_observation() {
    let mut b = VehicleBridge::new();
    let act = b.step(&TickEvent::StateDue(obs(12_340, 1000)));
    match act {
        TickAction::PublishState(msg) => {
            assert_eq!(msg.longitudinal_velocity, 12_340);
            assert_eq!(msg.lateral_velocity, 0);
            assert_eq!(msg.heading_rate, -8_660_000);
            assert_eq!(msg.header.ts.sec, 0);
            assert_eq!(msg.header.ts.nsec, 0);
            assert_eq!(msg.header.frameid, "");
        }
        _ => panic!("state publication expected"),
    }
    assert_eq!(b.current_speed_mms(), 12_340);
}

#[test]
fn heading_rate_scale_on_unit_wheel_angle() {
    // One degree of wheel steer angle publishes a heading rate of
    // -0.00866 (in nano-units of the convention).
    let mut b = VehicleBridge::new();
    match b.step(&TickEvent::StateDue(obs(0, 1000))) {
        TickAction::PublishState(msg) => {
            assert_eq!(msg.heading_rate, -8_660_000);
            assert!((msg.heading_rate as f64 * 1e-9 - (-0.00866)).abs() < 1e-12);
        }
        _ => panic!("state publication expected"),
    }
}

#[test]
fn neutral_default_before_any_command() {
    // Before any command was ever received, the target request handed to
    // the controller is the zero command.
    let mut b = VehicleBridge::new();
    b.step(&TickEvent::StateDue(obs(0, 0)));
    match b.step(&TickEvent::StateSent(drive(0, 0), 16_000)) {
        TickAction::RunController(req) => {
            assert_eq!(req.target.steering_angle, 0);
            assert_eq!(req.target.speed, 0);
            assert_eq!(req.target.accel, 0);
            assert_eq!(req.command, MotionCommand::neutral());
        }
        _ => panic!("controller request expected"),
    }
}

#[test]
fn steering_sign_and_unit_round_trip() {
    // A steering angle of pi/4 radians becomes a target of about -45
    // degrees: sign inverted, radians converted to degrees.
    let mut b = VehicleBridge::new();
    b.store.update(command(785_398, 5000, 200));
    b.step(&TickEvent::StateDue(obs(4900, 0)));
    match b.step(&TickEvent::StateSent(drive(4900, -2000), 16_000)) {
        TickAction::RunController(req) => {
            let degrees = req.target.steering_angle as f64 * 1e-3;
            assert!((degrees - (-45.0)).abs() < 0.01, "got {degrees}");
            assert_eq!(req.target.speed, 5000);
            assert_eq!(req.target.accel, 200);
            assert_eq!(req.current_speed, 4900);
            assert_eq!(req.pitch, -2000);
            assert_eq!(req.elapsed_us, 16_000);
        }
        _ => panic!("controller request expected"),
    }
}

#[test]
fn applied_control_maps_output_and_fixes_gear() {
    let mut b = VehicleBridge::new();
    b.step(&TickEvent::StateDue(obs(0, 0)));
    b.step(&TickEvent::StateSent(drive(0, 0), 16_000));
    match b.step(&TickEvent::ActuationReady(OUT)) {
        TickAction::ApplyControl(ctrl) => {
            assert_eq!(ctrl.throttle, 320);
            assert_eq!(ctrl.brake, 0);
            assert_eq!(ctrl.steer, -150);
            assert!(!ctrl.reverse);
            assert!(!ctrl.hand_brake);
            assert!(!ctrl.manual_gear_shift);
            assert_eq!(ctrl.gear, 0);
        }
        _ => panic!("control application expected"),
    }
    assert_eq!(b.tick_phase, TickPhase::Ready);
}

#[test]
fn reverse_and_hand_brake_flags_carry_over() {
    let mut b = VehicleBridge::new();
    b.step(&TickEvent::StateDue(obs(0, 0)));
    b.step(&TickEvent::StateSent(drive(0, 0), 16_000));
    let out = Output { throttle: 0, brake: 500, steer: 0, reverse: true, hand_brake: true };
    match b.step(&TickEvent::ActuationReady(out)) {
        TickAction::ApplyControl(ctrl) => {
            assert!(ctrl.reverse);
            assert!(ctrl.hand_brake);
            assert!(!ctrl.manual_gear_shift);
        }
        _ => panic!("control application expected"),
    }
}

#[test]
fn actuation_is_ordered_after_state_publication() {
    // Within one tick, actuation cannot be requested or applied before
    // the state of the tick was published.
    let mut b = VehicleBridge::new();
    assert!(matches!(
        b.step(&TickEvent::StateSent(drive(0, 0), 16_000)),
        TickAction::Rejected
    ));
    assert!(matches!(b.step(&TickEvent::ActuationReady(OUT)), TickAction::Rejected));
    assert_eq!(b.tick_phase, TickPhase::Ready);
    assert!(matches!(
        b.step(&TickEvent::StateDue(obs(0, 0))),
        TickAction::PublishState(_)
    ));
    assert!(matches!(b.step(&TickEvent::ActuationReady(OUT)), TickAction::Rejected));
    assert!(matches!(
        b.step(&TickEvent::StateSent(drive(0, 0), 16_000)),
        TickAction::RunController(_)
    ));
    assert!(matches!(
        b.step(&TickEvent::ActuationReady(OUT)),
        TickAction::ApplyControl(_)
    ));
}

#[test]
fn no_cross_tick_overlap() {
    // A second tick cannot begin while one is under way; the overlapping
    // event is rejected and changes nothing.
    let mut b = VehicleBridge::new();
    b.step(&TickEvent::StateDue(obs(777, 0)));
    assert!(matches!(
        b.step(&TickEvent::StateDue(obs(999, 0))),
        TickAction::Rejected
    ));
    assert_eq!(b.current_speed_mms(), 777);
    assert_eq!(b.tick_phase, TickPhase::StatePublished);
    b.step(&TickEvent::StateSent(drive(777, 0), 16_000));
    assert!(matches!(
        b.step(&TickEvent::StateDue(obs(999, 0))),
        TickAction::Rejected
    ));
    b.step(&TickEvent::ActuationReady(OUT));
    // Only now may the next tick begin.
    assert!(matches!(
        b.step(&TickEvent::StateDue(obs(999, 0))),
        TickAction::PublishState(_)
    ));
}

#[test]
fn command_adopted_mid_stream_is_used_next_tick() {
    // A command delivered between ticks is picked up whole by the next
    // snapshot.
    let mut b = VehicleBridge::new();
    let shared = b.store.clone();
    b.step(&TickEvent::StateDue(obs(0, 0)));
    shared.submit(Some(command(-100_000, 3000, 150)));
    match b.step(&TickEvent::StateSent(drive(0, 0), 16_000)) {
        TickAction::RunController(req) => {
            assert_eq!(req.command, command(-100_000, 3000, 150));
            assert_eq!(req.target.speed, 3000);
            // Sign inversion: negative command angle, positive target.
            assert_eq!(req.target.steering_angle, 5729);
        }
        _ => panic!("controller request expected"),
    }
}
