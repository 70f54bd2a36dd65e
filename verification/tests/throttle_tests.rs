//! Integration tests for the throttle controller.

use rs_trainz::hal::MockMotor;
use rs_trainz::{
    CommandOutcome, CommandSource, Direction, EaseInOut, Linear, ThrottleCommand,
    ThrottleCommandDyn, ThrottleController, TransitionResult,
};

#[test]
fn immediate_speed_change() {
    let motor = MockMotor::new();
    let mut controller = ThrottleController::new(motor);

    let cmd = ThrottleCommand::speed_immediate(5000);
    let result = controller.apply_command(cmd.into(), CommandSource::Physical, 0).unwrap();

    assert!(matches!(result, CommandOutcome::SpeedTransition(TransitionResult::Started)));

    controller.update(0).unwrap();
    assert_eq!(controller.current_speed(), 5000);
}

#[test]
fn linear_transition() {
    let motor = MockMotor::new();
    let mut controller = ThrottleController::new(motor);

    let cmd = ThrottleCommand::SetSpeed { target: 10000, strategy: Linear::new(1000) };
    controller.apply_command(cmd.into(), CommandSource::Physical, 0).unwrap();

    controller.update(0).unwrap();
    assert_eq!(controller.current_speed(), 0);

    controller.update(500).unwrap();
    assert_eq!(controller.current_speed(), 5000);

    controller.update(1000).unwrap();
    assert_eq!(controller.current_speed(), 10000);

    assert!(!controller.is_transitioning());
}

#[test]
fn estop_interrupts_locked_transition() {
    let motor = MockMotor::new();
    let mut controller = ThrottleController::new(motor);

    let cmd = ThrottleCommand::SetSpeed { target: 8000, strategy: EaseInOut::departure(3000) };
    controller.apply_command(cmd.into(), CommandSource::Mqtt, 0).unwrap();

    controller.update(500).unwrap();
    assert!(controller.is_transitioning());

    let cmd = ThrottleCommand::speed_immediate(2000);
    let result = controller.apply_command(cmd.into(), CommandSource::WebApi, 500).unwrap();
    assert!(matches!(result, CommandOutcome::SpeedTransition(TransitionResult::Rejected { .. })));

    let cmd = ThrottleCommand::estop();
    let result = controller.apply_command(cmd.into(), CommandSource::WebApi, 600).unwrap();
    assert!(matches!(
        result,
        CommandOutcome::SpeedTransition(TransitionResult::Interrupted { .. })
    ));

    assert_eq!(controller.current_speed(), 0);
    assert_eq!(controller.current_direction(), Direction::Stopped);
}

#[test]
fn direction_change() {
    let motor = MockMotor::new();
    let mut controller = ThrottleController::new(motor);

    assert_eq!(controller.current_direction(), Direction::Stopped);

    let cmd = ThrottleCommandDyn::SetDirection(Direction::Forward);
    controller.apply_command(cmd, CommandSource::Physical, 0).unwrap();

    assert_eq!(controller.current_direction(), Direction::Forward);

    let cmd = ThrottleCommandDyn::SetDirection(Direction::Reverse);
    controller.apply_command(cmd, CommandSource::Physical, 0).unwrap();

    assert_eq!(controller.current_direction(), Direction::Reverse);
}

#[test]
fn queued_transition() {
    let motor = MockMotor::new();
    let mut controller = ThrottleController::new(motor);

    let cmd = ThrottleCommand::speed_immediate(5000);
    controller.apply_command(cmd.into(), CommandSource::Physical, 0).unwrap();
    controller.update(0).unwrap();
    assert_eq!(controller.current_speed(), 5000);

    let cmd = ThrottleCommand::SetSpeed { target: 0, strategy: EaseInOut::arrival(1000) };
    controller.apply_command(cmd.into(), CommandSource::Physical, 100).unwrap();

    let cmd = ThrottleCommand::SetSpeed { target: 8000, strategy: EaseInOut::departure(1000) };
    let result = controller.apply_command(cmd.into(), CommandSource::Mqtt, 200).unwrap();

    assert!(matches!(result, CommandOutcome::SpeedTransition(TransitionResult::Queued)));

    controller.update(1100).unwrap();
    assert_eq!(controller.current_speed(), 0);

    controller.update(1101).unwrap();
    assert!(controller.is_transitioning());

    controller.update(2101).unwrap();
    assert_eq!(controller.current_speed(), 8000);
}

#[test]
fn max_speed_limit() {
    let motor = MockMotor::new();
    let mut controller = ThrottleController::new(motor);

    let cmd = ThrottleCommandDyn::SetMaxSpeed(5000);
    controller.apply_command(cmd, CommandSource::Physical, 0).unwrap();

    let cmd = ThrottleCommand::speed_immediate(8000);
    controller.apply_command(cmd.into(), CommandSource::Physical, 0).unwrap();
    controller.update(0).unwrap();

    assert_eq!(controller.current_speed(), 5000);
}

#[test]
fn state_snapshot() {
    let motor = MockMotor::new();
    let mut controller = ThrottleController::new(motor);

    let cmd = ThrottleCommand::SetSpeed { target: 6000, strategy: Linear::new(1000) };
    controller.apply_command(cmd.into(), CommandSource::Physical, 0).unwrap();

    let cmd = ThrottleCommandDyn::SetDirection(Direction::Forward);
    controller.apply_command(cmd, CommandSource::Physical, 0).unwrap();

    controller.update(500).unwrap();

    let state = controller.state(500);
    assert_eq!(state.speed, 3000);
    assert_eq!(state.target_speed, Some(6000));
    assert_eq!(state.direction, Direction::Forward);
    assert_eq!(state.max_speed, 10000);
    assert!(state.fault.is_none());
    assert!(state.transition_progress.is_some());
}

#[test]
fn fault_stops_motor_and_clears_transitions() {
    let motor = MockMotor::new();
    let mut controller = ThrottleController::new(motor);

    let cmd = ThrottleCommand::SetSpeed { target: 8000, strategy: Linear::new(1000) };
    controller.apply_command(cmd.into(), CommandSource::Physical, 0).unwrap();
    controller.update(500).unwrap();

    let cmd = ThrottleCommandDyn::SetDirection(Direction::Forward);
    controller.apply_command(cmd, CommandSource::Physical, 500).unwrap();

    controller.handle_fault(rs_trainz::FaultKind::Overcurrent).unwrap();
    assert!(controller.has_fault());
    assert_eq!(controller.current_speed(), 0);
    assert!(!controller.is_transitioning());
    // The pre-fault direction is preserved for the UI.
    assert_eq!(controller.current_direction(), Direction::Forward);

    controller.clear_fault();
    assert!(!controller.has_fault());
    assert_eq!(controller.current_speed(), 0);
}
