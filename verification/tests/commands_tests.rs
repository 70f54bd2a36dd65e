//! Tests for the command model: sources, kinds, priorities and the
//! e-stop promotion.

use rs_trainz::{
    AnyStrategy, CommandOutcome, CommandSource, CommandType, Direction, Immediate, Linear,
    PrioritizedCommand, RejectReason, ThrottleCommand, ThrottleCommandDyn, TransitionResult,
};

#[test]
fn command_source_ordering() {
    assert!(CommandSource::Mqtt < CommandSource::WebApi);
    assert!(CommandSource::WebApi < CommandSource::WebLocal);
    assert!(CommandSource::WebLocal < CommandSource::Physical);
    assert!(CommandSource::Physical < CommandSource::Fault);
    assert!(CommandSource::Fault < CommandSource::Emergency);
}

#[test]
fn command_source_equality() {
    assert_eq!(CommandSource::Physical, CommandSource::Physical);
    assert_ne!(CommandSource::Mqtt, CommandSource::WebApi);
}

#[test]
fn command_source_debug() {
    let s = format!("{:?}", CommandSource::Physical);
    assert_eq!(s, "Physical");
}

#[test]
fn command_type_ordering() {
    assert!(CommandType::SetMaxSpeed < CommandType::SetDirection);
    assert!(CommandType::SetDirection < CommandType::SetSpeed);
    assert!(CommandType::SetSpeed < CommandType::EmergencyStop);
}

#[test]
fn throttle_command_speed_immediate() {
    let cmd = ThrottleCommand::speed_immediate(5000);
    assert!(matches!(cmd, ThrottleCommand::SetSpeed { target, .. } if target == 5000));
    assert_eq!(cmd.command_type(), CommandType::SetSpeed);
}

#[test]
fn throttle_command_estop() {
    let cmd = ThrottleCommand::estop();
    assert!(matches!(cmd, ThrottleCommand::EmergencyStop));
    assert_eq!(cmd.command_type(), CommandType::EmergencyStop);
}

#[test]
fn throttle_command_set_direction() {
    let cmd: ThrottleCommand = ThrottleCommand::SetDirection(Direction::Forward);
    assert_eq!(cmd.command_type(), CommandType::SetDirection);
}

#[test]
fn throttle_command_set_max_speed() {
    let cmd: ThrottleCommand = ThrottleCommand::SetMaxSpeed(8000);
    assert_eq!(cmd.command_type(), CommandType::SetMaxSpeed);
}

#[test]
fn throttle_command_with_strategy() {
    let cmd = ThrottleCommand::SetSpeed { target: 7500, strategy: Linear::new(1000) };
    assert_eq!(cmd.command_type(), CommandType::SetSpeed);
}

#[test]
fn throttle_command_dyn_from_immediate() {
    let cmd = ThrottleCommand::speed_immediate(5000);
    let dyn_cmd: ThrottleCommandDyn = cmd.into();
    assert!(matches!(dyn_cmd, ThrottleCommandDyn::SetSpeed { target, .. } if target == 5000));
    assert_eq!(dyn_cmd.command_type(), CommandType::SetSpeed);
}

#[test]
fn throttle_command_dyn_from_linear() {
    let cmd = ThrottleCommand::SetSpeed { target: 7500, strategy: Linear::new(1000) };
    let dyn_cmd: ThrottleCommandDyn = cmd.into();
    assert!(matches!(dyn_cmd, ThrottleCommandDyn::SetSpeed { target, .. } if target == 7500));
}

#[test]
fn throttle_command_dyn_from_direction() {
    let cmd: ThrottleCommand = ThrottleCommand::SetDirection(Direction::Reverse);
    let dyn_cmd: ThrottleCommandDyn = cmd.into();
    assert!(matches!(dyn_cmd, ThrottleCommandDyn::SetDirection(Direction::Reverse)));
}

#[test]
fn throttle_command_dyn_from_estop() {
    let cmd = ThrottleCommand::estop();
    let dyn_cmd: ThrottleCommandDyn = cmd.into();
    assert!(matches!(dyn_cmd, ThrottleCommandDyn::EmergencyStop));
    assert!(dyn_cmd.is_estop());
}

#[test]
fn throttle_command_dyn_from_max_speed() {
    let cmd: ThrottleCommand = ThrottleCommand::SetMaxSpeed(6000);
    let dyn_cmd: ThrottleCommandDyn = cmd.into();
    assert!(matches!(dyn_cmd, ThrottleCommandDyn::SetMaxSpeed(s) if s == 6000));
}

#[test]
fn throttle_command_dyn_is_estop() {
    let estop = ThrottleCommandDyn::EmergencyStop;
    let speed = ThrottleCommandDyn::SetSpeed { target: 5000, strategy: AnyStrategy::new(Immediate) };
    assert!(estop.is_estop());
    assert!(!speed.is_estop());
}

#[test]
fn prioritized_command_new() {
    let cmd = ThrottleCommandDyn::EmergencyStop;
    let pc = PrioritizedCommand::new(cmd, CommandSource::Physical, 12345);
    assert_eq!(pc.source, CommandSource::Physical);
    assert_eq!(pc.timestamp_ms, 12345);
}

#[test]
fn prioritized_command_priority_normal() {
    let cmd = ThrottleCommandDyn::SetSpeed { target: 5000, strategy: AnyStrategy::new(Immediate) };
    let pc = PrioritizedCommand::new(cmd, CommandSource::WebApi, 0);
    let (source, cmd_type) = pc.priority();
    assert_eq!(source, CommandSource::WebApi);
    assert_eq!(cmd_type, CommandType::SetSpeed);
}

#[test]
fn prioritized_command_estop_promotes_to_emergency() {
    let cmd = ThrottleCommandDyn::EmergencyStop;
    let pc = PrioritizedCommand::new(cmd, CommandSource::Mqtt, 0);
    let (source, cmd_type) = pc.priority();
    assert_eq!(source, CommandSource::Emergency);
    assert_eq!(cmd_type, CommandType::EmergencyStop);
}

#[test]
fn prioritized_command_ordering_by_source() {
    let mqtt_cmd = PrioritizedCommand::new(
        ThrottleCommandDyn::SetSpeed { target: 5000, strategy: AnyStrategy::new(Immediate) },
        CommandSource::Mqtt,
        0,
    );
    let physical_cmd = PrioritizedCommand::new(
        ThrottleCommandDyn::SetSpeed { target: 5000, strategy: AnyStrategy::new(Immediate) },
        CommandSource::Physical,
        0,
    );
    assert!(physical_cmd > mqtt_cmd);
    assert!(mqtt_cmd < physical_cmd);
}

#[test]
fn prioritized_command_ordering_by_type() {
    let speed_cmd = PrioritizedCommand::new(
        ThrottleCommandDyn::SetSpeed { target: 5000, strategy: AnyStrategy::new(Immediate) },
        CommandSource::Physical,
        0,
    );
    let estop_cmd = PrioritizedCommand::new(
        ThrottleCommandDyn::EmergencyStop,
        CommandSource::Physical,
        0,
    );
    assert!(estop_cmd > speed_cmd);
}

#[test]
fn prioritized_command_equality() {
    let cmd1 = PrioritizedCommand::new(
        ThrottleCommandDyn::SetSpeed { target: 5000, strategy: AnyStrategy::new(Immediate) },
        CommandSource::Physical,
        100,
    );
    let cmd2 = PrioritizedCommand::new(
        ThrottleCommandDyn::SetSpeed { target: 8000, strategy: AnyStrategy::new(Immediate) },
        CommandSource::Physical,
        100,
    );
    assert_eq!(cmd1, cmd2);
}

#[test]
fn prioritized_command_inequality_different_timestamp() {
    let cmd1 = PrioritizedCommand::new(
        ThrottleCommandDyn::SetSpeed { target: 5000, strategy: AnyStrategy::new(Immediate) },
        CommandSource::Physical,
        100,
    );
    let cmd2 = PrioritizedCommand::new(
        ThrottleCommandDyn::SetSpeed { target: 5000, strategy: AnyStrategy::new(Immediate) },
        CommandSource::Physical,
        200,
    );
    assert_ne!(cmd1, cmd2);
}

#[test]
fn reject_reason_equality() {
    assert_eq!(RejectReason::TransitionLocked, RejectReason::TransitionLocked);
    assert_ne!(RejectReason::TransitionLocked, RejectReason::QueueFull);
}

#[test]
fn reject_reason_debug() {
    let s = format!("{:?}", RejectReason::LowerPriority);
    assert_eq!(s, "LowerPriority");
}

#[test]
fn transition_result_variants() {
    let started = TransitionResult::Started;
    let queued = TransitionResult::Queued;
    let rejected = TransitionResult::Rejected { reason: RejectReason::TransitionLocked };
    let interrupted = TransitionResult::Interrupted { previous_target: 5000 };

    assert!(matches!(started, TransitionResult::Started));
    assert!(matches!(queued, TransitionResult::Queued));
    assert!(matches!(
        rejected,
        TransitionResult::Rejected { reason: RejectReason::TransitionLocked }
    ));
    assert!(matches!(
        interrupted,
        TransitionResult::Interrupted { previous_target } if previous_target == 5000
    ));
}

#[test]
fn command_outcome_applied() {
    let outcome = CommandOutcome::Applied;
    assert!(matches!(outcome, CommandOutcome::Applied));
}

#[test]
fn command_outcome_speed_transition() {
    let outcome = CommandOutcome::SpeedTransition(TransitionResult::Started);
    assert!(matches!(outcome, CommandOutcome::SpeedTransition(TransitionResult::Started)));
}
