//! Tests for the transition manager: locks, queueing, e-stop and
//! progress reporting.

use rs_trainz::{
    AnyStrategy, CommandSource, EaseInOut, Immediate, Linear, RejectReason, TransitionLock,
    TransitionManager, TransitionProgress, TransitionResult,
};

fn immediate() -> AnyStrategy {
    AnyStrategy::new(Immediate)
}

fn linear(ms: u64) -> AnyStrategy {
    AnyStrategy::new(Linear::new(ms))
}

fn linear_locked(ms: u64) -> AnyStrategy {
    AnyStrategy::new(Linear::locked(ms))
}

fn linear_source_locked(ms: u64) -> AnyStrategy {
    AnyStrategy::new(Linear::source_locked(ms))
}

fn arrival(ms: u64) -> AnyStrategy {
    AnyStrategy::new(EaseInOut::arrival(ms))
}

#[test]
fn new_starts_at_initial_value() {
    let tm = TransitionManager::new(5000);
    assert_eq!(tm.current(), 5000);
    assert!(!tm.is_transitioning());
    assert!(tm.target().is_none());
}

#[test]
fn start_immediate_transition() {
    let mut tm = TransitionManager::new(0);
    let result = tm.try_start(10000, immediate(), CommandSource::Physical, false, 0);

    assert!(matches!(result, TransitionResult::Started));
    assert!(tm.is_transitioning());

    let (val, complete) = tm.update(0);
    assert_eq!(val, 10000);
    assert!(complete);
    assert!(!tm.is_transitioning());
}

#[test]
fn start_linear_transition() {
    let mut tm = TransitionManager::new(0);
    let result = tm.try_start(10000, linear(1000), CommandSource::Physical, false, 0);

    assert!(matches!(result, TransitionResult::Started));
    assert!(tm.is_transitioning());
    assert_eq!(tm.target().unwrap(), 10000);
}

#[test]
fn linear_transition_interpolates_correctly() {
    let mut tm = TransitionManager::new(0);
    let _ = tm.try_start(10000, linear(1000), CommandSource::Physical, false, 0);

    let (val, complete) = tm.update(0);
    assert_eq!(val, 0);
    assert!(!complete);

    let (val, complete) = tm.update(500);
    assert_eq!(val, 5000);
    assert!(!complete);

    let (val, complete) = tm.update(1000);
    assert_eq!(val, 10000);
    assert!(complete);
    assert!(!tm.is_transitioning());
}

#[test]
fn estop_interrupts_any_transition() {
    let mut tm = TransitionManager::new(0);
    let _ = tm.try_start(10000, linear_locked(5000), CommandSource::Physical, false, 0);

    let result = tm.try_start(0, immediate(), CommandSource::Mqtt, true, 100);

    assert!(
        matches!(result, TransitionResult::Interrupted { previous_target } if previous_target == 10000)
    );
    assert!(!tm.is_transitioning());
    assert_eq!(tm.current(), 0);
}

#[test]
fn estop_clears_queued() {
    let mut tm = TransitionManager::new(5000);
    let _ = tm.try_start(0, arrival(1000), CommandSource::Physical, false, 0);

    let result = tm.try_start(8000, linear(500), CommandSource::Mqtt, false, 100);
    assert!(matches!(result, TransitionResult::Queued));

    let _ = tm.try_start(0, immediate(), CommandSource::Mqtt, true, 200);

    let _ = tm.update(200);
    let _ = tm.update(201);
    assert!(!tm.is_transitioning());
    assert_eq!(tm.current(), 0);
}

#[test]
fn estop_when_no_active_transition() {
    let mut tm = TransitionManager::new(5000);
    let result = tm.try_start(0, immediate(), CommandSource::Mqtt, true, 0);

    assert!(matches!(result, TransitionResult::Started));
    assert_eq!(tm.current(), 0);
}

#[test]
fn no_lock_allows_interruption() {
    let mut tm = TransitionManager::new(0);
    let _ = tm.try_start(10000, linear(1000), CommandSource::Physical, false, 0);

    let result = tm.try_start(5000, immediate(), CommandSource::Mqtt, false, 100);
    assert!(matches!(result, TransitionResult::Interrupted { .. }));
}

#[test]
fn source_lock_allows_same_or_higher_priority() {
    let mut tm = TransitionManager::new(0);
    let _ = tm.try_start(10000, linear_source_locked(1000), CommandSource::WebApi, false, 0);

    let result = tm.try_start(5000, immediate(), CommandSource::Physical, false, 100);
    assert!(matches!(result, TransitionResult::Interrupted { .. }));
}

#[test]
fn source_lock_blocks_lower_priority() {
    let mut tm = TransitionManager::new(0);
    let _ = tm.try_start(10000, linear_source_locked(1000), CommandSource::Physical, false, 0);

    let result = tm.try_start(5000, immediate(), CommandSource::Mqtt, false, 100);
    assert!(matches!(
        result,
        TransitionResult::Rejected { reason: RejectReason::LowerPriority }
    ));
}

#[test]
fn hard_lock_blocks_all_except_estop() {
    let mut tm = TransitionManager::new(0);
    let _ = tm.try_start(10000, linear_locked(1000), CommandSource::Mqtt, false, 0);

    let result = tm.try_start(5000, immediate(), CommandSource::Emergency, false, 100);
    assert!(matches!(
        result,
        TransitionResult::Rejected { reason: RejectReason::TransitionLocked }
    ));
}

#[test]
fn hard_lock_allows_estop() {
    let mut tm = TransitionManager::new(0);
    let _ = tm.try_start(10000, linear_locked(1000), CommandSource::Mqtt, false, 0);

    let result = tm.try_start(0, immediate(), CommandSource::Mqtt, true, 100);
    assert!(matches!(result, TransitionResult::Interrupted { .. }));
}

#[test]
fn queue_behavior_queues_command() {
    let mut tm = TransitionManager::new(5000);
    let _ = tm.try_start(0, arrival(1000), CommandSource::Physical, false, 0);

    let result = tm.try_start(8000, linear(500), CommandSource::Mqtt, false, 100);
    assert!(matches!(result, TransitionResult::Queued));
}

#[test]
fn queue_full_rejects() {
    let mut tm = TransitionManager::new(5000);
    let _ = tm.try_start(0, arrival(1000), CommandSource::Physical, false, 0);

    let result = tm.try_start(8000, linear(500), CommandSource::Mqtt, false, 100);
    assert!(matches!(result, TransitionResult::Queued));

    let result = tm.try_start(9000, linear(500), CommandSource::Mqtt, false, 200);
    assert!(matches!(result, TransitionResult::Rejected { reason: RejectReason::QueueFull }));
}

#[test]
fn queued_starts_after_active_completes() {
    let mut tm = TransitionManager::new(5000);
    let _ = tm.try_start(0, arrival(1000), CommandSource::Physical, false, 0);
    let _ = tm.try_start(8000, linear(500), CommandSource::Mqtt, false, 100);

    let _ = tm.update(1000);
    assert!(!tm.is_transitioning());

    let _ = tm.update(1001);
    assert!(tm.is_transitioning());
    assert_eq!(tm.target().unwrap(), 8000);
}

#[test]
fn cancel_and_set() {
    let mut tm = TransitionManager::new(0);
    let _ = tm.try_start(10000, linear(1000), CommandSource::Physical, false, 0);
    let _ = tm.try_start(8000, linear(500), CommandSource::Physical, false, 100);

    tm.cancel_and_set(2500);

    assert!(!tm.is_transitioning());
    assert_eq!(tm.current(), 2500);

    let _ = tm.update(0);
    assert!(!tm.is_transitioning());
}

#[test]
fn cancel_all() {
    let mut tm = TransitionManager::new(0);
    let _ = tm.try_start(10000, linear(1000), CommandSource::Physical, false, 0);

    let _ = tm.update(500);
    let mid_value = tm.current();

    tm.cancel_all();

    assert!(!tm.is_transitioning());
    assert_eq!(tm.current(), mid_value);
}

#[test]
fn lock_status_when_active() {
    let mut tm = TransitionManager::new(0);
    let _ = tm.try_start(10000, linear_locked(1000), CommandSource::Physical, false, 0);

    let status = tm.lock_status().unwrap();
    assert_eq!(status.lock, TransitionLock::Hard);
    assert_eq!(status.source, CommandSource::Physical);
    assert_eq!(status.target, 10000);
    assert!(!status.has_queued);
}

#[test]
fn lock_status_shows_queued() {
    let mut tm = TransitionManager::new(5000);
    let _ = tm.try_start(0, arrival(1000), CommandSource::Physical, false, 0);
    let _ = tm.try_start(8000, linear(500), CommandSource::Mqtt, false, 100);

    let status = tm.lock_status().unwrap();
    assert!(status.has_queued);
}

#[test]
fn lock_status_none_when_no_transition() {
    let tm = TransitionManager::new(0);
    assert!(tm.lock_status().is_none());
}

#[test]
fn progress_info() {
    let mut tm = TransitionManager::new(0);
    let _ = tm.try_start(10000, linear(1000), CommandSource::Physical, false, 0);

    let _ = tm.update(500);

    let progress = tm.progress(500).unwrap();
    assert_eq!(progress.from, 0);
    assert_eq!(progress.to, 10000);
    assert_eq!(progress.current, 5000);
    assert_eq!(progress.elapsed_ms, 500);
    assert_eq!(progress.estimated_total_ms, Some(1000));
}

#[test]
fn progress_percent() {
    let mut tm = TransitionManager::new(0);
    let _ = tm.try_start(10000, linear(1000), CommandSource::Physical, false, 0);
    let _ = tm.update(250);

    let progress = tm.progress(250).unwrap();
    let pct = progress.percent().unwrap();
    assert_eq!(pct, 2500);
}

#[test]
fn progress_percent_zero_duration() {
    let progress = TransitionProgress {
        from: 0,
        to: 10000,
        current: 10000,
        elapsed_ms: 0,
        estimated_total_ms: Some(0),
    };
    assert_eq!(progress.percent().unwrap(), 10000);
}

#[test]
fn progress_percent_none_for_unknown_duration() {
    let progress = TransitionProgress {
        from: 0,
        to: 10000,
        current: 5000,
        elapsed_ms: 100,
        estimated_total_ms: None,
    };
    assert!(progress.percent().is_none());
}

#[test]
fn progress_none_when_no_transition() {
    let tm = TransitionManager::new(0);
    assert!(tm.progress(0).is_none());
}

#[test]
fn update_with_no_active_transition() {
    let mut tm = TransitionManager::new(5000);
    let (val, complete) = tm.update(100);
    assert_eq!(val, 5000);
    assert!(complete);
}

#[test]
fn transition_continues_from_current_value() {
    let mut tm = TransitionManager::new(0);

    let _ = tm.try_start(5000, immediate(), CommandSource::Physical, false, 0);
    let _ = tm.update(0);

    let _ = tm.try_start(10000, linear(1000), CommandSource::Physical, false, 100);

    let progress = tm.progress(100).unwrap();
    assert_eq!(progress.from, 5000);
}

#[test]
fn interrupt_updates_from_value() {
    let mut tm = TransitionManager::new(0);

    let _ = tm.try_start(10000, linear(1000), CommandSource::Physical, false, 0);
    let _ = tm.update(500);

    let _ = tm.try_start(0, linear(500), CommandSource::Physical, false, 500);

    let progress = tm.progress(500).unwrap();
    assert_eq!(progress.from, 5000);
    assert_eq!(progress.to, 0);
}

#[test]
fn same_source_can_interrupt_source_locked() {
    let mut tm = TransitionManager::new(0);
    let _ = tm.try_start(10000, linear_source_locked(1000), CommandSource::Physical, false, 0);

    let result = tm.try_start(5000, immediate(), CommandSource::Physical, false, 100);
    assert!(matches!(result, TransitionResult::Interrupted { .. }));
}
