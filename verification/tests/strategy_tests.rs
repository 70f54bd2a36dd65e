//! Tests for the four execution strategies: interpolation values,
//! durations, locks and interrupt policies.

use rs_trainz::{
    EaseInOut, ExecutionStrategy, Immediate, InterruptBehavior, Linear, Momentum, TransitionLock,
};

#[test]
fn immediate_returns_target_instantly() {
    let s = Immediate;
    let (val, done) = s.interpolate(0, 10000, 0);
    assert_eq!(val, 10000);
    assert!(done);
}

#[test]
fn immediate_ignores_elapsed_time() {
    let s = Immediate;
    let (val, done) = s.interpolate(0, 10000, 999999);
    assert_eq!(val, 10000);
    assert!(done);
}

#[test]
fn immediate_duration_is_zero() {
    assert_eq!(Immediate.duration_ms(), Some(0));
}

#[test]
fn immediate_default_lock_is_none() {
    assert_eq!(Immediate.lock(), TransitionLock::NoLock);
}

#[test]
fn linear_at_zero_elapsed() {
    let s = Linear::new(1000);
    let (val, done) = s.interpolate(0, 10000, 0);
    assert_eq!(val, 0);
    assert!(!done);
}

#[test]
fn linear_at_half_elapsed() {
    let s = Linear::new(1000);
    let (val, done) = s.interpolate(0, 10000, 500);
    assert_eq!(val, 5000);
    assert!(!done);
}

#[test]
fn linear_at_full_elapsed() {
    let s = Linear::new(1000);
    let (val, done) = s.interpolate(0, 10000, 1000);
    assert_eq!(val, 10000);
    assert!(done);
}

#[test]
fn linear_beyond_duration() {
    let s = Linear::new(1000);
    let (val, done) = s.interpolate(0, 10000, 2000);
    assert_eq!(val, 10000);
    assert!(done);
}

#[test]
fn linear_zero_duration_completes_immediately() {
    let s = Linear::new(0);
    let (val, done) = s.interpolate(0, 10000, 0);
    assert_eq!(val, 10000);
    assert!(done);
}

#[test]
fn linear_reverse_direction() {
    let s = Linear::new(1000);
    let (val, _) = s.interpolate(10000, 0, 500);
    assert_eq!(val, 5000);
}

#[test]
fn linear_locked_has_hard_lock() {
    let s = Linear::locked(1000);
    assert_eq!(s.lock(), TransitionLock::Hard);
    assert_eq!(s.on_interrupt(), InterruptBehavior::Reject);
}

#[test]
fn linear_source_locked_has_source_lock() {
    let s = Linear::source_locked(1000);
    assert_eq!(s.lock(), TransitionLock::Source);
    assert_eq!(s.on_interrupt(), InterruptBehavior::Replace);
}

#[test]
fn linear_new_has_no_lock() {
    let s = Linear::new(1000);
    assert_eq!(s.lock(), TransitionLock::NoLock);
    assert_eq!(s.on_interrupt(), InterruptBehavior::Replace);
}

#[test]
fn linear_duration_ms_returns_value() {
    let s = Linear::new(1234);
    assert_eq!(s.duration_ms(), Some(1234));
}

#[test]
fn ease_in_out_starts_slow() {
    let s = EaseInOut::new(1000);
    let (val, _) = s.interpolate(0, 10000, 100);
    // The smoothstep at a tenth of the way is well below linear.
    assert!(val < 500);
}

#[test]
fn ease_in_out_midpoint_is_half() {
    let s = EaseInOut::new(1000);
    let (val, _) = s.interpolate(0, 10000, 500);
    assert_eq!(val, 5000);
}

#[test]
fn ease_in_out_ends_slow() {
    let s = EaseInOut::new(1000);
    let (val, _) = s.interpolate(0, 10000, 900);
    assert!(val > 9500);
}

#[test]
fn ease_in_out_zero_duration() {
    let s = EaseInOut::new(0);
    let (val, done) = s.interpolate(0, 10000, 0);
    assert_eq!(val, 10000);
    assert!(done);
}

#[test]
fn ease_in_out_completes_at_duration() {
    let s = EaseInOut::new(1000);
    let (val, done) = s.interpolate(0, 10000, 1000);
    assert_eq!(val, 10000);
    assert!(done);
}

#[test]
fn departure_is_hard_locked() {
    let s = EaseInOut::departure(1000);
    assert_eq!(s.lock(), TransitionLock::Hard);
    assert_eq!(s.on_interrupt(), InterruptBehavior::Reject);
}

#[test]
fn arrival_queues_interrupts() {
    let s = EaseInOut::arrival(1000);
    assert_eq!(s.lock(), TransitionLock::Source);
    assert_eq!(s.on_interrupt(), InterruptBehavior::Queue);
}

#[test]
fn ease_in_out_new_has_no_lock() {
    let s = EaseInOut::new(1000);
    assert_eq!(s.lock(), TransitionLock::NoLock);
    assert_eq!(s.on_interrupt(), InterruptBehavior::Replace);
}

#[test]
fn momentum_starts_from_zero_velocity() {
    let s = Momentum::new(10000, 10000);
    let (val, _) = s.interpolate(0, 10000, 100);
    assert!(val > 0);
    assert!(val < 500);
}

#[test]
fn momentum_accelerates_over_time() {
    let s = Momentum::new(10000, 10000);
    let (val1, _) = s.interpolate(0, 10000, 100);
    let (val2, _) = s.interpolate(0, 10000, 500);
    assert!(val2 > val1 * 3);
}

#[test]
fn momentum_respects_max_rate() {
    let s = Momentum::new(1000000, 1000);
    let (val, done) = s.interpolate(0, 10000, 1000);
    assert!(!done);
    assert!(val < 5000);
}

#[test]
fn momentum_reverse_direction() {
    let s = Momentum::new(10000, 10000);
    let (val, _) = s.interpolate(10000, 0, 500);
    assert!(val < 10000);
    assert!(val > 0);
}

#[test]
fn momentum_gentle_preset() {
    let s = Momentum::gentle();
    assert_eq!(s.acceleration, 5000);
    assert_eq!(s.max_rate, 3000);
    assert_eq!(s.lock, TransitionLock::NoLock);
}

#[test]
fn momentum_responsive_preset() {
    let s = Momentum::responsive();
    assert_eq!(s.acceleration, 20000);
    assert_eq!(s.max_rate, 8000);
}

#[test]
fn momentum_duration_is_none() {
    let s = Momentum::new(10000, 10000);
    assert_eq!(s.duration_ms(), None);
}

#[test]
fn momentum_completes_when_target_reached() {
    let s = Momentum::new(100000, 100000);
    let (val, done) = s.interpolate(0, 1000, 1000);
    assert_eq!(val, 1000);
    assert!(done);
}

#[test]
fn transition_lock_default_is_none() {
    assert_eq!(TransitionLock::default(), TransitionLock::NoLock);
}

#[test]
fn interrupt_behavior_default_is_replace() {
    assert_eq!(InterruptBehavior::default(), InterruptBehavior::Replace);
}
