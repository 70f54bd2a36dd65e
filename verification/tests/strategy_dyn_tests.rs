//! Tests for the type-erased strategy wrapper.

use rs_trainz::{
    AnyStrategy, EaseInOut, ExecutionStrategy, Immediate, InterruptBehavior, Linear, Momentum,
    TransitionLock,
};

#[test]
fn any_strategy_from_immediate() {
    let strategy = AnyStrategy::new(Immediate::default());
    assert_eq!(strategy.duration_ms(), Some(0));
    assert_eq!(strategy.lock(), TransitionLock::NoLock);
    assert_eq!(strategy.on_interrupt(), InterruptBehavior::Replace);

    let (value, complete) = strategy.interpolate(0, 10000, 0);
    assert_eq!(value, 10000);
    assert!(complete);
}

#[test]
fn any_strategy_from_linear() {
    let strategy = AnyStrategy::new(Linear::new(1000));
    assert_eq!(strategy.duration_ms(), Some(1000));
    assert_eq!(strategy.lock(), TransitionLock::NoLock);

    let (value, complete) = strategy.interpolate(0, 10000, 0);
    assert_eq!(value, 0);
    assert!(!complete);

    let (value, complete) = strategy.interpolate(0, 10000, 500);
    assert_eq!(value, 5000);
    assert!(!complete);

    let (value, complete) = strategy.interpolate(0, 10000, 1000);
    assert_eq!(value, 10000);
    assert!(complete);
}

#[test]
fn any_strategy_from_ease_in_out() {
    let strategy = AnyStrategy::new(EaseInOut::new(1000));
    assert_eq!(strategy.duration_ms(), Some(1000));
    assert_eq!(strategy.lock(), TransitionLock::NoLock);
    assert_eq!(strategy.on_interrupt(), InterruptBehavior::Replace);
}

#[test]
fn any_strategy_from_departure() {
    let strategy = AnyStrategy::new(EaseInOut::departure(2000));
    assert_eq!(strategy.duration_ms(), Some(2000));
    assert_eq!(strategy.lock(), TransitionLock::Hard);
    assert_eq!(strategy.on_interrupt(), InterruptBehavior::Reject);
}

#[test]
fn any_strategy_from_arrival() {
    let strategy = AnyStrategy::new(EaseInOut::arrival(1500));
    assert_eq!(strategy.duration_ms(), Some(1500));
    assert_eq!(strategy.lock(), TransitionLock::Source);
    assert_eq!(strategy.on_interrupt(), InterruptBehavior::Queue);
}

#[test]
fn any_strategy_from_momentum() {
    let strategy = AnyStrategy::new(Momentum::gentle());
    assert_eq!(strategy.duration_ms(), None);
    assert_eq!(strategy.lock(), TransitionLock::NoLock);
}

#[test]
fn any_strategy_clone() {
    let strategy1 = AnyStrategy::new(Linear::new(500));
    let strategy2 = strategy1.clone();

    assert_eq!(strategy1.duration_ms(), strategy2.duration_ms());
    assert_eq!(strategy1.lock(), strategy2.lock());

    let (v1, c1) = strategy1.interpolate(0, 10000, 250);
    let (v2, c2) = strategy2.interpolate(0, 10000, 250);
    assert_eq!(v1, v2);
    assert_eq!(c1, c2);
}

#[test]
fn any_strategy_debug() {
    let strategy = AnyStrategy::new(Linear::new(1000));
    let debug_str = format!("{:?}", strategy);
    assert!(debug_str.contains("duration_ms"));
    assert!(debug_str.contains("1000"));
}

#[test]
fn any_strategy_linear_locked() {
    let strategy = AnyStrategy::new(Linear::locked(800));
    assert_eq!(strategy.duration_ms(), Some(800));
    assert_eq!(strategy.lock(), TransitionLock::Hard);
}

#[test]
fn any_strategy_linear_source_locked() {
    let strategy = AnyStrategy::new(Linear::source_locked(600));
    assert_eq!(strategy.duration_ms(), Some(600));
    assert_eq!(strategy.lock(), TransitionLock::Source);
}

#[test]
fn any_strategy_interpolate_reverse() {
    let strategy = AnyStrategy::new(Linear::new(1000));
    let (value, _) = strategy.interpolate(10000, 0, 500);
    assert_eq!(value, 5000);
}

#[test]
fn any_strategy_with_different_ranges() {
    let strategy = AnyStrategy::new(Linear::new(100));

    let (value, _) = strategy.interpolate(2000, 8000, 50);
    assert_eq!(value, 5000);

    let (value, _) = strategy.interpolate(4000, 5000, 50);
    assert_eq!(value, 4500);
}
