//! Type-erased execution strategies.
//!
//! Queues and transition slots must hold commands with mixed strategy
//! types, so [`AnyStrategy`] folds the four concrete strategies into
//! one tagged union that implements the same
//! [`ExecutionStrategy`] capability with identical behaviour.

use vstd::prelude::*;
use crate::speed_valid;
use crate::strategy::{
    ease_interpolate_exec, linear_interpolate_exec, momentum_interpolate_exec, EaseInOut,
    ExecutionStrategy, Immediate, InterruptBehavior, Linear, Momentum, TransitionLock,
};

verus! {

/// A strategy of any of the four concrete kinds, stored by value.
#[derive(Clone, Copy, Debug)]
pub enum AnyStrategy {
    /// An instant jump to the target.
    Immediate(Immediate),
    /// A constant-rate ramp.
    Linear(Linear),
    /// A smoothstep ramp.
    EaseInOut(EaseInOut),
    /// Inertia-limited movement.
    Momentum(Momentum),
}

/// Conversion of a concrete strategy into [`AnyStrategy`], without
/// changing its behaviour. A separate trait, so that the erased type
/// can itself implement [`ExecutionStrategy`].
pub trait IntoAnyStrategy: ExecutionStrategy {
    /// The erased form of this strategy.
    spec fn spec_any(&self) -> AnyStrategy;

    /// Erase the strategy's type, preserving its behaviour exactly.
    fn to_any(self) -> (r: AnyStrategy)
        ensures
            r == self.spec_any(),
            forall|f: u16, t: u16, e: u64|
                #[trigger] r.spec_interpolate(f, t, e) == self.spec_interpolate(f, t, e),
            r.spec_duration_ms() == self.spec_duration_ms(),
            r.spec_lock() == self.spec_lock(),
            r.spec_on_interrupt() == self.spec_on_interrupt(),
    ;
}

impl IntoAnyStrategy for Immediate {
    open spec fn spec_any(&self) -> AnyStrategy {
        AnyStrategy::Immediate(*self)
    }

    fn to_any(self) -> AnyStrategy {
        AnyStrategy::Immediate(self)
    }
}

impl IntoAnyStrategy for Linear {
    open spec fn spec_any(&self) -> AnyStrategy {
        AnyStrategy::Linear(*self)
    }

    fn to_any(self) -> AnyStrategy {
        AnyStrategy::Linear(self)
    }
}

impl IntoAnyStrategy for EaseInOut {
    open spec fn spec_any(&self) -> AnyStrategy {
        AnyStrategy::EaseInOut(*self)
    }

    fn to_any(self) -> AnyStrategy {
        AnyStrategy::EaseInOut(self)
    }
}

impl IntoAnyStrategy for Momentum {
    open spec fn spec_any(&self) -> AnyStrategy {
        AnyStrategy::Momentum(*self)
    }

    fn to_any(self) -> AnyStrategy {
        AnyStrategy::Momentum(self)
    }
}

impl AnyStrategy {
    /// Wrap a concrete strategy, preserving its behaviour exactly.
    pub fn new<S: IntoAnyStrategy>(strategy: S) -> (r: AnyStrategy)
        ensures
            forall|f: u16, t: u16, e: u64|
                #[trigger] r.spec_interpolate(f, t, e) == strategy.spec_interpolate(f, t, e),
            r.spec_duration_ms() == strategy.spec_duration_ms(),
            r.spec_lock() == strategy.spec_lock(),
            r.spec_on_interrupt() == strategy.spec_on_interrupt(),
    {
        strategy.to_any()
    }
}

impl ExecutionStrategy for AnyStrategy {
    open spec fn spec_interpolate(&self, from: u16, to: u16, elapsed_ms: u64) -> (u16, bool) {
        match self {
            AnyStrategy::Immediate(s) => s.spec_interpolate(from, to, elapsed_ms),
            AnyStrategy::Linear(s) => s.spec_interpolate(from, to, elapsed_ms),
            AnyStrategy::EaseInOut(s) => s.spec_interpolate(from, to, elapsed_ms),
            AnyStrategy::Momentum(s) => s.spec_interpolate(from, to, elapsed_ms),
        }
    }

    open spec fn spec_duration_ms(&self) -> Option<u64> {
        match self {
            AnyStrategy::Immediate(s) => s.spec_duration_ms(),
            AnyStrategy::Linear(s) => s.spec_duration_ms(),
            AnyStrategy::EaseInOut(s) => s.spec_duration_ms(),
            AnyStrategy::Momentum(s) => s.spec_duration_ms(),
        }
    }

    open spec fn spec_lock(&self) -> TransitionLock {
        match self {
            AnyStrategy::Immediate(s) => s.spec_lock(),
            AnyStrategy::Linear(s) => s.spec_lock(),
            AnyStrategy::EaseInOut(s) => s.spec_lock(),
            AnyStrategy::Momentum(s) => s.spec_lock(),
        }
    }

    open spec fn spec_on_interrupt(&self) -> InterruptBehavior {
        match self {
            AnyStrategy::Immediate(s) => s.spec_on_interrupt(),
            AnyStrategy::Linear(s) => s.spec_on_interrupt(),
            AnyStrategy::EaseInOut(s) => s.spec_on_interrupt(),
            AnyStrategy::Momentum(s) => s.spec_on_interrupt(),
        }
    }

    fn interpolate(&self, from: u16, to: u16, elapsed_ms: u64) -> (u16, bool) {
        match self {
            AnyStrategy::Immediate(_) => (to, true),
            AnyStrategy::Linear(s) => linear_interpolate_exec(s.duration_ms, from, to, elapsed_ms),
            AnyStrategy::EaseInOut(s) => ease_interpolate_exec(s.duration_ms, from, to, elapsed_ms),
            AnyStrategy::Momentum(s) => momentum_interpolate_exec(
                s.acceleration,
                s.max_rate,
                from,
                to,
                elapsed_ms,
            ),
        }
    }

    fn duration_ms(&self) -> Option<u64> {
        match self {
            AnyStrategy::Immediate(_) => Some(0),
            AnyStrategy::Linear(s) => Some(s.duration_ms),
            AnyStrategy::EaseInOut(s) => Some(s.duration_ms),
            AnyStrategy::Momentum(_) => None,
        }
    }

    fn lock(&self) -> TransitionLock {
        match self {
            AnyStrategy::Immediate(_) => TransitionLock::NoLock,
            AnyStrategy::Linear(s) => s.lock,
            AnyStrategy::EaseInOut(s) => s.lock,
            AnyStrategy::Momentum(s) => s.lock,
        }
    }

    fn on_interrupt(&self) -> InterruptBehavior {
        match self {
            AnyStrategy::Immediate(_) => InterruptBehavior::Replace,
            AnyStrategy::Linear(s) => s.interrupt,
            AnyStrategy::EaseInOut(s) => s.interrupt,
            AnyStrategy::Momentum(_) => InterruptBehavior::Replace,
        }
    }

    proof fn lemma_interpolate_in_range(&self, from: u16, to: u16, elapsed_ms: u64) {
        match self {
            AnyStrategy::Immediate(s) => s.lemma_interpolate_in_range(from, to, elapsed_ms),
            AnyStrategy::Linear(s) => s.lemma_interpolate_in_range(from, to, elapsed_ms),
            AnyStrategy::EaseInOut(s) => s.lemma_interpolate_in_range(from, to, elapsed_ms),
            AnyStrategy::Momentum(s) => s.lemma_interpolate_in_range(from, to, elapsed_ms),
        }
    }

    proof fn lemma_done_is_exact(&self, from: u16, to: u16, elapsed_ms: u64) {
        match self {
            AnyStrategy::Immediate(s) => s.lemma_done_is_exact(from, to, elapsed_ms),
            AnyStrategy::Linear(s) => s.lemma_done_is_exact(from, to, elapsed_ms),
            AnyStrategy::EaseInOut(s) => s.lemma_done_is_exact(from, to, elapsed_ms),
            AnyStrategy::Momentum(s) => s.lemma_done_is_exact(from, to, elapsed_ms),
        }
    }

    proof fn lemma_past_duration_completes(&self, from: u16, to: u16, elapsed_ms: u64) {
        match self {
            AnyStrategy::Immediate(s) => s.lemma_past_duration_completes(from, to, elapsed_ms),
            AnyStrategy::Linear(s) => s.lemma_past_duration_completes(from, to, elapsed_ms),
            AnyStrategy::EaseInOut(s) => s.lemma_past_duration_completes(from, to, elapsed_ms),
            AnyStrategy::Momentum(s) => s.lemma_past_duration_completes(from, to, elapsed_ms),
        }
    }
}

} // verus!
