//! The transition manager: at most one active and one queued speed
//! transition, driven by a monotonic clock, with lock enforcement.
//!
//! Every operation is specified by a pure step function over the
//! manager state, and the executable methods are proved to implement
//! those steps exactly.

use vstd::prelude::*;
use crate::commands::{source_rank, CommandSource, RejectReason, TransitionResult};
use crate::speed_valid;
use crate::strategy::{ExecutionStrategy, InterruptBehavior, TransitionLock};
use crate::strategy_dyn::AnyStrategy;

verus! {

/// An in-progress speed transition.
pub struct ActiveTransition {
    /// Starting speed, the interpolated value at install time.
    pub from: u16,
    /// Target speed.
    pub to: u16,
    /// Strategy interpolating between the two.
    pub strategy: AnyStrategy,
    /// Time the transition started, in milliseconds.
    pub started_ms: u64,
    /// Source that initiated the transition.
    pub source: CommandSource,
    /// Lock level, as declared by the strategy at install time.
    pub lock: TransitionLock,
    /// Interrupt policy, as declared by the strategy at install time.
    pub interrupt_behavior: InterruptBehavior,
}

/// A transition waiting for the active one to finish. It captures
/// only the target and strategy; its start value is the current speed
/// at promotion time.
pub struct QueuedTransition {
    /// Target speed.
    pub to: u16,
    /// Strategy to run once promoted.
    pub strategy: AnyStrategy,
    /// Source that issued the deferred command.
    pub source: CommandSource,
}

/// Manages speed transitions: holds the current interpolated value,
/// at most one active transition and at most one queued one.
pub struct TransitionManager {
    /// The running transition, if any.
    pub active: Option<ActiveTransition>,
    /// The single deferred transition, if any.
    pub queued: Option<QueuedTransition>,
    /// The most recent interpolated value (or the value set by a
    /// cancel).
    pub current_value: u16,
}

impl TransitionManager {
    /// Well-formedness: all speeds are in range and the cached lock
    /// bits agree with the active strategy.
    pub open spec fn wf(&self) -> bool {
        &&& speed_valid(self.current_value)
        &&& self.active matches Some(a) ==> {
            &&& speed_valid(a.from)
            &&& speed_valid(a.to)
            &&& a.lock == a.strategy.spec_lock()
            &&& a.interrupt_behavior == a.strategy.spec_on_interrupt()
        }
        &&& self.queued matches Some(q) ==> speed_valid(q.to)
    }
}

/// Whether a running transition refuses to be replaced by a command
/// from `source`: a hard lock refuses everyone, a source lock refuses
/// strictly lower-ranked sources.
pub open spec fn blocked_by_lock(a: ActiveTransition, source: CommandSource) -> bool {
    match a.lock {
        TransitionLock::Hard => true,
        TransitionLock::Source => source_rank(source) < source_rank(a.source),
        TransitionLock::NoLock => false,
    }
}

/// What becomes of a command that may not replace the running
/// transition, under the transition's interrupt policy.
pub open spec fn spec_handle_blocked(
    m: TransitionManager,
    to: u16,
    strategy: AnyStrategy,
    source: CommandSource,
    behavior: InterruptBehavior,
) -> (TransitionManager, TransitionResult) {
    match behavior {
        InterruptBehavior::Queue => {
            if m.queued is Some {
                (m, TransitionResult::Rejected { reason: RejectReason::QueueFull })
            } else {
                (
                    TransitionManager {
                        active: m.active,
                        queued: Some(QueuedTransition { to, strategy, source }),
                        current_value: m.current_value,
                    },
                    TransitionResult::Queued,
                )
            }
        },
        InterruptBehavior::Reject => (
            m,
            TransitionResult::Rejected { reason: RejectReason::TransitionLocked },
        ),
        // A locked transition with replace policy is contradictory;
        // fail closed.
        InterruptBehavior::Replace => (
            m,
            TransitionResult::Rejected { reason: RejectReason::LowerPriority },
        ),
    }
}

/// Installing a new active transition: it starts from the current
/// value, and an interrupted transition's target is reported back.
pub open spec fn spec_install(
    m: TransitionManager,
    to: u16,
    strategy: AnyStrategy,
    source: CommandSource,
    now_ms: u64,
) -> (TransitionManager, TransitionResult) {
    (
        TransitionManager {
            active: Some(
                ActiveTransition {
                    from: m.current_value,
                    to,
                    strategy,
                    started_ms: now_ms,
                    source,
                    lock: strategy.spec_lock(),
                    interrupt_behavior: strategy.spec_on_interrupt(),
                },
            ),
            queued: m.queued,
            current_value: m.current_value,
        },
        match m.active {
            Some(a) => TransitionResult::Interrupted { previous_target: a.to },
            None => TransitionResult::Started,
        },
    )
}

/// The step function of [`TransitionManager::try_start`]: the next
/// manager state and the reported result.
pub open spec fn spec_try_start(
    m: TransitionManager,
    to: u16,
    strategy: AnyStrategy,
    source: CommandSource,
    is_estop: bool,
    now_ms: u64,
) -> (TransitionManager, TransitionResult) {
    if is_estop {
        (
            TransitionManager { active: None, queued: None, current_value: to },
            match m.active {
                Some(a) => TransitionResult::Interrupted { previous_target: a.to },
                None => TransitionResult::Started,
            },
        )
    } else {
        match m.active {
            Some(a) => {
                if blocked_by_lock(a, source) {
                    spec_handle_blocked(m, to, strategy, source, a.interrupt_behavior)
                } else {
                    spec_install(m, to, strategy, source, now_ms)
                }
            },
            None => spec_install(m, to, strategy, source, now_ms),
        }
    }
}

/// The step function of [`TransitionManager::update`]: a waiting
/// transition is promoted when the active slot is free, then the
/// active transition (if any) is interpolated at the elapsed time.
pub open spec fn spec_update(m: TransitionManager, now_ms: u64) -> (TransitionManager, (u16, bool)) {
    let m1 = if m.active is None {
        match m.queued {
            Some(q) => TransitionManager {
                active: Some(
                    ActiveTransition {
                        from: m.current_value,
                        to: q.to,
                        strategy: q.strategy,
                        started_ms: now_ms,
                        source: q.source,
                        lock: q.strategy.spec_lock(),
                        interrupt_behavior: q.strategy.spec_on_interrupt(),
                    },
                ),
                queued: None,
                current_value: m.current_value,
            },
            None => m,
        }
    } else {
        m
    };
    match m1.active {
        None => (m1, (m1.current_value, true)),
        Some(a) => {
            let elapsed = if now_ms >= a.started_ms {
                (now_ms - a.started_ms) as u64
            } else {
                0u64
            };
            let vp = a.strategy.spec_interpolate(a.from, a.to, elapsed);
            (
                TransitionManager {
                    active: if vp.1 {
                        None
                    } else {
                        m1.active
                    },
                    queued: m1.queued,
                    current_value: vp.0,
                },
                vp,
            )
        },
    }
}

/// The target of the active transition, if one is running.
pub open spec fn spec_target(m: TransitionManager) -> Option<u16> {
    match m.active {
        Some(a) => Some(a.to),
        None => None,
    }
}

impl TransitionManager {
    /// A manager at rest at the given initial value.
    pub fn new(initial: u16) -> (r: Self)
        requires
            speed_valid(initial),
        ensures
            r.active is None,
            r.queued is None,
            r.current_value == initial,
            r.wf(),
    {
        Self { active: None, queued: None, current_value: initial }
    }

    /// Attempt to start a new transition.
    ///
    /// An e-stop empties both slots and forces the value; otherwise
    /// the active transition's lock decides whether the command
    /// installs, queues or is rejected. A newly installed transition
    /// starts from the current interpolated value, never from the old
    /// target, so interruptions cannot produce a jump.
    pub fn try_start(
        &mut self,
        to: u16,
        strategy: AnyStrategy,
        source: CommandSource,
        is_estop: bool,
        now_ms: u64,
    ) -> (r: TransitionResult)
        requires
            old(self).wf(),
            speed_valid(to),
        ensures
            final(self).wf(),
            *final(self) == spec_try_start(*old(self), to, strategy, source, is_estop, now_ms).0,
            r == spec_try_start(*old(self), to, strategy, source, is_estop, now_ms).1,
    {
        // An e-stop always wins immediately and bypasses every lock.
        if is_estop {
            let previous = match &self.active {
                Some(t) => Some(t.to),
                None => None,
            };
            self.active = None;
            self.queued = None;
            self.current_value = to;
            return match previous {
                Some(prev) => TransitionResult::Interrupted { previous_target: prev },
                None => TransitionResult::Started,
            };
        }
        // Consult the active transition's lock.
        let mut blocked = false;
        let mut behavior = InterruptBehavior::Replace;
        match &self.active {
            Some(active) => {
                match active.lock {
                    TransitionLock::Hard => {
                        blocked = true;
                        behavior = active.interrupt_behavior;
                    },
                    TransitionLock::Source => {
                        if source.rank() < active.source.rank() {
                            blocked = true;
                            behavior = active.interrupt_behavior;
                        }
                    },
                    TransitionLock::NoLock => {},
                }
            },
            None => {},
        }
        if blocked {
            return self.handle_blocked_command(to, strategy, source, behavior);
        }
        // Install the new transition, starting from the current value.
        let previous = match &self.active {
            Some(t) => Some(t.to),
            None => None,
        };
        let lock = strategy.lock();
        let interrupt_behavior = strategy.on_interrupt();
        self.active = Some(
            ActiveTransition {
                from: self.current_value,
                to,
                strategy,
                started_ms: now_ms,
                source,
                lock,
                interrupt_behavior,
            },
        );
        match previous {
            Some(prev) => TransitionResult::Interrupted { previous_target: prev },
            None => TransitionResult::Started,
        }
    }

    /// Apply the interrupt policy to a command that may not replace
    /// the running transition.
    fn handle_blocked_command(
        &mut self,
        to: u16,
        strategy: AnyStrategy,
        source: CommandSource,
        behavior: InterruptBehavior,
    ) -> (r: TransitionResult)
        requires
            old(self).wf(),
            speed_valid(to),
        ensures
            final(self).wf(),
            *final(self) == spec_handle_blocked(*old(self), to, strategy, source, behavior).0,
            r == spec_handle_blocked(*old(self), to, strategy, source, behavior).1,
    {
        match behavior {
            InterruptBehavior::Queue => {
                if self.queued.is_some() {
                    TransitionResult::Rejected { reason: RejectReason::QueueFull }
                } else {
                    self.queued = Some(QueuedTransition { to, strategy, source });
                    TransitionResult::Queued
                }
            },
            InterruptBehavior::Reject => TransitionResult::Rejected {
                reason: RejectReason::TransitionLocked,
            },
            InterruptBehavior::Replace => TransitionResult::Rejected {
                reason: RejectReason::LowerPriority,
            },
        }
    }

    /// Advance the transition state to `now_ms`; call every tick.
    ///
    /// Returns the current value and whether the active transition
    /// completed (or the manager is at rest). When the active slot is
    /// free, a queued transition is promoted first, starting from the
    /// current value at promotion time.
    pub fn update(&mut self, now_ms: u64) -> (r: (u16, bool))
        requires
            old(self).wf(),
        ensures
            final(self).wf(),
            *final(self) == spec_update(*old(self), now_ms).0,
            r == spec_update(*old(self), now_ms).1,
            speed_valid(r.0),
    {
        if self.active.is_none() {
            let waiting = self.queued.take();
            match waiting {
                Some(q) => {
                    let lock = q.strategy.lock();
                    let interrupt_behavior = q.strategy.on_interrupt();
                    self.active = Some(
                        ActiveTransition {
                            from: self.current_value,
                            to: q.to,
                            strategy: q.strategy,
                            started_ms: now_ms,
                            source: q.source,
                            lock,
                            interrupt_behavior,
                        },
                    );
                },
                None => {},
            }
        }
        let outcome: (u16, bool) = match &self.active {
            None => {
                return (self.current_value, true);
            },
            Some(t) => {
                let elapsed = if now_ms >= t.started_ms {
                    now_ms - t.started_ms
                } else {
                    0
                };
                let vp = t.strategy.interpolate(t.from, t.to, elapsed);
                proof {
                    t.strategy.lemma_interpolate_in_range(t.from, t.to, elapsed);
                }
                vp
            },
        };
        self.current_value = outcome.0;
        if outcome.1 {
            // The queued transition, if any, is picked up on the next
            // update.
            self.active = None;
        }
        outcome
    }

    /// Cancel both slots and force the value; used by fault handling.
    pub fn cancel_and_set(&mut self, value: u16)
        requires
            speed_valid(value),
        ensures
            final(self).active is None,
            final(self).queued is None,
            final(self).current_value == value,
            final(self).wf(),
    {
        self.active = None;
        self.queued = None;
        self.current_value = value;
    }

    /// Cancel both slots, keeping the current value.
    pub fn cancel_all(&mut self)
        requires
            old(self).wf(),
        ensures
            final(self).active is None,
            final(self).queued is None,
            final(self).current_value == old(self).current_value,
            final(self).wf(),
    {
        self.active = None;
        self.queued = None;
    }

    /// The current interpolated value.
    pub fn current(&self) -> (r: u16)
        ensures
            r == self.current_value,
    {
        self.current_value
    }

    /// Whether a transition is in progress.
    pub fn is_transitioning(&self) -> (r: bool)
        ensures
            r == (self.active is Some),
    {
        self.active.is_some()
    }

    /// The target of the active transition, if any.
    pub fn target(&self) -> (r: Option<u16>)
        ensures
            r == spec_target(*self),
    {
        match &self.active {
            Some(t) => Some(t.to),
            None => None,
        }
    }

    /// The lock state of the active transition, for UI feedback.
    pub fn lock_status(&self) -> (r: Option<LockStatus>)
        ensures
            r == spec_lock_status(*self),
    {
        match &self.active {
            Some(t) => Some(
                LockStatus {
                    lock: t.lock,
                    source: t.source,
                    target: t.to,
                    has_queued: self.queued.is_some(),
                },
            ),
            None => None,
        }
    }

    /// Progress of the active transition, for UI feedback.
    pub fn progress(&self, now_ms: u64) -> (r: Option<TransitionProgress>)
        ensures
            r == spec_progress(*self, now_ms),
    {
        match &self.active {
            Some(t) => {
                let elapsed = if now_ms >= t.started_ms {
                    now_ms - t.started_ms
                } else {
                    0
                };
                Some(
                    TransitionProgress {
                        from: t.from,
                        to: t.to,
                        current: self.current_value,
                        elapsed_ms: elapsed,
                        estimated_total_ms: t.strategy.duration_ms(),
                    },
                )
            },
            None => None,
        }
    }
}

/// The lock state reported by [`TransitionManager::lock_status`].
pub open spec fn spec_lock_status(m: TransitionManager) -> Option<LockStatus> {
    match m.active {
        Some(a) => Some(
            LockStatus { lock: a.lock, source: a.source, target: a.to, has_queued: m.queued is Some },
        ),
        None => None,
    }
}

/// The progress report of [`TransitionManager::progress`].
pub open spec fn spec_progress(m: TransitionManager, now_ms: u64) -> Option<TransitionProgress> {
    match m.active {
        Some(a) => Some(
            TransitionProgress {
                from: a.from,
                to: a.to,
                current: m.current_value,
                elapsed_ms: if now_ms >= a.started_ms {
                    (now_ms - a.started_ms) as u64
                } else {
                    0u64
                },
                estimated_total_ms: a.strategy.spec_duration_ms(),
            },
        ),
        None => None,
    }
}

/// Lock state of the running transition, as shown to UIs.
#[derive(Clone, Copy, Debug)]
pub struct LockStatus {
    /// Lock level of the active transition.
    pub lock: TransitionLock,
    /// Source that owns the lock.
    pub source: CommandSource,
    /// Target speed of the locked transition.
    pub target: u16,
    /// Whether a command is waiting in the queue slot.
    pub has_queued: bool,
}

/// Progress of the running transition, as shown to UIs.
#[derive(Clone, Copy, Debug)]
pub struct TransitionProgress {
    /// Starting speed.
    pub from: u16,
    /// Target speed.
    pub to: u16,
    /// Current speed.
    pub current: u16,
    /// Milliseconds since the transition started.
    pub elapsed_ms: u64,
    /// Estimated total duration, where the strategy knows one.
    pub estimated_total_ms: Option<u64>,
}

/// The fraction reported by [`TransitionProgress::percent`], in
/// fixed-point speed units of [`crate::SPEED_SCALE`].
pub open spec fn spec_percent(p: TransitionProgress) -> Option<u16> {
    match p.estimated_total_ms {
        Some(total) => {
            if total == 0 {
                Some(crate::SPEED_SCALE)
            } else if p.elapsed_ms * (crate::SPEED_SCALE as int) / (total as int)
                >= crate::SPEED_SCALE {
                Some(crate::SPEED_SCALE)
            } else {
                Some((p.elapsed_ms * (crate::SPEED_SCALE as int) / (total as int)) as u16)
            }
        },
        None => None,
    }
}

impl TransitionProgress {
    /// Progress as a fraction of [`crate::SPEED_SCALE`] (so `5000`
    /// is halfway), capped at full scale; `None` where the total
    /// duration is unknown.
    pub fn percent(&self) -> (r: Option<u16>)
        ensures
            r == spec_percent(*self),
    {
        match self.estimated_total_ms {
            Some(total) => {
                if total == 0 {
                    Some(crate::SPEED_SCALE)
                } else {
                    proof {
                        vstd::arithmetic::mul::lemma_mul_upper_bound(
                            self.elapsed_ms as int,
                            0xFFFF_FFFF_FFFF_FFFF,
                            crate::SPEED_SCALE as int,
                            10000,
                        );
                        vstd::arithmetic::mul::lemma_mul_nonnegative(
                            self.elapsed_ms as int,
                            crate::SPEED_SCALE as int,
                        );
                        vstd::arithmetic::div_mod::lemma_div_pos_is_pos(
                            (self.elapsed_ms as int) * (crate::SPEED_SCALE as int),
                            total as int,
                        );
                    }
                    let q: u128 = (self.elapsed_ms as u128) * (crate::SPEED_SCALE as u128)
                        / (total as u128);
                    if q >= crate::SPEED_SCALE as u128 {
                        Some(crate::SPEED_SCALE)
                    } else {
                        Some(q as u16)
                    }
                }
            },
            None => None,
        }
    }
}

} // verus!
