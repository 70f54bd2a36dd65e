//! The bounded command queue and the source lockout.
//!
//! The queue keeps at most `N` commands and always serves the highest
//! priority first; when full, an incoming command can only displace a
//! strictly lower-priority one. The lockout gives a high-priority
//! source a timed preference that silently rejects lower-priority
//! commands, which is what prevents local and remote operators from
//! fighting over the throttle.

use vstd::prelude::*;
use crate::commands::{
    effective_source, priority_rank, source_rank, CommandSource, PrioritizedCommand,
    ThrottleCommandDyn,
};

verus! {

// ============================================================================
// Bounded priority queue
// ============================================================================

/// Whether [`CommandQueue::push`] accepts a command: there is room,
/// or some queued command has strictly lower priority.
pub open spec fn queue_push_accepts(s: Seq<PrioritizedCommand>, cmd: PrioritizedCommand, cap: int) -> bool {
    s.len() < cap || exists|k: int|
        0 <= k < s.len() && priority_rank(#[trigger] s[k]) < priority_rank(cmd)
}

/// The contents after an accepted push: appended when there was room,
/// else one minimal-priority command (itself below the newcomer) is
/// evicted and the newcomer appended.
pub open spec fn queue_push_post(
    s_old: Seq<PrioritizedCommand>,
    cmd: PrioritizedCommand,
    s_new: Seq<PrioritizedCommand>,
    cap: int,
) -> bool {
    if s_old.len() < cap {
        s_new == s_old.push(cmd)
    } else {
        exists|j: int|
            {
                &&& 0 <= j < s_old.len()
                &&& forall|k: int|
                    0 <= k < s_old.len() ==> priority_rank(#[trigger] s_old[j]) <= priority_rank(
                        #[trigger] s_old[k],
                    )
                &&& priority_rank(s_old[j]) < priority_rank(cmd)
                &&& s_new == s_old.remove(j).push(cmd)
            }
    }
}

/// A retained command that [`CommandQueue::pop`] may return: one of
/// maximal priority; the rest keep their order.
pub open spec fn queue_pop_post(
    s_old: Seq<PrioritizedCommand>,
    popped: PrioritizedCommand,
    s_new: Seq<PrioritizedCommand>,
) -> bool {
    exists|j: int|
        {
            &&& 0 <= j < s_old.len()
            &&& popped == s_old[j]
            &&& forall|k: int|
                0 <= k < s_old.len() ==> priority_rank(#[trigger] s_old[k]) <= priority_rank(
                    s_old[j],
                )
            &&& s_new == s_old.remove(j)
        }
}

/// Bounded command queue with priority ordering: a `Vec` of at most
/// `N` commands, served highest priority first.
pub struct CommandQueue<const N: usize> {
    /// The queued commands, in submission order.
    pub items: Vec<PrioritizedCommand>,
}

impl<const N: usize> CommandQueue<N> {
    /// Well-formedness: the queue never exceeds its capacity.
    pub open spec fn wf(&self) -> bool {
        self.items@.len() <= N
    }

    /// An empty queue.
    pub fn new() -> (r: Self)
        ensures
            r.items@.len() == 0,
            r.wf(),
    {
        Self { items: Vec::new() }
    }

    /// The index of a minimal-priority command; the queue must not be
    /// empty.
    fn min_index(&self) -> (r: usize)
        requires
            self.items@.len() > 0,
        ensures
            r < self.items@.len(),
            forall|k: int|
                0 <= k < self.items@.len() ==> priority_rank(self.items@[r as int])
                    <= priority_rank(#[trigger] self.items@[k]),
    {
        let mut best: usize = 0;
        let mut best_rank: u8 = self.items[0].rank();
        let mut i: usize = 1;
        while i < self.items.len()
            invariant
                0 < self.items@.len(),
                best < i <= self.items@.len(),
                best_rank == priority_rank(self.items@[best as int]),
                forall|k: int|
                    0 <= k < i ==> best_rank <= priority_rank(#[trigger] self.items@[k]),
            decreases self.items@.len() - i,
        {
            let rank = self.items[i].rank();
            if rank < best_rank {
                best = i;
                best_rank = rank;
            }
            i = i + 1;
        }
        best
    }

    /// The index of a maximal-priority command; the queue must not be
    /// empty.
    fn max_index(&self) -> (r: usize)
        requires
            self.items@.len() > 0,
        ensures
            r < self.items@.len(),
            forall|k: int|
                0 <= k < self.items@.len() ==> priority_rank(#[trigger] self.items@[k])
                    <= priority_rank(self.items@[r as int]),
    {
        let mut best: usize = 0;
        let mut best_rank: u8 = self.items[0].rank();
        let mut i: usize = 1;
        while i < self.items.len()
            invariant
                0 < self.items@.len(),
                best < i <= self.items@.len(),
                best_rank == priority_rank(self.items@[best as int]),
                forall|k: int|
                    0 <= k < i ==> priority_rank(#[trigger] self.items@[k]) <= best_rank,
            decreases self.items@.len() - i,
        {
            let rank = self.items[i].rank();
            if rank > best_rank {
                best = i;
                best_rank = rank;
            }
            i = i + 1;
        }
        best
    }

    /// Push a command.
    ///
    /// With room, the command is simply kept. When full, it displaces
    /// one command of minimal priority if it strictly outranks it,
    /// and is rejected otherwise.
    #[must_use]
    pub fn push(&mut self, cmd: PrioritizedCommand) -> (r: bool)
        requires
            old(self).wf(),
        ensures
            final(self).wf(),
            r == queue_push_accepts(old(self).items@, cmd, N as int),
            r ==> queue_push_post(old(self).items@, cmd, final(self).items@, N as int),
            !r ==> final(self).items@ == old(self).items@,
    {
        if self.items.len() < N {
            self.items.push(cmd);
            return true;
        }
        if self.items.len() == 0 {
            // A queue of capacity zero accepts nothing.
            return false;
        }
        let min_idx = self.min_index();
        let min_rank = self.items[min_idx].rank();
        if cmd.rank() > min_rank {
            let ghost s_old = self.items@;
            self.items.remove(min_idx);
            self.items.push(cmd);
            proof {
                let j = min_idx as int;
                assert(s_old.len() >= N);
                assert(self.items@ == s_old.remove(j).push(cmd));
                assert(queue_push_post(s_old, cmd, self.items@, N as int));
            }
            true
        } else {
            false
        }
    }

    /// Pop a command of maximal priority, or `None` when empty.
    pub fn pop(&mut self) -> (r: Option<PrioritizedCommand>)
        requires
            old(self).wf(),
        ensures
            final(self).wf(),
            old(self).items@.len() == 0 ==> r is None && final(self).items@ == old(self).items@,
            old(self).items@.len() > 0 ==> ({
                &&& r matches Some(c)
                &&& queue_pop_post(old(self).items@, c, final(self).items@)
            }),
    {
        if self.items.len() == 0 {
            return None;
        }
        let max_idx = self.max_index();
        let ghost s_old = self.items@;
        let popped = self.items.remove(max_idx);
        proof {
            let j = max_idx as int;
            assert(queue_pop_post(s_old, popped, self.items@));
        }
        Some(popped)
    }

    /// A reference to a command of maximal priority, without removing
    /// it.
    pub fn peek(&self) -> (r: Option<&PrioritizedCommand>)
        ensures
            self.items@.len() == 0 ==> r is None,
            self.items@.len() > 0 ==> ({
                &&& r matches Some(c)
                &&& exists|j: int|
                    {
                        &&& 0 <= j < self.items@.len()
                        &&& *c == self.items@[j]
                        &&& forall|k: int|
                            0 <= k < self.items@.len() ==> priority_rank(
                                #[trigger] self.items@[k],
                            ) <= priority_rank(self.items@[j])
                    }
            }),
    {
        if self.items.len() == 0 {
            return None;
        }
        let max_idx = self.max_index();
        Some(&self.items[max_idx])
    }

    /// Drop every command whose effective source ranks below the
    /// threshold; the rest keep their order.
    pub fn clear_below(&mut self, source: CommandSource)
        requires
            old(self).wf(),
        ensures
            final(self).wf(),
            final(self).items@ == old(self).items@.filter(
                |c: PrioritizedCommand| source_rank(effective_source(c)) >= source_rank(source),
            ),
    {
        let ghost pred = |c: PrioritizedCommand|
            source_rank(effective_source(c)) >= source_rank(source);
        let threshold = source.rank();
        let mut kept: Vec<PrioritizedCommand> = Vec::new();
        let mut i: usize = 0;
        proof {
            assert(old(self).items@.subrange(0, 0).filter(pred) =~= Seq::<
                PrioritizedCommand,
            >::empty());
            assert(kept@ =~= old(self).items@.subrange(0, 0).filter(pred));
        }
        while i < self.items.len()
            invariant
                i <= self.items@.len(),
                self.items@ == old(self).items@,
                threshold == source_rank(source),
                pred == (|c: PrioritizedCommand|
                    source_rank(effective_source(c)) >= source_rank(source)),
                kept@ == self.items@.subrange(0, i as int).filter(pred),
            decreases self.items@.len() - i,
        {
            let keep = {
                let c = &self.items[i];
                let eff = if c.command.is_estop() {
                    CommandSource::Emergency
                } else {
                    c.source
                };
                eff.rank() >= threshold
            };
            if keep {
                kept.push(self.items[i]);
                proof {
                    let prefix = self.items@.subrange(0, i as int);
                    let next = self.items@.subrange(0, i + 1);
                    assert(next.drop_last() =~= prefix);
                    assert(next.last() == self.items@[i as int]);
                    reveal_with_fuel(Seq::filter, 2);
                    assert(pred(self.items@[i as int]));
                    assert(kept@ =~= next.filter(pred));
                }
            } else {
                proof {
                    let prefix = self.items@.subrange(0, i as int);
                    let next = self.items@.subrange(0, i + 1);
                    assert(next.drop_last() =~= prefix);
                    assert(next.last() == self.items@[i as int]);
                    reveal_with_fuel(Seq::filter, 2);
                    assert(!pred(self.items@[i as int]));
                    assert(kept@ =~= next.filter(pred));
                }
            }
            i = i + 1;
        }
        proof {
            assert(self.items@.subrange(0, self.items@.len() as int) =~= self.items@);
            self.items@.lemma_filter_len(pred);
        }
        self.items = kept;
    }

    /// Remove every command.
    pub fn clear(&mut self)
        ensures
            final(self).items@.len() == 0,
            final(self).wf(),
    {
        self.items.clear();
    }

    /// The number of queued commands.
    pub fn len(&self) -> (r: usize)
        ensures
            r == self.items@.len(),
    {
        self.items.len()
    }

    /// Whether the queue is empty.
    pub fn is_empty(&self) -> (r: bool)
        ensures
            r == (self.items@.len() == 0),
    {
        self.items.len() == 0
    }

    /// Whether the queue is at capacity.
    pub fn is_full(&self) -> (r: bool)
        requires
            self.wf(),
        ensures
            r == (self.items@.len() == N),
    {
        self.items.len() == N
    }
}

impl<const N: usize> Default for CommandQueue<N> {
    /// An empty queue.
    fn default() -> (r: Self)
        ensures
            r.items@.len() == 0,
            r.wf(),
    {
        Self::new()
    }
}

// ============================================================================
// Source lockout
// ============================================================================

/// The expiry written when a lockout starts or refreshes: the current
/// time plus the configured duration, saturating at the end of time.
pub open spec fn spec_expiry(now_ms: u64, duration_ms: u64) -> u64 {
    if now_ms + duration_ms <= u64::MAX {
        (now_ms + duration_ms) as u64
    } else {
        u64::MAX
    }
}

/// The step function of [`SourceLockout::should_accept`]: the next
/// lockout state and whether the command is accepted.
///
/// An e-stop is always accepted and clears the holder. A lapsed
/// lockout clears first. With no holder, everything is accepted, and
/// a source at least as high as Physical takes the lockout. With a
/// holder, only sources at least as high are accepted, and they
/// refresh the lockout.
pub open spec fn spec_should_accept(
    l: SourceLockout,
    cmd: PrioritizedCommand,
    now_ms: u64,
) -> (SourceLockout, bool) {
    if cmd.command is EmergencyStop {
        (
            SourceLockout {
                active_source: None,
                lockout_until_ms: l.lockout_until_ms,
                lockout_duration_ms: l.lockout_duration_ms,
            },
            true,
        )
    } else {
        let l1 = if now_ms >= l.lockout_until_ms {
            SourceLockout {
                active_source: None,
                lockout_until_ms: l.lockout_until_ms,
                lockout_duration_ms: l.lockout_duration_ms,
            }
        } else {
            l
        };
        match l1.active_source {
            None => {
                if source_rank(cmd.source) >= source_rank(CommandSource::Physical) {
                    (
                        SourceLockout {
                            active_source: Some(cmd.source),
                            lockout_until_ms: spec_expiry(now_ms, l.lockout_duration_ms),
                            lockout_duration_ms: l.lockout_duration_ms,
                        },
                        true,
                    )
                } else {
                    (l1, true)
                }
            },
            Some(locked) => {
                if source_rank(cmd.source) >= source_rank(locked) {
                    (
                        SourceLockout {
                            active_source: Some(cmd.source),
                            lockout_until_ms: spec_expiry(now_ms, l.lockout_duration_ms),
                            lockout_duration_ms: l.lockout_duration_ms,
                        },
                        true,
                    )
                } else {
                    (l1, false)
                }
            },
        }
    }
}

/// Timed preference for a high-priority source: while it holds, lower
/// sources are rejected; each accepted high command refreshes the
/// timer.
pub struct SourceLockout {
    /// The source holding the lockout, if any.
    pub active_source: Option<CommandSource>,
    /// When the lockout lapses, in milliseconds.
    pub lockout_until_ms: u64,
    /// How long each accepted high-priority command holds the
    /// lockout.
    pub lockout_duration_ms: u64,
}

impl SourceLockout {
    /// A cleared lockout with the given duration.
    pub fn new(lockout_duration_ms: u64) -> (r: Self)
        ensures
            r.active_source is None,
            r.lockout_until_ms == 0,
            r.lockout_duration_ms == lockout_duration_ms,
    {
        Self { active_source: None, lockout_until_ms: 0, lockout_duration_ms }
    }

    /// Decide whether a command passes the lockout, updating the
    /// lockout state as [`spec_should_accept`] describes.
    #[must_use]
    pub fn should_accept(&mut self, cmd: &PrioritizedCommand, now_ms: u64) -> (r: bool)
        ensures
            *final(self) == spec_should_accept(*old(self), *cmd, now_ms).0,
            r == spec_should_accept(*old(self), *cmd, now_ms).1,
    {
        // An e-stop is always accepted and clears the lockout.
        if cmd.command.is_estop() {
            self.active_source = None;
            return true;
        }
        // A lapsed lockout clears.
        if now_ms >= self.lockout_until_ms {
            self.active_source = None;
        }
        let holder = self.active_source;
        match holder {
            None => {
                if cmd.source.rank() >= CommandSource::Physical.rank() {
                    self.active_source = Some(cmd.source);
                    self.lockout_until_ms = Self::expiry(now_ms, self.lockout_duration_ms);
                }
                true
            },
            Some(locked) => {
                if cmd.source.rank() >= locked.rank() {
                    self.active_source = Some(cmd.source);
                    self.lockout_until_ms = Self::expiry(now_ms, self.lockout_duration_ms);
                    true
                } else {
                    false
                }
            },
        }
    }

    /// The saturating expiry time.
    fn expiry(now_ms: u64, duration_ms: u64) -> (r: u64)
        ensures
            r == spec_expiry(now_ms, duration_ms),
    {
        if now_ms <= u64::MAX - duration_ms {
            now_ms + duration_ms
        } else {
            u64::MAX
        }
    }

    /// Clear the lockout unconditionally.
    pub fn clear(&mut self)
        ensures
            final(self).active_source is None,
            final(self).lockout_until_ms == old(self).lockout_until_ms,
            final(self).lockout_duration_ms == old(self).lockout_duration_ms,
    {
        self.active_source = None;
    }

    /// The current holder and remaining time, or `None` when no
    /// lockout is in force.
    pub fn status(&self, now_ms: u64) -> (r: Option<LockoutStatus>)
        ensures
            r == spec_lockout_status(*self, now_ms),
    {
        if now_ms >= self.lockout_until_ms {
            return None;
        }
        match self.active_source {
            Some(source) => Some(
                LockoutStatus {
                    source,
                    expires_ms: self.lockout_until_ms,
                    remaining_ms: self.lockout_until_ms - now_ms,
                },
            ),
            None => None,
        }
    }
}

/// The report of [`SourceLockout::status`].
pub open spec fn spec_lockout_status(l: SourceLockout, now_ms: u64) -> Option<LockoutStatus> {
    if now_ms >= l.lockout_until_ms {
        None
    } else {
        match l.active_source {
            Some(source) => Some(
                LockoutStatus {
                    source,
                    expires_ms: l.lockout_until_ms,
                    remaining_ms: (l.lockout_until_ms - now_ms) as u64,
                },
            ),
            None => None,
        }
    }
}

/// Information about an active lockout, for UI feedback.
#[derive(Clone, Copy, Debug)]
pub struct LockoutStatus {
    /// The source holding the lockout.
    pub source: CommandSource,
    /// When the lockout expires, in milliseconds.
    pub expires_ms: u64,
    /// Milliseconds until the lockout expires.
    pub remaining_ms: u64,
}

// ============================================================================
// Command processor
// ============================================================================

/// Queue and lockout composed: the submission front door of the
/// engine.
pub struct CommandProcessor<const N: usize> {
    /// The bounded priority queue.
    pub queue: CommandQueue<N>,
    /// The source lockout.
    pub lockout: SourceLockout,
}

impl<const N: usize> CommandProcessor<N> {
    /// Well-formedness of both parts.
    pub open spec fn wf(&self) -> bool {
        self.queue.wf()
    }

    /// An empty processor with the given lockout duration.
    pub fn new(lockout_duration_ms: u64) -> (r: Self)
        ensures
            r.wf(),
            r.queue.items@.len() == 0,
            r.lockout.active_source is None,
            r.lockout.lockout_duration_ms == lockout_duration_ms,
    {
        Self { queue: CommandQueue::new(), lockout: SourceLockout::new(lockout_duration_ms) }
    }

    /// Submit a command: it must pass the lockout, then the queue.
    #[must_use]
    pub fn submit(&mut self, cmd: PrioritizedCommand, now_ms: u64) -> (r: bool)
        requires
            old(self).wf(),
        ensures
            final(self).wf(),
            final(self).lockout == spec_should_accept(old(self).lockout, cmd, now_ms).0,
            !spec_should_accept(old(self).lockout, cmd, now_ms).1 ==> !r && final(self).queue
                == old(self).queue,
            spec_should_accept(old(self).lockout, cmd, now_ms).1 ==> {
                &&& r == queue_push_accepts(old(self).queue.items@, cmd, N as int)
                &&& r ==> queue_push_post(
                    old(self).queue.items@,
                    cmd,
                    final(self).queue.items@,
                    N as int,
                )
                &&& !r ==> final(self).queue.items@ == old(self).queue.items@
            },
    {
        if self.lockout.should_accept(&cmd, now_ms) {
            self.queue.push(cmd)
        } else {
            false
        }
    }

    /// Pop the highest-priority command, if any.
    pub fn process_next(&mut self) -> (r: Option<ThrottleCommandDyn>)
        requires
            old(self).wf(),
        ensures
            final(self).wf(),
            final(self).lockout == old(self).lockout,
            old(self).queue.items@.len() == 0 ==> r is None && final(self).queue.items@ == old(
                self,
            ).queue.items@,
            old(self).queue.items@.len() > 0 ==> exists|c: PrioritizedCommand|
                {
                    &&& r == Some(c.command)
                    &&& #[trigger] queue_pop_post(
                        old(self).queue.items@,
                        c,
                        final(self).queue.items@,
                    )
                },
    {
        let popped = self.queue.pop();
        match popped {
            Some(pc) => {
                proof {
                    assert(queue_pop_post(old(self).queue.items@, pc, self.queue.items@));
                }
                Some(pc.command)
            },
            None => None,
        }
    }

    /// After an e-stop: purge everything below Emergency priority and
    /// clear the lockout.
    pub fn clear_after_estop(&mut self)
        requires
            old(self).wf(),
        ensures
            final(self).wf(),
            final(self).queue.items@ == old(self).queue.items@.filter(
                |c: PrioritizedCommand| source_rank(effective_source(c)) >= source_rank(
                    CommandSource::Emergency,
                ),
            ),
            final(self).lockout.active_source is None,
    {
        self.queue.clear_below(CommandSource::Emergency);
        self.lockout.clear();
    }

    /// Drop every pending command and clear the lockout.
    pub fn clear_all(&mut self)
        ensures
            final(self).wf(),
            final(self).queue.items@.len() == 0,
            final(self).lockout.active_source is None,
    {
        self.queue.clear();
        self.lockout.clear();
    }

    /// The number of pending commands.
    pub fn queue_len(&self) -> (r: usize)
        ensures
            r == self.queue.items@.len(),
    {
        self.queue.len()
    }

    /// The current lockout status, if any.
    pub fn lockout_status(&self, now_ms: u64) -> (r: Option<LockoutStatus>)
        ensures
            r == spec_lockout_status(self.lockout, now_ms),
    {
        self.lockout.status(now_ms)
    }
}

impl<const N: usize> Default for CommandProcessor<N> {
    /// A processor with the typical two-second lockout.
    fn default() -> (r: Self)
        ensures
            r.wf(),
            r.queue.items@.len() == 0,
            r.lockout.active_source is None,
            r.lockout.lockout_duration_ms == 2000,
    {
        Self::new(2000)
    }
}

} // verus!
