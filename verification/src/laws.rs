//! The engine's laws, stated once and proved from the contracts of
//! the components: endpoint behaviour of strategies, idempotence of
//! the tick, lockout fairness, e-stop bypass, and the ordering and
//! capacity guarantees of the command queue.

use vstd::prelude::*;
use vstd::arithmetic::div_mod::{
    lemma_div_denominator, lemma_div_is_ordered, lemma_div_multiples_vanish,
    lemma_div_pos_is_pos,
};
use vstd::arithmetic::mul::{lemma_mul_inequality, lemma_mul_is_commutative, lemma_mul_nonnegative};
use crate::commands::{
    effective_source, priority_rank, source_rank, CommandSource, PrioritizedCommand,
};
use crate::priority::{
    queue_pop_post, queue_push_post, spec_should_accept, SourceLockout,
};
use crate::speed_valid;
use crate::strategy::{
    eased_cubic, eased_fraction, eased_offset, lemma_eased_cubic_range, lemma_eased_offset_le,
    spec_ease_interpolate, spec_linear_interpolate, spec_momentum_interpolate, ExecutionStrategy,
    Immediate, InterruptBehavior, Linear, Momentum, TransitionLock,
};
use crate::strategy_dyn::AnyStrategy;
use crate::transition::{
    blocked_by_lock, spec_try_start, spec_update, TransitionManager,
};

verus! {

// ============================================================================
// Strategy laws
// ============================================================================

/// Endpoint law: every strategy with a declared duration returns the
/// target, exactly and as complete, once that duration has elapsed.
pub proof fn law_endpoint<S: ExecutionStrategy>(s: S, from: u16, to: u16, elapsed_ms: u64)
    requires
        speed_valid(from),
        speed_valid(to),
        s.spec_duration_ms() matches Some(d) && elapsed_ms >= d,
    ensures
        s.spec_interpolate(from, to, elapsed_ms) == (to, true),
{
    s.lemma_past_duration_completes(from, to, elapsed_ms);
}

/// No drift: whenever any strategy reports completion, the value it
/// returns is exactly the target.
pub proof fn law_done_is_exact<S: ExecutionStrategy>(s: S, from: u16, to: u16, elapsed_ms: u64)
    requires
        speed_valid(from),
        speed_valid(to),
    ensures
        s.spec_interpolate(from, to, elapsed_ms).1 ==> s.spec_interpolate(
            from,
            to,
            elapsed_ms,
        ).0 == to,
{
    s.lemma_done_is_exact(from, to, elapsed_ms);
}

/// A linear transition of zero duration behaves exactly as the
/// immediate strategy: same interpolation, same duration, same lock
/// and interrupt policy.
pub proof fn law_linear_zero_is_immediate(from: u16, to: u16, elapsed_ms: u64)
    ensures
        (Linear {
            duration_ms: 0,
            lock: TransitionLock::NoLock,
            interrupt: InterruptBehavior::Replace,
        }).spec_interpolate(from, to, elapsed_ms) == Immediate.spec_interpolate(
            from,
            to,
            elapsed_ms,
        ),
        (Linear {
            duration_ms: 0,
            lock: TransitionLock::NoLock,
            interrupt: InterruptBehavior::Replace,
        }).spec_duration_ms() == Immediate.spec_duration_ms(),
        (Linear {
            duration_ms: 0,
            lock: TransitionLock::NoLock,
            interrupt: InterruptBehavior::Replace,
        }).spec_lock() == Immediate.spec_lock(),
        (Linear {
            duration_ms: 0,
            lock: TransitionLock::NoLock,
            interrupt: InterruptBehavior::Replace,
        }).spec_on_interrupt() == Immediate.spec_on_interrupt(),
{
}

/// The ease-in-out boundary law: the curve starts exactly at the
/// start value and ends exactly at the target.
pub proof fn law_ease_endpoints(duration_ms: u64, from: u16, to: u16)
    requires
        duration_ms > 0,
        speed_valid(from),
        speed_valid(to),
    ensures
        spec_ease_interpolate(duration_ms, from, to, 0) == (from, false),
        spec_ease_interpolate(duration_ms, from, to, duration_ms) == (to, true),
{
    vstd::arithmetic::div_mod::lemma_div_of0(duration_ms as int);
    assert(0 * (crate::SPEED_SCALE as int) == 0) by (nonlinear_arith);
    assert(eased_fraction(0, duration_ms) == 0);
    assert(eased_cubic(0) == 0 * 0 * (3 * (crate::SPEED_SCALE as int) - 2 * 0));
    assert(0 * 0 * (3 * (crate::SPEED_SCALE as int) - 2 * 0) == 0) by (nonlinear_arith);
    vstd::arithmetic::div_mod::lemma_div_of0(1000000000000);
    if to >= from {
        assert((to - from) * eased_cubic(0) == 0) by (nonlinear_arith)
            requires
                eased_cubic(0) == 0,
        ;
        assert(eased_offset((to - from) as int, 0) == 0);
    } else {
        assert((from - to) * eased_cubic(0) == 0) by (nonlinear_arith)
            requires
                eased_cubic(0) == 0,
        ;
        assert(eased_offset((from - to) as int, 0) == 0);
    }
}

/// The ease-in-out midpoint law: halfway through an even duration the
/// value is the arithmetic mean of start and target (with the
/// division rounding toward the start value).
pub proof fn law_ease_midpoint(duration_ms: u64, from: u16, to: u16)
    requires
        duration_ms > 0,
        duration_ms % 2 == 0,
        speed_valid(from),
        speed_valid(to),
    ensures
        to >= from ==> spec_ease_interpolate(duration_ms, from, to, duration_ms / 2).0 == from + (to
            - from) / 2,
        to < from ==> spec_ease_interpolate(duration_ms, from, to, duration_ms / 2).0 == from - (
        from - to) / 2,
{
    let d = duration_ms as int;
    let h = d / 2;
    let s = crate::SPEED_SCALE as int;
    assert(d == 2 * h);
    // The scaled time fraction at the midpoint is exactly half scale.
    assert(h * s == 5000 * (2 * h)) by (nonlinear_arith)
        requires
            s == 10000,
    ;
    lemma_div_multiples_vanish(5000, 2 * h);
    assert(((2 * h) * 5000) == 5000 * (2 * h)) by (nonlinear_arith);
    assert(h * s / d == 5000);
    // The smoothstep cubic at half scale is exactly half of scale
    // cubed.
    assert(eased_cubic(5000) == 5000 * 5000 * (3 * (crate::SPEED_SCALE as int) - 2 * 5000));
    assert(5000 * 5000 * (3 * 10000 - 2 * 5000) == 500000000000) by (nonlinear_arith);
    assert(eased_cubic(5000) == 500000000000);
    let diff_up = (to - from) as int;
    let diff_down = (from - to) as int;
    if to >= from {
        lemma_half_of_scaled(diff_up);
    } else {
        lemma_half_of_scaled(diff_down);
    }
}

/// Dividing `diff * S^3/2` by `S^3` is dividing `diff` by two.
proof fn lemma_half_of_scaled(diff: int)
    requires
        0 <= diff,
    ensures
        diff * 500000000000 / 1000000000000 == diff / 2,
{
    lemma_div_denominator(diff * 500000000000, 500000000000, 2);
    lemma_mul_is_commutative(diff, 500000000000);
    lemma_div_multiples_vanish(diff, 500000000000);
}

/// A momentum transition that is already at its target completes
/// immediately with the unchanged value, at any elapsed time.
pub proof fn law_momentum_at_rest(acceleration: u32, max_rate: u32, from: u16, elapsed_ms: u64)
    requires
        speed_valid(from),
    ensures
        spec_momentum_interpolate(acceleration, max_rate, from, from, elapsed_ms) == (from, true),
{
    let rate_num = if acceleration * elapsed_ms <= max_rate * 1000 {
        (acceleration * elapsed_ms) as int
    } else {
        (max_rate * 1000) as int
    };
    lemma_mul_nonnegative(rate_num, elapsed_ms as int);
    lemma_div_pos_is_pos(rate_num * elapsed_ms, 1000000);
}

// ============================================================================
// Transition-manager laws
// ============================================================================

/// Monotone interruption: whenever a non-e-stop command is accepted
/// (started or interrupting), the installed transition starts from
/// the manager's current value at install time — never from the old
/// target, so an interruption cannot produce a jump.
pub proof fn law_no_jump(
    m: TransitionManager,
    to: u16,
    strategy: AnyStrategy,
    source: CommandSource,
    now_ms: u64,
)
    requires
        m.wf(),
        speed_valid(to),
    ensures
        ({
            let step = spec_try_start(m, to, strategy, source, false, now_ms);
            (step.1 is Started || step.1 is Interrupted) ==> {
                &&& step.0.active matches Some(a)
                &&& a.from == m.current_value
                &&& a.to == to
                &&& a.started_ms == now_ms
            }
        }),
{
}

/// Idempotent tick: updating a manager at rest (no active and no
/// queued transition) returns the current value and changes nothing,
/// however often it is repeated.
pub proof fn law_update_idempotent_at_rest(m: TransitionManager, now_ms: u64)
    requires
        m.wf(),
        m.active is None,
        m.queued is None,
    ensures
        spec_update(m, now_ms) == (m, (m.current_value, true)),
        spec_update(spec_update(m, now_ms).0, now_ms) == (m, (m.current_value, true)),
{
}

/// An immediate transition lands at its target on the next update,
/// whatever timestamp that update carries: provided the start is
/// accepted, the value afterwards is exactly the commanded one.
pub proof fn law_immediate_reaches_target(
    m: TransitionManager,
    v: u16,
    source: CommandSource,
    now_ms: u64,
    t: u64,
)
    requires
        m.wf(),
        speed_valid(v),
        m.active matches Some(a) ==> !blocked_by_lock(a, source),
    ensures
        ({
            let m1 = spec_try_start(m, v, AnyStrategy::Immediate(Immediate), source, false, now_ms).0;
            spec_update(m1, t).1 == (v, true) && spec_update(m1, t).0.current_value == v
        }),
{
}

/// E-stop bypass: an emergency stop passes any lockout state and any
/// transition lock; one `try_start` empties both slots and forces the
/// value to zero.
pub proof fn law_estop_bypass(
    l: SourceLockout,
    m: TransitionManager,
    cmd: PrioritizedCommand,
    strategy: AnyStrategy,
    source: CommandSource,
    now_ms: u64,
)
    requires
        cmd.command is EmergencyStop,
        m.wf(),
    ensures
        spec_should_accept(l, cmd, now_ms).1,
        spec_should_accept(l, cmd, now_ms).0.active_source is None,
        spec_try_start(m, 0, strategy, source, true, now_ms).0.active is None,
        spec_try_start(m, 0, strategy, source, true, now_ms).0.queued is None,
        spec_try_start(m, 0, strategy, source, true, now_ms).0.current_value == 0,
{
}

// ============================================================================
// Lockout fairness
// ============================================================================

/// The lockout state after the first `n` of a sequence of commands,
/// submitted at the matching times.
pub open spec fn lockout_after(
    l0: SourceLockout,
    cmds: Seq<PrioritizedCommand>,
    times: Seq<u64>,
    n: int,
) -> SourceLockout
    decreases n,
{
    if n <= 0 {
        l0
    } else {
        spec_should_accept(lockout_after(l0, cmds, times, n - 1), cmds[n - 1], times[n - 1]).0
    }
}

/// The premises of the fairness law: a fresh lockout of positive
/// duration, and physical commands at strictly increasing times whose
/// gaps stay below the duration, without reaching the end of time.
pub open spec fn fairness_premises(
    l0: SourceLockout,
    cmds: Seq<PrioritizedCommand>,
    times: Seq<u64>,
) -> bool {
    &&& l0.active_source is None
    &&& l0.lockout_duration_ms > 0
    &&& cmds.len() == times.len()
    &&& forall|i: int|
        0 <= i < cmds.len() ==> (#[trigger] cmds[i]).source == CommandSource::Physical && !(
        cmds[i].command is EmergencyStop)
    &&& forall|i: int|
        0 <= i < times.len() - 1 ==> #[trigger] times[i] < times[i + 1] && times[i + 1] - times[i]
            < l0.lockout_duration_ms
    &&& times.len() > 0 ==> times[times.len() - 1] + l0.lockout_duration_ms <= u64::MAX
}

/// Lockout fairness, part one: every command of the physical sequence
/// is accepted, and after the `n`-th the lockout is held by Physical
/// until `times[n-1]` plus the configured duration.
pub proof fn law_lockout_fairness_holds(
    l0: SourceLockout,
    cmds: Seq<PrioritizedCommand>,
    times: Seq<u64>,
    n: int,
)
    requires
        fairness_premises(l0, cmds, times),
        1 <= n <= times.len(),
    ensures
        lockout_after(l0, cmds, times, n).active_source == Some(CommandSource::Physical),
        lockout_after(l0, cmds, times, n).lockout_until_ms == times[n - 1]
            + l0.lockout_duration_ms,
        lockout_after(l0, cmds, times, n).lockout_duration_ms == l0.lockout_duration_ms,
        spec_should_accept(lockout_after(l0, cmds, times, n - 1), cmds[n - 1], times[n - 1]).1,
    decreases n,
{
    lemma_time_bound(l0, cmds, times, n - 1);
    if n > 1 {
        law_lockout_fairness_holds(l0, cmds, times, n - 1);
        lemma_time_bound(l0, cmds, times, n - 2);
    }
}

/// Within the premises, every time is bounded by the last one, so
/// adding the duration stays within `u64`.
proof fn lemma_time_bound(
    l0: SourceLockout,
    cmds: Seq<PrioritizedCommand>,
    times: Seq<u64>,
    i: int,
)
    requires
        fairness_premises(l0, cmds, times),
        0 <= i < times.len(),
    ensures
        times[i] <= times[times.len() - 1],
        times[i] + l0.lockout_duration_ms <= u64::MAX,
    decreases times.len() - i,
{
    if i < times.len() - 1 {
        lemma_time_bound(l0, cmds, times, i + 1);
    }
}

/// Lockout fairness, part two: between the `n`-th physical command
/// and the lapse of its lockout, any non-e-stop command from a source
/// below Physical is rejected, and a rejection leaves the lockout
/// untouched.
pub proof fn law_lockout_fairness_blocks(
    l0: SourceLockout,
    cmds: Seq<PrioritizedCommand>,
    times: Seq<u64>,
    n: int,
    q: u64,
    c: PrioritizedCommand,
)
    requires
        fairness_premises(l0, cmds, times),
        1 <= n <= times.len(),
        times[n - 1] <= q,
        q < times[n - 1] + l0.lockout_duration_ms,
        source_rank(c.source) < source_rank(CommandSource::Physical),
        !(c.command is EmergencyStop),
    ensures
        !spec_should_accept(lockout_after(l0, cmds, times, n), c, q).1,
        spec_should_accept(lockout_after(l0, cmds, times, n), c, q).0 == lockout_after(
            l0,
            cmds,
            times,
            n,
        ),
{
    law_lockout_fairness_holds(l0, cmds, times, n);
}

/// Lockout fairness, part three: the per-command windows cover the
/// whole interval from the first command to one duration past the
/// last, so parts one and two together block lower sources
/// throughout it.
pub proof fn law_lockout_fairness_cover(
    l0: SourceLockout,
    cmds: Seq<PrioritizedCommand>,
    times: Seq<u64>,
    q: u64,
)
    requires
        fairness_premises(l0, cmds, times),
        times.len() > 0,
        times[0] <= q,
        q < times[times.len() - 1] + l0.lockout_duration_ms,
    ensures
        exists|n: int|
            {
                &&& 1 <= n <= times.len()
                &&& (#[trigger] times[n - 1]) <= q
                &&& q < times[n - 1] + l0.lockout_duration_ms
            },
    decreases times.len(),
{
    let last = times.len() as int - 1;
    if times[last] <= q {
        assert(times[last] <= q < times[last] + l0.lockout_duration_ms);
    } else {
        let shorter = times.drop_last();
        assert(shorter.len() == last);
        assert(forall|i: int| 0 <= i < shorter.len() ==> shorter[i] == times[i]);
        assert(fairness_premises(l0, cmds.drop_last(), shorter)) by {
            assert(cmds.drop_last().len() == shorter.len());
            assert(forall|i: int|
                0 <= i < cmds.drop_last().len() ==> #[trigger] cmds.drop_last()[i] == cmds[i]);
            if shorter.len() > 0 {
                lemma_time_bound(l0, cmds, times, last - 1);
                assert(shorter[shorter.len() - 1] + l0.lockout_duration_ms <= u64::MAX);
            }
        }
        assert(q < times[last]);
        assert(times[last - 1] < times[last] && times[last] - times[last - 1]
            < l0.lockout_duration_ms);
        assert(q < shorter[shorter.len() - 1] + l0.lockout_duration_ms);
        law_lockout_fairness_cover(l0, cmds.drop_last(), shorter, q);
        let n0 = choose|n: int|
            1 <= n <= shorter.len() && (#[trigger] shorter[n - 1]) <= q && q < shorter[n - 1]
                + l0.lockout_duration_ms;
        assert(times[n0 - 1] == shorter[n0 - 1]);
        assert(times[n0 - 1] <= q < times[n0 - 1] + l0.lockout_duration_ms);
    }
}

// ============================================================================
// Queue laws
// ============================================================================

/// Priority ordering: if the queue holds two commands whose effective
/// sources differ, a pop can never return the lower one while the
/// higher is still present.
pub proof fn law_priority_ordering(
    s: Seq<PrioritizedCommand>,
    a: PrioritizedCommand,
    b: PrioritizedCommand,
    popped: PrioritizedCommand,
    s_new: Seq<PrioritizedCommand>,
)
    requires
        s.contains(a),
        s.contains(b),
        source_rank(effective_source(a)) > source_rank(effective_source(b)),
        queue_pop_post(s, popped, s_new),
    ensures
        priority_rank(popped) >= priority_rank(a),
        priority_rank(popped) > priority_rank(b),
        popped != b,
{
    let ia = choose|i: int| 0 <= i < s.len() && s[i] == a;
    let ib = choose|i: int| 0 <= i < s.len() && s[i] == b;
    let j = choose|j: int|
        {
            &&& 0 <= j < s.len()
            &&& popped == s[j]
            &&& forall|k: int|
                0 <= k < s.len() ==> priority_rank(#[trigger] s[k]) <= priority_rank(s[j])
            &&& s_new == s.remove(j)
        };
    assert(priority_rank(s[ia]) <= priority_rank(s[j]));
}

/// Queue cap preservation: an accepted push onto a full queue keeps
/// the size exactly at the capacity, and what it evicts is a command
/// of minimal priority, so the retained priorities are the top ones.
pub proof fn law_queue_cap(
    s: Seq<PrioritizedCommand>,
    cmd: PrioritizedCommand,
    s_new: Seq<PrioritizedCommand>,
    cap: int,
)
    requires
        s.len() == cap,
        cap > 0,
        queue_push_post(s, cmd, s_new, cap),
    ensures
        s_new.len() == cap,
        exists|j: int|
            {
                &&& 0 <= j < s.len()
                &&& s_new == s.remove(j).push(cmd)
                &&& priority_rank(#[trigger] s[j]) < priority_rank(cmd)
                &&& forall|i: int|
                    0 <= i < s_new.len() ==> priority_rank(#[trigger] s_new[i]) >= priority_rank(
                        s[j],
                    )
            },
{
    let j = choose|j: int|
        {
            &&& 0 <= j < s.len()
            &&& forall|k: int|
                0 <= k < s.len() ==> priority_rank(#[trigger] s[j]) <= priority_rank(
                    #[trigger] s[k],
                )
            &&& priority_rank(s[j]) < priority_rank(cmd)
            &&& s_new == s.remove(j).push(cmd)
        };
    assert(s_new.len() == cap);
    assert forall|i: int| 0 <= i < s_new.len() implies priority_rank(#[trigger] s_new[i])
        >= priority_rank(s[j]) by {
        if i < s_new.len() - 1 {
            if i < j {
                assert(s_new[i] == s[i]);
            } else {
                assert(s_new[i] == s[i + 1]);
            }
        } else {
            assert(s_new[i] == cmd);
        }
    }
    assert(0 <= j < s.len() && s_new == s.remove(j).push(cmd) && priority_rank(s[j])
        < priority_rank(cmd) && forall|i: int|
        0 <= i < s_new.len() ==> priority_rank(#[trigger] s_new[i]) >= priority_rank(s[j]));
}

/// Monotone progress for the linear strategy: with a fixed start and
/// target, a later sample is never closer to the start value than an
/// earlier one.
pub proof fn law_linear_monotone_progress(
    duration_ms: u64,
    from: u16,
    to: u16,
    e1: u64,
    e2: u64,
)
    requires
        speed_valid(from),
        speed_valid(to),
        e1 <= e2,
    ensures
        to >= from ==> spec_linear_interpolate(duration_ms, from, to, e1).0
            <= spec_linear_interpolate(duration_ms, from, to, e2).0,
        to < from ==> spec_linear_interpolate(duration_ms, from, to, e1).0
            >= spec_linear_interpolate(duration_ms, from, to, e2).0,
{
    let diff: int = if to >= from {
        to - from
    } else {
        from - to
    };
    if duration_ms == 0 || e1 >= duration_ms {
        // Both samples are already at the target.
    } else if e2 >= duration_ms {
        // The later sample is at the target; the earlier offset is
        // bounded by the whole distance.
        crate::strategy::lemma_proportion_le(diff, e1 as int, duration_ms as int);
    } else {
        lemma_mul_inequality(e1 as int, e2 as int, diff);
        lemma_mul_is_commutative(e1 as int, diff);
        lemma_mul_is_commutative(e2 as int, diff);
        lemma_div_is_ordered(diff * e1, diff * e2, duration_ms as int);
        crate::strategy::lemma_proportion_le(diff, e1 as int, duration_ms as int);
        crate::strategy::lemma_proportion_le(diff, e2 as int, duration_ms as int);
    }
}

/// The smoothstep cubic is nondecreasing on the scaled interval.
proof fn lemma_eased_cubic_monotone(t1: int, t2: int)
    requires
        0 <= t1 <= t2 <= 10000,
    ensures
        eased_cubic(t1) <= eased_cubic(t2),
{
    assert((t2 - t1) * (3 * 10000 * (t1 + t2) - 2 * (t1 * t1 + t1 * t2 + t2 * t2)) == t2 * t2 * (3
        * 10000 - 2 * t2) - t1 * t1 * (3 * 10000 - 2 * t1)) by (nonlinear_arith);
    assert(t1 * t1 <= 10000 * t1) by (nonlinear_arith)
        requires
            0 <= t1 <= 10000,
    ;
    assert(t2 * t2 <= 10000 * t2) by (nonlinear_arith)
        requires
            0 <= t2 <= 10000,
    ;
    assert(2 * (t1 * t2) <= 10000 * t1 + 10000 * t2) by (nonlinear_arith)
        requires
            0 <= t1 <= 10000,
            0 <= t2 <= 10000,
    ;
    assert(3 * 10000 * (t1 + t2) - 2 * (t1 * t1 + t1 * t2 + t2 * t2) >= 0) by (nonlinear_arith)
        requires
            t1 * t1 <= 10000 * t1,
            t2 * t2 <= 10000 * t2,
            2 * (t1 * t2) <= 10000 * t1 + 10000 * t2,
    ;
    lemma_mul_nonnegative(t2 - t1, 3 * 10000 * (t1 + t2) - 2 * (t1 * t1 + t1 * t2 + t2 * t2));
}

/// Monotone progress for the ease-in-out strategy: with a fixed
/// start and target, a later sample is never closer to the start
/// value than an earlier one.
pub proof fn law_ease_monotone_progress(duration_ms: u64, from: u16, to: u16, e1: u64, e2: u64)
    requires
        speed_valid(from),
        speed_valid(to),
        e1 <= e2,
    ensures
        to >= from ==> spec_ease_interpolate(duration_ms, from, to, e1).0 <= spec_ease_interpolate(
            duration_ms,
            from,
            to,
            e2,
        ).0,
        to < from ==> spec_ease_interpolate(duration_ms, from, to, e1).0 >= spec_ease_interpolate(
            duration_ms,
            from,
            to,
            e2,
        ).0,
{
    let diff: int = if to >= from {
        to - from
    } else {
        from - to
    };
    let s = crate::SPEED_SCALE as int;
    let d = duration_ms as int;
    if duration_ms == 0 || e1 >= duration_ms {
        // Both samples are already at the target.
    } else if e2 >= duration_ms {
        lemma_fraction_in_scale(e1, duration_ms);
        lemma_eased_offset_le(diff, eased_fraction(e1, duration_ms));
    } else {
        let t1 = eased_fraction(e1, duration_ms);
        let t2 = eased_fraction(e2, duration_ms);
        lemma_fraction_in_scale(e1, duration_ms);
        lemma_fraction_in_scale(e2, duration_ms);
        lemma_mul_inequality(e1 as int, e2 as int, s);
        lemma_mul_is_commutative(e1 as int, s);
        lemma_mul_is_commutative(e2 as int, s);
        lemma_div_is_ordered(e1 * s, e2 * s, d);
        lemma_eased_cubic_monotone(t1, t2);
        lemma_eased_cubic_range(t1);
        lemma_eased_cubic_range(t2);
        lemma_mul_left_inequality_nonneg(diff, eased_cubic(t1), eased_cubic(t2));
        lemma_div_is_ordered(diff * eased_cubic(t1), diff * eased_cubic(t2), s * s * s);
        lemma_eased_offset_le(diff, t1);
        lemma_eased_offset_le(diff, t2);
    }
}

/// The scaled time fraction stays within full scale while the
/// transition runs.
proof fn lemma_fraction_in_scale(elapsed: u64, duration: u64)
    requires
        0 < duration,
        elapsed < duration,
    ensures
        0 <= eased_fraction(elapsed, duration) <= crate::SPEED_SCALE,
{
    let s = crate::SPEED_SCALE as int;
    vstd::arithmetic::mul::lemma_mul_strict_inequality(elapsed as int, duration as int, s);
    lemma_mul_is_commutative(elapsed as int, s);
    lemma_mul_is_commutative(duration as int, s);
    vstd::arithmetic::div_mod::lemma_multiply_divide_lt(elapsed * s, duration as int, s);
    lemma_mul_nonnegative(elapsed as int, s);
    lemma_div_pos_is_pos(elapsed * s, duration as int);
}

/// Multiplying a nonnegative factor onto an ordered pair keeps the
/// order.
proof fn lemma_mul_left_inequality_nonneg(k: int, a: int, b: int)
    requires
        0 <= k,
        a <= b,
    ensures
        k * a <= k * b,
{
    lemma_mul_inequality(a, b, k);
    lemma_mul_is_commutative(a, k);
    lemma_mul_is_commutative(b, k);
}

} // verus!
