//! Execution strategies: pure interpolation rules plus two policy bits
//! (lock level and interrupt policy).
//!
//! A strategy answers one question: given a start value, a target and
//! the elapsed time, where is the speed now and is the transition done?
//! Four concrete strategies are provided; [`crate::strategy_dyn::AnyStrategy`]
//! erases their type for storage in queues and transition slots.

use vstd::prelude::*;
use vstd::arithmetic::div_mod::{
    lemma_div_is_ordered, lemma_div_pos_is_pos, lemma_multiply_divide_le,
    lemma_multiply_divide_lt,
};
use vstd::arithmetic::mul::{lemma_mul_inequality, lemma_mul_is_commutative, lemma_mul_upper_bound};
use crate::{speed_valid, SPEED_SCALE};

verus! {

/// How strongly a running transition resists being replaced.
#[derive(Clone, Copy, Debug, PartialEq, Eq, Structural)]
pub enum TransitionLock {
    /// Any command can interrupt.
    NoLock,
    /// Only a source of the same or higher priority can interrupt.
    Source,
    /// Only an e-stop can interrupt.
    Hard,
}

impl Default for TransitionLock {
    /// Most strategies run unlocked.
    fn default() -> (r: Self)
        ensures
            r == TransitionLock::NoLock,
    {
        TransitionLock::NoLock
    }
}

/// What happens to a command that may not replace the running
/// transition.
#[derive(Clone, Copy, Debug, PartialEq, Eq, Structural)]
pub enum InterruptBehavior {
    /// The new command replaces the current transition.
    Replace,
    /// The new command waits in the single queue slot.
    Queue,
    /// The new command is rejected.
    Reject,
}

impl Default for InterruptBehavior {
    /// By default an incoming command simply replaces the transition.
    fn default() -> (r: Self)
        ensures
            r == InterruptBehavior::Replace,
    {
        InterruptBehavior::Replace
    }
}

// ============================================================================
// Interpolation arithmetic, stated once as spec functions
// ============================================================================

/// Linear interpolation at `elapsed` of `duration` between `from` and
/// `to`, in fixed-point speed units. Only meaningful for
/// `0 < duration` and `elapsed < duration`.
pub open spec fn linear_value(from: u16, to: u16, elapsed: u64, duration: u64) -> int {
    if to >= from {
        from + (to - from) * elapsed / (duration as int)
    } else {
        from - (from - to) * elapsed / (duration as int)
    }
}

/// What [`Linear`] interpolation returns: the target once the duration
/// has passed (or was zero), the proportional value before that.
pub open spec fn spec_linear_interpolate(duration_ms: u64, from: u16, to: u16, elapsed_ms: u64) -> (u16, bool) {
    if duration_ms == 0 || elapsed_ms >= duration_ms {
        (to, true)
    } else {
        (linear_value(from, to, elapsed_ms, duration_ms) as u16, false)
    }
}

/// The smoothstep cubic `t^2 * (3S - 2t)` in fixed point, where `S`
/// is [`SPEED_SCALE`]. For `t` in `0 ..= S` it ranges over
/// `0 ..= S^3`.
pub open spec fn eased_cubic(t: int) -> int {
    t * t * (3 * (SPEED_SCALE as int) - 2 * t)
}

/// The smoothstep offset `diff * t^2 * (3 - 2t)` where `t` is a
/// fraction of [`SPEED_SCALE`]; the cubic is evaluated in fixed point.
pub open spec fn eased_offset(diff: int, t: int) -> int {
    diff * eased_cubic(t) / ((SPEED_SCALE as int) * (SPEED_SCALE as int) * (SPEED_SCALE as int))
}

/// The time fraction `elapsed / duration` scaled to [`SPEED_SCALE`].
pub open spec fn eased_fraction(elapsed: u64, duration: u64) -> int {
    elapsed * (SPEED_SCALE as int) / (duration as int)
}

/// What [`EaseInOut`] interpolation returns: the target once the
/// duration has passed (or was zero), the smoothstep value before
/// that.
pub open spec fn spec_ease_interpolate(duration_ms: u64, from: u16, to: u16, elapsed_ms: u64) -> (u16, bool) {
    if duration_ms == 0 || elapsed_ms >= duration_ms {
        (to, true)
    } else {
        let t = eased_fraction(elapsed_ms, duration_ms);
        if to >= from {
            ((from + eased_offset(to - from, t)) as u16, false)
        } else {
            ((from - eased_offset(from - to, t)) as u16, false)
        }
    }
}

/// How far a momentum transition has moved after `elapsed_ms`: the
/// instantaneous rate is `acceleration` times the elapsed seconds,
/// capped at `max_rate`, and the displacement is that rate times the
/// elapsed seconds. Rates are in speed units per second.
pub open spec fn momentum_moved(acceleration: u32, max_rate: u32, elapsed_ms: u64) -> int {
    let rate_num = if acceleration * elapsed_ms <= max_rate * 1000 {
        acceleration * elapsed_ms
    } else {
        max_rate * 1000
    };
    rate_num * elapsed_ms / 1000000
}

/// What [`Momentum`] interpolation returns: the target once the
/// displacement covers the distance, the partial value before that.
pub open spec fn spec_momentum_interpolate(
    acceleration: u32,
    max_rate: u32,
    from: u16,
    to: u16,
    elapsed_ms: u64,
) -> (u16, bool) {
    let dist = if to >= from { to - from } else { from - to };
    let moved = momentum_moved(acceleration, max_rate, elapsed_ms);
    if moved >= dist {
        (to, true)
    } else if to >= from {
        ((from + moved) as u16, false)
    } else {
        ((from - moved) as u16, false)
    }
}

// ============================================================================
// The strategy capability
// ============================================================================

/// Describes how a value change is applied over time.
///
/// Every implementation carries its behaviour as spec functions, so
/// that callers can reason about interpolation results exactly, and
/// proves three laws: results stay in the valid speed range, a
/// finished transition lands exactly on the target, and a
/// finite-duration strategy is finished once its duration has elapsed.
pub trait ExecutionStrategy: Sized + Clone {
    /// The interpolation function: value and completion at a given
    /// elapsed time.
    spec fn spec_interpolate(&self, from: u16, to: u16, elapsed_ms: u64) -> (u16, bool);

    /// The estimated total duration, where one is known.
    spec fn spec_duration_ms(&self) -> Option<u64>;

    /// The lock level a transition under this strategy holds.
    spec fn spec_lock(&self) -> TransitionLock;

    /// The policy applied to commands that may not replace the
    /// transition.
    spec fn spec_on_interrupt(&self) -> InterruptBehavior;

    /// Interpolate the value during a transition.
    fn interpolate(&self, from: u16, to: u16, elapsed_ms: u64) -> (r: (u16, bool))
        requires
            speed_valid(from),
            speed_valid(to),
        ensures
            r == self.spec_interpolate(from, to, elapsed_ms),
    ;

    /// Estimated total duration in milliseconds, if known.
    fn duration_ms(&self) -> (r: Option<u64>)
        ensures
            r == self.spec_duration_ms(),
    ;

    /// The lock level this transition requires.
    fn lock(&self) -> (r: TransitionLock)
        ensures
            r == self.spec_lock(),
    ;

    /// What happens if something tries to interrupt.
    fn on_interrupt(&self) -> (r: InterruptBehavior)
        ensures
            r == self.spec_on_interrupt(),
    ;

    /// Interpolated values never leave the valid speed range.
    proof fn lemma_interpolate_in_range(&self, from: u16, to: u16, elapsed_ms: u64)
        requires
            speed_valid(from),
            speed_valid(to),
        ensures
            speed_valid(self.spec_interpolate(from, to, elapsed_ms).0),
    ;

    /// When a strategy reports completion, the value is exactly the
    /// target: no drift.
    proof fn lemma_done_is_exact(&self, from: u16, to: u16, elapsed_ms: u64)
        requires
            speed_valid(from),
            speed_valid(to),
        ensures
            self.spec_interpolate(from, to, elapsed_ms).1
                ==> self.spec_interpolate(from, to, elapsed_ms).0 == to,
    ;

    /// Once the declared duration has elapsed, the strategy returns
    /// the target and reports completion.
    proof fn lemma_past_duration_completes(&self, from: u16, to: u16, elapsed_ms: u64)
        requires
            speed_valid(from),
            speed_valid(to),
            self.spec_duration_ms() matches Some(d) && elapsed_ms >= d,
        ensures
            self.spec_interpolate(from, to, elapsed_ms) == (to, true),
    ;
}

// ============================================================================
// Shared arithmetic lemmas
// ============================================================================

/// A proportional offset never exceeds the whole distance:
/// `diff * e / d <= diff` when `e <= d`.
pub proof fn lemma_proportion_le(diff: int, e: int, d: int)
    requires
        0 <= diff,
        0 <= e <= d,
        0 < d,
    ensures
        0 <= diff * e / d <= diff,
{
    lemma_mul_inequality(e, d, diff);
    lemma_mul_is_commutative(e, diff);
    lemma_mul_is_commutative(d, diff);
    lemma_multiply_divide_le(diff * e, d, diff);
    vstd::arithmetic::mul::lemma_mul_nonnegative(diff, e);
    lemma_div_pos_is_pos(diff * e, d);
}

/// The scaled time fraction stays strictly below full scale while the
/// transition is still running.
proof fn lemma_fraction_range(elapsed: u64, duration: u64)
    requires
        0 < duration,
        elapsed < duration,
    ensures
        0 <= eased_fraction(elapsed, duration) < SPEED_SCALE,
{
    let s = SPEED_SCALE as int;
    vstd::arithmetic::mul::lemma_mul_strict_inequality(elapsed as int, duration as int, s);
    lemma_mul_is_commutative(elapsed as int, s);
    lemma_mul_is_commutative(duration as int, s);
    lemma_multiply_divide_lt(elapsed * s, duration as int, s);
    vstd::arithmetic::mul::lemma_mul_nonnegative(elapsed as int, s);
    lemma_div_pos_is_pos(elapsed * s, duration as int);
}

/// The smoothstep cubic is bounded by the cube of full scale: on
/// `0 <= t <= S` the polynomial `t^2 (3S - 2t)` stays in
/// `0 ..= S^3`, because `S^3 - t^2 (3S - 2t) = (S-t)^2 (S+2t)`.
pub proof fn lemma_eased_cubic_range(t: int)
    requires
        0 <= t <= SPEED_SCALE,
    ensures
        0 <= eased_cubic(t) <= 1000000000000,
{
    assert(0 <= t * t * (3 * 10000 - 2 * t) <= 1000000000000) by (nonlinear_arith)
        requires
            0 <= t,
            t <= 10000,
    ;
}

/// The fixed-point smoothstep offset never exceeds the distance:
/// the cubic `t^2 (3S - 2t)` is bounded by `S^3` on `0 <= t <= S`.
pub proof fn lemma_eased_offset_le(diff: int, t: int)
    requires
        0 <= diff,
        0 <= t <= SPEED_SCALE,
    ensures
        0 <= eased_offset(diff, t) <= diff,
{
    lemma_eased_cubic_range(t);
    let c = eased_cubic(t);
    let denom = (SPEED_SCALE as int) * (SPEED_SCALE as int) * (SPEED_SCALE as int);
    assert(denom == 1000000000000);
    lemma_mul_inequality(c, denom, diff);
    lemma_mul_is_commutative(c, diff);
    lemma_mul_is_commutative(denom, diff);
    lemma_multiply_divide_le(diff * c, denom, diff);
    vstd::arithmetic::mul::lemma_mul_nonnegative(diff, c);
    lemma_div_pos_is_pos(diff * c, denom);
}

// ============================================================================
// Immediate
// ============================================================================

/// Instant transition: jumps straight to the target. Used for e-stop
/// and for plain speed commands.
#[derive(Clone, Copy, Debug)]
pub struct Immediate;

impl Default for Immediate {
    fn default() -> (r: Self)
        ensures
            r == Immediate,
    {
        Immediate
    }
}

impl ExecutionStrategy for Immediate {
    open spec fn spec_interpolate(&self, from: u16, to: u16, elapsed_ms: u64) -> (u16, bool) {
        (to, true)
    }

    open spec fn spec_duration_ms(&self) -> Option<u64> {
        Some(0u64)
    }

    open spec fn spec_lock(&self) -> TransitionLock {
        TransitionLock::NoLock
    }

    open spec fn spec_on_interrupt(&self) -> InterruptBehavior {
        InterruptBehavior::Replace
    }

    fn interpolate(&self, from: u16, to: u16, elapsed_ms: u64) -> (u16, bool) {
        (to, true)
    }

    fn duration_ms(&self) -> Option<u64> {
        Some(0)
    }

    fn lock(&self) -> TransitionLock {
        TransitionLock::NoLock
    }

    fn on_interrupt(&self) -> InterruptBehavior {
        InterruptBehavior::Replace
    }

    proof fn lemma_interpolate_in_range(&self, from: u16, to: u16, elapsed_ms: u64) {
    }

    proof fn lemma_done_is_exact(&self, from: u16, to: u16, elapsed_ms: u64) {
    }

    proof fn lemma_past_duration_completes(&self, from: u16, to: u16, elapsed_ms: u64) {
    }
}

// ============================================================================
// Linear
// ============================================================================

/// Linear interpolation over a fixed duration: the speed changes at a
/// constant rate from start to finish.
#[derive(Clone, Copy, Debug)]
pub struct Linear {
    /// Total duration of the transition in milliseconds.
    pub duration_ms: u64,
    /// Lock level for this transition.
    pub lock: TransitionLock,
    /// Behavior when interrupted.
    pub interrupt: InterruptBehavior,
}

impl Linear {
    /// A linear transition with no lock.
    pub fn new(duration_ms: u64) -> (r: Self)
        ensures
            r.duration_ms == duration_ms,
            r.lock == TransitionLock::NoLock,
            r.interrupt == InterruptBehavior::Replace,
    {
        Self { duration_ms, lock: TransitionLock::NoLock, interrupt: InterruptBehavior::Replace }
    }

    /// A hard-locked linear transition that rejects interrupts.
    pub fn locked(duration_ms: u64) -> (r: Self)
        ensures
            r.duration_ms == duration_ms,
            r.lock == TransitionLock::Hard,
            r.interrupt == InterruptBehavior::Reject,
    {
        Self { duration_ms, lock: TransitionLock::Hard, interrupt: InterruptBehavior::Reject }
    }

    /// A source-locked linear transition.
    pub fn source_locked(duration_ms: u64) -> (r: Self)
        ensures
            r.duration_ms == duration_ms,
            r.lock == TransitionLock::Source,
            r.interrupt == InterruptBehavior::Replace,
    {
        Self { duration_ms, lock: TransitionLock::Source, interrupt: InterruptBehavior::Replace }
    }
}

/// Executable linear interpolation, shared by [`Linear`] and the
/// type-erased wrapper.
pub(crate) fn linear_interpolate_exec(duration_ms: u64, from: u16, to: u16, elapsed_ms: u64) -> (r: (u16, bool))
    requires
        speed_valid(from),
        speed_valid(to),
    ensures
        r == spec_linear_interpolate(duration_ms, from, to, elapsed_ms),
        speed_valid(r.0),
{
    if duration_ms == 0 || elapsed_ms >= duration_ms {
        return (to, true);
    }
    let diff: u64 = if to >= from { (to - from) as u64 } else { (from - to) as u64 };
    proof {
        lemma_mul_upper_bound(diff as int, 0xFFFF, elapsed_ms as int, 0xFFFF_FFFF_FFFF_FFFF);
    }
    let num: u128 = (diff as u128) * (elapsed_ms as u128);
    let q: u128 = num / (duration_ms as u128);
    proof {
        lemma_proportion_le(diff as int, elapsed_ms as int, duration_ms as int);
    }
    let offset: u16 = q as u16;
    if to >= from {
        (from + offset, false)
    } else {
        (from - offset, false)
    }
}

impl ExecutionStrategy for Linear {
    open spec fn spec_interpolate(&self, from: u16, to: u16, elapsed_ms: u64) -> (u16, bool) {
        spec_linear_interpolate(self.duration_ms, from, to, elapsed_ms)
    }

    open spec fn spec_duration_ms(&self) -> Option<u64> {
        Some(self.duration_ms)
    }

    open spec fn spec_lock(&self) -> TransitionLock {
        self.lock
    }

    open spec fn spec_on_interrupt(&self) -> InterruptBehavior {
        self.interrupt
    }

    fn interpolate(&self, from: u16, to: u16, elapsed_ms: u64) -> (u16, bool) {
        linear_interpolate_exec(self.duration_ms, from, to, elapsed_ms)
    }

    fn duration_ms(&self) -> Option<u64> {
        Some(self.duration_ms)
    }

    fn lock(&self) -> TransitionLock {
        self.lock
    }

    fn on_interrupt(&self) -> InterruptBehavior {
        self.interrupt
    }

    proof fn lemma_interpolate_in_range(&self, from: u16, to: u16, elapsed_ms: u64) {
        lemma_linear_in_range(self.duration_ms, from, to, elapsed_ms);
    }

    proof fn lemma_done_is_exact(&self, from: u16, to: u16, elapsed_ms: u64) {
    }

    proof fn lemma_past_duration_completes(&self, from: u16, to: u16, elapsed_ms: u64) {
    }
}

/// Range lemma for linear interpolation, shared with the type-erased
/// wrapper.
pub proof fn lemma_linear_in_range(duration_ms: u64, from: u16, to: u16, elapsed_ms: u64)
    requires
        speed_valid(from),
        speed_valid(to),
    ensures
        speed_valid(spec_linear_interpolate(duration_ms, from, to, elapsed_ms).0),
{
    if !(duration_ms == 0 || elapsed_ms >= duration_ms) {
        if to >= from {
            lemma_proportion_le((to - from) as int, elapsed_ms as int, duration_ms as int);
        } else {
            lemma_proportion_le((from - to) as int, elapsed_ms as int, duration_ms as int);
        }
    }
}

// ============================================================================
// EaseInOut
// ============================================================================

/// Smooth ease-in-out using the smoothstep curve `t^2 (3 - 2t)`:
/// starts slow, accelerates through the middle, decelerates at the
/// end. Suited to station arrivals and departures.
#[derive(Clone, Copy, Debug)]
pub struct EaseInOut {
    /// Total duration of the transition in milliseconds.
    pub duration_ms: u64,
    /// Lock level for this transition.
    pub lock: TransitionLock,
    /// Behavior when interrupted.
    pub interrupt: InterruptBehavior,
}

impl EaseInOut {
    /// An ease-in-out transition with no lock.
    pub fn new(duration_ms: u64) -> (r: Self)
        ensures
            r.duration_ms == duration_ms,
            r.lock == TransitionLock::NoLock,
            r.interrupt == InterruptBehavior::Replace,
    {
        Self { duration_ms, lock: TransitionLock::NoLock, interrupt: InterruptBehavior::Replace }
    }

    /// A station departure: hard-locked, rejects interrupts.
    pub fn departure(duration_ms: u64) -> (r: Self)
        ensures
            r.duration_ms == duration_ms,
            r.lock == TransitionLock::Hard,
            r.interrupt == InterruptBehavior::Reject,
    {
        Self { duration_ms, lock: TransitionLock::Hard, interrupt: InterruptBehavior::Reject }
    }

    /// A station arrival: source-locked, queues follow-up commands.
    pub fn arrival(duration_ms: u64) -> (r: Self)
        ensures
            r.duration_ms == duration_ms,
            r.lock == TransitionLock::Source,
            r.interrupt == InterruptBehavior::Queue,
    {
        Self { duration_ms, lock: TransitionLock::Source, interrupt: InterruptBehavior::Queue }
    }
}

/// Executable ease-in-out interpolation, shared by [`EaseInOut`] and
/// the type-erased wrapper.
pub(crate) fn ease_interpolate_exec(duration_ms: u64, from: u16, to: u16, elapsed_ms: u64) -> (r: (u16, bool))
    requires
        speed_valid(from),
        speed_valid(to),
    ensures
        r == spec_ease_interpolate(duration_ms, from, to, elapsed_ms),
        speed_valid(r.0),
{
    if duration_ms == 0 || elapsed_ms >= duration_ms {
        return (to, true);
    }
    let scale: u64 = SPEED_SCALE as u64;
    proof {
        lemma_mul_upper_bound(elapsed_ms as int, 0xFFFF_FFFF_FFFF_FFFF, scale as int, 10000);
    }
    let t128: u128 = ((elapsed_ms as u128) * (scale as u128)) / (duration_ms as u128);
    proof {
        lemma_fraction_range(elapsed_ms, duration_ms);
    }
    let t: u64 = t128 as u64;
    let diff: u64 = if to >= from { (to - from) as u64 } else { (from - to) as u64 };
    proof {
        lemma_mul_upper_bound(t as int, 9999, t as int, 9999);
    }
    let tt: u64 = t * t;
    let poly: u64 = 3 * scale - 2 * t;
    proof {
        lemma_mul_upper_bound(tt as int, 99980001, poly as int, 30000);
    }
    let cubic: u64 = tt * poly;
    proof {
        assert(cubic == eased_cubic(t as int));
        lemma_mul_upper_bound(diff as int, 0xFFFF, cubic as int, 0x2B_BC8E_4E90_0000);
    }
    let num: u128 = (diff as u128) * (cubic as u128);
    let denom: u128 = 1000000000000;
    let q: u128 = num / denom;
    proof {
        lemma_eased_offset_le(diff as int, t as int);
        assert(q == eased_offset(diff as int, t as int));
    }
    let offset: u16 = q as u16;
    if to >= from {
        (from + offset, false)
    } else {
        (from - offset, false)
    }
}

impl ExecutionStrategy for EaseInOut {
    open spec fn spec_interpolate(&self, from: u16, to: u16, elapsed_ms: u64) -> (u16, bool) {
        spec_ease_interpolate(self.duration_ms, from, to, elapsed_ms)
    }

    open spec fn spec_duration_ms(&self) -> Option<u64> {
        Some(self.duration_ms)
    }

    open spec fn spec_lock(&self) -> TransitionLock {
        self.lock
    }

    open spec fn spec_on_interrupt(&self) -> InterruptBehavior {
        self.interrupt
    }

    fn interpolate(&self, from: u16, to: u16, elapsed_ms: u64) -> (u16, bool) {
        ease_interpolate_exec(self.duration_ms, from, to, elapsed_ms)
    }

    fn duration_ms(&self) -> Option<u64> {
        Some(self.duration_ms)
    }

    fn lock(&self) -> TransitionLock {
        self.lock
    }

    fn on_interrupt(&self) -> InterruptBehavior {
        self.interrupt
    }

    proof fn lemma_interpolate_in_range(&self, from: u16, to: u16, elapsed_ms: u64) {
        lemma_ease_in_range(self.duration_ms, from, to, elapsed_ms);
    }

    proof fn lemma_done_is_exact(&self, from: u16, to: u16, elapsed_ms: u64) {
    }

    proof fn lemma_past_duration_completes(&self, from: u16, to: u16, elapsed_ms: u64) {
    }
}

/// Range lemma for ease-in-out interpolation, shared with the
/// type-erased wrapper.
pub proof fn lemma_ease_in_range(duration_ms: u64, from: u16, to: u16, elapsed_ms: u64)
    requires
        speed_valid(from),
        speed_valid(to),
    ensures
        speed_valid(spec_ease_interpolate(duration_ms, from, to, elapsed_ms).0),
{
    if !(duration_ms == 0 || elapsed_ms >= duration_ms) {
        lemma_fraction_range(elapsed_ms, duration_ms);
        let t = eased_fraction(elapsed_ms, duration_ms);
        if to >= from {
            lemma_eased_offset_le((to - from) as int, t);
        } else {
            lemma_eased_offset_le((from - to) as int, t);
        }
    }
}

// ============================================================================
// Momentum
// ============================================================================

/// Momentum-based transition: simulates inertia with an acceleration
/// and a maximum rate, both in speed units per second. Unlike
/// time-based strategies its duration depends on the distance, so
/// [`ExecutionStrategy::duration_ms`] is `None`.
#[derive(Clone, Copy, Debug)]
pub struct Momentum {
    /// Acceleration, in speed units per second per second.
    pub acceleration: u32,
    /// Maximum rate, in speed units per second.
    pub max_rate: u32,
    /// Lock level for this transition.
    pub lock: TransitionLock,
}

impl Momentum {
    /// A momentum transition with the given acceleration and cap.
    pub fn new(acceleration: u32, max_rate: u32) -> (r: Self)
        ensures
            r.acceleration == acceleration,
            r.max_rate == max_rate,
            r.lock == TransitionLock::NoLock,
    {
        Self { acceleration, max_rate, lock: TransitionLock::NoLock }
    }

    /// Gentle acceleration for smooth operation: half scale per second
    /// squared, capped at three tenths of scale per second.
    pub fn gentle() -> (r: Self)
        ensures
            r.acceleration == 5000,
            r.max_rate == 3000,
            r.lock == TransitionLock::NoLock,
    {
        Self { acceleration: 5000, max_rate: 3000, lock: TransitionLock::NoLock }
    }

    /// Responsive acceleration for quick changes: twice scale per
    /// second squared, capped at eight tenths of scale per second.
    pub fn responsive() -> (r: Self)
        ensures
            r.acceleration == 20000,
            r.max_rate == 8000,
            r.lock == TransitionLock::NoLock,
    {
        Self { acceleration: 20000, max_rate: 8000, lock: TransitionLock::NoLock }
    }
}

/// Executable momentum interpolation, shared by [`Momentum`] and the
/// type-erased wrapper.
pub(crate) fn momentum_interpolate_exec(
    acceleration: u32,
    max_rate: u32,
    from: u16,
    to: u16,
    elapsed_ms: u64,
) -> (r: (u16, bool))
    requires
        speed_valid(from),
        speed_valid(to),
    ensures
        r == spec_momentum_interpolate(acceleration, max_rate, from, to, elapsed_ms),
        speed_valid(r.0),
{
    let dist: u16 = if to >= from { to - from } else { from - to };
    proof {
        lemma_mul_upper_bound(acceleration as int, 0xFFFF_FFFF, elapsed_ms as int, 0xFFFF_FFFF_FFFF_FFFF);
    }
    let accel_num: u128 = (acceleration as u128) * (elapsed_ms as u128);
    let cap_num: u128 = (max_rate as u128) * 1000;
    let rate_num: u128 = if accel_num <= cap_num { accel_num } else { cap_num };
    proof {
        lemma_mul_upper_bound(rate_num as int, 4294967295000, elapsed_ms as int, 0xFFFF_FFFF_FFFF_FFFF);
    }
    let moved128: u128 = rate_num * (elapsed_ms as u128) / 1000000;
    if moved128 >= dist as u128 {
        (to, true)
    } else {
        let moved: u16 = moved128 as u16;
        if to >= from {
            (from + moved, false)
        } else {
            (from - moved, false)
        }
    }
}

impl ExecutionStrategy for Momentum {
    open spec fn spec_interpolate(&self, from: u16, to: u16, elapsed_ms: u64) -> (u16, bool) {
        spec_momentum_interpolate(self.acceleration, self.max_rate, from, to, elapsed_ms)
    }

    open spec fn spec_duration_ms(&self) -> Option<u64> {
        None
    }

    open spec fn spec_lock(&self) -> TransitionLock {
        self.lock
    }

    open spec fn spec_on_interrupt(&self) -> InterruptBehavior {
        InterruptBehavior::Replace
    }

    fn interpolate(&self, from: u16, to: u16, elapsed_ms: u64) -> (u16, bool) {
        momentum_interpolate_exec(self.acceleration, self.max_rate, from, to, elapsed_ms)
    }

    fn duration_ms(&self) -> Option<u64> {
        None
    }

    fn lock(&self) -> TransitionLock {
        self.lock
    }

    fn on_interrupt(&self) -> InterruptBehavior {
        InterruptBehavior::Replace
    }

    proof fn lemma_interpolate_in_range(&self, from: u16, to: u16, elapsed_ms: u64) {
        lemma_momentum_in_range(self.acceleration, self.max_rate, from, to, elapsed_ms);
    }

    proof fn lemma_done_is_exact(&self, from: u16, to: u16, elapsed_ms: u64) {
    }

    proof fn lemma_past_duration_completes(&self, from: u16, to: u16, elapsed_ms: u64) {
    }
}

/// Range lemma for momentum interpolation, shared with the type-erased
/// wrapper.
pub proof fn lemma_momentum_in_range(
    acceleration: u32,
    max_rate: u32,
    from: u16,
    to: u16,
    elapsed_ms: u64,
)
    requires
        speed_valid(from),
        speed_valid(to),
    ensures
        speed_valid(spec_momentum_interpolate(acceleration, max_rate, from, to, elapsed_ms).0),
{
    let dist = if to >= from { to - from } else { from - to };
    let moved = momentum_moved(acceleration, max_rate, elapsed_ms);
    let rate_num = if acceleration * elapsed_ms <= max_rate * 1000 {
        (acceleration * elapsed_ms) as int
    } else {
        (max_rate * 1000) as int
    };
    vstd::arithmetic::mul::lemma_mul_nonnegative(rate_num, elapsed_ms as int);
    lemma_div_pos_is_pos(rate_num * elapsed_ms, 1000000);
}

} // verus!
