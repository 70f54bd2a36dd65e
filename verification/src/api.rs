//! Response shapes of the REST surface, as plain values. The
//! transport serializes them; the engine only fills them in.

use vstd::prelude::*;
use crate::commands::CommandSource;
use crate::hardware::{Direction, FaultKind};
use crate::throttle::ThrottleState;
use crate::transition::spec_percent;

verus! {

/// Envelope for every API response: success flag, payload or error.
#[derive(Debug, Clone)]
pub struct ApiResponse<T> {
    /// Whether the request succeeded.
    pub success: bool,
    /// The payload, present on success.
    pub data: Option<T>,
    /// The error message, present on failure.
    pub error: Option<String>,
}

impl<T> ApiResponse<T> {
    /// A successful response carrying data.
    pub fn ok(data: T) -> (r: Self)
        ensures
            r.success,
            r.data == Some(data),
            r.error is None,
    {
        Self { success: true, data: Some(data), error: None }
    }

    /// A failed response carrying a message.
    pub fn err(message: &str) -> (r: Self)
        ensures
            !r.success,
            r.data is None,
            r.error matches Some(m) && m@ == message@,
    {
        Self { success: false, data: None, error: Some(message.to_owned()) }
    }
}

/// The throttle state as the REST surface reports it.
#[derive(Debug, Clone, Copy)]
pub struct StateResponse {
    /// Current speed in fixed-point units.
    pub speed: u16,
    /// Target speed, if transitioning.
    pub target_speed: Option<u16>,
    /// Current direction.
    pub direction: Direction,
    /// Maximum allowed speed.
    pub max_speed: u16,
    /// Active fault, if any.
    pub fault: Option<FaultKind>,
    /// Whether a transition is in progress.
    pub transitioning: bool,
    /// Lock status of the running transition, if any.
    pub lock_status: Option<LockStatusResponse>,
    /// Progress of the running transition, if any.
    pub progress: Option<ProgressResponse>,
}

/// Lock status as reported over the REST surface.
#[derive(Debug, Clone, Copy)]
pub struct LockStatusResponse {
    /// Source that owns the lock.
    pub source: CommandSource,
    /// Target speed of the locked transition.
    pub target: u16,
    /// Whether a command waits in the queue slot.
    pub has_queued: bool,
}

/// Transition progress as reported over the REST surface.
#[derive(Debug, Clone, Copy)]
pub struct ProgressResponse {
    /// Starting speed.
    pub from: u16,
    /// Target speed.
    pub to: u16,
    /// Current speed.
    pub current: u16,
    /// Milliseconds since the transition started.
    pub elapsed_ms: u64,
    /// Estimated total duration, if known.
    pub total_ms: Option<u64>,
    /// Progress as a fraction of full scale, if known.
    pub percent: Option<u16>,
}

/// What [`StateResponse::from`] builds from a state snapshot.
pub open spec fn spec_state_response(state: ThrottleState) -> StateResponse {
    StateResponse {
        speed: state.speed,
        target_speed: state.target_speed,
        direction: state.direction,
        max_speed: state.max_speed,
        fault: state.fault,
        transitioning: state.target_speed is Some,
        lock_status: match state.lock_status {
            Some(l) => Some(
                LockStatusResponse { source: l.source, target: l.target, has_queued: l.has_queued },
            ),
            None => None,
        },
        progress: match state.transition_progress {
            Some(p) => Some(
                ProgressResponse {
                    from: p.from,
                    to: p.to,
                    current: p.current,
                    elapsed_ms: p.elapsed_ms,
                    total_ms: p.estimated_total_ms,
                    percent: spec_percent(p),
                },
            ),
            None => None,
        },
    }
}

impl<'a> From<&'a ThrottleState> for StateResponse {
    fn from(state: &'a ThrottleState) -> (r: Self) {
        Self {
            speed: state.speed,
            target_speed: state.target_speed,
            direction: state.direction,
            max_speed: state.max_speed,
            fault: state.fault,
            transitioning: state.target_speed.is_some(),
            lock_status: match &state.lock_status {
                Some(l) => Some(
                    LockStatusResponse {
                        source: l.source,
                        target: l.target,
                        has_queued: l.has_queued,
                    },
                ),
                None => None,
            },
            progress: match &state.transition_progress {
                Some(p) => Some(
                    ProgressResponse {
                        from: p.from,
                        to: p.to,
                        current: p.current,
                        elapsed_ms: p.elapsed_ms,
                        total_ms: p.estimated_total_ms,
                        percent: p.percent(),
                    },
                ),
                None => None,
            },
        }
    }
}

impl<'a> vstd::std_specs::convert::FromSpecImpl<&'a ThrottleState> for StateResponse {
    open spec fn obeys_from_spec() -> bool {
        true
    }

    open spec fn from_spec(state: &'a ThrottleState) -> Self {
        spec_state_response(*state)
    }
}

/// The outcome of one command, as the REST surface reports it.
#[derive(Debug, Clone)]
pub struct CommandResponse {
    /// Whether the command was accepted.
    pub accepted: bool,
    /// A short word describing the result.
    pub result: String,
}

impl CommandResponse {
    /// An accepted command with the given result word.
    pub fn accepted(result: &str) -> (r: Self)
        ensures
            r.accepted,
            r.result@ == result@,
    {
        Self { accepted: true, result: result.to_owned() }
    }

    /// A rejected command with the given reason word.
    pub fn rejected(reason: &str) -> (r: Self)
        ensures
            !r.accepted,
            r.result@ == reason@,
    {
        Self { accepted: false, result: reason.to_owned() }
    }
}

} // verus!
