//! Command types and the priority model.
//!
//! Commands arrive from several sources; each source has a fixed
//! priority, each command kind a secondary one, and an emergency stop
//! from any source is promoted to the highest priority of all. The
//! pair of those two ranks is the sole ordering key of the command
//! queue.

use vstd::prelude::*;
use crate::hardware::Direction;
use crate::strategy::ExecutionStrategy;
use crate::strategy_dyn::{AnyStrategy, IntoAnyStrategy};
use crate::strategy::Immediate;

verus! {

// ============================================================================
// Sources and kinds
// ============================================================================

/// Source of a command, in ascending priority order.
#[derive(Clone, Copy, Debug, PartialEq, Eq, PartialOrd, Ord, Hash, Structural)]
pub enum CommandSource {
    /// Remote pub/sub command (lowest priority).
    Mqtt,
    /// Web API command.
    WebApi,
    /// Web UI on the local network.
    WebLocal,
    /// Physical controls: rotary encoder and buttons.
    Physical,
    /// System-detected fault.
    Fault,
    /// Emergency stop from any source (highest priority).
    Emergency,
}

/// The numeric priority of a source: higher outranks lower.
pub open spec fn source_rank(s: CommandSource) -> int {
    match s {
        CommandSource::Mqtt => 0,
        CommandSource::WebApi => 1,
        CommandSource::WebLocal => 2,
        CommandSource::Physical => 3,
        CommandSource::Fault => 4,
        CommandSource::Emergency => 5,
    }
}

impl CommandSource {
    /// The numeric priority of this source, for comparisons in
    /// executable code.
    pub fn rank(&self) -> (r: u8)
        ensures
            r == source_rank(*self),
    {
        match self {
            CommandSource::Mqtt => 0,
            CommandSource::WebApi => 1,
            CommandSource::WebLocal => 2,
            CommandSource::Physical => 3,
            CommandSource::Fault => 4,
            CommandSource::Emergency => 5,
        }
    }
}

/// Kind of a command, the secondary ordering key within one source.
#[derive(Clone, Copy, Debug, PartialEq, Eq, PartialOrd, Ord, Structural)]
pub enum CommandType {
    /// Set the maximum speed limit (configuration).
    SetMaxSpeed,
    /// Set the direction of travel.
    SetDirection,
    /// Set the speed, with a transition strategy.
    SetSpeed,
    /// Emergency stop.
    EmergencyStop,
}

/// The numeric priority of a command kind: higher outranks lower.
pub open spec fn kind_rank(k: CommandType) -> int {
    match k {
        CommandType::SetMaxSpeed => 0,
        CommandType::SetDirection => 1,
        CommandType::SetSpeed => 2,
        CommandType::EmergencyStop => 3,
    }
}

impl CommandType {
    /// The numeric priority of this kind, for comparisons in
    /// executable code.
    pub fn rank(&self) -> (r: u8)
        ensures
            r == kind_rank(*self),
    {
        match self {
            CommandType::SetMaxSpeed => 0,
            CommandType::SetDirection => 1,
            CommandType::SetSpeed => 2,
            CommandType::EmergencyStop => 3,
        }
    }
}

// ============================================================================
// Typed commands
// ============================================================================

/// A throttle command carrying its strategy as a concrete type.
#[derive(Clone, Debug)]
pub enum ThrottleCommand<S: ExecutionStrategy = Immediate> {
    /// Set the target speed with a transition strategy.
    SetSpeed {
        /// Target speed in fixed-point units, clamped on entry.
        target: u16,
        /// Strategy for transitioning to the target speed.
        strategy: S,
    },
    /// Set the direction of travel, applied without a transition.
    SetDirection(Direction),
    /// Emergency stop: speed to zero, direction to stopped, every
    /// transition cancelled.
    EmergencyStop,
    /// Set the maximum allowed speed; running transitions keep their
    /// target.
    SetMaxSpeed(u16),
}

impl ThrottleCommand<Immediate> {
    /// An immediate speed change.
    pub fn speed_immediate(target: u16) -> (r: Self)
        ensures
            r == (ThrottleCommand::SetSpeed { target, strategy: Immediate }),
    {
        ThrottleCommand::SetSpeed { target, strategy: Immediate }
    }

    /// An emergency stop command.
    pub fn estop() -> (r: Self)
        ensures
            r == ThrottleCommand::<Immediate>::EmergencyStop,
    {
        ThrottleCommand::EmergencyStop
    }
}

/// The kind of a typed command.
pub open spec fn spec_command_type<S: ExecutionStrategy>(c: ThrottleCommand<S>) -> CommandType {
    match c {
        ThrottleCommand::SetSpeed { .. } => CommandType::SetSpeed,
        ThrottleCommand::SetDirection(_) => CommandType::SetDirection,
        ThrottleCommand::EmergencyStop => CommandType::EmergencyStop,
        ThrottleCommand::SetMaxSpeed(_) => CommandType::SetMaxSpeed,
    }
}

impl<S: ExecutionStrategy> ThrottleCommand<S> {
    /// The kind of this command, for priority ordering.
    pub fn command_type(&self) -> (r: CommandType)
        ensures
            r == spec_command_type(*self),
    {
        match self {
            ThrottleCommand::SetSpeed { .. } => CommandType::SetSpeed,
            ThrottleCommand::SetDirection(_) => CommandType::SetDirection,
            ThrottleCommand::EmergencyStop => CommandType::EmergencyStop,
            ThrottleCommand::SetMaxSpeed(_) => CommandType::SetMaxSpeed,
        }
    }
}

// ============================================================================
// Dynamic commands
// ============================================================================

/// A command with a type-erased strategy, the form queues and the
/// controller work with.
#[derive(Clone, Copy, Debug)]
pub enum ThrottleCommandDyn {
    /// Set the target speed with a type-erased transition strategy.
    SetSpeed {
        /// Target speed in fixed-point units, clamped on entry.
        target: u16,
        /// Type-erased strategy for the transition.
        strategy: AnyStrategy,
    },
    /// Set the direction of travel.
    SetDirection(Direction),
    /// Emergency stop.
    EmergencyStop,
    /// Set the maximum allowed speed.
    SetMaxSpeed(u16),
}

/// The kind of a dynamic command.
pub open spec fn spec_command_type_dyn(c: ThrottleCommandDyn) -> CommandType {
    match c {
        ThrottleCommandDyn::SetSpeed { .. } => CommandType::SetSpeed,
        ThrottleCommandDyn::SetDirection(_) => CommandType::SetDirection,
        ThrottleCommandDyn::EmergencyStop => CommandType::EmergencyStop,
        ThrottleCommandDyn::SetMaxSpeed(_) => CommandType::SetMaxSpeed,
    }
}

impl ThrottleCommandDyn {
    /// The kind of this command, for priority ordering.
    pub fn command_type(&self) -> (r: CommandType)
        ensures
            r == spec_command_type_dyn(*self),
    {
        match self {
            ThrottleCommandDyn::SetSpeed { .. } => CommandType::SetSpeed,
            ThrottleCommandDyn::SetDirection(_) => CommandType::SetDirection,
            ThrottleCommandDyn::EmergencyStop => CommandType::EmergencyStop,
            ThrottleCommandDyn::SetMaxSpeed(_) => CommandType::SetMaxSpeed,
        }
    }

    /// True exactly for the emergency stop command.
    pub fn is_estop(&self) -> (r: bool)
        ensures
            r == (*self is EmergencyStop),
    {
        match self {
            ThrottleCommandDyn::EmergencyStop => true,
            _ => false,
        }
    }
}

impl<S: IntoAnyStrategy> From<ThrottleCommand<S>> for ThrottleCommandDyn {
    fn from(cmd: ThrottleCommand<S>) -> (r: ThrottleCommandDyn) {
        match cmd {
            ThrottleCommand::SetSpeed { target, strategy } => ThrottleCommandDyn::SetSpeed {
                target,
                strategy: strategy.to_any(),
            },
            ThrottleCommand::SetDirection(d) => ThrottleCommandDyn::SetDirection(d),
            ThrottleCommand::EmergencyStop => ThrottleCommandDyn::EmergencyStop,
            ThrottleCommand::SetMaxSpeed(s) => ThrottleCommandDyn::SetMaxSpeed(s),
        }
    }
}

impl<S: IntoAnyStrategy> vstd::std_specs::convert::FromSpecImpl<ThrottleCommand<S>> for ThrottleCommandDyn {
    open spec fn obeys_from_spec() -> bool {
        true
    }

    open spec fn from_spec(cmd: ThrottleCommand<S>) -> Self {
        match cmd {
            ThrottleCommand::SetSpeed { target, strategy } => ThrottleCommandDyn::SetSpeed {
                target,
                strategy: strategy.spec_any(),
            },
            ThrottleCommand::SetDirection(d) => ThrottleCommandDyn::SetDirection(d),
            ThrottleCommand::EmergencyStop => ThrottleCommandDyn::EmergencyStop,
            ThrottleCommand::SetMaxSpeed(s) => ThrottleCommandDyn::SetMaxSpeed(s),
        }
    }
}

// ============================================================================
// Prioritized commands
// ============================================================================

/// A command tagged with its source and submission time, ready for
/// queueing. The timestamp breaks no ties; it is kept for
/// diagnostics.
#[derive(Clone, Copy, Debug)]
pub struct PrioritizedCommand {
    /// The command to execute.
    pub command: ThrottleCommandDyn,
    /// Source that issued the command.
    pub source: CommandSource,
    /// Submission time in milliseconds.
    pub timestamp_ms: u64,
}

/// The effective source of a prioritized command: an e-stop is
/// promoted to [`CommandSource::Emergency`] whatever source issued
/// it.
pub open spec fn effective_source(pc: PrioritizedCommand) -> CommandSource {
    if pc.command is EmergencyStop {
        CommandSource::Emergency
    } else {
        pc.source
    }
}

/// The priority pair of a prioritized command.
pub open spec fn spec_priority(pc: PrioritizedCommand) -> (CommandSource, CommandType) {
    (effective_source(pc), spec_command_type_dyn(pc.command))
}

/// The priority pair flattened into one number, so that a higher pair
/// is exactly a higher number.
pub open spec fn priority_rank(pc: PrioritizedCommand) -> int {
    source_rank(effective_source(pc)) * 4 + kind_rank(spec_command_type_dyn(pc.command))
}

impl PrioritizedCommand {
    /// Tag a command with its source and submission time.
    pub fn new(command: ThrottleCommandDyn, source: CommandSource, timestamp_ms: u64) -> (r: Self)
        ensures
            r.command == command,
            r.source == source,
            r.timestamp_ms == timestamp_ms,
    {
        Self { command, source, timestamp_ms }
    }

    /// The effective priority pair `(source, kind)`, with the e-stop
    /// promotion applied.
    pub fn priority(&self) -> (r: (CommandSource, CommandType))
        ensures
            r == spec_priority(*self),
    {
        let effective = if self.command.is_estop() {
            CommandSource::Emergency
        } else {
            self.source
        };
        (effective, self.command.command_type())
    }

    /// The flattened priority rank, for comparisons in executable
    /// code.
    pub fn rank(&self) -> (r: u8)
        ensures
            r == priority_rank(*self),
    {
        let effective = if self.command.is_estop() {
            CommandSource::Emergency
        } else {
            self.source
        };
        effective.rank() * 4 + self.command.command_type().rank()
    }
}

/// Two distinct priority pairs have distinct flattened ranks, and the
/// rank order is the lexicographic order of the pairs.
pub proof fn lemma_priority_rank_faithful(a: PrioritizedCommand, b: PrioritizedCommand)
    ensures
        (priority_rank(a) == priority_rank(b)) == (spec_priority(a) == spec_priority(b)),
        (priority_rank(a) > priority_rank(b)) == (source_rank(effective_source(a)) > source_rank(
            effective_source(b),
        ) || (effective_source(a) == effective_source(b) && kind_rank(
            spec_command_type_dyn(a.command),
        ) > kind_rank(spec_command_type_dyn(b.command)))),
{
}

impl PartialEq for PrioritizedCommand {
    /// Commands are equal when their priorities and timestamps agree;
    /// the payload does not take part.
    fn eq(&self, other: &Self) -> (r: bool) {
        proof {
            lemma_priority_rank_faithful(*self, *other);
        }
        self.rank() == other.rank() && self.timestamp_ms == other.timestamp_ms
    }
}

impl Eq for PrioritizedCommand {}

impl vstd::std_specs::cmp::PartialEqSpecImpl for PrioritizedCommand {
    open spec fn obeys_eq_spec() -> bool {
        true
    }

    open spec fn eq_spec(&self, other: &Self) -> bool {
        spec_priority(*self) == spec_priority(*other) && self.timestamp_ms == other.timestamp_ms
    }
}

impl PartialOrd for PrioritizedCommand {
    /// Commands are ordered by their priority pair alone.
    fn partial_cmp(&self, other: &Self) -> (r: Option<core::cmp::Ordering>) {
        let a = self.rank();
        let b = other.rank();
        proof {
            lemma_priority_rank_faithful(*self, *other);
        }
        if a < b {
            Some(core::cmp::Ordering::Less)
        } else if a == b {
            Some(core::cmp::Ordering::Equal)
        } else {
            Some(core::cmp::Ordering::Greater)
        }
    }
}

impl vstd::std_specs::cmp::PartialOrdSpecImpl for PrioritizedCommand {
    open spec fn obeys_partial_cmp_spec() -> bool {
        true
    }

    open spec fn partial_cmp_spec(&self, other: &Self) -> Option<core::cmp::Ordering> {
        if priority_rank(*self) < priority_rank(*other) {
            Some(core::cmp::Ordering::Less)
        } else if priority_rank(*self) == priority_rank(*other) {
            Some(core::cmp::Ordering::Equal)
        } else {
            Some(core::cmp::Ordering::Greater)
        }
    }
}

// ============================================================================
// Outcomes
// ============================================================================

/// Result of applying a command to the controller.
#[derive(Clone, Copy, Debug)]
pub enum CommandOutcome {
    /// The command took effect immediately (direction, max speed).
    Applied,
    /// A speed command went to the transition manager; the detail is
    /// inside.
    SpeedTransition(TransitionResult),
}

/// Result of attempting to start a speed transition.
#[derive(Clone, Copy, Debug)]
pub enum TransitionResult {
    /// The transition started.
    Started,
    /// The command waits in the queue slot for the running transition
    /// to finish.
    Queued,
    /// The command was refused.
    Rejected {
        /// Why the command was refused.
        reason: RejectReason,
    },
    /// The command replaced a running transition.
    Interrupted {
        /// The target speed of the interrupted transition.
        previous_target: u16,
    },
}

/// Why a command was refused.
#[derive(Clone, Copy, Debug, PartialEq, Eq, Structural)]
pub enum RejectReason {
    /// A hard-locked transition is running and rejects interrupts.
    TransitionLocked,
    /// The command's source ranks below the holder of a source lock.
    LowerPriority,
    /// The single queue slot is already taken.
    QueueFull,
}

/// Priority pair `(source, kind)`: the sole ordering key of the
/// command queue.
pub type Priority = (CommandSource, CommandType);

} // verus!
