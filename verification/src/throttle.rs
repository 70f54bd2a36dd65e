//! The throttle controller: glues commands, transitions and the motor
//! together.
//!
//! Every accepted command leaves the state consistent by the time
//! `apply_command` returns; `update` drives the transition manager
//! once per tick and writes the speed to the motor. As a safety belt
//! the controller clamps the per-tick speed to the configured maximum,
//! so a cap lowered under a running transition can never reach the
//! motor unclamped.

use vstd::prelude::*;
use crate::commands::{CommandOutcome, CommandSource, ThrottleCommandDyn};
use crate::hardware::{Direction, FaultKind, MotorController};
use crate::strategy::Immediate;
use crate::strategy_dyn::AnyStrategy;
use crate::transition::{
    spec_lock_status, spec_progress, spec_target, spec_try_start, spec_update, LockStatus,
    TransitionManager, TransitionProgress,
};
use crate::{spec_clamp_speed, speed_valid, clamp_speed, SPEED_SCALE};

verus! {

/// The central controller: accepts commands from any source, manages
/// speed transitions, handles faults and exposes a state snapshot.
pub struct ThrottleController<M: MotorController> {
    /// The motor handle; written on every tick and on direction
    /// changes, never read back.
    pub motor: M,
    /// The speed transition engine.
    pub speed_transition: TransitionManager,
    /// Current direction of travel.
    pub direction: Direction,
    /// Maximum allowed speed; speed commands are clamped against it.
    pub max_speed: u16,
    /// The active fault, if one was reported.
    pub fault: Option<FaultKind>,
}

impl<M: MotorController> ThrottleController<M> {
    /// Well-formedness: the transition engine is well-formed and the
    /// cap is a valid speed.
    pub open spec fn wf(&self) -> bool {
        &&& self.speed_transition.wf()
        &&& speed_valid(self.max_speed)
    }

    /// A controller at rest: speed zero, stopped, full speed allowed,
    /// no fault.
    pub fn new(motor: M) -> (r: Self)
        ensures
            r.wf(),
            r.speed_transition.active is None,
            r.speed_transition.queued is None,
            r.speed_transition.current_value == 0,
            r.direction == Direction::Stopped,
            r.max_speed == SPEED_SCALE,
            r.fault is None,
    {
        Self {
            motor,
            speed_transition: TransitionManager::new(0),
            direction: Direction::Stopped,
            max_speed: SPEED_SCALE,
            fault: None,
        }
    }

    /// Apply a command.
    ///
    /// A speed command is clamped to the cap and handed to the
    /// transition manager; an e-stop forces speed zero and direction
    /// stopped past every lock; direction and cap commands apply
    /// immediately. An `Err` can come only from a motor write, after
    /// the controller's own state has already changed as stated.
    pub fn apply_command(
        &mut self,
        cmd: ThrottleCommandDyn,
        source: CommandSource,
        now_ms: u64,
    ) -> (r: Result<CommandOutcome, M::Error>)
        requires
            old(self).wf(),
        ensures
            final(self).wf(),
            cmd matches ThrottleCommandDyn::SetSpeed { target, strategy } ==> {
                let step = spec_try_start(
                    old(self).speed_transition,
                    spec_clamp_speed(target, old(self).max_speed),
                    strategy,
                    source,
                    false,
                    now_ms,
                );
                &&& final(self).speed_transition == step.0
                &&& final(self).direction == old(self).direction
                &&& final(self).max_speed == old(self).max_speed
                &&& final(self).fault == old(self).fault
                &&& r matches Ok(o) && o == CommandOutcome::SpeedTransition(step.1)
            },
            cmd is EmergencyStop ==> {
                let step = spec_try_start(
                    old(self).speed_transition,
                    0,
                    AnyStrategy::Immediate(Immediate),
                    source,
                    true,
                    now_ms,
                );
                &&& final(self).speed_transition.active is None
                &&& final(self).speed_transition.queued is None
                &&& final(self).speed_transition.current_value == 0
                &&& final(self).direction == Direction::Stopped
                &&& final(self).max_speed == old(self).max_speed
                &&& final(self).fault == old(self).fault
                &&& r matches Ok(o) ==> o == CommandOutcome::SpeedTransition(step.1)
            },
            cmd matches ThrottleCommandDyn::SetDirection(d) ==> {
                &&& final(self).direction == d
                &&& final(self).speed_transition == old(self).speed_transition
                &&& final(self).max_speed == old(self).max_speed
                &&& final(self).fault == old(self).fault
                &&& r matches Ok(o) ==> o == CommandOutcome::Applied
            },
            cmd matches ThrottleCommandDyn::SetMaxSpeed(limit) ==> {
                &&& final(self).max_speed == spec_clamp_speed(limit, SPEED_SCALE)
                &&& final(self).speed_transition == old(self).speed_transition
                &&& final(self).direction == old(self).direction
                &&& final(self).fault == old(self).fault
                &&& r matches Ok(o) && o == CommandOutcome::Applied
            },
    {
        match cmd {
            ThrottleCommandDyn::SetSpeed { target, strategy } => {
                let clamped = clamp_speed(target, self.max_speed);
                let result = self.speed_transition.try_start(clamped, strategy, source, false, now_ms);
                Ok(CommandOutcome::SpeedTransition(result))
            },
            ThrottleCommandDyn::EmergencyStop => {
                let result = self.speed_transition.try_start(
                    0,
                    AnyStrategy::Immediate(Immediate),
                    source,
                    true,
                    now_ms,
                );
                self.direction = Direction::Stopped;
                match self.motor.set_direction(Direction::Stopped) {
                    Ok(()) => {},
                    Err(e) => {
                        return Err(e);
                    },
                }
                match self.motor.set_speed(0) {
                    Ok(()) => {},
                    Err(e) => {
                        return Err(e);
                    },
                }
                Ok(CommandOutcome::SpeedTransition(result))
            },
            ThrottleCommandDyn::SetDirection(dir) => {
                self.direction = dir;
                match self.motor.set_direction(dir) {
                    Ok(()) => {},
                    Err(e) => {
                        return Err(e);
                    },
                }
                Ok(CommandOutcome::Applied)
            },
            ThrottleCommandDyn::SetMaxSpeed(limit) => {
                self.max_speed = clamp_speed(limit, SPEED_SCALE);
                Ok(CommandOutcome::Applied)
            },
        }
    }

    /// Drive the transition manager one tick and write the speed to
    /// the motor, clamped to the cap as a safety belt.
    pub fn update(&mut self, now_ms: u64) -> (r: Result<(), M::Error>)
        requires
            old(self).wf(),
        ensures
            final(self).wf(),
            ({
                let step = spec_update(old(self).speed_transition, now_ms);
                final(self).speed_transition == (TransitionManager {
                    active: step.0.active,
                    queued: step.0.queued,
                    current_value: spec_clamp_speed(step.1.0, old(self).max_speed),
                })
            }),
            final(self).speed_transition.current_value <= final(self).max_speed,
            final(self).direction == old(self).direction,
            final(self).max_speed == old(self).max_speed,
            final(self).fault == old(self).fault,
    {
        let (speed, _complete) = self.speed_transition.update(now_ms);
        let capped = clamp_speed(speed, self.max_speed);
        self.speed_transition.current_value = capped;
        match self.motor.set_speed(capped) {
            Ok(()) => Ok(()),
            Err(e) => Err(e),
        }
    }

    /// Record a fault: cancel every transition, force speed zero and
    /// stop the motor. The direction is preserved so a UI can show
    /// the pre-fault intent.
    pub fn handle_fault(&mut self, fault: FaultKind) -> (r: Result<(), M::Error>)
        requires
            old(self).wf(),
        ensures
            final(self).wf(),
            final(self).fault == Some(fault),
            final(self).speed_transition.active is None,
            final(self).speed_transition.queued is None,
            final(self).speed_transition.current_value == 0,
            final(self).direction == old(self).direction,
            final(self).max_speed == old(self).max_speed,
    {
        self.fault = Some(fault);
        self.speed_transition.cancel_and_set(0);
        match self.motor.set_speed(0) {
            Ok(()) => Ok(()),
            Err(e) => Err(e),
        }
    }

    /// Clear the fault flag. The speed stays at zero; the operator
    /// must issue a new speed command.
    pub fn clear_fault(&mut self)
        requires
            old(self).wf(),
        ensures
            final(self).wf(),
            final(self).fault is None,
            final(self).speed_transition == old(self).speed_transition,
            final(self).direction == old(self).direction,
            final(self).max_speed == old(self).max_speed,
    {
        self.fault = None;
    }

    /// A state snapshot for UIs and telemetry.
    pub fn state(&self, now_ms: u64) -> (r: ThrottleState)
        ensures
            r == spec_state(*self, now_ms),
    {
        ThrottleState {
            speed: self.speed_transition.current(),
            target_speed: self.speed_transition.target(),
            direction: self.direction,
            max_speed: self.max_speed,
            fault: self.fault,
            lock_status: self.speed_transition.lock_status(),
            transition_progress: self.speed_transition.progress(now_ms),
        }
    }

    /// The current speed alone.
    pub fn current_speed(&self) -> (r: u16)
        ensures
            r == self.speed_transition.current_value,
    {
        self.speed_transition.current()
    }

    /// The current direction alone.
    pub fn current_direction(&self) -> (r: Direction)
        ensures
            r == self.direction,
    {
        self.direction
    }

    /// Whether a transition is in progress.
    pub fn is_transitioning(&self) -> (r: bool)
        ensures
            r == (self.speed_transition.active is Some),
    {
        self.speed_transition.is_transitioning()
    }

    /// Whether a fault is active.
    pub fn has_fault(&self) -> (r: bool)
        ensures
            r == (self.fault is Some),
    {
        self.fault.is_some()
    }
}

/// The snapshot reported by [`ThrottleController::state`].
pub open spec fn spec_state<M: MotorController>(
    c: ThrottleController<M>,
    now_ms: u64,
) -> ThrottleState {
    ThrottleState {
        speed: c.speed_transition.current_value,
        target_speed: spec_target(c.speed_transition),
        direction: c.direction,
        max_speed: c.max_speed,
        fault: c.fault,
        lock_status: spec_lock_status(c.speed_transition),
        transition_progress: spec_progress(c.speed_transition, now_ms),
    }
}

/// Full state snapshot for UIs and transports.
#[derive(Clone, Copy, Debug)]
pub struct ThrottleState {
    /// Current speed in fixed-point units.
    pub speed: u16,
    /// Target speed, if a transition is in progress.
    pub target_speed: Option<u16>,
    /// Current direction of travel.
    pub direction: Direction,
    /// Maximum allowed speed.
    pub max_speed: u16,
    /// Current fault condition, if any.
    pub fault: Option<FaultKind>,
    /// Transition lock status, if a transition is active.
    pub lock_status: Option<LockStatus>,
    /// Progress of the current transition, if any.
    pub transition_progress: Option<TransitionProgress>,
}

impl Default for ThrottleState {
    /// The state of a controller at rest.
    fn default() -> (r: Self)
        ensures
            r.speed == 0,
            r.target_speed is None,
            r.direction == Direction::Stopped,
            r.max_speed == SPEED_SCALE,
            r.fault is None,
            r.lock_status is None,
            r.transition_progress is None,
    {
        Self {
            speed: 0,
            target_speed: None,
            direction: Direction::Stopped,
            max_speed: SPEED_SCALE,
            fault: None,
            lock_status: None,
            transition_progress: None,
        }
    }
}

} // verus!
