//! The platform-independent pieces of cross-task state sharing: the
//! state-provider capability the HTTP handlers consume, and the
//! change-detection slot telemetry publishers use to avoid flooding
//! the network with unchanged state.
//!
//! The locking itself (a mutex around the controller, a monotonic
//! clock) belongs to the hosting platform; it implements
//! [`StateProvider`] and wraps [`ChangeDetection`] in its own guard.

use vstd::prelude::*;
use crate::commands::{CommandOutcome, CommandSource, ThrottleCommandDyn};
use crate::hardware::Direction;
use crate::throttle::ThrottleState;

verus! {

/// Access to a shared throttle controller, as the transport handlers
/// need it: a snapshot, the time, and command application. Platforms
/// implement this over their own locking.
pub trait StateProvider {
    /// The current state snapshot.
    fn state(&self) -> ThrottleState;

    /// The current time in milliseconds, monotonic.
    fn now_ms(&self) -> u64;

    /// Apply a command to the controller on behalf of a source.
    fn apply_command(&self, cmd: ThrottleCommandDyn, source: CommandSource) -> Result<
        CommandOutcome,
        (),
    >;
}

/// The last published speed and direction, for change detection.
#[derive(Clone, Copy, Debug)]
pub struct ChangeDetection {
    /// Last published speed, in fixed-point units.
    pub last_speed: u16,
    /// Last published direction.
    pub last_direction: Direction,
}

impl Default for ChangeDetection {
    /// A fresh slot: speed zero, stopped.
    fn default() -> (r: Self)
        ensures
            r.last_speed == 0,
            r.last_direction == Direction::Stopped,
    {
        Self { last_speed: 0, last_direction: Direction::Stopped }
    }
}

/// Whether a snapshot counts as changed against the slot: the speed
/// moved by more than ten fixed-point units (a thousandth of full
/// scale) or the direction differs.
pub open spec fn spec_changed(det: ChangeDetection, speed: u16, direction: Direction) -> bool {
    ||| speed > det.last_speed + 10
    ||| det.last_speed > speed + 10
    ||| direction != det.last_direction
}

impl ChangeDetection {
    /// Whether a snapshot would count as changed, without recording
    /// it.
    pub fn is_changed(&self, speed: u16, direction: Direction) -> (r: bool)
        ensures
            r == spec_changed(*self, speed, direction),
    {
        let speed_changed = if speed >= self.last_speed {
            speed - self.last_speed > 10
        } else {
            self.last_speed - speed > 10
        };
        speed_changed || !direction_eq(direction, self.last_direction)
    }

    /// Record the snapshot if it differs noticeably from the last
    /// published one; returns whether it should be published.
    pub fn note_if_changed(&mut self, speed: u16, direction: Direction) -> (r: bool)
        ensures
            r == spec_changed(*old(self), speed, direction),
            r ==> final(self).last_speed == speed && final(self).last_direction == direction,
            !r ==> *final(self) == *old(self),
    {
        let speed_changed = if speed >= self.last_speed {
            speed - self.last_speed > 10
        } else {
            self.last_speed - speed > 10
        };
        let direction_changed = !direction_eq(direction, self.last_direction);
        if speed_changed || direction_changed {
            self.last_speed = speed;
            self.last_direction = direction;
            true
        } else {
            false
        }
    }

    /// Overwrite the slot with the given snapshot without reporting a
    /// change; used to resynchronize after out-of-band updates.
    pub fn sync(&mut self, speed: u16, direction: Direction)
        ensures
            final(self).last_speed == speed,
            final(self).last_direction == direction,
    {
        self.last_speed = speed;
        self.last_direction = direction;
    }
}

/// Equality of directions, spelled out so verified code need not call
/// a derived comparison.
pub fn direction_eq(a: Direction, b: Direction) -> (r: bool)
    ensures
        r == (a == b),
{
    match (a, b) {
        (Direction::Forward, Direction::Forward) => true,
        (Direction::Reverse, Direction::Reverse) => true,
        (Direction::Stopped, Direction::Stopped) => true,
        _ => false,
    }
}

} // verus!
