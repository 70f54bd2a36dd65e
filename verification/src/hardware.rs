//! Hardware abstraction traits: motor control, encoder input, fault
//! detection and a monotonic clock.
//!
//! The engine consumes these capabilities by value; concrete drivers
//! (PWM, GPIO, timers) implement them outside the verified core.

use vstd::prelude::*;
use vstd::string::StringSliceAdditionalSpecFns;
use crate::speed_valid;
use crate::text::{eq_ignore_ascii_case, lower_bytes, trim_end_bytes, trim_start_bytes, trim_end_idx, trim_start_idx};

verus! {

/// Direction of train travel. Orthogonal to the speed magnitude.
#[derive(Clone, Copy, Debug, PartialEq, Eq, Structural)]
pub enum Direction {
    /// Moving forward (positive polarity).
    Forward,
    /// Moving in reverse (negative polarity).
    Reverse,
    /// Not moving.
    Stopped,
}

impl Default for Direction {
    /// The safe default is a stopped train.
    fn default() -> (r: Self)
        ensures
            r == Direction::Stopped,
    {
        Direction::Stopped
    }
}

/// The lowercase name of a direction, as used on the wire.
pub open spec fn spec_direction_str(d: Direction) -> Seq<char> {
    match d {
        Direction::Forward => "forward"@,
        Direction::Reverse => "reverse"@,
        Direction::Stopped => "stopped"@,
    }
}

impl Direction {
    /// Returns the direction as a lowercase string, for display and
    /// serialization.
    pub fn as_str(&self) -> (r: &'static str)
        ensures
            r@ == spec_direction_str(*self),
    {
        match self {
            Direction::Forward => "forward",
            Direction::Reverse => "reverse",
            Direction::Stopped => "stopped",
        }
    }

    /// Parse a direction from text: the full names, the
    /// abbreviations `fwd`, `rev` and `stop`, or the numerals `1`,
    /// `-1` and `0`, case-insensitively and ignoring surrounding
    /// whitespace.
    pub fn from_text(s: &str) -> (r: Option<Direction>)
        ensures
            r == spec_direction_from_text(s.spec_bytes()),
    {
        Self::from_text_bytes(s.as_bytes())
    }

    /// The byte-level core of [`Direction::from_text`], shared with
    /// the wire-payload parsers.
    pub fn from_text_bytes(bytes: &[u8]) -> (r: Option<Direction>)
        ensures
            r == spec_direction_from_text(bytes@),
    {
        let start = trim_start_idx(bytes);
        let tail = &bytes[start..bytes.len()];
        let end = trim_end_idx(tail);
        let word = &tail[0..end];
        proof {
            assert(bytes@.subrange(start as int, bytes@.len() as int) =~= tail@);
            assert(tail@.subrange(0, end as int) =~= word@);
        }
        if eq_ignore_ascii_case(word, "forward".as_bytes())
            || eq_ignore_ascii_case(word, "fwd".as_bytes())
            || eq_ignore_ascii_case(word, "1".as_bytes()) {
            Some(Direction::Forward)
        } else if eq_ignore_ascii_case(word, "reverse".as_bytes())
            || eq_ignore_ascii_case(word, "rev".as_bytes())
            || eq_ignore_ascii_case(word, "-1".as_bytes()) {
            Some(Direction::Reverse)
        } else if eq_ignore_ascii_case(word, "stopped".as_bytes())
            || eq_ignore_ascii_case(word, "stop".as_bytes())
            || eq_ignore_ascii_case(word, "0".as_bytes()) {
            Some(Direction::Stopped)
        } else {
            None
        }
    }
}

/// What [`Direction::from_text`] accepts: the trimmed, lowercased
/// input must be one of the nine direction words.
pub open spec fn spec_direction_from_text(s: Seq<u8>) -> Option<Direction> {
    let word = lower_bytes(trim_end_bytes(trim_start_bytes(s)));
    if word == "forward".spec_bytes() || word == "fwd".spec_bytes() || word == "1".spec_bytes() {
        Some(Direction::Forward)
    } else if word == "reverse".spec_bytes() || word == "rev".spec_bytes() || word
        == "-1".spec_bytes() {
        Some(Direction::Reverse)
    } else if word == "stopped".spec_bytes() || word == "stop".spec_bytes() || word
        == "0".spec_bytes() {
        Some(Direction::Stopped)
    } else {
        None
    }
}

/// Kinds of faults a detector can raise. A short circuit outranks an
/// overcurrent when both are present.
#[derive(Clone, Copy, Debug, PartialEq, Eq, Structural)]
pub enum FaultKind {
    /// Dead short on the track; the motor must stop immediately.
    ShortCircuit,
    /// Current above the configured safe threshold.
    Overcurrent,
}

/// Motor controller capability: PWM speed plus H-bridge direction.
///
/// Speeds are fixed-point ten-thousandths of full scale; the engine
/// only hands over values it has already clamped.
pub trait MotorController {
    /// Error type for motor operations, reported by value.
    type Error;

    /// Set the motor speed.
    fn set_speed(&mut self, speed: u16) -> Result<(), Self::Error>
        requires
            speed_valid(speed),
    ;

    /// Set the direction of travel.
    fn set_direction(&mut self, dir: Direction) -> Result<(), Self::Error>;

    /// Read the current draw in milliamps, where the hardware supports
    /// it; `Ok(None)` otherwise.
    fn read_current_ma(&self) -> Result<Option<u32>, Self::Error>;

    /// Convenience: speed to zero, then direction to stopped.
    fn stop(&mut self) -> Result<(), Self::Error> {
        match self.set_speed(0) {
            Ok(()) => self.set_direction(Direction::Stopped),
            Err(e) => Err(e),
        }
    }
}

/// Rotary encoder capability for the physical throttle knob.
pub trait EncoderInput {
    /// Returns accumulated clicks since the last call (positive is
    /// clockwise) and zeroes the accumulator.
    fn read_delta(&mut self) -> i32;

    /// Returns true while the encoder button is held down.
    fn button_pressed(&self) -> bool;

    /// Returns true exactly once per press (edge-triggered).
    fn button_just_pressed(&mut self) -> bool;
}

/// Fault detector capability for short circuits and overcurrent.
pub trait FaultDetector {
    /// Whether a short circuit is currently raised. Implementations
    /// override this to expose their own state; the default reports
    /// nothing raised.
    open spec fn spec_short_circuit(&self) -> bool {
        false
    }

    /// Whether an overcurrent is currently raised. Implementations
    /// override this to expose their own state; the default reports
    /// nothing raised.
    open spec fn spec_overcurrent(&self) -> bool {
        false
    }

    /// Returns true if a short circuit is detected.
    fn is_short_circuit(&self) -> (r: bool)
        ensures
            r == self.spec_short_circuit(),
    ;

    /// Returns true if current exceeds the safe threshold.
    fn is_overcurrent(&self) -> (r: bool)
        ensures
            r == self.spec_overcurrent(),
    ;

    /// Returns the fault current in milliamps if available.
    fn fault_current_ma(&self) -> Option<u32>;

    /// Returns the active fault, a short circuit taking precedence over
    /// an overcurrent.
    fn active_fault(&self) -> (r: Option<FaultKind>)
        ensures
            r == (if self.spec_short_circuit() {
                Some(FaultKind::ShortCircuit)
            } else if self.spec_overcurrent() {
                Some(FaultKind::Overcurrent)
            } else {
                None::<FaultKind>
            }),
    {
        if self.is_short_circuit() {
            Some(FaultKind::ShortCircuit)
        } else if self.is_overcurrent() {
            Some(FaultKind::Overcurrent)
        } else {
            None
        }
    }
}

/// Monotonic time source, in milliseconds since an arbitrary epoch.
pub trait Clock {
    /// Returns the current time in milliseconds. Must be monotonically
    /// non-decreasing across calls.
    fn now_ms(&self) -> u64;
}

} // verus!
