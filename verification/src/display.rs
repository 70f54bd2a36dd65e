//! Display capability for rendering the throttle state: an OLED, a
//! character LCD, or a test double.

use vstd::prelude::*;
use crate::throttle::ThrottleState;

verus! {

/// Display capability: initialize, clear, render the state each
/// tick, and show short messages.
pub trait ThrottleDisplay {
    /// Error type for display operations.
    type Error;

    /// Initialize the display hardware.
    fn init(&mut self) -> Result<(), Self::Error>;

    /// Clear the display.
    fn clear(&mut self) -> Result<(), Self::Error>;

    /// Render the current throttle state; called at tick rate, so it
    /// must be cheap.
    fn render(&mut self, state: &ThrottleState) -> Result<(), Self::Error>;

    /// Show a one- or two-line message.
    fn show_message(&mut self, line1: &str, line2: Option<&str>) -> Result<(), Self::Error>;
}

} // verus!
