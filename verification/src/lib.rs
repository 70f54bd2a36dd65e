//! Core engine of a DC model-train throttle controller.
//!
//! The crate reconciles commands from heterogeneous sources (a rotary
//! encoder, a web client, a pub/sub channel) into a single safe motor
//! output: priority arbitration with a timed source lockout, time-based
//! speed interpolation with lock semantics, and a controller that glues
//! commands, transitions and the motor together.
//!
//! Speeds are fixed-point throughout: a speed is an integer number of
//! ten-thousandths of full scale, so `5000` means half speed and
//! [`SPEED_SCALE`] means full speed.

use vstd::prelude::*;

pub mod commands;
pub mod hardware;
pub mod api;
pub mod config;
pub mod display;
pub mod hal;
pub mod http_handler;
pub mod laws;
pub mod messages;
pub mod mqtt;
pub mod network;
pub mod parsing;
pub mod priority;
pub mod shared;
pub mod strategy;
pub mod strategy_dyn;
pub mod text;
pub mod throttle;
pub mod transition;

pub use api::{ApiResponse, CommandResponse, LockStatusResponse, ProgressResponse, StateResponse};
pub use config::{Config, DeviceConfig, MqttConfig, ThrottleConfig, WebConfig, WifiConfig};
pub use display::ThrottleDisplay;
pub use hardware::{Clock, Direction, EncoderInput, FaultDetector, FaultKind, MotorController};
pub use http_handler::{ApiResult, HttpApiHandler};
pub use messages::{SetDirectionRequest, SetMaxSpeedRequest, SetSpeedRequest};
pub use network::{HttpMethod, HttpRequest, HttpResponse, MqttClient, MqttMessage};
pub use shared::{ChangeDetection, StateProvider};
pub use strategy::{
    EaseInOut, ExecutionStrategy, Immediate, InterruptBehavior, Linear, Momentum, TransitionLock,
};
pub use strategy_dyn::{AnyStrategy, IntoAnyStrategy};
pub use commands::{
    CommandOutcome, CommandSource, CommandType, PrioritizedCommand, Priority, RejectReason,
    ThrottleCommand, ThrottleCommandDyn, TransitionResult,
};
pub use priority::{CommandProcessor, CommandQueue, LockoutStatus, SourceLockout};
pub use throttle::{ThrottleController, ThrottleState};
pub use transition::{LockStatus, TransitionManager, TransitionProgress};

verus! {

/// Full scale of the fixed-point speed representation: a speed value is
/// a number of ten-thousandths of full throttle, clamped to
/// `0 ..= SPEED_SCALE`.
pub const SPEED_SCALE: u16 = 10000;

/// A speed value is valid when it does not exceed full scale.
pub open spec fn speed_valid(v: u16) -> bool {
    v <= SPEED_SCALE
}

/// Clamp an arbitrary fixed-point value to the valid speed range
/// `0 ..= limit`.
pub fn clamp_speed(value: u16, limit: u16) -> (r: u16)
    ensures
        r == spec_clamp_speed(value, limit),
{
    if value > limit {
        limit
    } else {
        value
    }
}

/// What [`clamp_speed`] returns: the smaller of the value and the limit.
pub open spec fn spec_clamp_speed(value: u16, limit: u16) -> u16 {
    if value > limit {
        limit
    } else {
        value
    }
}

} // verus!
