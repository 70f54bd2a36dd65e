//! Tests for the REST endpoint logic, against a scripted state
//! provider.

use std::sync::{Arc, Mutex};

use rs_trainz::http_handler::{command_outcome_to_json, state_to_json};
use rs_trainz::{
    ApiResult, CommandOutcome, CommandSource, Direction, HttpApiHandler, RejectReason,
    StateProvider, ThrottleCommandDyn, ThrottleState, TransitionProgress, TransitionResult,
};

struct MockStateProvider {
    state: Mutex<ThrottleState>,
    command_result: Mutex<Result<CommandOutcome, ()>>,
    last_command: Mutex<Option<(ThrottleCommandDyn, CommandSource)>>,
}

impl MockStateProvider {
    fn new() -> Self {
        Self {
            state: Mutex::new(ThrottleState {
                speed: 0,
                direction: Direction::Stopped,
                max_speed: 10000,
                target_speed: None,
                transition_progress: None,
                fault: None,
                lock_status: None,
            }),
            command_result: Mutex::new(Ok(CommandOutcome::Applied)),
            last_command: Mutex::new(None),
        }
    }

    fn with_state(self, speed: u16, direction: Direction) -> Self {
        {
            let mut state = self.state.lock().unwrap();
            state.speed = speed;
            state.direction = direction;
        }
        self
    }

    fn with_transition(self, target: u16, halfway: bool) -> Self {
        {
            let mut state = self.state.lock().unwrap();
            state.target_speed = Some(target);
            let current = if halfway { target / 2 } else { 0 };
            state.transition_progress = Some(TransitionProgress {
                from: 0,
                to: target,
                current,
                elapsed_ms: 500,
                estimated_total_ms: Some(1000),
            });
        }
        self
    }

    fn with_command_result(self, result: Result<CommandOutcome, ()>) -> Self {
        *self.command_result.lock().unwrap() = result;
        self
    }

    fn last_command(&self) -> Option<(ThrottleCommandDyn, CommandSource)> {
        *self.last_command.lock().unwrap()
    }
}

#[derive(Clone)]
struct SharedProvider(Arc<MockStateProvider>);

impl StateProvider for SharedProvider {
    fn state(&self) -> ThrottleState {
        *self.0.state.lock().unwrap()
    }

    fn now_ms(&self) -> u64 {
        1000
    }

    fn apply_command(
        &self,
        cmd: ThrottleCommandDyn,
        source: CommandSource,
    ) -> Result<CommandOutcome, ()> {
        *self.0.last_command.lock().unwrap() = Some((cmd, source));
        *self.0.command_result.lock().unwrap()
    }
}

#[test]
fn test_direction_str() {
    assert_eq!(rs_trainz::http_handler::direction_str(&Direction::Forward), "forward");
    assert_eq!(rs_trainz::http_handler::direction_str(&Direction::Reverse), "reverse");
    assert_eq!(rs_trainz::http_handler::direction_str(&Direction::Stopped), "stopped");
}

#[test]
fn test_api_result() {
    let ok = ApiResult::ok(r#"{"status":"ok"}"#);
    assert!(ok.is_ok());
    assert_eq!(ok.status(), 200);

    let err = ApiResult::bad_request("bad input");
    assert!(!err.is_ok());
    assert_eq!(err.status(), 400);
}

#[test]
fn test_api_result_error() {
    let err = ApiResult::error(500, "internal error");
    assert!(!err.is_ok());
    assert_eq!(err.status(), 500);
    assert_eq!(err.body(), "internal error");
}

#[test]
fn test_state_to_json_basic() {
    let state = ThrottleState {
        speed: 5000,
        direction: Direction::Forward,
        max_speed: 10000,
        target_speed: None,
        transition_progress: None,
        fault: None,
        lock_status: None,
    };

    let json = state_to_json(&state);
    assert!(json.contains("\"speed\":0.50"));
    assert!(json.contains("\"direction\":\"forward\""));
    assert!(json.contains("\"max_speed\":1.00"));
    assert!(json.contains("\"is_transitioning\":false"));
}

#[test]
fn test_state_to_json_with_transition() {
    let state = ThrottleState {
        speed: 3000,
        direction: Direction::Reverse,
        max_speed: 8000,
        target_speed: Some(7000),
        transition_progress: Some(TransitionProgress {
            from: 0,
            to: 7000,
            current: 3000,
            elapsed_ms: 500,
            estimated_total_ms: Some(1000),
        }),
        fault: None,
        lock_status: None,
    };

    let json = state_to_json(&state);
    assert!(json.contains("\"speed\":0.30"));
    assert!(json.contains("\"target_speed\":0.70"));
    assert!(json.contains("\"direction\":\"reverse\""));
    assert!(json.contains("\"is_transitioning\":true"));
}

#[test]
fn test_state_to_json_exact() {
    let state = ThrottleState {
        speed: 5000,
        direction: Direction::Forward,
        max_speed: 10000,
        target_speed: None,
        transition_progress: None,
        fault: None,
        lock_status: None,
    };
    assert_eq!(
        state_to_json(&state),
        r#"{"speed":0.50,"target_speed":0.50,"direction":"forward","max_speed":1.00,"is_transitioning":false}"#
    );
}

#[test]
fn test_command_outcome_to_json_applied() {
    let json = command_outcome_to_json(CommandOutcome::Applied);
    assert!(json.contains("\"ok\":true"));
    assert!(json.contains("\"result\":\"applied\""));
}

#[test]
fn test_command_outcome_to_json_transition_started() {
    let json = command_outcome_to_json(CommandOutcome::SpeedTransition(TransitionResult::Started));
    assert!(json.contains("\"result\":\"transition_started\""));
}

#[test]
fn test_command_outcome_to_json_queued() {
    let json = command_outcome_to_json(CommandOutcome::SpeedTransition(TransitionResult::Queued));
    assert!(json.contains("\"result\":\"queued\""));
}

#[test]
fn test_command_outcome_to_json_interrupted() {
    let json = command_outcome_to_json(CommandOutcome::SpeedTransition(
        TransitionResult::Interrupted { previous_target: 5000 },
    ));
    assert!(json.contains("\"result\":\"interrupted_previous\""));
}

#[test]
fn test_command_outcome_to_json_rejected() {
    let json = command_outcome_to_json(CommandOutcome::SpeedTransition(
        TransitionResult::Rejected { reason: RejectReason::TransitionLocked },
    ));
    assert!(json.contains("\"result\":\"rejected\""));
}

#[test]
fn test_handle_get_state() {
    let provider = Arc::new(MockStateProvider::new().with_state(7500, Direction::Forward));
    let handler = HttpApiHandler::new(SharedProvider(provider));

    let json = handler.handle_get_state();
    assert!(json.contains("\"speed\":0.75"));
    assert!(json.contains("\"direction\":\"forward\""));
}

#[test]
fn test_handle_get_state_with_transition() {
    let provider = Arc::new(
        MockStateProvider::new().with_state(3000, Direction::Reverse).with_transition(8000, true),
    );
    let handler = HttpApiHandler::new(SharedProvider(provider));

    let json = handler.handle_get_state();
    assert!(json.contains("\"is_transitioning\":true"));
    assert!(json.contains("\"target_speed\":0.80"));
}

#[test]
fn test_handle_set_speed_valid() {
    let provider = Arc::new(MockStateProvider::new());
    let handler = HttpApiHandler::new(SharedProvider(provider.clone()));

    let result = handler.handle_set_speed(r#"{"speed": 0.5}"#);
    assert!(result.is_ok());

    let (cmd, source) = provider.last_command().expect("command should be captured");
    assert!(matches!(source, CommandSource::WebApi));
    match cmd {
        ThrottleCommandDyn::SetSpeed { target, .. } => {
            assert_eq!(target, 5000);
        },
        _ => panic!("expected a speed command"),
    }
}

#[test]
fn test_handle_set_speed_invalid_json() {
    let provider = Arc::new(MockStateProvider::new());
    let handler = HttpApiHandler::new(SharedProvider(provider));

    let result = handler.handle_set_speed("not valid json");
    assert!(!result.is_ok());
    assert_eq!(result.status(), 400);
    assert!(result.body().contains("invalid speed"));
}

#[test]
fn test_handle_set_speed_missing_field() {
    let provider = Arc::new(MockStateProvider::new());
    let handler = HttpApiHandler::new(SharedProvider(provider));

    let result = handler.handle_set_speed(r#"{"other": 0.5}"#);
    assert!(!result.is_ok());
    assert_eq!(result.status(), 400);
}

#[test]
fn test_handle_set_speed_controller_error() {
    let provider = Arc::new(MockStateProvider::new().with_command_result(Err(())));
    let handler = HttpApiHandler::new(SharedProvider(provider));

    let result = handler.handle_set_speed(r#"{"speed": 0.5}"#);
    assert!(!result.is_ok());
    assert_eq!(result.status(), 500);
    assert!(result.body().contains("controller error"));
}

#[test]
fn test_handle_set_direction_forward() {
    let provider = Arc::new(MockStateProvider::new());
    let handler = HttpApiHandler::new(SharedProvider(provider.clone()));

    let result = handler.handle_set_direction(r#"{"direction": "forward"}"#);
    assert!(result.is_ok());

    let (cmd, _) = provider.last_command().expect("command should be captured");
    assert!(matches!(cmd, ThrottleCommandDyn::SetDirection(Direction::Forward)));
}

#[test]
fn test_handle_set_direction_reverse() {
    let provider = Arc::new(MockStateProvider::new());
    let handler = HttpApiHandler::new(SharedProvider(provider.clone()));

    let result = handler.handle_set_direction(r#"{"direction": "reverse"}"#);
    assert!(result.is_ok());

    let (cmd, _) = provider.last_command().expect("command should be captured");
    assert!(matches!(cmd, ThrottleCommandDyn::SetDirection(Direction::Reverse)));
}

#[test]
fn test_handle_set_direction_invalid() {
    let provider = Arc::new(MockStateProvider::new());
    let handler = HttpApiHandler::new(SharedProvider(provider));

    let result = handler.handle_set_direction(r#"{"direction": "sideways"}"#);
    assert!(!result.is_ok());
    assert_eq!(result.status(), 400);
}

#[test]
fn test_handle_estop() {
    let provider = Arc::new(MockStateProvider::new());
    let handler = HttpApiHandler::new(SharedProvider(provider.clone()));

    let result = handler.handle_estop();
    assert!(result.is_ok());
    assert!(result.body().contains("emergency_stop"));

    let (cmd, _) = provider.last_command().expect("command should be captured");
    assert!(matches!(cmd, ThrottleCommandDyn::EmergencyStop));
}

#[test]
fn test_handle_set_max_speed_valid() {
    let provider = Arc::new(MockStateProvider::new());
    let handler = HttpApiHandler::new(SharedProvider(provider.clone()));

    let result = handler.handle_set_max_speed(r#"{"max_speed": 0.8}"#);
    assert!(result.is_ok());

    let (cmd, _) = provider.last_command().expect("command should be captured");
    assert!(matches!(cmd, ThrottleCommandDyn::SetMaxSpeed(s) if s == 8000));
}

#[test]
fn test_handle_set_max_speed_out_of_range_high() {
    let provider = Arc::new(MockStateProvider::new());
    let handler = HttpApiHandler::new(SharedProvider(provider));

    let result = handler.handle_set_max_speed(r#"{"max_speed": 1.5}"#);
    assert!(!result.is_ok());
    assert_eq!(result.status(), 400);
    assert!(result.body().contains("between 0.0 and 1.0"));
}

#[test]
fn test_handle_set_max_speed_out_of_range_negative() {
    let provider = Arc::new(MockStateProvider::new());
    let handler = HttpApiHandler::new(SharedProvider(provider));

    let result = handler.handle_set_max_speed(r#"{"max_speed": -0.1}"#);
    assert!(!result.is_ok());
    assert_eq!(result.status(), 400);
}

#[test]
fn test_handle_set_max_speed_invalid_json() {
    let provider = Arc::new(MockStateProvider::new());
    let handler = HttpApiHandler::new(SharedProvider(provider));

    let result = handler.handle_set_max_speed("invalid");
    assert!(!result.is_ok());
    assert_eq!(result.status(), 400);
}
