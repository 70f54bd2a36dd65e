//! The REST endpoint logic, platform-agnostic: parse the body,
//! validate, build the command, apply it through a
//! [`StateProvider`], and shape the JSON reply. The transports only
//! move bytes.

use vstd::prelude::*;
use vstd::string::{StringExecFns, StringSliceAdditionalSpecFns};
use crate::commands::{CommandOutcome, CommandSource, TransitionResult};
use crate::hardware::{spec_direction_str, Direction};
use crate::messages::{
    parse_direction_request, parse_max_speed_request, parse_speed_request, request_to_command,
    spec_parse_direction_request, spec_parse_max_speed_request, spec_parse_speed_request,
};
use crate::shared::StateProvider;
use crate::throttle::ThrottleState;
use crate::commands::ThrottleCommandDyn;

verus! {

// ============================================================================
// API results
// ============================================================================

/// Result of one API operation: a JSON body, or a status code with a
/// message.
#[derive(Debug)]
pub enum ApiResult {
    /// Success, carrying the JSON response body.
    Success(String),
    /// Failure, carrying the HTTP status code and a message.
    Error(u16, String),
}

impl ApiResult {
    /// A success response.
    pub fn ok(json: &str) -> (r: Self)
        ensures
            r matches ApiResult::Success(j) && j@ == json@,
    {
        ApiResult::Success(json.to_owned())
    }

    /// An error response.
    pub fn error(status: u16, message: &str) -> (r: Self)
        ensures
            r matches ApiResult::Error(s, m) && s == status && m@ == message@,
    {
        ApiResult::Error(status, message.to_owned())
    }

    /// A bad-request (400) error.
    pub fn bad_request(message: &str) -> (r: Self)
        ensures
            r matches ApiResult::Error(s, m) && s == 400 && m@ == message@,
    {
        ApiResult::Error(400, message.to_owned())
    }

    /// Whether this is a success.
    pub fn is_ok(&self) -> (r: bool)
        ensures
            r == (*self is Success),
    {
        match self {
            ApiResult::Success(_) => true,
            ApiResult::Error(..) => false,
        }
    }

    /// The JSON body on success, the message on failure.
    pub fn body(&self) -> (r: &str)
        ensures
            self matches ApiResult::Success(j) ==> r@ == j@,
            self matches ApiResult::Error(_, m) ==> r@ == m@,
    {
        match self {
            ApiResult::Success(j) => j.as_str(),
            ApiResult::Error(_, m) => m.as_str(),
        }
    }

    /// The HTTP status code: 200 on success.
    pub fn status(&self) -> (r: u16)
        ensures
            *self is Success ==> r == 200,
            self matches ApiResult::Error(s, _) ==> r == s,
    {
        match self {
            ApiResult::Success(_) => 200,
            ApiResult::Error(s, _) => *s,
        }
    }
}

// ============================================================================
// JSON rendering
// ============================================================================

/// The decimal digit character for a value below ten.
pub open spec fn digit_char(d: int) -> char {
    if d == 0 {
        '0'
    } else if d == 1 {
        '1'
    } else if d == 2 {
        '2'
    } else if d == 3 {
        '3'
    } else if d == 4 {
        '4'
    } else if d == 5 {
        '5'
    } else if d == 6 {
        '6'
    } else if d == 7 {
        '7'
    } else if d == 8 {
        '8'
    } else {
        '9'
    }
}

/// A fixed-point speed rendered with two decimals, rounding half up:
/// `5000` becomes `0.50`.
pub open spec fn spec_two_dec(units: u16) -> Seq<char> {
    let h = (units + 50) / 100;
    seq![digit_char(h / 100), '.', digit_char((h % 100) / 10), digit_char(h % 10)]
}

/// The word a boolean renders to.
pub open spec fn spec_bool_str(b: bool) -> Seq<char> {
    if b {
        "true"@
    } else {
        "false"@
    }
}

/// The state snapshot rendered as one JSON object.
pub open spec fn spec_state_json(state: ThrottleState) -> Seq<char> {
    "{\"speed\":"@ + spec_two_dec(state.speed) + ",\"target_speed\":"@ + spec_two_dec(
        match state.target_speed {
            Some(t) => t,
            None => state.speed,
        },
    ) + ",\"direction\":\""@ + spec_direction_str(state.direction) + "\",\"max_speed\":"@
        + spec_two_dec(state.max_speed) + ",\"is_transitioning\":"@ + spec_bool_str(
        state.transition_progress is Some,
    ) + "}"@
}

/// The decimal digit string for a value below ten.
fn digit_str(d: u16) -> (r: &'static str)
    requires
        d < 10,
    ensures
        r@ == seq![digit_char(d as int)],
{
    let s: &'static str = if d == 0 {
        "0"
    } else if d == 1 {
        "1"
    } else if d == 2 {
        "2"
    } else if d == 3 {
        "3"
    } else if d == 4 {
        "4"
    } else if d == 5 {
        "5"
    } else if d == 6 {
        "6"
    } else if d == 7 {
        "7"
    } else if d == 8 {
        "8"
    } else {
        "9"
    };
    proof {
        reveal_strlit("0");
        reveal_strlit("1");
        reveal_strlit("2");
        reveal_strlit("3");
        reveal_strlit("4");
        reveal_strlit("5");
        reveal_strlit("6");
        reveal_strlit("7");
        reveal_strlit("8");
        reveal_strlit("9");
        assert(s@ =~= seq![digit_char(d as int)]);
    }
    s
}

/// Append a fixed-point value with two decimals.
fn push_two_dec(out: &mut String, units: u16)
    ensures
        final(out)@ == old(out)@ + spec_two_dec(units),
{
    let h: u16 = (((units as u32) + 50) / 100) as u16;
    out.append(digit_str(h / 100));
    out.append(".");
    out.append(digit_str((h % 100) / 10));
    out.append(digit_str(h % 10));
    proof {
        reveal_strlit(".");
        assert(final(out)@ =~= old(out)@ + spec_two_dec(units));
    }
}

/// Render the state snapshot as the compact JSON object the
/// transports publish.
pub fn state_to_json(state: &ThrottleState) -> (r: String)
    ensures
        r@ == spec_state_json(*state),
{
    let mut out = String::new();
    out.append("{\"speed\":");
    push_two_dec(&mut out, state.speed);
    out.append(",\"target_speed\":");
    let target = match state.target_speed {
        Some(t) => t,
        None => state.speed,
    };
    push_two_dec(&mut out, target);
    out.append(",\"direction\":\"");
    out.append(state.direction.as_str());
    out.append("\",\"max_speed\":");
    push_two_dec(&mut out, state.max_speed);
    out.append(",\"is_transitioning\":");
    if state.transition_progress.is_some() {
        out.append("true");
    } else {
        out.append("false");
    }
    out.append("}");
    proof {
        assert(out@ =~= spec_state_json(*state));
    }
    out
}

/// A fixed-point speed rendered with three decimals, rounding half
/// up: `5000` becomes `0.500`.
pub open spec fn spec_three_dec(units: u16) -> Seq<char> {
    let t = (units + 5) / 10;
    seq![
        digit_char(t / 1000),
        '.',
        digit_char((t % 1000) / 100),
        digit_char((t % 100) / 10),
        digit_char(t % 10),
    ]
}

/// Render a fixed-point speed with three decimals, as the bare speed
/// topic publishes it.
pub fn speed_str(units: u16) -> (r: String)
    ensures
        r@ == spec_three_dec(units),
{
    let t: u16 = (((units as u32) + 5) / 10) as u16;
    let mut out = String::new();
    out.append(digit_str(t / 1000));
    out.append(".");
    out.append(digit_str((t % 1000) / 100));
    out.append(digit_str((t % 100) / 10));
    out.append(digit_str(t % 10));
    proof {
        reveal_strlit(".");
        assert(out@ =~= spec_three_dec(units));
    }
    out
}

/// The lowercase name of a direction, as used on the wire.
pub fn direction_str(dir: &Direction) -> (r: &'static str)
    ensures
        r@ == spec_direction_str(*dir),
{
    dir.as_str()
}

/// The result word of a command outcome.
pub open spec fn spec_outcome_word(outcome: CommandOutcome) -> Seq<char> {
    match outcome {
        CommandOutcome::Applied => "applied"@,
        CommandOutcome::SpeedTransition(r) => match r {
            TransitionResult::Started => "transition_started"@,
            TransitionResult::Queued => "queued"@,
            TransitionResult::Interrupted { .. } => "interrupted_previous"@,
            TransitionResult::Rejected { .. } => "rejected"@,
        },
    }
}

/// A command outcome rendered as one JSON object.
pub open spec fn spec_outcome_json(outcome: CommandOutcome) -> Seq<char> {
    "{\"ok\":true,\"result\":\""@ + spec_outcome_word(outcome) + "\"}"@
}

/// Render a command outcome as the small JSON reply the transports
/// send.
pub fn command_outcome_to_json(outcome: CommandOutcome) -> (r: String)
    ensures
        r@ == spec_outcome_json(outcome),
{
    let word: &'static str = match outcome {
        CommandOutcome::Applied => "applied",
        CommandOutcome::SpeedTransition(t) => match t {
            TransitionResult::Started => "transition_started",
            TransitionResult::Queued => "queued",
            TransitionResult::Interrupted { .. } => "interrupted_previous",
            TransitionResult::Rejected { .. } => "rejected",
        },
    };
    let mut out = String::new();
    out.append("{\"ok\":true,\"result\":\"");
    out.append(word);
    out.append("\"}");
    proof {
        assert(out@ =~= spec_outcome_json(outcome));
    }
    out
}

// ============================================================================
// The handler
// ============================================================================

/// The REST endpoint logic over any state provider.
pub struct HttpApiHandler<S: StateProvider> {
    state: S,
}

impl<S: StateProvider> HttpApiHandler<S> {
    /// A handler over the given state provider.
    pub fn new(state: S) -> Self {
        Self { state }
    }

    /// `GET` the current state as JSON.
    pub fn handle_get_state(&self) -> (r: String)
        ensures
            exists|st: ThrottleState| r@ == spec_state_json(st),
    {
        let state = self.state.state();
        let json = state_to_json(&state);
        proof {
            assert(json@ == spec_state_json(state));
        }
        json
    }

    /// `POST` a speed change.
    ///
    /// The body must carry a speed within full scale; an optional
    /// duration and smoothing flag pick the strategy.
    pub fn handle_set_speed(&self, body: &str) -> (r: ApiResult)
        ensures
            spec_parse_speed_request(body.spec_bytes()) is None ==> ({
                &&& r matches ApiResult::Error(s, m)
                &&& s == 400
                &&& m@ == "{\"error\":\"invalid speed request\"}"@
            }),
            spec_parse_speed_request(body.spec_bytes()) matches Some(req) && !(0 <= req.speed
                <= crate::SPEED_SCALE) ==> ({
                &&& r matches ApiResult::Error(s, m)
                &&& s == 400
                &&& m@ == "{\"error\":\"speed must be between 0.0 and 1.0\"}"@
            }),
            spec_parse_speed_request(body.spec_bytes()) matches Some(req) && 0 <= req.speed
                <= crate::SPEED_SCALE ==> {
                ||| (r matches ApiResult::Success(j) && exists|o: CommandOutcome| j@
                    == spec_outcome_json(o))
                ||| (r matches ApiResult::Error(s, m) && s == 500 && m@
                    == "{\"error\":\"controller error\"}"@)
            },
    {
        let parsed = parse_speed_request(body.as_bytes());
        match parsed {
            None => ApiResult::bad_request("{\"error\":\"invalid speed request\"}"),
            Some(req) => {
                if req.speed < 0 || req.speed > crate::SPEED_SCALE as i32 {
                    return ApiResult::bad_request(
                        "{\"error\":\"speed must be between 0.0 and 1.0\"}",
                    );
                }
                let cmd = request_to_command(req);
                match self.state.apply_command(cmd, CommandSource::WebApi) {
                    Ok(outcome) => {
                        let json = command_outcome_to_json(outcome);
                        ApiResult::ok(json.as_str())
                    },
                    Err(_) => ApiResult::error(500, "{\"error\":\"controller error\"}"),
                }
            },
        }
    }

    /// `POST` a direction change.
    pub fn handle_set_direction(&self, body: &str) -> (r: ApiResult)
        ensures
            spec_parse_direction_request(body.spec_bytes()) is None ==> ({
                &&& r matches ApiResult::Error(s, m)
                &&& s == 400
                &&& m@ == "{\"error\":\"invalid direction\"}"@
            }),
            spec_parse_direction_request(body.spec_bytes()) is Some ==> {
                ||| (r matches ApiResult::Success(j) && j@
                    == "{\"ok\":true,\"result\":\"direction_set\"}"@)
                ||| (r matches ApiResult::Error(s, m) && s == 500 && m@
                    == "{\"error\":\"controller error\"}"@)
            },
    {
        let parsed = parse_direction_request(body.as_bytes());
        match parsed {
            None => ApiResult::bad_request("{\"error\":\"invalid direction\"}"),
            Some(req) => {
                let cmd = ThrottleCommandDyn::SetDirection(req.direction);
                match self.state.apply_command(cmd, CommandSource::WebApi) {
                    Ok(_) => ApiResult::ok("{\"ok\":true,\"result\":\"direction_set\"}"),
                    Err(_) => ApiResult::error(500, "{\"error\":\"controller error\"}"),
                }
            },
        }
    }

    /// `POST` an emergency stop; any body is accepted.
    pub fn handle_estop(&self) -> (r: ApiResult)
        ensures
            ({
                ||| (r matches ApiResult::Success(j) && j@
                    == "{\"ok\":true,\"result\":\"emergency_stop\"}"@)
                ||| (r matches ApiResult::Error(s, m) && s == 500 && m@
                    == "{\"error\":\"controller error\"}"@)
            }),
    {
        let cmd = ThrottleCommandDyn::EmergencyStop;
        match self.state.apply_command(cmd, CommandSource::WebApi) {
            Ok(_) => ApiResult::ok("{\"ok\":true,\"result\":\"emergency_stop\"}"),
            Err(_) => ApiResult::error(500, "{\"error\":\"controller error\"}"),
        }
    }

    /// `POST` a maximum-speed change; the value must lie within full
    /// scale.
    pub fn handle_set_max_speed(&self, body: &str) -> (r: ApiResult)
        ensures
            spec_parse_max_speed_request(body.spec_bytes()) is None ==> ({
                &&& r matches ApiResult::Error(s, m)
                &&& s == 400
                &&& m@ == "{\"error\":\"invalid max_speed\"}"@
            }),
            spec_parse_max_speed_request(body.spec_bytes()) matches Some(req) && !(0
                <= req.max_speed <= crate::SPEED_SCALE) ==> ({
                &&& r matches ApiResult::Error(s, m)
                &&& s == 400
                &&& m@ == "{\"error\":\"max_speed must be between 0.0 and 1.0\"}"@
            }),
            spec_parse_max_speed_request(body.spec_bytes()) matches Some(req) && 0 <= req.max_speed
                <= crate::SPEED_SCALE ==> {
                ||| (r matches ApiResult::Success(j) && j@
                    == "{\"ok\":true,\"result\":\"max_speed_set\"}"@)
                ||| (r matches ApiResult::Error(s, m) && s == 500 && m@
                    == "{\"error\":\"controller error\"}"@)
            },
    {
        let parsed = parse_max_speed_request(body.as_bytes());
        match parsed {
            None => ApiResult::bad_request("{\"error\":\"invalid max_speed\"}"),
            Some(req) => {
                if req.max_speed < 0 || req.max_speed > crate::SPEED_SCALE as i32 {
                    return ApiResult::bad_request(
                        "{\"error\":\"max_speed must be between 0.0 and 1.0\"}",
                    );
                }
                let cmd = ThrottleCommandDyn::SetMaxSpeed(req.max_speed as u16);
                match self.state.apply_command(cmd, CommandSource::WebApi) {
                    Ok(_) => ApiResult::ok("{\"ok\":true,\"result\":\"max_speed_set\"}"),
                    Err(_) => ApiResult::error(500, "{\"error\":\"controller error\"}"),
                }
            },
        }
    }
}

} // verus!
