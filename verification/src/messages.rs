//! Shared message types for the HTTP and pub/sub transports, and the
//! byte-level parsers for their payloads.
//!
//! Speeds in requests are fixed-point ten-thousandths (possibly out
//! of range or negative on the wire; the consumers validate or
//! clamp). Payload parsers accept either a small JSON object or the
//! bare numeral or word, and yield `None` for anything else.

use vstd::prelude::*;
use vstd::string::StringSliceAdditionalSpecFns;
use crate::commands::ThrottleCommandDyn;
use crate::hardware::{spec_direction_from_text, Direction};
use crate::parsing::{spec_parse_keyed_number, spec_parse_direction_json};
use crate::strategy::{EaseInOut, Linear};
use crate::strategy_dyn::AnyStrategy;
use crate::text::{
    digits_prefix, digits_prefix_len, find_byte, find_sub, parse_fixed, parse_u64_digits,
    slice_eq, slice_starts_with, spec_find_sub, spec_parse_fixed, starts_with, trim_end_bytes,
    trim_end_idx, trim_start_bytes, trim_start_idx, u64_digits_sat,
};

verus! {

// ============================================================================
// Request types
// ============================================================================

/// Request to set the train speed.
#[derive(Clone, Copy, Debug, PartialEq, Eq, Structural)]
pub struct SetSpeedRequest {
    /// Target speed in fixed-point ten-thousandths, as sent on the
    /// wire.
    pub speed: i32,
    /// Transition duration in milliseconds; zero means immediate.
    pub duration_ms: u64,
    /// Whether to use ease-in-out smoothing.
    pub smooth: bool,
}

impl SetSpeedRequest {
    /// An immediate speed request.
    pub fn immediate(speed: i32) -> (r: Self)
        ensures
            r == (SetSpeedRequest { speed, duration_ms: 0u64, smooth: false }),
    {
        Self { speed, duration_ms: 0, smooth: false }
    }

    /// A linear transition request.
    pub fn linear(speed: i32, duration_ms: u64) -> (r: Self)
        ensures
            r == (SetSpeedRequest { speed, duration_ms, smooth: false }),
    {
        Self { speed, duration_ms, smooth: false }
    }

    /// A smooth (ease-in-out) transition request.
    pub fn smooth(speed: i32, duration_ms: u64) -> (r: Self)
        ensures
            r == (SetSpeedRequest { speed, duration_ms, smooth: true }),
    {
        Self { speed, duration_ms, smooth: true }
    }
}

/// Request to set the train direction.
#[derive(Clone, Copy, Debug, PartialEq, Eq, Structural)]
pub struct SetDirectionRequest {
    /// Target direction.
    pub direction: Direction,
}

impl SetDirectionRequest {
    /// A direction request.
    pub fn new(direction: Direction) -> (r: Self)
        ensures
            r == (SetDirectionRequest { direction }),
    {
        Self { direction }
    }
}

/// Request to set the maximum allowed speed.
#[derive(Clone, Copy, Debug, PartialEq, Eq, Structural)]
pub struct SetMaxSpeedRequest {
    /// Maximum speed in fixed-point ten-thousandths.
    pub max_speed: i32,
}

impl SetMaxSpeedRequest {
    /// A maximum-speed request.
    pub fn new(max_speed: i32) -> (r: Self)
        ensures
            r == (SetMaxSpeedRequest { max_speed }),
    {
        Self { max_speed }
    }
}

// ============================================================================
// Keyed field extraction
// ============================================================================

/// The unsigned integer following the given quoted key, saturating
/// in `u64`.
pub open spec fn spec_parse_keyed_u64(s: Seq<u8>, key: Seq<u8>) -> Option<u64> {
    match spec_find_sub(s, key) {
        None => None,
        Some(ks) => {
            let tail = s.subrange(ks, s.len() as int);
            match tail.index_of_first(58u8) {
                None => None,
                Some(ci) => {
                    let after = tail.subrange(ci + 1, tail.len() as int);
                    let t = trim_start_bytes(after);
                    let run = t.subrange(0, digits_prefix_len(t));
                    if run.len() > 0 {
                        Some(u64_digits_sat(run) as u64)
                    } else {
                        None
                    }
                },
            }
        },
    }
}

/// Extract the unsigned integer following a quoted key.
fn parse_keyed_u64(json: &[u8], key: &[u8]) -> (r: Option<u64>)
    ensures
        r == spec_parse_keyed_u64(json@, key@),
{
    match find_sub(json, key) {
        None => None,
        Some(ks) => {
            let tail = &json[ks..json.len()];
            proof {
                assert(tail@ =~= json@.subrange(ks as int, json@.len() as int));
            }
            match find_byte(tail, 58) {
                None => None,
                Some(ci) => {
                    let after = &tail[ci + 1..tail.len()];
                    proof {
                        assert(after@ =~= tail@.subrange(ci + 1, tail@.len() as int));
                    }
                    let ws = trim_start_idx(after);
                    let trimmed = &after[ws..after.len()];
                    proof {
                        assert(trimmed@ =~= after@.subrange(ws as int, after@.len() as int));
                    }
                    let n = digits_prefix(trimmed);
                    if n == 0 {
                        return None;
                    }
                    let run = &trimmed[0..n];
                    proof {
                        assert(run@ =~= trimmed@.subrange(0, n as int));
                    }
                    Some(parse_u64_digits(run))
                },
            }
        },
    }
}

/// The boolean following the given quoted key: the word `true` or
/// `false` after the colon and any whitespace.
pub open spec fn spec_parse_keyed_bool(s: Seq<u8>, key: Seq<u8>) -> Option<bool> {
    match spec_find_sub(s, key) {
        None => None,
        Some(ks) => {
            let tail = s.subrange(ks, s.len() as int);
            match tail.index_of_first(58u8) {
                None => None,
                Some(ci) => {
                    let after = tail.subrange(ci + 1, tail.len() as int);
                    let t = trim_start_bytes(after);
                    if starts_with(t, "true".spec_bytes()) {
                        Some(true)
                    } else if starts_with(t, "false".spec_bytes()) {
                        Some(false)
                    } else {
                        None
                    }
                },
            }
        },
    }
}

/// Extract the boolean following a quoted key.
fn parse_keyed_bool(json: &[u8], key: &[u8]) -> (r: Option<bool>)
    ensures
        r == spec_parse_keyed_bool(json@, key@),
{
    match find_sub(json, key) {
        None => None,
        Some(ks) => {
            let tail = &json[ks..json.len()];
            proof {
                assert(tail@ =~= json@.subrange(ks as int, json@.len() as int));
            }
            match find_byte(tail, 58) {
                None => None,
                Some(ci) => {
                    let after = &tail[ci + 1..tail.len()];
                    proof {
                        assert(after@ =~= tail@.subrange(ci + 1, tail@.len() as int));
                    }
                    let ws = trim_start_idx(after);
                    let trimmed = &after[ws..after.len()];
                    proof {
                        assert(trimmed@ =~= after@.subrange(ws as int, after@.len() as int));
                    }
                    if slice_starts_with(trimmed, "true".as_bytes()) {
                        Some(true)
                    } else if slice_starts_with(trimmed, "false".as_bytes()) {
                        Some(false)
                    } else {
                        None
                    }
                },
            }
        },
    }
}

// ============================================================================
// Request parsers
// ============================================================================

/// What [`parse_speed_request`] returns: the `speed` field is
/// required; `duration_ms` defaults to zero and `smooth` to false.
pub open spec fn spec_parse_speed_request(s: Seq<u8>) -> Option<SetSpeedRequest> {
    match spec_parse_keyed_number(s, "\"speed\"".spec_bytes()) {
        None => None,
        Some(v) => Some(
            SetSpeedRequest {
                speed: v,
                duration_ms: match spec_parse_keyed_u64(s, "\"duration_ms\"".spec_bytes()) {
                    Some(d) => d,
                    None => 0u64,
                },
                smooth: match spec_parse_keyed_bool(s, "\"smooth\"".spec_bytes()) {
                    Some(b) => b,
                    None => false,
                },
            },
        ),
    }
}

/// Parse a speed request from JSON bytes like
/// `{"speed": 0.5, "duration_ms": 1000, "smooth": true}`.
pub fn parse_speed_request(json: &[u8]) -> (r: Option<SetSpeedRequest>)
    ensures
        r == spec_parse_speed_request(json@),
{
    match crate::parsing::parse_keyed_number_bytes(json, "\"speed\"".as_bytes()) {
        None => None,
        Some(v) => {
            let duration_ms = match parse_keyed_u64(json, "\"duration_ms\"".as_bytes()) {
                Some(d) => d,
                None => 0,
            };
            let smooth = match parse_keyed_bool(json, "\"smooth\"".as_bytes()) {
                Some(b) => b,
                None => false,
            };
            Some(SetSpeedRequest { speed: v, duration_ms, smooth })
        },
    }
}

/// What [`parse_direction_request`] returns: the payload read as a
/// direction object.
pub open spec fn spec_parse_direction_request(s: Seq<u8>) -> Option<SetDirectionRequest> {
    match spec_parse_direction_json(s) {
        Some(d) => Some(SetDirectionRequest { direction: d }),
        None => None,
    }
}

/// Parse a direction request from JSON bytes like
/// `{"direction": "forward"}`.
pub fn parse_direction_request(json: &[u8]) -> (r: Option<SetDirectionRequest>)
    ensures
        r == spec_parse_direction_request(json@),
{
    match crate::parsing::parse_direction_json_bytes(json) {
        Some(d) => Some(SetDirectionRequest { direction: d }),
        None => None,
    }
}

/// What [`parse_max_speed_request`] returns: the number keyed
/// `max_speed`.
pub open spec fn spec_parse_max_speed_request(s: Seq<u8>) -> Option<SetMaxSpeedRequest> {
    match spec_parse_keyed_number(s, "\"max_speed\"".spec_bytes()) {
        None => None,
        Some(v) => Some(SetMaxSpeedRequest { max_speed: v }),
    }
}

/// Parse a maximum-speed request from JSON bytes like
/// `{"max_speed": 0.8}`.
pub fn parse_max_speed_request(json: &[u8]) -> (r: Option<SetMaxSpeedRequest>)
    ensures
        r == spec_parse_max_speed_request(json@),
{
    match crate::parsing::parse_keyed_number_bytes(json, "\"max_speed\"".as_bytes()) {
        None => None,
        Some(v) => Some(SetMaxSpeedRequest { max_speed: v }),
    }
}

// ============================================================================
// Pub/sub payload parsing
// ============================================================================

/// Clamp a wire speed to the valid fixed-point range.
pub open spec fn spec_clamp_wire_speed(v: i32) -> u16 {
    if v < 0 {
        0u16
    } else if v > crate::SPEED_SCALE as i32 {
        crate::SPEED_SCALE
    } else {
        v as u16
    }
}

/// Clamp a wire speed to the valid fixed-point range.
pub fn clamp_wire_speed(v: i32) -> (r: u16)
    ensures
        r == spec_clamp_wire_speed(v),
        crate::speed_valid(r),
{
    if v < 0 {
        0
    } else if v > crate::SPEED_SCALE as i32 {
        crate::SPEED_SCALE
    } else {
        v as u16
    }
}

/// The speed command a request describes: immediate for zero
/// duration, else linear or smooth over the requested duration.
pub open spec fn spec_request_to_command(req: SetSpeedRequest) -> ThrottleCommandDyn {
    let target = spec_clamp_wire_speed(req.speed);
    if req.duration_ms > 0 {
        if req.smooth {
            ThrottleCommandDyn::SetSpeed {
                target,
                strategy: AnyStrategy::EaseInOut(
                    EaseInOut {
                        duration_ms: req.duration_ms,
                        lock: crate::strategy::TransitionLock::NoLock,
                        interrupt: crate::strategy::InterruptBehavior::Replace,
                    },
                ),
            }
        } else {
            ThrottleCommandDyn::SetSpeed {
                target,
                strategy: AnyStrategy::Linear(
                    Linear {
                        duration_ms: req.duration_ms,
                        lock: crate::strategy::TransitionLock::NoLock,
                        interrupt: crate::strategy::InterruptBehavior::Replace,
                    },
                ),
            }
        }
    } else {
        ThrottleCommandDyn::SetSpeed {
            target,
            strategy: AnyStrategy::Immediate(crate::strategy::Immediate),
        }
    }
}

/// Build the speed command a request describes.
pub fn request_to_command(req: SetSpeedRequest) -> (r: ThrottleCommandDyn)
    ensures
        r == spec_request_to_command(req),
{
    let target = clamp_wire_speed(req.speed);
    if req.duration_ms > 0 {
        if req.smooth {
            ThrottleCommandDyn::SetSpeed {
                target,
                strategy: AnyStrategy::EaseInOut(EaseInOut::new(req.duration_ms)),
            }
        } else {
            ThrottleCommandDyn::SetSpeed {
                target,
                strategy: AnyStrategy::Linear(Linear::new(req.duration_ms)),
            }
        }
    } else {
        ThrottleCommandDyn::SetSpeed {
            target,
            strategy: AnyStrategy::Immediate(crate::strategy::Immediate),
        }
    }
}

/// What [`parse_speed_payload`] returns: the JSON request if one
/// parses, else the payload as a bare numeral, clamped.
pub open spec fn spec_parse_speed_payload(s: Seq<u8>) -> Option<ThrottleCommandDyn> {
    match spec_parse_speed_request(s) {
        Some(req) => Some(spec_request_to_command(req)),
        None => {
            let t = trim_end_bytes(trim_start_bytes(s));
            match spec_parse_fixed(t) {
                Some(v) => Some(
                    ThrottleCommandDyn::SetSpeed {
                        target: spec_clamp_wire_speed(v),
                        strategy: AnyStrategy::Immediate(crate::strategy::Immediate),
                    },
                ),
                None => None,
            }
        },
    }
}

/// Parse a speed payload: JSON like `{"speed": 0.5}` (with optional
/// duration and smoothing), or a bare numeral like `0.5` for an
/// immediate change.
pub fn parse_speed_payload(payload: &[u8]) -> (r: Option<ThrottleCommandDyn>)
    ensures
        r == spec_parse_speed_payload(payload@),
{
    match parse_speed_request(payload) {
        Some(req) => Some(request_to_command(req)),
        None => {
            let start = trim_start_idx(payload);
            let tail = &payload[start..payload.len()];
            let end = trim_end_idx(tail);
            let word = &tail[0..end];
            proof {
                assert(payload@.subrange(start as int, payload@.len() as int) =~= tail@);
                assert(tail@.subrange(0, end as int) =~= word@);
            }
            match parse_fixed(word) {
                Some(v) => Some(
                    ThrottleCommandDyn::SetSpeed {
                        target: clamp_wire_speed(v),
                        strategy: AnyStrategy::Immediate(crate::strategy::Immediate),
                    },
                ),
                None => None,
            }
        },
    }
}

/// What [`parse_direction_payload`] returns: the JSON request if one
/// parses, else the payload as a bare direction word.
pub open spec fn spec_parse_direction_payload(s: Seq<u8>) -> Option<ThrottleCommandDyn> {
    match spec_parse_direction_request(s) {
        Some(req) => Some(ThrottleCommandDyn::SetDirection(req.direction)),
        None => match spec_direction_from_text(s) {
            Some(d) => Some(ThrottleCommandDyn::SetDirection(d)),
            None => None,
        },
    }
}

/// Parse a direction payload: JSON like `{"direction": "forward"}`,
/// or a bare word like `forward`, `rev` or `-1`.
pub fn parse_direction_payload(payload: &[u8]) -> (r: Option<ThrottleCommandDyn>)
    ensures
        r == spec_parse_direction_payload(payload@),
{
    match parse_direction_request(payload) {
        Some(req) => Some(ThrottleCommandDyn::SetDirection(req.direction)),
        None => match Direction::from_text_bytes(payload) {
            Some(d) => Some(ThrottleCommandDyn::SetDirection(d)),
            None => None,
        },
    }
}

/// What [`parse_max_speed_payload`] returns: the JSON request if one
/// parses, else the payload as a bare numeral; either way clamped.
pub open spec fn spec_parse_max_speed_payload(s: Seq<u8>) -> Option<ThrottleCommandDyn> {
    match spec_parse_max_speed_request(s) {
        Some(req) => Some(ThrottleCommandDyn::SetMaxSpeed(spec_clamp_wire_speed(req.max_speed))),
        None => {
            let t = trim_end_bytes(trim_start_bytes(s));
            match spec_parse_fixed(t) {
                Some(v) => Some(ThrottleCommandDyn::SetMaxSpeed(spec_clamp_wire_speed(v))),
                None => None,
            }
        },
    }
}

/// Parse a maximum-speed payload: JSON like `{"max_speed": 0.8}`, or
/// a bare numeral.
pub fn parse_max_speed_payload(payload: &[u8]) -> (r: Option<ThrottleCommandDyn>)
    ensures
        r == spec_parse_max_speed_payload(payload@),
{
    match parse_max_speed_request(payload) {
        Some(req) => Some(ThrottleCommandDyn::SetMaxSpeed(clamp_wire_speed(req.max_speed))),
        None => {
            let start = trim_start_idx(payload);
            let tail = &payload[start..payload.len()];
            let end = trim_end_idx(tail);
            let word = &tail[0..end];
            proof {
                assert(payload@.subrange(start as int, payload@.len() as int) =~= tail@);
                assert(tail@.subrange(0, end as int) =~= word@);
            }
            match parse_fixed(word) {
                Some(v) => Some(ThrottleCommandDyn::SetMaxSpeed(clamp_wire_speed(v))),
                None => None,
            }
        },
    }
}

/// The control-topic suffix of a topic under a prefix: the part
/// after `prefix` and a slash, where the topic has that shape.
pub open spec fn spec_topic_suffix(prefix: Seq<u8>, topic: Seq<u8>) -> Option<Seq<u8>> {
    if topic.len() > prefix.len() && topic.subrange(0, prefix.len() as int) == prefix && topic[
        prefix.len() as int
    ] == 47 {
        Some(topic.subrange(prefix.len() as int + 1, topic.len() as int))
    } else {
        None
    }
}

/// Strip a topic prefix and the slash after it.
pub fn topic_suffix_bytes<'a>(prefix: &[u8], topic: &'a [u8]) -> (r: Option<&'a [u8]>)
    ensures
        r matches Some(s) ==> spec_topic_suffix(prefix@, topic@) == Some(s@),
        r is None ==> spec_topic_suffix(prefix@, topic@) is None,
{
    if topic.len() <= prefix.len() {
        return None;
    }
    let head = &topic[0..prefix.len()];
    proof {
        assert(head@ =~= topic@.subrange(0, prefix@.len() as int));
    }
    if !slice_eq(head, prefix) {
        return None;
    }
    if topic[prefix.len()] != 47 {
        return None;
    }
    let tail = &topic[prefix.len() + 1..topic.len()];
    proof {
        assert(tail@ =~= topic@.subrange(prefix@.len() as int + 1, topic@.len() as int));
    }
    Some(tail)
}

/// What [`parse_mqtt_command`] returns, by topic suffix.
pub open spec fn spec_parse_mqtt_command(suffix: Seq<u8>, payload: Seq<u8>) -> Option<
    ThrottleCommandDyn,
> {
    if suffix == "speed/set".spec_bytes() {
        spec_parse_speed_payload(payload)
    } else if suffix == "direction/set".spec_bytes() {
        spec_parse_direction_payload(payload)
    } else if suffix == "estop".spec_bytes() {
        Some(ThrottleCommandDyn::EmergencyStop)
    } else if suffix == "max-speed/set".spec_bytes() {
        spec_parse_max_speed_payload(payload)
    } else {
        None
    }
}

/// Parse a pub/sub payload into a throttle command, by control-topic
/// suffix: `speed/set`, `direction/set`, `estop` (any payload) or
/// `max-speed/set`.
pub fn parse_mqtt_command(topic_suffix: &str, payload: &[u8]) -> (r: Option<ThrottleCommandDyn>)
    ensures
        r == spec_parse_mqtt_command(topic_suffix.spec_bytes(), payload@),
{
    parse_mqtt_command_bytes(topic_suffix.as_bytes(), payload)
}

/// The byte-level core of [`parse_mqtt_command`], for callers that
/// strip the topic prefix themselves.
pub fn parse_mqtt_command_bytes(suffix: &[u8], payload: &[u8]) -> (r: Option<ThrottleCommandDyn>)
    ensures
        r == spec_parse_mqtt_command(suffix@, payload@),
{
    if slice_eq(suffix, "speed/set".as_bytes()) {
        parse_speed_payload(payload)
    } else if slice_eq(suffix, "direction/set".as_bytes()) {
        parse_direction_payload(payload)
    } else if slice_eq(suffix, "estop".as_bytes()) {
        Some(ThrottleCommandDyn::EmergencyStop)
    } else if slice_eq(suffix, "max-speed/set".as_bytes()) {
        parse_max_speed_payload(payload)
    } else {
        None
    }
}

} // verus!
