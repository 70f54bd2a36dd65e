//! Hand-rolled JSON field extraction for the throttle's wire
//! payloads: a speed, a maximum speed, or a direction.
//!
//! The parsers scan for the quoted key, skip the colon and
//! whitespace, and read the number that follows; speeds come back in
//! fixed-point ten-thousandths, so `{"speed": 0.5}` parses to
//! `5000`. Malformed input yields `None`, never an error.

use vstd::prelude::*;
use vstd::string::StringSliceAdditionalSpecFns;
use crate::hardware::Direction;
use crate::text::{
    find_byte, find_sub, num_prefix, num_prefix_len, parse_fixed, spec_find_sub,
    spec_parse_fixed, trim_start_bytes, trim_start_idx,
};

verus! {

/// The value of the first number following the given quoted key, in
/// fixed-point ten-thousandths.
pub open spec fn spec_parse_keyed_number(s: Seq<u8>, key: Seq<u8>) -> Option<i32> {
    match spec_find_sub(s, key) {
        None => None,
        Some(ks) => {
            let tail = s.subrange(ks, s.len() as int);
            match tail.index_of_first(58u8) {
                None => None,
                Some(ci) => {
                    let after = tail.subrange(ci + 1, tail.len() as int);
                    let t = trim_start_bytes(after);
                    spec_parse_fixed(t.subrange(0, num_prefix_len(t)))
                },
            }
        },
    }
}

/// Extract the number following a quoted key: find the key, then the
/// next colon, skip whitespace and parse the numeral that follows.
pub(crate) fn parse_keyed_number_bytes(json: &[u8], key: &[u8]) -> (r: Option<i32>)
    ensures
        r == spec_parse_keyed_number(json@, key@),
{
    match find_sub(json, key) {
        None => None,
        Some(ks) => {
            let tail = &json[ks..json.len()];
            proof {
                assert(tail@ =~= json@.subrange(ks as int, json@.len() as int));
            }
            match find_byte(tail, 58) {
                None => None,
                Some(ci) => {
                    proof {
                        tail@.index_of_first_ensures(58u8);
                    }
                    let after = &tail[ci + 1..tail.len()];
                    proof {
                        assert(after@ =~= tail@.subrange(ci + 1, tail@.len() as int));
                    }
                    let ws = trim_start_idx(after);
                    let trimmed = &after[ws..after.len()];
                    proof {
                        assert(trimmed@ =~= after@.subrange(ws as int, after@.len() as int));
                    }
                    let n = num_prefix(trimmed);
                    let num = &trimmed[0..n];
                    proof {
                        assert(num@ =~= trimmed@.subrange(0, n as int));
                    }
                    parse_fixed(num)
                },
            }
        },
    }
}

/// What [`parse_speed_json`] returns: the number keyed `"speed"`.
pub open spec fn spec_parse_speed_json(s: Seq<u8>) -> Option<i32> {
    spec_parse_keyed_number(s, "\"speed\"".spec_bytes())
}

/// Parse a speed from JSON like `{"speed": 0.5}` into fixed-point
/// ten-thousandths (`5000` here); `None` when the key is missing or
/// no number follows it.
pub fn parse_speed_json(json: &str) -> (r: Option<i32>)
    ensures
        r == spec_parse_speed_json(json.spec_bytes()),
{
    parse_keyed_number_bytes(json.as_bytes(), "\"speed\"".as_bytes())
}

/// What [`parse_max_speed_json`] returns: the number keyed
/// `"max_speed"`.
pub open spec fn spec_parse_max_speed_json(s: Seq<u8>) -> Option<i32> {
    spec_parse_keyed_number(s, "\"max_speed\"".spec_bytes())
}

/// Parse a maximum speed from JSON like `{"max_speed": 0.8}` into
/// fixed-point ten-thousandths; `None` when the key is missing or no
/// number follows it.
pub fn parse_max_speed_json(json: &str) -> (r: Option<i32>)
    ensures
        r == spec_parse_max_speed_json(json.spec_bytes()),
{
    parse_keyed_number_bytes(json.as_bytes(), "\"max_speed\"".as_bytes())
}

/// What [`parse_direction_json`] returns: with a `"direction"` key
/// present, the first quoted direction word found anywhere in the
/// payload.
pub open spec fn spec_parse_direction_json(s: Seq<u8>) -> Option<Direction> {
    if spec_find_sub(s, "\"direction\"".spec_bytes()) is None {
        None
    } else if spec_find_sub(s, "\"forward\"".spec_bytes()) is Some {
        Some(Direction::Forward)
    } else if spec_find_sub(s, "\"reverse\"".spec_bytes()) is Some {
        Some(Direction::Reverse)
    } else if spec_find_sub(s, "\"stopped\"".spec_bytes()) is Some {
        Some(Direction::Stopped)
    } else {
        None
    }
}

/// Parse a direction from JSON like `{"direction": "forward"}`;
/// `None` when the key is missing or no direction word occurs.
pub fn parse_direction_json(json: &str) -> (r: Option<Direction>)
    ensures
        r == spec_parse_direction_json(json.spec_bytes()),
{
    parse_direction_json_bytes(json.as_bytes())
}

/// The byte-level core of [`parse_direction_json`], shared with the
/// payload parsers.
pub(crate) fn parse_direction_json_bytes(bytes: &[u8]) -> (r: Option<Direction>)
    ensures
        r == spec_parse_direction_json(bytes@),
{
    if find_sub(bytes, "\"direction\"".as_bytes()).is_none() {
        None
    } else if find_sub(bytes, "\"forward\"".as_bytes()).is_some() {
        Some(Direction::Forward)
    } else if find_sub(bytes, "\"reverse\"".as_bytes()).is_some() {
        Some(Direction::Reverse)
    } else if find_sub(bytes, "\"stopped\"".as_bytes()).is_some() {
        Some(Direction::Stopped)
    } else {
        None
    }
}

} // verus!
