//! Tests for the JSON field extractors. Speeds parse into
//! fixed-point ten-thousandths, so `0.5` reads as `5000`.

use rs_trainz::parsing::{parse_direction_json, parse_max_speed_json, parse_speed_json};
use rs_trainz::Direction;

#[test]
fn parse_speed_valid_decimal() {
    assert_eq!(parse_speed_json(r#"{"speed": 0.5}"#), Some(5000));
}

#[test]
fn parse_speed_valid_integer() {
    assert_eq!(parse_speed_json(r#"{"speed": 1}"#), Some(10000));
}

#[test]
fn parse_speed_valid_zero() {
    assert_eq!(parse_speed_json(r#"{"speed": 0}"#), Some(0));
}

#[test]
fn parse_speed_valid_one() {
    assert_eq!(parse_speed_json(r#"{"speed": 1.0}"#), Some(10000));
}

#[test]
fn parse_speed_valid_small() {
    assert_eq!(parse_speed_json(r#"{"speed": 0.01}"#), Some(100));
}

#[test]
fn parse_speed_with_whitespace() {
    assert_eq!(parse_speed_json(r#"{ "speed" : 0.75 }"#), Some(7500));
}

#[test]
fn parse_speed_with_other_fields() {
    assert_eq!(parse_speed_json(r#"{"id": 1, "speed": 0.5, "name": "test"}"#), Some(5000));
}

#[test]
fn parse_speed_negative() {
    assert_eq!(parse_speed_json(r#"{"speed": -0.5}"#), Some(-5000));
}

#[test]
fn parse_speed_missing_key() {
    assert_eq!(parse_speed_json(r#"{"velocity": 0.5}"#), None);
}

#[test]
fn parse_speed_invalid_value() {
    assert_eq!(parse_speed_json(r#"{"speed": "fast"}"#), None);
}

#[test]
fn parse_speed_empty_json() {
    assert_eq!(parse_speed_json(r#"{}"#), None);
}

#[test]
fn parse_speed_not_json() {
    assert_eq!(parse_speed_json("speed=0.5"), None);
}

#[test]
fn parse_speed_trailing_content() {
    assert_eq!(parse_speed_json(r#"{"speed": 0.5, "other": 1}"#), Some(5000));
}

#[test]
fn parse_direction_forward() {
    assert_eq!(parse_direction_json(r#"{"direction": "forward"}"#), Some(Direction::Forward));
}

#[test]
fn parse_direction_reverse() {
    assert_eq!(parse_direction_json(r#"{"direction": "reverse"}"#), Some(Direction::Reverse));
}

#[test]
fn parse_direction_stopped() {
    assert_eq!(parse_direction_json(r#"{"direction": "stopped"}"#), Some(Direction::Stopped));
}

#[test]
fn parse_direction_with_whitespace() {
    assert_eq!(parse_direction_json(r#"{ "direction" : "forward" }"#), Some(Direction::Forward));
}

#[test]
fn parse_direction_missing_key() {
    assert_eq!(parse_direction_json(r#"{"dir": "forward"}"#), None);
}

#[test]
fn parse_direction_invalid_value() {
    assert_eq!(parse_direction_json(r#"{"direction": "left"}"#), None);
}

#[test]
fn parse_direction_empty_json() {
    assert_eq!(parse_direction_json(r#"{}"#), None);
}

#[test]
fn parse_direction_not_json() {
    assert_eq!(parse_direction_json("direction=forward"), None);
}

#[test]
fn parse_direction_with_other_fields() {
    assert_eq!(
        parse_direction_json(r#"{"id": 1, "direction": "reverse", "speed": 0.5}"#),
        Some(Direction::Reverse)
    );
}

#[test]
fn parse_max_speed_valid() {
    assert_eq!(parse_max_speed_json(r#"{"max_speed": 0.8}"#), Some(8000));
}

#[test]
fn parse_max_speed_one() {
    assert_eq!(parse_max_speed_json(r#"{"max_speed": 1.0}"#), Some(10000));
}

#[test]
fn parse_max_speed_zero() {
    assert_eq!(parse_max_speed_json(r#"{"max_speed": 0}"#), Some(0));
}

#[test]
fn parse_max_speed_with_whitespace() {
    assert_eq!(parse_max_speed_json(r#"{ "max_speed" : 0.5 }"#), Some(5000));
}

#[test]
fn parse_max_speed_missing_key() {
    assert_eq!(parse_max_speed_json(r#"{"speed": 0.5}"#), None);
}

#[test]
fn parse_max_speed_invalid_value() {
    assert_eq!(parse_max_speed_json(r#"{"max_speed": "high"}"#), None);
}

#[test]
fn parse_max_speed_empty_json() {
    assert_eq!(parse_max_speed_json(r#"{}"#), None);
}

#[test]
fn parse_speed_saturates_oversized_integers() {
    // The integer part saturates above ten times full scale, so
    // absurd inputs still parse to something far beyond the valid
    // range and get clamped by the callers.
    let v = parse_speed_json(r#"{"speed": 99999999}"#).unwrap();
    assert_eq!(v, 1000010000);
}

#[test]
fn parse_speed_fractional_only() {
    assert_eq!(parse_speed_json(r#"{"speed": .5}"#), Some(5000));
    assert_eq!(parse_speed_json(r#"{"speed": 0.12345}"#), Some(1234));
}
