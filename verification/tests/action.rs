use autoshell::action::decode;
use enigo::agent::Token;
use enigo::{Axis, Button, Coordinate, Direction};

#[test]
fn decode_text_token() {
    let token = decode("Text(\"hello\")").unwrap();
    assert_eq!(token, Token::Text("hello".to_string()));
}

#[test]
fn decode_move_mouse_token() {
    let token = decode("MoveMouse(100, 200, Abs)").unwrap();
    assert_eq!(token, Token::MoveMouse(100, 200, Coordinate::Abs));
}

#[test]
fn decode_relative_move_token() {
    let token = decode("MoveMouse(-5, 12, Rel)").unwrap();
    assert_eq!(token, Token::MoveMouse(-5, 12, Coordinate::Rel));
}

#[test]
fn decode_button_token() {
    let token = decode("Button(Left, Press)").unwrap();
    assert_eq!(token, Token::Button(Button::Left, Direction::Press));
}

#[test]
fn decode_scroll_token() {
    let token = decode("Scroll(3, Vertical)").unwrap();
    assert_eq!(token, Token::Scroll(3, Axis::Vertical));
}

#[test]
fn decode_short_alias() {
    let token = decode("t(\"x\")").unwrap();
    assert_eq!(token, Token::Text("x".to_string()));
}

#[test]
fn decode_rejects_malformed_syntax() {
    let err = decode("Text(").unwrap_err();
    assert!(!err.cause.is_empty());
}

#[test]
fn decode_rejects_unknown_action_kind() {
    assert!(decode("Frobnicate(1)").is_err());
}

#[test]
fn decode_rejects_out_of_range_field() {
    // Raw keycodes are 16-bit; this one does not fit.
    assert!(decode("Raw(70000, Press)").is_err());
}

#[test]
fn decode_rejects_empty_payload() {
    assert!(decode("").is_err());
}
