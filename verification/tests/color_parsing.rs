//! Parsing of color arguments.

use rex::parser::color::{parse_color, RGBA};
use rex::parser::error::ParseError;

#[test]
fn hex_colors() {
    assert_eq!(parse_color("#ff0000"), Ok(RGBA(255, 0, 0, 255)));
    assert_eq!(parse_color("#00FF7f"), Ok(RGBA(0, 255, 127, 255)));
    assert_eq!(parse_color("#00000000"), Ok(RGBA(0, 0, 0, 0)));
    assert_eq!(parse_color("#12345678"), Ok(RGBA(0x12, 0x34, 0x56, 0x78)));
}

#[test]
fn named_colors() {
    assert_eq!(parse_color("cyan"), Ok(RGBA(0, 255, 255, 255)));
    assert_eq!(parse_color("red"), Ok(RGBA(255, 0, 0, 255)));
    assert_eq!(parse_color("blue"), Ok(RGBA(0, 0, 255, 255)));
    assert_eq!(parse_color("gray"), Ok(RGBA(128, 128, 128, 255)));
    assert_eq!(parse_color("chartreuse"), Ok(RGBA(127, 255, 0, 255)));
    assert_eq!(parse_color("chocolate"), Ok(RGBA(210, 105, 30, 255)));
    assert_eq!(parse_color("transparent"), Ok(RGBA(0, 0, 0, 0)));
}

#[test]
fn unrecognized_colors() {
    assert_eq!(
        parse_color("bred"),
        Err(ParseError::UnrecognizedColor(String::from("bred")))
    );
    assert_eq!(
        parse_color("#ggzzzz"),
        Err(ParseError::UnrecognizedColor(String::from("#ggzzzz")))
    );
    assert_eq!(
        parse_color("#ff00"),
        Err(ParseError::UnrecognizedColor(String::from("#ff00")))
    );
    assert_eq!(
        parse_color(""),
        Err(ParseError::UnrecognizedColor(String::new()))
    );
}
