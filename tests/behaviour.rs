use std::io::Cursor;

use cinputs::error::{Error, ErrorKind};
use cinputs::prelude::{cstring_input, string_input, Constraint, NumberConstraint, StringConstraint};
use cinputs::{apply_constraint, cread_stream, parse_line, read_stream};

fn scenario_constraint() -> StringConstraint {
    StringConstraint {
        exclude_char: vec!['y', 'i', 'e'],
        include_char: vec!['u', 'j', '2'],
        max_len: 10,
        min_len: 5,
    }
}

fn message_of(r: Result<(), Error>) -> String {
    let e = r.unwrap_err();
    assert_eq!(e.kind, ErrorKind::ValidationError);
    e.message
}

#[test]
fn string_within_rules_is_accepted() {
    let c = scenario_constraint();
    assert!(c.validate(&String::from("uj2gl")).is_ok());
    assert!(c.validate(&String::from("u2jaaaaaaa")).is_ok());
}

#[test]
fn string_scenario_messages() {
    let c = scenario_constraint();
    assert_eq!(
        message_of(c.validate(&String::from("uj2gil"))),
        "String must not contain the character 'i'."
    );
    assert_eq!(
        message_of(c.validate(&String::from("uj2"))),
        "String must be at least 5 characters long."
    );
}

#[test]
fn too_short_wins_over_characters() {
    let c = scenario_constraint();
    assert_eq!(
        message_of(c.validate(&String::from("yie"))),
        "String must be at least 5 characters long."
    );
    assert_eq!(
        message_of(c.validate(&String::new())),
        "String must be at least 5 characters long."
    );
}

#[test]
fn too_long_message() {
    let c = scenario_constraint();
    assert_eq!(
        message_of(c.validate(&String::from("uj2ooooooo0"))),
        "String must be no more than 10 characters long."
    );
}

#[test]
fn excluded_checked_before_required() {
    let c = scenario_constraint();
    // Both 'e' is present and 'j' is missing: the excluded one is reported,
    // and among excluded ones the first in the list.
    assert_eq!(
        message_of(c.validate(&String::from("u2eyzz"))),
        "String must not contain the character 'y'."
    );
    assert_eq!(
        message_of(c.validate(&String::from("u5555555"))),
        "String must contain the character 'j'."
    );
}

#[test]
fn length_counts_characters() {
    let c = StringConstraint {
        exclude_char: Vec::new(),
        include_char: vec!['é'],
        max_len: 3,
        min_len: 3,
    };
    // Three characters, six bytes.
    assert!(c.validate(&String::from("ééé")).is_ok());
}

#[test]
fn number_bounds_inclusive() {
    let c = NumberConstraint { min_value: -20, max_value: 500 };
    assert!(c.validate(&-20i64).is_ok());
    assert!(c.validate(&500u32).is_ok());
    assert!(c.validate(&50i8).is_ok());
    assert_eq!(message_of(c.validate(&-21isize)), "Number must be at least -20.");
    assert_eq!(message_of(c.validate(&501usize)), "Number must be no more than 500.");
}

#[test]
fn number_outside_comparator() {
    let c = NumberConstraint { min_value: i64::MIN, max_value: i64::MAX };
    assert!(c.validate(&(i64::MAX as u64)).is_ok());
    assert_eq!(
        message_of(c.validate(&u64::MAX)),
        "Invalid constraint target: the number does not fit in a 64-bit signed integer."
    );
}

#[test]
fn integer_parsing() {
    assert_eq!(string_input::<u8>(&String::from("255")).unwrap(), 255);
    assert_eq!(string_input::<u8>(&String::from("+7")).unwrap(), 7);
    assert_eq!(string_input::<i64>(&String::from("-0")).unwrap(), 0);
    assert_eq!(string_input::<i16>(&String::from("-32768")).unwrap(), -32768);
    assert_eq!(string_input::<u64>(&String::from("007")).unwrap(), 7);
    assert_eq!(string_input::<usize>(&String::from("12")).unwrap(), 12);
    assert_eq!(string_input::<isize>(&String::from("-12")).unwrap(), -12);
    assert_eq!(string_input::<u16>(&String::from("65535")).unwrap(), 65535);
    assert_eq!(string_input::<i32>(&String::from("-2147483648")).unwrap(), i32::MIN);
    for bad in ["", "+", "-", "-0", "1 ", " 1", "1_0", "x"] {
        let e = string_input::<u32>(&String::from(bad)).unwrap_err();
        assert_eq!(e.kind, ErrorKind::ParseError);
    }
    assert_eq!(string_input::<i8>(&String::from("128")).unwrap_err().kind, ErrorKind::ParseError);
    assert_eq!(string_input::<i8>(&String::from("-129")).unwrap_err().kind, ErrorKind::ParseError);
}

#[test]
fn parse_errors_carry_diagnostic() {
    let e = string_input::<u8>(&String::from("257")).unwrap_err();
    assert_eq!(e.message, "257".parse::<u8>().unwrap_err().to_string());
    let e = string_input::<i8>(&String::from("-1x")).unwrap_err();
    assert_eq!(e.message, "-1x".parse::<i8>().unwrap_err().to_string());
    let e = read_stream::<_, u32>(Cursor::new("abc\nrest")).unwrap_err();
    assert_eq!(e.kind, ErrorKind::ParseError);
    assert_eq!(e.message, "abc".parse::<u32>().unwrap_err().to_string());
}

#[test]
fn bool_and_char_parsing() {
    assert!(string_input::<bool>(&String::from("true")).unwrap());
    assert!(!string_input::<bool>(&String::from("false")).unwrap());
    let e = string_input::<bool>(&String::from("True")).unwrap_err();
    assert_eq!(e.kind, ErrorKind::ParseError);
    assert_eq!(e.message, "True".parse::<bool>().unwrap_err().to_string());
    assert_eq!(string_input::<char>(&String::from("é")).unwrap(), 'é');
    let e = string_input::<char>(&String::from("ab")).unwrap_err();
    assert_eq!(e.kind, ErrorKind::ParseError);
    assert_eq!(e.message, "ab".parse::<char>().unwrap_err().to_string());
    assert!(string_input::<char>(&String::new()).is_err());
    assert_eq!(read_stream::<_, char>(Cursor::new("J\n")).unwrap(), 'J');
}

#[test]
fn string_parsing_keeps_text() {
    assert_eq!(string_input::<String>(&String::from(" a b ")).unwrap(), " a b ");
}

#[test]
fn constraint_error_passes_unchanged() {
    let c = NumberConstraint { min_value: 0, max_value: 10 };
    let e = Error { kind: ErrorKind::IOError, message: String::from("broken") };
    let r = apply_constraint::<u8, _>(Err(e), &c).unwrap_err();
    assert_eq!(r.kind, ErrorKind::IOError);
    assert_eq!(r.message, "broken");
    assert_eq!(apply_constraint::<u8, _>(Ok(3), &c).unwrap(), 3);
    assert_eq!(
        apply_constraint::<u8, _>(Ok(11), &c).unwrap_err().message,
        "Number must be no more than 10."
    );
}

#[test]
fn constrained_text_stages() {
    let c = NumberConstraint { min_value: 0, max_value: 120 };
    assert_eq!(cstring_input::<u8, _>(&String::from("40"), &c).unwrap(), 40);
    assert_eq!(
        cstring_input::<u8, _>(&String::from("4o"), &c).unwrap_err().kind,
        ErrorKind::ParseError
    );
    assert_eq!(
        cstring_input::<u8, _>(&String::from("121"), &c).unwrap_err().kind,
        ErrorKind::ValidationError
    );
}

#[test]
fn stream_lines_lose_terminator() {
    assert_eq!(read_stream::<_, i32>(Cursor::new("42\nrest")).unwrap(), 42);
    // Only the newline ends a line: a carriage return before it is text.
    assert!(read_stream::<_, i32>(Cursor::new("-7\r\n")).is_err());
    assert_eq!(read_stream::<_, String>(Cursor::new("ab\r\n")).unwrap(), "ab\r");
    assert_eq!(read_stream::<_, String>(Cursor::new("uj2\n")).unwrap(), "uj2");
    let c = scenario_constraint();
    assert!(cread_stream::<_, String, _>(Cursor::new("uj2gl\n"), &c).is_ok());
}

#[test]
fn stream_end_is_io_error() {
    let e = read_stream::<_, String>(Cursor::new("")).unwrap_err();
    assert_eq!(e.kind, ErrorKind::IOError);
    assert_eq!(e.message, "The stream ended before a line could be read.");
    assert_eq!(parse_line::<u8>(&String::new()).unwrap_err().kind, ErrorKind::IOError);
}

#[test]
fn stream_bad_utf8_is_io_error() {
    let e = read_stream::<_, String>(Cursor::new(vec![0xffu8, b'\n'])).unwrap_err();
    assert_eq!(e.kind, ErrorKind::IOError);
}

#[test]
fn error_text() {
    let e = Error { kind: ErrorKind::ValidationError, message: String::from("too big") };
    assert_eq!(e.to_text(), "ValidationError: too big");
    assert_eq!(ErrorKind::Other.name(), "Other");
    assert_eq!(ErrorKind::ParseError.name(), "ParseError");
}
