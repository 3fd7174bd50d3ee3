//! Reading typed values from line-oriented text, with optional constraints
//! checked before a value is handed back.
//!
//! Every read makes one attempt: the line is read, turned into a value, and
//! checked; the first stage that fails decides the error.
use vstd::prelude::*;
use vstd::string::{StrSliceExecFns, StringExecFns};

pub mod basic_constraints;
pub mod constraints;
pub mod error;
pub mod from_text;
pub mod prelude;
pub mod text;

use crate::constraints::Constraint;
use crate::error::{Error, ErrorKind, Result};
use crate::from_text::FromText;

verus! {

/// The text of a line without its terminator, a final `"\n"`.
pub open spec fn line_content(line: Seq<char>) -> Seq<char> {
    if line.len() >= 1 && line.last() == '\n' {
        line.drop_last()
    } else {
        line
    }
}

/// What parsing the text `s` into `T` gives: the value `s` stands for, or a
/// parse error that carries the diagnostic for `s`.
pub open spec fn text_outcome<T: FromText>(s: Seq<char>, r: Result<T>) -> bool {
    match r {
        Ok(v) => T::parses(s) && T::denotes(s, v),
        Err(e) => {
            &&& !T::parses(s)
            &&& e.kind == ErrorKind::ParseError
            &&& e.message@ == T::diagnostic(s)
        },
    }
}

/// Whether `e` is the parse error of some line's text.
pub open spec fn is_line_parse_error<T: FromText>(e: Error) -> bool {
    exists|s: Seq<char>|
        !s.contains('\n') && !#[trigger] T::parses(s) && e.message@ == T::diagnostic(s)
}

/// Whether `line` holds a newline nowhere but at its end.
pub open spec fn is_one_line(line: Seq<char>) -> bool {
    forall|i: int| 0 <= i < line.len() - 1 ==> line[i] != '\n'
}

/// The message of the error for a stream that has ended.
pub open spec fn end_of_stream_message() -> Seq<char> {
    "The stream ended before a line could be read."@
}

/// Relies on `BufRead::read_line`: it reads up to and including the next
/// newline, or to the end of the stream, and fails on a read error or on bytes
/// that are not UTF-8. It reads nothing at the end of the stream.
#[verifier::external_body]
fn read_line<R: std::io::BufRead>(reader: &mut R) -> (r: Result<String>)
    ensures
        match r {
            Ok(line) => is_one_line(line@),
            Err(e) => e.kind == ErrorKind::IOError,
        },
{
    let mut buf = String::new();
    match reader.read_line(&mut buf) {
        Ok(_) => Ok(buf),
        Err(err) => Err(Error { kind: ErrorKind::IOError, message: err.to_string() }),
    }
}

/// Relies on `Stdin::read_line` on the process's shared `std::io::stdin()`
/// handle: the same behaviour as `BufRead::read_line`.
#[verifier::external_body]
fn read_stdin_line() -> (r: Result<String>)
    ensures
        match r {
            Ok(line) => is_one_line(line@),
            Err(e) => e.kind == ErrorKind::IOError,
        },
{
    let mut buf = String::new();
    match std::io::stdin().read_line(&mut buf) {
        Ok(_) => Ok(buf),
        Err(err) => Err(Error { kind: ErrorKind::IOError, message: err.to_string() }),
    }
}

/// Drops the line terminator of `line`.
fn strip_terminator(line: &str) -> (r: &str)
    ensures
        r@ == line_content(line@),
{
    let n = line.unicode_len();
    if n >= 1 && line.get_char(n - 1) == '\n' {
        line.substring_char(0, n - 1)
    } else {
        line
    }
}

/// Text is parsed into `T`.
pub fn string_input<T: FromText>(string: &String) -> (r: Result<T>)
    ensures
        text_outcome(string@, r),
{
    T::from_text(string.as_str())
}

/// Parsing depends on the text alone: two outcomes for the same text agree on
/// whether a value came back, a value is one that the text stands for, and
/// two errors agree in kind and message.
pub proof fn lemma_text_outcome_deterministic<T: FromText>(
    s: Seq<char>,
    r1: Result<T>,
    r2: Result<T>,
)
    requires
        text_outcome(s, r1),
        text_outcome(s, r2),
    ensures
        match (r1, r2) {
            (Ok(v1), Ok(v2)) => T::denotes(s, v1) && T::denotes(s, v2),
            (Err(e1), Err(e2)) => e1.kind == e2.kind && e1.message@ == e2.message@,
            _ => false,
        },
{
}

/// Applies a constraint to the outcome of an earlier stage: an error of that
/// stage comes back unchanged; a value comes back only if the constraint
/// accepts it, else the constraint's error does.
pub fn apply_constraint<T, C: Constraint<T>>(value: Result<T>, constraint: &C) -> (r: Result<T>)
    ensures
        match value {
            Err(e) => r == Err::<T, Error>(e),
            Ok(v) => match r {
                Ok(w) => w == v && constraint.rejection(v) is None,
                Err(e) => e.kind == ErrorKind::ValidationError && constraint.rejection(v) == Some(
                    e.message@,
                ),
            },
        },
{
    match value {
        Err(e) => Err(e),
        Ok(v) => match constraint.validate(&v) {
            Ok(_) => Ok(v),
            Err(e) => Err(e),
        },
    }
}

/// Text is parsed into `T`, then a constraint is applied. A value comes back
/// exactly when the text stands for it and the constraint accepts it.
pub fn cstring_input<T: FromText, C: Constraint<T>>(
    string: &String,
    constraint: C,
) -> (r: Result<T>)
    ensures
        match r {
            Ok(v) => T::parses(string@) && T::denotes(string@, v) && constraint.rejection(v) is None,
            Err(e) => {
                ||| !T::parses(string@) && e.kind == ErrorKind::ParseError && e.message@
                    == T::diagnostic(string@)
                ||| T::parses(string@) && e.kind == ErrorKind::ValidationError && exists|v: T|
                    #[trigger] T::denotes(string@, v) && constraint.rejection(v) == Some(e.message@)
            },
        },
{
    let value: Result<T> = string_input(string);
    apply_constraint(value, &constraint)
}

/// Turns a line as read from a stream into `T`: an empty read means the
/// stream has ended, else the line without its terminator is parsed.
pub fn parse_line<T: FromText>(line: &String) -> (r: Result<T>)
    ensures
        line@.len() == 0 ==> (r matches Err(e) && e.kind == ErrorKind::IOError && e.message@
            == end_of_stream_message()),
        line@.len() > 0 ==> text_outcome(line_content(line@), r),
{
    let s = line.as_str();
    if s.unicode_len() == 0 {
        return Err(
            Error {
                kind: ErrorKind::IOError,
                message: String::from_str("The stream ended before a line could be read."),
            },
        );
    }
    T::from_text(strip_terminator(s))
}

/// Reads one line from `reader` and parses it into `T`.
pub fn read_stream<R: std::io::BufRead, T: FromText>(reader: R) -> (r: Result<T>)
    ensures
        match r {
            Ok(v) => exists|s: Seq<char>| !s.contains('\n') && #[trigger] T::denotes(s, v),
            Err(e) => {
                ||| e.kind == ErrorKind::IOError
                ||| e.kind == ErrorKind::ParseError && is_line_parse_error::<T>(e)
            },
        },
{
    let mut reader = reader;
    match read_line(&mut reader) {
        Err(e) => Err(e),
        Ok(line) => parse_line(&line),
    }
}

/// Reads one line from `reader`, parses it into `T`, then applies a constraint.
pub fn cread_stream<R: std::io::BufRead, T: FromText, C: Constraint<T>>(
    reader: R,
    constraint: C,
) -> (r: Result<T>)
    ensures
        match r {
            Ok(v) => constraint.rejection(v) is None && exists|s: Seq<char>|
                !s.contains('\n') && #[trigger] T::denotes(s, v),
            Err(e) => {
                ||| e.kind == ErrorKind::IOError
                ||| e.kind == ErrorKind::ParseError && is_line_parse_error::<T>(e)
                ||| e.kind == ErrorKind::ValidationError && exists|s: Seq<char>, v: T|
                    !s.contains('\n') && #[trigger] T::denotes(s, v) && constraint.rejection(v)
                        == Some(e.message@)
            },
        },
{
    let value: Result<T> = read_stream(reader);
    apply_constraint(value, &constraint)
}

/// Reads one line from standard input and parses it into `T`.
pub fn input<T: FromText>() -> (r: Result<T>)
    ensures
        match r {
            Ok(v) => exists|s: Seq<char>| !s.contains('\n') && #[trigger] T::denotes(s, v),
            Err(e) => {
                ||| e.kind == ErrorKind::IOError
                ||| e.kind == ErrorKind::ParseError && is_line_parse_error::<T>(e)
            },
        },
{
    match read_stdin_line() {
        Err(e) => Err(e),
        Ok(line) => parse_line(&line),
    }
}

/// Reads one line from standard input, parses it into `T`, then applies a
/// constraint.
pub fn cinput<T: FromText, C: Constraint<T>>(constraint: C) -> (r: Result<T>)
    ensures
        match r {
            Ok(v) => constraint.rejection(v) is None && exists|s: Seq<char>|
                !s.contains('\n') && #[trigger] T::denotes(s, v),
            Err(e) => {
                ||| e.kind == ErrorKind::IOError
                ||| e.kind == ErrorKind::ParseError && is_line_parse_error::<T>(e)
                ||| e.kind == ErrorKind::ValidationError && exists|s: Seq<char>, v: T|
                    !s.contains('\n') && #[trigger] T::denotes(s, v) && constraint.rejection(v)
                        == Some(e.message@)
            },
        },
{
    let value: Result<T> = input();
    apply_constraint(value, &constraint)
}

} // verus!
