//! Turning text into typed values.
use vstd::prelude::*;
use vstd::string::StringExecFns;
use crate::error::{Error, ErrorKind};

verus! {

pub open spec fn is_digit(c: char) -> bool {
    '0' <= c && c <= '9'
}

/// The value of a run of ASCII decimal digits, most significant first.
pub open spec fn digits_value(s: Seq<char>) -> int
    decreases s.len(),
{
    if s.len() == 0 {
        0
    } else {
        digits_value(s.drop_last()) * 10 + ((s.last() as u32) - ('0' as u32))
    }
}

/// The value of `s` when it is one or more ASCII decimal digits.
pub open spec fn unsigned_value(s: Seq<char>) -> Option<int> {
    if s.len() > 0 && forall|i: int| 0 <= i < s.len() ==> is_digit(#[trigger] s[i]) {
        Some(digits_value(s))
    } else {
        None
    }
}

/// The integer that `s` spells in decimal: an optional sign, then one or more
/// ASCII digits, nothing else. A `-` sign is part of the syntax only when
/// `signed`; a `+` sign always is.
pub open spec fn literal_value(s: Seq<char>, signed: bool) -> Option<int> {
    if s.len() > 0 && s[0] == '+' {
        unsigned_value(s.drop_first())
    } else if signed && s.len() > 0 && s[0] == '-' {
        match unsigned_value(s.drop_first()) {
            Some(v) => Some(-v),
            None => None,
        }
    } else {
        unsigned_value(s)
    }
}

/// Whether `s` spells an integer in `lo ..= hi`.
pub open spec fn literal_in_range(s: Seq<char>, signed: bool, lo: int, hi: int) -> bool {
    match literal_value(s, signed) {
        Some(v) => lo <= v && v <= hi,
        None => false,
    }
}

/// The message of the error that std's integer parsing gives for the text `s`
/// when the target type holds `lo ..= hi`.
pub uninterp spec fn int_parse_diagnostic(s: Seq<char>, lo: int, hi: int) -> Seq<char>;

/// The message of the error that std's `bool` parsing gives for the text `s`.
pub uninterp spec fn bool_parse_diagnostic(s: Seq<char>) -> Seq<char>;

/// The message of the error that std's `char` parsing gives for the text `s`.
pub uninterp spec fn char_parse_diagnostic(s: Seq<char>) -> Seq<char>;

/// A type whose values can be read from text.
pub trait FromText: Sized {
    /// Whether `s` is the text of a value of this type.
    spec fn parses(s: Seq<char>) -> bool;

    /// Whether `v` is the value that the text `s` stands for.
    spec fn denotes(s: Seq<char>, v: Self) -> bool;

    /// The diagnostic that a failed parse of `s` reports.
    spec fn diagnostic(s: Seq<char>) -> Seq<char>;

    /// Reads a value from `s`, or fails with a parse error, carrying the
    /// diagnostic, when `s` is not the text of a value of this type.
    fn from_text(s: &str) -> (r: Result<Self, Error>)
        ensures
            match r {
                Ok(v) => Self::parses(s@) && Self::denotes(s@, v),
                Err(e) => {
                    &&& !Self::parses(s@)
                    &&& e.kind == ErrorKind::ParseError
                    &&& e.message@ == Self::diagnostic(s@)
                },
            },
    ;
}

impl FromText for String {
    open spec fn parses(s: Seq<char>) -> bool {
        true
    }

    open spec fn denotes(s: Seq<char>, v: String) -> bool {
        v@ == s
    }

    open spec fn diagnostic(s: Seq<char>) -> Seq<char> {
        Seq::empty()
    }

    fn from_text(s: &str) -> (r: Result<String, Error>) {
        Ok(String::from_str(s))
    }
}

/// Relies on `u8`'s `FromStr` (through `str::parse`): it accepts an optional `+` sign
/// followed by one or more ASCII digits, and fails on anything else and on a
/// value outside the type's range.
#[verifier::external_body]
fn parse_u8(s: &str) -> (r: Result<u8, Error>)
    ensures
        match r {
            Ok(v) => literal_value(s@, false) == Some(v as int),
            Err(e) => {
                &&& e.kind == ErrorKind::ParseError
                &&& !literal_in_range(s@, false, u8::MIN as int, u8::MAX as int)
                &&& e.message@ == int_parse_diagnostic(s@, u8::MIN as int, u8::MAX as int)
            },
        },
{
    match s.parse::<u8>() {
        Ok(v) => Ok(v),
        Err(err) => Err(Error { kind: ErrorKind::ParseError, message: err.to_string() }),
    }
}

impl FromText for u8 {
    open spec fn parses(s: Seq<char>) -> bool {
        literal_in_range(s, false, u8::MIN as int, u8::MAX as int)
    }

    open spec fn denotes(s: Seq<char>, v: u8) -> bool {
        literal_value(s, false) == Some(v as int)
    }

    open spec fn diagnostic(s: Seq<char>) -> Seq<char> {
        int_parse_diagnostic(s, u8::MIN as int, u8::MAX as int)
    }

    fn from_text(s: &str) -> (r: Result<u8, Error>) {
        parse_u8(s)
    }
}

/// Relies on `u16`'s `FromStr` (through `str::parse`): it accepts an optional `+` sign
/// followed by one or more ASCII digits, and fails on anything else and on a
/// value outside the type's range.
#[verifier::external_body]
fn parse_u16(s: &str) -> (r: Result<u16, Error>)
    ensures
        match r {
            Ok(v) => literal_value(s@, false) == Some(v as int),
            Err(e) => {
                &&& e.kind == ErrorKind::ParseError
                &&& !literal_in_range(s@, false, u16::MIN as int, u16::MAX as int)
                &&& e.message@ == int_parse_diagnostic(s@, u16::MIN as int, u16::MAX as int)
            },
        },
{
    match s.parse::<u16>() {
        Ok(v) => Ok(v),
        Err(err) => Err(Error { kind: ErrorKind::ParseError, message: err.to_string() }),
    }
}

impl FromText for u16 {
    open spec fn parses(s: Seq<char>) -> bool {
        literal_in_range(s, false, u16::MIN as int, u16::MAX as int)
    }

    open spec fn denotes(s: Seq<char>, v: u16) -> bool {
        literal_value(s, false) == Some(v as int)
    }

    open spec fn diagnostic(s: Seq<char>) -> Seq<char> {
        int_parse_diagnostic(s, u16::MIN as int, u16::MAX as int)
    }

    fn from_text(s: &str) -> (r: Result<u16, Error>) {
        parse_u16(s)
    }
}

/// Relies on `u32`'s `FromStr` (through `str::parse`): it accepts an optional `+` sign
/// followed by one or more ASCII digits, and fails on anything else and on a
/// value outside the type's range.
#[verifier::external_body]
fn parse_u32(s: &str) -> (r: Result<u32, Error>)
    ensures
        match r {
            Ok(v) => literal_value(s@, false) == Some(v as int),
            Err(e) => {
                &&& e.kind == ErrorKind::ParseError
                &&& !literal_in_range(s@, false, u32::MIN as int, u32::MAX as int)
                &&& e.message@ == int_parse_diagnostic(s@, u32::MIN as int, u32::MAX as int)
            },
        },
{
    match s.parse::<u32>() {
        Ok(v) => Ok(v),
        Err(err) => Err(Error { kind: ErrorKind::ParseError, message: err.to_string() }),
    }
}

impl FromText for u32 {
    open spec fn parses(s: Seq<char>) -> bool {
        literal_in_range(s, false, u32::MIN as int, u32::MAX as int)
    }

    open spec fn denotes(s: Seq<char>, v: u32) -> bool {
        literal_value(s, false) == Some(v as int)
    }

    open spec fn diagnostic(s: Seq<char>) -> Seq<char> {
        int_parse_diagnostic(s, u32::MIN as int, u32::MAX as int)
    }

    fn from_text(s: &str) -> (r: Result<u32, Error>) {
        parse_u32(s)
    }
}

/// Relies on `u64`'s `FromStr` (through `str::parse`): it accepts an optional `+` sign
/// followed by one or more ASCII digits, and fails on anything else and on a
/// value outside the type's range.
#[verifier::external_body]
fn parse_u64(s: &str) -> (r: Result<u64, Error>)
    ensures
        match r {
            Ok(v) => literal_value(s@, false) == Some(v as int),
            Err(e) => {
                &&& e.kind == ErrorKind::ParseError
                &&& !literal_in_range(s@, false, u64::MIN as int, u64::MAX as int)
                &&& e.message@ == int_parse_diagnostic(s@, u64::MIN as int, u64::MAX as int)
            },
        },
{
    match s.parse::<u64>() {
        Ok(v) => Ok(v),
        Err(err) => Err(Error { kind: ErrorKind::ParseError, message: err.to_string() }),
    }
}

impl FromText for u64 {
    open spec fn parses(s: Seq<char>) -> bool {
        literal_in_range(s, false, u64::MIN as int, u64::MAX as int)
    }

    open spec fn denotes(s: Seq<char>, v: u64) -> bool {
        literal_value(s, false) == Some(v as int)
    }

    open spec fn diagnostic(s: Seq<char>) -> Seq<char> {
        int_parse_diagnostic(s, u64::MIN as int, u64::MAX as int)
    }

    fn from_text(s: &str) -> (r: Result<u64, Error>) {
        parse_u64(s)
    }
}

/// Relies on `usize`'s `FromStr` (through `str::parse`): it accepts an optional `+` sign
/// followed by one or more ASCII digits, and fails on anything else and on a
/// value outside the type's range.
#[verifier::external_body]
fn parse_usize(s: &str) -> (r: Result<usize, Error>)
    ensures
        match r {
            Ok(v) => literal_value(s@, false) == Some(v as int),
            Err(e) => {
                &&& e.kind == ErrorKind::ParseError
                &&& !literal_in_range(s@, false, usize::MIN as int, usize::MAX as int)
                &&& e.message@ == int_parse_diagnostic(s@, usize::MIN as int, usize::MAX as int)
            },
        },
{
    match s.parse::<usize>() {
        Ok(v) => Ok(v),
        Err(err) => Err(Error { kind: ErrorKind::ParseError, message: err.to_string() }),
    }
}

impl FromText for usize {
    open spec fn parses(s: Seq<char>) -> bool {
        literal_in_range(s, false, usize::MIN as int, usize::MAX as int)
    }

    open spec fn denotes(s: Seq<char>, v: usize) -> bool {
        literal_value(s, false) == Some(v as int)
    }

    open spec fn diagnostic(s: Seq<char>) -> Seq<char> {
        int_parse_diagnostic(s, usize::MIN as int, usize::MAX as int)
    }

    fn from_text(s: &str) -> (r: Result<usize, Error>) {
        parse_usize(s)
    }
}

/// Relies on `i8`'s `FromStr` (through `str::parse`): it accepts an optional `+` or `-` sign
/// followed by one or more ASCII digits, and fails on anything else and on a
/// value outside the type's range.
#[verifier::external_body]
fn parse_i8(s: &str) -> (r: Result<i8, Error>)
    ensures
        match r {
            Ok(v) => literal_value(s@, true) == Some(v as int),
            Err(e) => {
                &&& e.kind == ErrorKind::ParseError
                &&& !literal_in_range(s@, true, i8::MIN as int, i8::MAX as int)
                &&& e.message@ == int_parse_diagnostic(s@, i8::MIN as int, i8::MAX as int)
            },
        },
{
    match s.parse::<i8>() {
        Ok(v) => Ok(v),
        Err(err) => Err(Error { kind: ErrorKind::ParseError, message: err.to_string() }),
    }
}

impl FromText for i8 {
    open spec fn parses(s: Seq<char>) -> bool {
        literal_in_range(s, true, i8::MIN as int, i8::MAX as int)
    }

    open spec fn denotes(s: Seq<char>, v: i8) -> bool {
        literal_value(s, true) == Some(v as int)
    }

    open spec fn diagnostic(s: Seq<char>) -> Seq<char> {
        int_parse_diagnostic(s, i8::MIN as int, i8::MAX as int)
    }

    fn from_text(s: &str) -> (r: Result<i8, Error>) {
        parse_i8(s)
    }
}

/// Relies on `i16`'s `FromStr` (through `str::parse`): it accepts an optional `+` or `-` sign
/// followed by one or more ASCII digits, and fails on anything else and on a
/// value outside the type's range.
#[verifier::external_body]
fn parse_i16(s: &str) -> (r: Result<i16, Error>)
    ensures
        match r {
            Ok(v) => literal_value(s@, true) == Some(v as int),
            Err(e) => {
                &&& e.kind == ErrorKind::ParseError
                &&& !literal_in_range(s@, true, i16::MIN as int, i16::MAX as int)
                &&& e.message@ == int_parse_diagnostic(s@, i16::MIN as int, i16::MAX as int)
            },
        },
{
    match s.parse::<i16>() {
        Ok(v) => Ok(v),
        Err(err) => Err(Error { kind: ErrorKind::ParseError, message: err.to_string() }),
    }
}

impl FromText for i16 {
    open spec fn parses(s: Seq<char>) -> bool {
        literal_in_range(s, true, i16::MIN as int, i16::MAX as int)
    }

    open spec fn denotes(s: Seq<char>, v: i16) -> bool {
        literal_value(s, true) == Some(v as int)
    }

    open spec fn diagnostic(s: Seq<char>) -> Seq<char> {
        int_parse_diagnostic(s, i16::MIN as int, i16::MAX as int)
    }

    fn from_text(s: &str) -> (r: Result<i16, Error>) {
        parse_i16(s)
    }
}

/// Relies on `i32`'s `FromStr` (through `str::parse`): it accepts an optional `+` or `-` sign
/// followed by one or more ASCII digits, and fails on anything else and on a
/// value outside the type's range.
#[verifier::external_body]
fn parse_i32(s: &str) -> (r: Result<i32, Error>)
    ensures
        match r {
            Ok(v) => literal_value(s@, true) == Some(v as int),
            Err(e) => {
                &&& e.kind == ErrorKind::ParseError
                &&& !literal_in_range(s@, true, i32::MIN as int, i32::MAX as int)
                &&& e.message@ == int_parse_diagnostic(s@, i32::MIN as int, i32::MAX as int)
            },
        },
{
    match s.parse::<i32>() {
        Ok(v) => Ok(v),
        Err(err) => Err(Error { kind: ErrorKind::ParseError, message: err.to_string() }),
    }
}

impl FromText for i32 {
    open spec fn parses(s: Seq<char>) -> bool {
        literal_in_range(s, true, i32::MIN as int, i32::MAX as int)
    }

    open spec fn denotes(s: Seq<char>, v: i32) -> bool {
        literal_value(s, true) == Some(v as int)
    }

    open spec fn diagnostic(s: Seq<char>) -> Seq<char> {
        int_parse_diagnostic(s, i32::MIN as int, i32::MAX as int)
    }

    fn from_text(s: &str) -> (r: Result<i32, Error>) {
        parse_i32(s)
    }
}

/// Relies on `i64`'s `FromStr` (through `str::parse`): it accepts an optional `+` or `-` sign
/// followed by one or more ASCII digits, and fails on anything else and on a
/// value outside the type's range.
#[verifier::external_body]
fn parse_i64(s: &str) -> (r: Result<i64, Error>)
    ensures
        match r {
            Ok(v) => literal_value(s@, true) == Some(v as int),
            Err(e) => {
                &&& e.kind == ErrorKind::ParseError
                &&& !literal_in_range(s@, true, i64::MIN as int, i64::MAX as int)
                &&& e.message@ == int_parse_diagnostic(s@, i64::MIN as int, i64::MAX as int)
            },
        },
{
    match s.parse::<i64>() {
        Ok(v) => Ok(v),
        Err(err) => Err(Error { kind: ErrorKind::ParseError, message: err.to_string() }),
    }
}

impl FromText for i64 {
    open spec fn parses(s: Seq<char>) -> bool {
        literal_in_range(s, true, i64::MIN as int, i64::MAX as int)
    }

    open spec fn denotes(s: Seq<char>, v: i64) -> bool {
        literal_value(s, true) == Some(v as int)
    }

    open spec fn diagnostic(s: Seq<char>) -> Seq<char> {
        int_parse_diagnostic(s, i64::MIN as int, i64::MAX as int)
    }

    fn from_text(s: &str) -> (r: Result<i64, Error>) {
        parse_i64(s)
    }
}

/// Relies on `isize`'s `FromStr` (through `str::parse`): it accepts an optional `+` or `-` sign
/// followed by one or more ASCII digits, and fails on anything else and on a
/// value outside the type's range.
#[verifier::external_body]
fn parse_isize(s: &str) -> (r: Result<isize, Error>)
    ensures
        match r {
            Ok(v) => literal_value(s@, true) == Some(v as int),
            Err(e) => {
                &&& e.kind == ErrorKind::ParseError
                &&& !literal_in_range(s@, true, isize::MIN as int, isize::MAX as int)
                &&& e.message@ == int_parse_diagnostic(s@, isize::MIN as int, isize::MAX as int)
            },
        },
{
    match s.parse::<isize>() {
        Ok(v) => Ok(v),
        Err(err) => Err(Error { kind: ErrorKind::ParseError, message: err.to_string() }),
    }
}

impl FromText for isize {
    open spec fn parses(s: Seq<char>) -> bool {
        literal_in_range(s, true, isize::MIN as int, isize::MAX as int)
    }

    open spec fn denotes(s: Seq<char>, v: isize) -> bool {
        literal_value(s, true) == Some(v as int)
    }

    open spec fn diagnostic(s: Seq<char>) -> Seq<char> {
        int_parse_diagnostic(s, isize::MIN as int, isize::MAX as int)
    }

    fn from_text(s: &str) -> (r: Result<isize, Error>) {
        parse_isize(s)
    }
}

/// The text of a `bool`.
pub open spec fn bool_text(b: bool) -> Seq<char> {
    if b {
        "true"@
    } else {
        "false"@
    }
}

/// Relies on `bool`'s `FromStr` (through `str::parse`): it accepts exactly
/// `"true"` and `"false"`.
#[verifier::external_body]
fn parse_bool(s: &str) -> (r: Result<bool, Error>)
    ensures
        match r {
            Ok(v) => s@ == bool_text(v),
            Err(e) => {
                &&& e.kind == ErrorKind::ParseError
                &&& s@ != bool_text(true) && s@ != bool_text(false)
                &&& e.message@ == bool_parse_diagnostic(s@)
            },
        },
{
    match s.parse::<bool>() {
        Ok(v) => Ok(v),
        Err(err) => Err(Error { kind: ErrorKind::ParseError, message: err.to_string() }),
    }
}

impl FromText for bool {
    open spec fn parses(s: Seq<char>) -> bool {
        s == bool_text(true) || s == bool_text(false)
    }

    open spec fn denotes(s: Seq<char>, v: bool) -> bool {
        s == bool_text(v)
    }

    open spec fn diagnostic(s: Seq<char>) -> Seq<char> {
        bool_parse_diagnostic(s)
    }

    fn from_text(s: &str) -> (r: Result<bool, Error>) {
        parse_bool(s)
    }
}

/// Relies on `char`'s `FromStr` (through `str::parse`): it accepts a text of
/// exactly one character.
#[verifier::external_body]
fn parse_char(s: &str) -> (r: Result<char, Error>)
    ensures
        match r {
            Ok(v) => s@ == seq![v],
            Err(e) => {
                &&& e.kind == ErrorKind::ParseError
                &&& s@.len() != 1
                &&& e.message@ == char_parse_diagnostic(s@)
            },
        },
{
    match s.parse::<char>() {
        Ok(v) => Ok(v),
        Err(err) => Err(Error { kind: ErrorKind::ParseError, message: err.to_string() }),
    }
}

impl FromText for char {
    open spec fn parses(s: Seq<char>) -> bool {
        s.len() == 1
    }

    open spec fn denotes(s: Seq<char>, v: char) -> bool {
        s == seq![v]
    }

    open spec fn diagnostic(s: Seq<char>) -> Seq<char> {
        char_parse_diagnostic(s)
    }

    fn from_text(s: &str) -> (r: Result<char, Error>) {
        parse_char(s)
    }
}

} // verus!
