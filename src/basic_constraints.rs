//! Simple constraint types: one on strings, one on integers.
use vstd::prelude::*;
use vstd::string::{StrSliceExecFns, StringExecFns};
use crate::constraints::Constraint;
use crate::error::{Error, ErrorKind};
use crate::text::{char_text, i64_text, int_text, usize_text};

verus! {

/// The first character of `chars` that occurs in `s`.
pub open spec fn first_present(chars: Seq<char>, s: Seq<char>) -> Option<char>
    decreases chars.len(),
{
    if chars.len() == 0 {
        None
    } else if s.contains(chars[0]) {
        Some(chars[0])
    } else {
        first_present(chars.drop_first(), s)
    }
}

/// The first character of `chars` that does not occur in `s`.
pub open spec fn first_absent(chars: Seq<char>, s: Seq<char>) -> Option<char>
    decreases chars.len(),
{
    if chars.len() == 0 {
        None
    } else if !s.contains(chars[0]) {
        Some(chars[0])
    } else {
        first_absent(chars.drop_first(), s)
    }
}

/// The message for a string shorter than the minimum.
pub open spec fn too_short_message(min_len: usize) -> Seq<char> {
    "String must be at least "@ + int_text(min_len as int) + " characters long."@
}

/// The message for a string longer than the maximum.
pub open spec fn too_long_message(max_len: usize) -> Seq<char> {
    "String must be no more than "@ + int_text(max_len as int) + " characters long."@
}

/// The message for a string that holds an excluded character.
pub open spec fn forbidden_message(c: char) -> Seq<char> {
    "String must not contain the character '"@ + seq![c] + "'."@
}

/// The message for a string that lacks a required character.
pub open spec fn missing_message(c: char) -> Seq<char> {
    "String must contain the character '"@ + seq![c] + "'."@
}

/// Whether the character `c` occurs in `s`.
fn contains_char(s: &str, c: char) -> (r: bool)
    ensures
        r == s@.contains(c),
{
    let n = s.unicode_len();
    let mut i: usize = 0;
    while i < n
        invariant
            n == s@.len(),
            i <= n,
            forall|j: int| 0 <= j < i ==> s@[j] != c,
        decreases n - i,
    {
        if s.get_char(i) == c {
            return true;
        }
        i = i + 1;
    }
    false
}

/// Simple constraint to be applied on strings. Lengths count characters
/// (Unicode scalar values), not bytes.
pub struct StringConstraint {
    pub exclude_char: Vec<char>,
    pub include_char: Vec<char>,
    pub max_len: usize,
    pub min_len: usize,
}

impl StringConstraint {
    /// Checks in order: minimum length, maximum length, each excluded
    /// character, each required character. The first failure is reported.
    pub open spec fn rejection_of(&self, s: Seq<char>) -> Option<Seq<char>> {
        if s.len() < self.min_len {
            Some(too_short_message(self.min_len))
        } else if s.len() > self.max_len {
            Some(too_long_message(self.max_len))
        } else if let Some(c) = first_present(self.exclude_char@, s) {
            Some(forbidden_message(c))
        } else if let Some(c) = first_absent(self.include_char@, s) {
            Some(missing_message(c))
        } else {
            None
        }
    }

    /// The first excluded character that occurs in `s`.
    fn find_excluded(&self, s: &str) -> (r: Option<char>)
        ensures
            r == first_present(self.exclude_char@, s@),
    {
        let n = self.exclude_char.len();
        let mut i: usize = 0;
        assert(self.exclude_char@.subrange(0, n as int) =~= self.exclude_char@);
        while i < n
            invariant
                n == self.exclude_char@.len(),
                i <= n,
                first_present(self.exclude_char@.subrange(i as int, n as int), s@)
                    == first_present(self.exclude_char@, s@),
            decreases n - i,
        {
            let c = self.exclude_char[i];
            assert(self.exclude_char@.subrange(i as int, n as int).drop_first()
                =~= self.exclude_char@.subrange(i + 1, n as int));
            if contains_char(s, c) {
                return Some(c);
            }
            i = i + 1;
        }
        assert(self.exclude_char@.subrange(i as int, n as int) =~= Seq::<char>::empty());
        None
    }

    /// The first required character that does not occur in `s`.
    fn find_missing(&self, s: &str) -> (r: Option<char>)
        ensures
            r == first_absent(self.include_char@, s@),
    {
        let n = self.include_char.len();
        let mut i: usize = 0;
        assert(self.include_char@.subrange(0, n as int) =~= self.include_char@);
        while i < n
            invariant
                n == self.include_char@.len(),
                i <= n,
                first_absent(self.include_char@.subrange(i as int, n as int), s@)
                    == first_absent(self.include_char@, s@),
            decreases n - i,
        {
            let c = self.include_char[i];
            assert(self.include_char@.subrange(i as int, n as int).drop_first()
                =~= self.include_char@.subrange(i + 1, n as int));
            if !contains_char(s, c) {
                return Some(c);
            }
            i = i + 1;
        }
        assert(self.include_char@.subrange(i as int, n as int) =~= Seq::<char>::empty());
        None
    }
}

/// A validation error carrying `message`.
fn validation_error(message: String) -> (e: Error)
    ensures
        e.kind == ErrorKind::ValidationError,
        e.message@ == message@,
{
    Error { kind: ErrorKind::ValidationError, message }
}

impl Constraint<String> for StringConstraint {
    open spec fn rejection(&self, data: String) -> Option<Seq<char>> {
        self.rejection_of(data@)
    }

    fn validate(&self, data: &String) -> (r: Result<(), Error>) {
        let s = data.as_str();
        let len = s.unicode_len();
        if len < self.min_len {
            let m = String::from_str("String must be at least ");
            let m = m.concat(usize_text(self.min_len).as_str());
            return Err(validation_error(m.concat(" characters long.")));
        }
        if len > self.max_len {
            let m = String::from_str("String must be no more than ");
            let m = m.concat(usize_text(self.max_len).as_str());
            return Err(validation_error(m.concat(" characters long.")));
        }
        if let Some(c) = self.find_excluded(s) {
            let m = String::from_str("String must not contain the character '");
            let m = m.concat(char_text(c).as_str());
            return Err(validation_error(m.concat("'.")));
        }
        if let Some(c) = self.find_missing(s) {
            let m = String::from_str("String must contain the character '");
            let m = m.concat(char_text(c).as_str());
            return Err(validation_error(m.concat("'.")));
        }
        Ok(())
    }
}

/// When no character of `chars` occurs in `s`, none is found present.
pub proof fn lemma_none_present(chars: Seq<char>, s: Seq<char>)
    requires
        forall|i: int| 0 <= i < chars.len() ==> !s.contains(#[trigger] chars[i]),
    ensures
        first_present(chars, s) is None,
    decreases chars.len(),
{
    if chars.len() > 0 {
        assert(!s.contains(chars[0]));
        assert forall|i: int| 0 <= i < chars.drop_first().len() implies !s.contains(
            #[trigger] chars.drop_first()[i],
        ) by {
            assert(chars.drop_first()[i] == chars[i + 1]);
        }
        lemma_none_present(chars.drop_first(), s);
    }
}

/// When every character of `chars` occurs in `s`, none is found absent.
pub proof fn lemma_none_absent(chars: Seq<char>, s: Seq<char>)
    requires
        forall|i: int| 0 <= i < chars.len() ==> s.contains(#[trigger] chars[i]),
    ensures
        first_absent(chars, s) is None,
    decreases chars.len(),
{
    if chars.len() > 0 {
        assert(s.contains(chars[0]));
        assert forall|i: int| 0 <= i < chars.drop_first().len() implies s.contains(
            #[trigger] chars.drop_first()[i],
        ) by {
            assert(chars.drop_first()[i] == chars[i + 1]);
        }
        lemma_none_absent(chars.drop_first(), s);
    }
}

/// A string whose length lies within the bounds, which contains every
/// required character and no excluded one, is accepted.
pub proof fn lemma_string_accepts_conforming(c: StringConstraint, s: Seq<char>)
    requires
        c.min_len <= s.len() <= c.max_len,
        forall|i: int| 0 <= i < c.include_char@.len() ==> s.contains(#[trigger] c.include_char@[i]),
        forall|i: int|
            0 <= i < c.exclude_char@.len() ==> !s.contains(#[trigger] c.exclude_char@[i]),
    ensures
        c.rejection_of(s) is None,
{
    lemma_none_present(c.exclude_char@, s);
    lemma_none_absent(c.include_char@, s);
}

/// A string shorter than the minimum length is rejected as too short,
/// whatever characters it holds.
pub proof fn lemma_string_too_short(c: StringConstraint, s: Seq<char>)
    requires
        s.len() < c.min_len,
    ensures
        c.rejection_of(s) == Some(too_short_message(c.min_len)),
{
}

/// The message for a number below the minimum.
pub open spec fn too_small_message(min_value: i64) -> Seq<char> {
    "Number must be at least "@ + int_text(min_value as int) + "."@
}

/// The message for a number above the maximum.
pub open spec fn too_large_message(max_value: i64) -> Seq<char> {
    "Number must be no more than "@ + int_text(max_value as int) + "."@
}

/// The message for a number that the comparator cannot hold.
pub open spec fn invalid_target_message() -> Seq<char> {
    "Invalid constraint target: the number does not fit in a 64-bit signed integer."@
}

/// Simple constraint to apply to integers: inclusive bounds, compared as
/// 64-bit signed integers.
pub struct NumberConstraint {
    pub min_value: i64,
    pub max_value: i64,
}

impl NumberConstraint {
    /// A value that the comparator cannot hold is rejected as an invalid
    /// target; else the minimum is checked, then the maximum.
    pub open spec fn rejection_of(&self, n: int) -> Option<Seq<char>> {
        if n < i64::MIN || n > i64::MAX {
            Some(invalid_target_message())
        } else if n < self.min_value {
            Some(too_small_message(self.min_value))
        } else if n > self.max_value {
            Some(too_large_message(self.max_value))
        } else {
            None
        }
    }

    /// Checks a value given in a type that holds every integer type this
    /// constraint applies to.
    fn check(&self, n: i128) -> (r: Result<(), Error>)
        ensures
            match r {
                Ok(_) => self.rejection_of(n as int) is None,
                Err(e) => e.kind == ErrorKind::ValidationError && self.rejection_of(n as int)
                    == Some(e.message@),
            },
    {
        if n < i64::MIN as i128 || n > i64::MAX as i128 {
            let m = String::from_str(
                "Invalid constraint target: the number does not fit in a 64-bit signed integer.",
            );
            return Err(validation_error(m));
        }
        let v = n as i64;
        if v < self.min_value {
            let m = String::from_str("Number must be at least ");
            let m = m.concat(i64_text(self.min_value).as_str());
            return Err(validation_error(m.concat(".")));
        }
        if v > self.max_value {
            let m = String::from_str("Number must be no more than ");
            let m = m.concat(i64_text(self.max_value).as_str());
            return Err(validation_error(m.concat(".")));
        }
        Ok(())
    }
}

impl Constraint<u8> for NumberConstraint {
    open spec fn rejection(&self, data: u8) -> Option<Seq<char>> {
        self.rejection_of(data as int)
    }

    fn validate(&self, data: &u8) -> (r: Result<(), Error>) {
        self.check(*data as i128)
    }
}

impl Constraint<u16> for NumberConstraint {
    open spec fn rejection(&self, data: u16) -> Option<Seq<char>> {
        self.rejection_of(data as int)
    }

    fn validate(&self, data: &u16) -> (r: Result<(), Error>) {
        self.check(*data as i128)
    }
}

impl Constraint<u32> for NumberConstraint {
    open spec fn rejection(&self, data: u32) -> Option<Seq<char>> {
        self.rejection_of(data as int)
    }

    fn validate(&self, data: &u32) -> (r: Result<(), Error>) {
        self.check(*data as i128)
    }
}

impl Constraint<u64> for NumberConstraint {
    open spec fn rejection(&self, data: u64) -> Option<Seq<char>> {
        self.rejection_of(data as int)
    }

    fn validate(&self, data: &u64) -> (r: Result<(), Error>) {
        self.check(*data as i128)
    }
}

impl Constraint<usize> for NumberConstraint {
    open spec fn rejection(&self, data: usize) -> Option<Seq<char>> {
        self.rejection_of(data as int)
    }

    fn validate(&self, data: &usize) -> (r: Result<(), Error>) {
        self.check(*data as i128)
    }
}

impl Constraint<i8> for NumberConstraint {
    open spec fn rejection(&self, data: i8) -> Option<Seq<char>> {
        self.rejection_of(data as int)
    }

    fn validate(&self, data: &i8) -> (r: Result<(), Error>) {
        self.check(*data as i128)
    }
}

impl Constraint<i16> for NumberConstraint {
    open spec fn rejection(&self, data: i16) -> Option<Seq<char>> {
        self.rejection_of(data as int)
    }

    fn validate(&self, data: &i16) -> (r: Result<(), Error>) {
        self.check(*data as i128)
    }
}

impl Constraint<i32> for NumberConstraint {
    open spec fn rejection(&self, data: i32) -> Option<Seq<char>> {
        self.rejection_of(data as int)
    }

    fn validate(&self, data: &i32) -> (r: Result<(), Error>) {
        self.check(*data as i128)
    }
}

impl Constraint<i64> for NumberConstraint {
    open spec fn rejection(&self, data: i64) -> Option<Seq<char>> {
        self.rejection_of(data as int)
    }

    fn validate(&self, data: &i64) -> (r: Result<(), Error>) {
        self.check(*data as i128)
    }
}

impl Constraint<isize> for NumberConstraint {
    open spec fn rejection(&self, data: isize) -> Option<Seq<char>> {
        self.rejection_of(data as int)
    }

    fn validate(&self, data: &isize) -> (r: Result<(), Error>) {
        self.check(*data as i128)
    }
}

/// Every integer within the bounds is accepted; both bounds are inclusive.
pub proof fn lemma_number_accepts_in_bounds(c: NumberConstraint, n: int)
    requires
        c.min_value <= n <= c.max_value,
    ensures
        c.rejection_of(n) is None,
        c.rejection_of(c.min_value as int) is None,
        c.rejection_of(c.max_value as int) is None,
{
}

} // verus!
