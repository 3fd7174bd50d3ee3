//! The error type shared by every stage of the pipeline.
use vstd::prelude::*;
use vstd::string::StringExecFns;

verus! {

/// Categories of errors.
#[derive(Debug, Clone, Copy, PartialEq, Eq, Structural)]
pub enum ErrorKind {
    Other,
    ValidationError,
    IOError,
    ParseError,
}

impl ErrorKind {
    /// The name under which a kind is shown.
    pub open spec fn name_spec(self) -> Seq<char> {
        match self {
            ErrorKind::Other => "Other"@,
            ErrorKind::ValidationError => "ValidationError"@,
            ErrorKind::IOError => "IOError"@,
            ErrorKind::ParseError => "ParseError"@,
        }
    }

    pub fn name(&self) -> (r: &'static str)
        ensures
            r@ == self.name_spec(),
    {
        match self {
            ErrorKind::Other => "Other",
            ErrorKind::ValidationError => "ValidationError",
            ErrorKind::IOError => "IOError",
            ErrorKind::ParseError => "ParseError",
        }
    }
}

/// Error type for constrained inputs: what went wrong, and a message for people.
#[derive(Debug)]
pub struct Error {
    pub kind: ErrorKind,
    pub message: String,
}

impl Error {
    /// The text `"{kind}: {message}"`.
    pub open spec fn text_spec(self) -> Seq<char> {
        self.kind.name_spec() + ": "@ + self.message@
    }

    /// Renders the error as `"{kind}: {message}"`.
    pub fn to_text(&self) -> (r: String)
        ensures
            r@ == self.text_spec(),
    {
        let head = String::from_str(self.kind.name());
        let head = head.concat(": ");
        head.concat(self.message.as_str())
    }
}

/// Result type for constrained inputs.
pub type Result<T> = core::result::Result<T, Error>;

} // verus!
