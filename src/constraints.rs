//! The capability of checking a value before it is handed to a caller.
use vstd::prelude::*;
use crate::error::{Error, ErrorKind};

verus! {

/// An object which can check a value of type `T` and say why it rejects it.
pub trait Constraint<T> {
    /// `None` when the value is accepted, else the message that explains the rejection.
    spec fn rejection(&self, data: T) -> Option<Seq<char>>;

    /// Accepts the value, or fails with a validation error that carries the
    /// message of `rejection`.
    fn validate(&self, data: &T) -> (r: Result<(), Error>)
        ensures
            match r {
                Ok(_) => self.rejection(*data) is None,
                Err(e) => e.kind == ErrorKind::ValidationError && self.rejection(*data) == Some(
                    e.message@,
                ),
            },
    ;
}

/// A borrowed constraint checks what the constraint itself checks.
impl<'a, T, C: Constraint<T>> Constraint<T> for &'a C {
    open spec fn rejection(&self, data: T) -> Option<Seq<char>> {
        (**self).rejection(data)
    }

    fn validate(&self, data: &T) -> (r: Result<(), Error>) {
        (**self).validate(data)
    }
}

} // verus!
