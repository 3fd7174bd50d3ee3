//! The items most callers need, in one place.
pub use crate::basic_constraints::{NumberConstraint, StringConstraint};
pub use crate::constraints::Constraint;
pub use crate::error::{Error, ErrorKind, Result};
pub use crate::from_text::FromText;
pub use crate::{cinput, cstring_input, input, string_input};
