//! Failures of the domain records.

use vstd::prelude::*;
use vstd::std_specs::convert::FromSpecImpl;
use crate::error::Error as MainError;
use crate::text::prefixed;

verus! {

#[derive(Debug, PartialEq, Eq)]
pub enum Error {
    /// A field of `entity` breaks one of its constraints.
    ValidationError { entity: &'static str, message: String },
}

/// The text of a failure of `entity` with the given message.
pub open spec fn validation_text(entity: Seq<char>, message: Seq<char>) -> Seq<char> {
    "Validation error in "@ + entity + ": "@ + message
}

impl Error {
    /// The text of the failure.
    pub open spec fn spec_text(&self) -> Seq<char> {
        match self {
            Error::ValidationError { entity, message } => validation_text(entity@, message@),
        }
    }

    pub fn to_text(&self) -> (r: String)
        ensures
            r@ == self.spec_text(),
    {
        match self {
            Error::ValidationError { entity, message } => {
                let head = prefixed("Validation error in ", entity);
                let head = prefixed(head.as_str(), ": ");
                prefixed(head.as_str(), message.as_str())
            },
        }
    }
}

impl From<Error> for MainError {
    fn from(error: Error) -> (r: MainError) {
        match error {
            Error::ValidationError { entity, message } => MainError::EntityError(
                Error::ValidationError { entity, message },
            ),
        }
    }
}

impl FromSpecImpl<Error> for MainError {
    open spec fn obeys_from_spec() -> bool {
        true
    }

    open spec fn from_spec(error: Error) -> MainError {
        MainError::EntityError(error)
    }
}

} // verus!
