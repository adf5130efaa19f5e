//! Failures of the in-memory store itself.

use vstd::prelude::*;
use crate::text::prefixed;

verus! {

#[derive(Debug, PartialEq, Eq)]
pub enum Error {
    InMemoryRepositoryError { message: String },
}

impl Error {
    /// The text of the failure.
    pub open spec fn spec_text(&self) -> Seq<char> {
        match self {
            Error::InMemoryRepositoryError { message } => "InMemoryRepositoryError: "@ + message@,
        }
    }

    pub fn to_text(&self) -> (r: String)
        ensures
            r@ == self.spec_text(),
    {
        match self {
            Error::InMemoryRepositoryError { message } => prefixed(
                "InMemoryRepositoryError: ",
                message.as_str(),
            ),
        }
    }
}

} // verus!
