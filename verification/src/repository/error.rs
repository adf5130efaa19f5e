//! Failures of a repository.

use vstd::prelude::*;
use vstd::std_specs::convert::FromSpecImpl;
use crate::error::Error as MainError;
use crate::text::prefixed;
use super::in_memory_repo::error::Error as InMemoryError;

verus! {

#[derive(Debug, PartialEq, Eq)]
pub enum Error {
    /// An entity with the identifier is already stored.
    DuplicateKey,
    /// No entity with the identifier is stored.
    NotFound,
    /// Any other failure, by its message.
    BasicError { message: String },
}

impl Error {
    /// What the failure says went wrong.
    pub open spec fn spec_message(&self) -> Seq<char> {
        match self {
            Error::DuplicateKey => "Item already exists"@,
            Error::NotFound => "Item not found"@,
            Error::BasicError { message } => message@,
        }
    }

    /// The text of the failure: its message behind a fixed prefix.
    pub open spec fn spec_text(&self) -> Seq<char> {
        "Placeholder error: "@ + self.spec_message()
    }

    pub fn message(&self) -> (r: String)
        ensures
            r@ == self.spec_message(),
    {
        match self {
            Error::DuplicateKey => "Item already exists".to_string(),
            Error::NotFound => "Item not found".to_string(),
            Error::BasicError { message } => message.clone(),
        }
    }

    pub fn to_text(&self) -> (r: String)
        ensures
            r@ == self.spec_text(),
    {
        prefixed("Placeholder error: ", self.message().as_str())
    }
}

impl From<InMemoryError> for Error {
    fn from(error: InMemoryError) -> (r: Error) {
        match error {
            InMemoryError::InMemoryRepositoryError { message } => Error::BasicError { message },
        }
    }
}

impl FromSpecImpl<InMemoryError> for Error {
    open spec fn obeys_from_spec() -> bool {
        true
    }

    open spec fn from_spec(error: InMemoryError) -> Error {
        match error {
            InMemoryError::InMemoryRepositoryError { message } => Error::BasicError { message },
        }
    }
}

impl From<Error> for MainError {
    fn from(error: Error) -> (r: MainError) {
        match error {
            Error::DuplicateKey => MainError::RepositoryError(Error::DuplicateKey),
            Error::NotFound => MainError::RepositoryError(Error::NotFound),
            Error::BasicError { message } => MainError::RepositoryError(
                Error::BasicError { message },
            ),
        }
    }
}

impl FromSpecImpl<Error> for MainError {
    open spec fn obeys_from_spec() -> bool {
        true
    }

    open spec fn from_spec(error: Error) -> MainError {
        MainError::RepositoryError(error)
    }
}

} // verus!
