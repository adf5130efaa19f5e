//! Failures of a presenter.

use vstd::prelude::*;
use vstd::std_specs::convert::FromSpecImpl;
use crate::error::Error as MainError;

verus! {

#[derive(Debug, PartialEq, Eq)]
pub enum Error {
    /// A response that reports a failure, by its status code and message.
    BasicError { status_code: u16, message: String },
}

impl Error {
    /// The text of the failure.
    pub open spec fn spec_text(&self) -> Seq<char> {
        match self {
            Error::BasicError { status_code, message } => "Placeholder error: "@ + message@,
        }
    }

    pub fn to_text(&self) -> (r: String)
        ensures
            r@ == self.spec_text(),
    {
        match self {
            Error::BasicError { status_code, message } => crate::text::prefixed(
                "Placeholder error: ",
                message.as_str(),
            ),
        }
    }
}

impl From<Error> for MainError {
    fn from(error: Error) -> (r: MainError) {
        match error {
            Error::BasicError { status_code, message } => MainError::PresenterError(
                Error::BasicError { status_code, message },
            ),
        }
    }
}

impl FromSpecImpl<Error> for MainError {
    open spec fn obeys_from_spec() -> bool {
        true
    }

    open spec fn from_spec(error: Error) -> MainError {
        MainError::PresenterError(error)
    }
}

} // verus!
