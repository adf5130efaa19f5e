//! Failures of a controller.

use vstd::prelude::*;
use vstd::std_specs::convert::FromSpecImpl;
use crate::error::Error as MainError;

verus! {

#[derive(Debug, PartialEq, Eq)]
pub enum Error {
    BasicError { message: String },
}

impl Error {
    /// The text of the failure: its message.
    pub open spec fn spec_text(&self) -> Seq<char> {
        match self {
            Error::BasicError { message } => message@,
        }
    }

    pub fn to_text(&self) -> (r: String)
        ensures
            r@ == self.spec_text(),
    {
        match self {
            Error::BasicError { message } => message.clone(),
        }
    }
}

impl From<Error> for MainError {
    fn from(error: Error) -> (r: MainError) {
        match error {
            Error::BasicError { message } => MainError::ControllerError(
                Error::BasicError { message },
            ),
        }
    }
}

impl FromSpecImpl<Error> for MainError {
    open spec fn obeys_from_spec() -> bool {
        true
    }

    open spec fn from_spec(error: Error) -> MainError {
        MainError::ControllerError(error)
    }
}

} // verus!
