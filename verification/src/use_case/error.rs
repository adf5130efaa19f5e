//! Failures of a use case.

use vstd::prelude::*;
use vstd::std_specs::convert::FromSpecImpl;
use crate::error::Error as MainError;
use crate::text::prefixed;

verus! {

#[derive(Debug, PartialEq, Eq)]
pub enum Error {
    /// Something that the use case needs is not there.
    PreconditionFailed { message: String },
    /// A service refused an operation.
    OperationFailed { message: String },
}

/// A failure of a use case, its message as a sequence of characters.
pub enum ErrorView {
    PreconditionFailed { message: Seq<char> },
    OperationFailed { message: Seq<char> },
}

impl ErrorView {
    /// The message of the failure.
    pub open spec fn message(self) -> Seq<char> {
        match self {
            ErrorView::PreconditionFailed { message } => message,
            ErrorView::OperationFailed { message } => message,
        }
    }

    /// The text of the failure: its message behind the name of the layer.
    pub open spec fn text(self) -> Seq<char> {
        "UseCaseInnerError: "@ + self.message()
    }
}

impl View for Error {
    type V = ErrorView;

    open spec fn view(&self) -> ErrorView {
        match self {
            Error::PreconditionFailed { message } => ErrorView::PreconditionFailed {
                message: message@,
            },
            Error::OperationFailed { message } => ErrorView::OperationFailed { message: message@ },
        }
    }
}

impl Error {
    /// The text of the failure.
    pub open spec fn spec_text(&self) -> Seq<char> {
        self@.text()
    }

    pub fn to_text(&self) -> (r: String)
        ensures
            r@ == self.spec_text(),
    {
        match self {
            Error::PreconditionFailed { message } => prefixed(
                "UseCaseInnerError: ",
                message.as_str(),
            ),
            Error::OperationFailed { message } => prefixed(
                "UseCaseInnerError: ",
                message.as_str(),
            ),
        }
    }
}

/// A result of a use case, its failure by its view.
pub open spec fn failure_viewed<A>(r: Result<A, Error>) -> Result<A, ErrorView> {
    match r {
        Ok(value) => Ok(value),
        Err(e) => Err(e@),
    }
}

impl From<Error> for MainError {
    fn from(error: Error) -> (r: MainError) {
        match error {
            Error::PreconditionFailed { message } => MainError::UseCaseError(
                Error::PreconditionFailed { message },
            ),
            Error::OperationFailed { message } => MainError::UseCaseError(
                Error::OperationFailed { message },
            ),
        }
    }
}

impl FromSpecImpl<Error> for MainError {
    open spec fn obeys_from_spec() -> bool {
        true
    }

    open spec fn from_spec(error: Error) -> MainError {
        MainError::UseCaseError(error)
    }
}

} // verus!
