//! Failures of a service.

use vstd::prelude::*;
use vstd::std_specs::convert::FromSpecImpl;
use crate::error::Error as MainError;
use crate::text::prefixed;

verus! {

#[derive(Debug, PartialEq, Eq)]
pub enum Error {
    /// An entity broke a constraint on its fields; nothing was stored.
    ValidationFailed { message: String },
    /// The repository refused the operation.
    OperationFailed { message: String },
}

/// A failure of a service, its message as a sequence of characters.
pub enum ErrorView {
    ValidationFailed { message: Seq<char> },
    OperationFailed { message: Seq<char> },
}

impl ErrorView {
    /// The text of the failure.
    pub open spec fn text(self) -> Seq<char> {
        match self {
            ErrorView::ValidationFailed { message } => "Validation error: "@ + message,
            ErrorView::OperationFailed { message } => "Lock error: "@ + message,
        }
    }
}

impl View for Error {
    type V = ErrorView;

    open spec fn view(&self) -> ErrorView {
        match self {
            Error::ValidationFailed { message } => ErrorView::ValidationFailed {
                message: message@,
            },
            Error::OperationFailed { message } => ErrorView::OperationFailed { message: message@ },
        }
    }
}

impl Error {
    /// The text of the failure.
    pub open spec fn spec_text(&self) -> Seq<char> {
        self@.text()
    }

    pub fn to_text(&self) -> (r: String)
        ensures
            r@ == self.spec_text(),
    {
        match self {
            Error::ValidationFailed { message } => prefixed(
                "Validation error: ",
                message.as_str(),
            ),
            Error::OperationFailed { message } => prefixed("Lock error: ", message.as_str()),
        }
    }
}

/// A result of a service, its failure by its view.
pub open spec fn failure_viewed<A>(r: Result<A, Error>) -> Result<A, ErrorView> {
    match r {
        Ok(value) => Ok(value),
        Err(e) => Err(e@),
    }
}

/// A result of a service, its entity and its failure by their views.
pub open spec fn all_viewed<T: View>(r: Result<T, Error>) -> Result<T::V, ErrorView> {
    match r {
        Ok(entity) => Ok(entity@),
        Err(e) => Err(e@),
    }
}

impl From<Error> for MainError {
    fn from(error: Error) -> (r: MainError) {
        match error {
            Error::ValidationFailed { message } => MainError::ServiceError(
                Error::ValidationFailed { message },
            ),
            Error::OperationFailed { message } => MainError::ServiceError(
                Error::OperationFailed { message },
            ),
        }
    }
}

impl FromSpecImpl<Error> for MainError {
    open spec fn obeys_from_spec() -> bool {
        true
    }

    open spec fn from_spec(error: Error) -> MainError {
        MainError::ServiceError(error)
    }
}

} // verus!
