//! The failure of any layer, as the application reports it.

use vstd::prelude::*;
use vstd::std_specs::convert::FromSpecImpl;
use crate::text::prefixed;

verus! {

#[derive(Debug, PartialEq, Eq)]
pub enum Error {
    MainError { message: String },
    RepositoryError(crate::repository::error::Error),
    InMemoryRepositoryError(crate::repository::in_memory_repo::error::Error),
    UseCaseError(crate::use_case::error::Error),
    EntityError(crate::entity::error::Error),
    ServiceError(crate::service::error::Error),
    ControllerError(crate::controller::error::Error),
    PresenterError(crate::presenter::error::Error),
}

impl Error {
    /// The text of the failure: the layer, then the text of its own failure.
    pub open spec fn spec_text(&self) -> Seq<char> {
        match self {
            Error::MainError { message } => "Main thread error: "@ + message@,
            Error::RepositoryError(e) => "Repository error: "@ + e.spec_text(),
            Error::InMemoryRepositoryError(e) => "InMemoryRepository error: "@ + e.spec_text(),
            Error::UseCaseError(e) => "UseCase error: "@ + e.spec_text(),
            Error::EntityError(e) => "Entity error: "@ + e.spec_text(),
            Error::ServiceError(e) => "Service error: "@ + e.spec_text(),
            Error::ControllerError(e) => "Controller error: "@ + e.spec_text(),
            Error::PresenterError(e) => "Presenter error: "@ + e.spec_text(),
        }
    }

    pub fn to_text(&self) -> (r: String)
        ensures
            r@ == self.spec_text(),
    {
        match self {
            Error::MainError { message } => prefixed("Main thread error: ", message.as_str()),
            Error::RepositoryError(e) => prefixed("Repository error: ", e.to_text().as_str()),
            Error::InMemoryRepositoryError(e) => prefixed(
                "InMemoryRepository error: ",
                e.to_text().as_str(),
            ),
            Error::UseCaseError(e) => prefixed("UseCase error: ", e.to_text().as_str()),
            Error::EntityError(e) => prefixed("Entity error: ", e.to_text().as_str()),
            Error::ServiceError(e) => prefixed("Service error: ", e.to_text().as_str()),
            Error::ControllerError(e) => prefixed("Controller error: ", e.to_text().as_str()),
            Error::PresenterError(e) => prefixed("Presenter error: ", e.to_text().as_str()),
        }
    }
}

impl From<Error> for Result<(), Error> {
    /// The result that fails with `error`.
    fn from(error: Error) -> (r: Result<(), Error>) {
        Err(error)
    }
}

impl FromSpecImpl<Error> for Result<(), Error> {
    open spec fn obeys_from_spec() -> bool {
        true
    }

    open spec fn from_spec(error: Error) -> Result<(), Error> {
        Err(error)
    }
}

} // verus!
