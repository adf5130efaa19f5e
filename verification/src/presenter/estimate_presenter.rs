//! Presenting the outcome of creating an estimate.

use vstd::prelude::*;
use super::error::Error;
use crate::controller::estimate_controller::CreateEstimateResponse;
use crate::text::prefixed;

verus! {

/// The status code of a response that reports success.
pub const SUCCESS: u16 = 200;

pub struct EstimatePresenter;

impl EstimatePresenter {
    /// The text for a response that reports success; a response that reports
    /// anything else becomes a failure with its status code and message.
    pub fn present(response: CreateEstimateResponse) -> (r: Result<String, Error>)
        ensures
            response.status_code == SUCCESS ==> (r matches Ok(text) && text@ == "Success: "@
                + response.message@),
            response.status_code != SUCCESS ==> r == Err::<String, Error>(
                Error::BasicError {
                    status_code: response.status_code,
                    message: response.message,
                },
            ),
    {
        if response.status_code == SUCCESS {
            Ok(prefixed("Success: ", response.message.as_str()))
        } else {
            Err(
                Error::BasicError {
                    status_code: response.status_code,
                    message: response.message,
                },
            )
        }
    }
}

} // verus!
