//! The controller of estimates.

use vstd::prelude::*;
use crate::dto::estimate_dto::{estimate_of, EstimateDTO, EstimateDTOView};
use crate::entity::clock::Timestamp;
use crate::entity::estimate::Estimate;
use crate::entity::ident::is_random_id;
use crate::presenter::estimate_presenter::{EstimatePresenter, SUCCESS};
use crate::repository::repository::Repository;
use crate::service::estimate_service::after_add_estimate;
use crate::service::generic_service::{GenericService, Service};
use crate::use_case::create_estimate::{create_estimate_outcome, CreateEstimate};
use crate::use_case::error::{failure_viewed, Error};

verus! {

/// The status code of a response that reports a failure.
pub const FAILURE: u16 = 500;

/// What a caller sends to have an estimate created.
pub struct CreateEstimateRequest {
    pub name: String,
    pub description: String,
    pub location: String,
}

impl CreateEstimateRequest {
    pub fn new(name: String, description: String, location: String) -> (r: Self)
        ensures
            r.name == name,
            r.description == description,
            r.location == location,
    {
        CreateEstimateRequest { name, description, location }
    }
}

/// What a caller is told of the creation of an estimate.
#[derive(Debug)]
pub struct CreateEstimateResponse {
    pub status_code: u16,
    pub message: String,
    /// The identifier of the estimate, where it was created.
    pub estimate_id: Option<u128>,
}

impl CreateEstimateResponse {
    pub fn new(status_code: u16, message: String, estimate_id: Option<u128>) -> (r: Self)
        ensures
            r.status_code == status_code,
            r.message == message,
            r.estimate_id == estimate_id,
    {
        CreateEstimateResponse { status_code, message, estimate_id }
    }

    /// The response to an outcome: success with the identifier of the new
    /// estimate, or failure, whatever the failure was.
    pub fn of(outcome: &Result<u128, Error>) -> (r: Self)
        ensures
            r.estimate_id == outcome.ok(),
            outcome is Ok ==> r.status_code == SUCCESS && r.message@
                == "Estimate created successfully"@,
            outcome is Err ==> r.status_code == FAILURE && r.message@ == "Error creating estimate"@,
    {
        match outcome {
            Ok(estimate_id) => CreateEstimateResponse::new(
                SUCCESS,
                "Estimate created successfully".to_string(),
                Some(*estimate_id),
            ),
            Err(_) => CreateEstimateResponse::new(
                FAILURE,
                "Error creating estimate".to_string(),
                None,
            ),
        }
    }
}

/// The transfer object made of a request, under the identifier `id`: the
/// name, the description and the location of the request.
pub open spec fn requested(id: u128, request: CreateEstimateRequest) -> EstimateDTOView {
    EstimateDTOView {
        id,
        name: request.name@,
        description: request.description@,
        location: request.location@,
    }
}

pub struct EstimateController {
    create_estimate_use_case: CreateEstimate,
}

impl EstimateController {
    pub fn new(create_estimate_use_case: CreateEstimate) -> (r: Self) {
        EstimateController { create_estimate_use_case }
    }

    /// Creates an estimate with the name, the description and the location of
    /// `request` under a new random identifier, presents the outcome, and
    /// returns what the use case returned.
    pub fn create_estimate<R: Repository<Estimate>>(
        &self,
        service: &mut GenericService<Estimate, R>,
        request: CreateEstimateRequest,
    ) -> (r: Result<u128, Error>)
        ensures
            exists|id: u128, made: Timestamp, updated: Timestamp|
                {
                    &&& is_random_id(id)
                    &&& failure_viewed(r) == create_estimate_outcome(
                        old(service).entries(),
                        #[trigger] estimate_of(requested(id, request), made, updated),
                    )
                    &&& final(service).entries() == after_add_estimate(
                        old(service).entries(),
                        estimate_of(requested(id, request), made, updated),
                    )
                },
    {
        let mut dto = EstimateDTO::new();
        dto.name = request.name;
        dto.description = request.description;
        dto.location = request.location;
        assert(dto@ == requested(dto.id, request));

        let result = self.create_estimate_use_case.execute(service, dto);

        let _ = EstimatePresenter::present(CreateEstimateResponse::of(&result));

        result
    }
}

} // verus!
