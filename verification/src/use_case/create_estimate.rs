//! Creating an estimate.

use vstd::prelude::*;
use super::error::{failure_viewed, Error, ErrorView};
use crate::dto::estimate_dto::{estimate_of, EstimateDTO};
use crate::entity::clock::Timestamp;
use crate::entity::estimate::{Estimate, EstimateView};
use crate::repository::repository::Repository;
use crate::service::estimate_service::{add_estimate_outcome, after_add_estimate};
use crate::service::generic_service::{GenericService, Service};
use crate::text::prefixed;

verus! {

/// What creating `estimate` returns: its identifier, or an operation failure
/// that says why the service did not store it.
pub open spec fn create_estimate_outcome(
    store: Map<u128, EstimateView>,
    estimate: EstimateView,
) -> Result<u128, ErrorView> {
    match add_estimate_outcome(store, estimate) {
        Ok(stored) => Ok(stored.id),
        Err(cause) => Err(
            ErrorView::OperationFailed { message: "Error adding estimate: "@ + cause.text() },
        ),
    }
}

/// The use case that stores a new estimate.
pub struct CreateEstimate {}

impl CreateEstimate {
    pub fn new() -> (r: Self) {
        CreateEstimate {}
    }

    /// Adds `estimate` through the service and returns its identifier. The
    /// estimate is stored when it is valid and its identifier is not taken;
    /// else the store stays as it was.
    pub fn store<R: Repository<Estimate>>(
        &self,
        service: &mut GenericService<Estimate, R>,
        estimate: Estimate,
    ) -> (r: Result<u128, Error>)
        ensures
            failure_viewed(r) == create_estimate_outcome(old(service).entries(), estimate@),
            final(service).entries() == after_add_estimate(old(service).entries(), estimate@),
    {
        match service.add_estimate(estimate) {
            Ok(estimate) => Ok(estimate.id),
            Err(e) => Err(
                Error::OperationFailed {
                    message: prefixed("Error adding estimate: ", e.to_text().as_str()),
                },
            ),
        }
    }

    /// Makes an estimate of the transfer object, as of now, and stores it.
    pub fn execute<R: Repository<Estimate>>(
        &self,
        service: &mut GenericService<Estimate, R>,
        estimate_dto: EstimateDTO,
    ) -> (r: Result<u128, Error>)
        ensures
            exists|made: Timestamp, updated: Timestamp|
                {
                    &&& failure_viewed(r) == create_estimate_outcome(
                        old(service).entries(),
                        #[trigger] estimate_of(estimate_dto@, made, updated),
                    )
                    &&& final(service).entries() == after_add_estimate(
                        old(service).entries(),
                        estimate_of(estimate_dto@, made, updated),
                    )
                },
    {
        let estimate = Estimate::from(estimate_dto);
        assert(estimate@ == estimate_of(estimate_dto@, estimate.created_at, estimate.updated_at));
        self.store(service, estimate)
    }
}

} // verus!
