//! Moving an estimate to another location.

use vstd::prelude::*;
use super::error::{failure_viewed, Error, ErrorView};
use crate::dto::estimate_dto::EstimateDTO;
use crate::entity::estimate::{Estimate, EstimateView};
use crate::repository::repository::Repository;
use crate::service::generic_service::{GenericService, Service};
use crate::text::prefixed;

verus! {

/// `estimate` at another location, all else as it is.
pub open spec fn relocated(estimate: EstimateView, location: Seq<char>) -> EstimateView {
    EstimateView { location, ..estimate }
}

/// What moving the estimate `id` returns: a precondition failure where no
/// such estimate is stored.
pub open spec fn relocate_outcome(store: Map<u128, EstimateView>, id: u128) -> Result<
    (),
    ErrorView,
> {
    if store.contains_key(id) {
        Ok(())
    } else {
        Err(ErrorView::PreconditionFailed { message: "Estimate does not exist"@ })
    }
}

/// The store after moving the estimate `id` to `location`.
pub open spec fn after_relocate(
    store: Map<u128, EstimateView>,
    id: u128,
    location: Seq<char>,
) -> Map<u128, EstimateView> {
    if store.contains_key(id) {
        store.insert(id, relocated(store[id], location))
    } else {
        store
    }
}

/// Moving a stored estimate changes its location and nothing else: no other
/// field of it, and no other estimate.
pub proof fn relocate_changes_only_location(
    store: Map<u128, EstimateView>,
    id: u128,
    location: Seq<char>,
)
    requires
        store.contains_key(id),
    ensures
        relocate_outcome(store, id) == Ok::<(), ErrorView>(()),
        after_relocate(store, id, location).dom() == store.dom(),
        after_relocate(store, id, location)[id].location == location,
        after_relocate(store, id, location)[id].id == store[id].id,
        after_relocate(store, id, location)[id].name == store[id].name,
        after_relocate(store, id, location)[id].description == store[id].description,
        after_relocate(store, id, location)[id].price == store[id].price,
        after_relocate(store, id, location)[id].price_guess == store[id].price_guess,
        after_relocate(store, id, location)[id].created_at == store[id].created_at,
        after_relocate(store, id, location)[id].updated_at == store[id].updated_at,
        forall|other: u128|
            other != id ==> after_relocate(store, id, location).get(other) == store.get(other),
{
    assert(after_relocate(store, id, location).dom() =~= store.dom());
}

/// The use case that changes the location of a stored estimate.
pub struct SetEstimateLocation {}

impl SetEstimateLocation {
    pub fn new() -> (r: Self) {
        SetEstimateLocation {}
    }

    /// Gives the estimate stored under `estimate_id` the location of
    /// `estimate_dto` and writes it back whole. Nothing else of the estimate
    /// changes, and nothing else in the store.
    pub fn execute<R: Repository<Estimate>>(
        &mut self,
        service: &mut GenericService<Estimate, R>,
        estimate_id: u128,
        estimate_dto: EstimateDTO,
    ) -> (r: Result<(), Error>)
        ensures
            failure_viewed(r) == relocate_outcome(old(service).entries(), estimate_id),
            final(service).entries() == after_relocate(
                old(service).entries(),
                estimate_id,
                estimate_dto.location@,
            ),
    {
        match service.get(estimate_id) {
            Ok(Some(mut estimate)) => {
                estimate.location = estimate_dto.location;
                match service.update(estimate) {
                    Ok(_) => Ok(()),
                    Err(e) => Err(
                        Error::OperationFailed {
                            message: prefixed("Error updating estimate: ", e.to_text().as_str()),
                        },
                    ),
                }
            },
            Ok(None) => Err(
                Error::PreconditionFailed { message: "Estimate does not exist".to_string() },
            ),
            Err(e) => Err(
                Error::OperationFailed {
                    message: prefixed("Error getting estimate: ", e.to_text().as_str()),
                },
            ),
        }
    }
}

} // verus!
