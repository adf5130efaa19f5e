//! The service of estimates.

use vstd::prelude::*;
use std::marker::PhantomData;
use super::error::{all_viewed, failure_viewed, Error, ErrorView};
use super::generic_service::{forward, forwarded, GenericService, Service};
use crate::entity::error::{validation_text, Error as EntityError};
use crate::entity::estimate::{
    description_rule, is_positive, name_rule, price_rule, rejects, Estimate, EstimateView,
};
use crate::repository::repository::{
    add_outcome, added, delete_outcome, deleted, update_outcome, updated, viewed, well_keyed,
    Repository,
};

verus! {

/// An estimate may be stored when its name and its description are valid.
pub open spec fn valid_estimate(estimate: EstimateView) -> bool {
    Estimate::valid_name(estimate.name) && Estimate::valid_description(estimate.description)
}

/// The text of the first constraint that `estimate` breaks: that on its name,
/// else that on its description.
pub open spec fn estimate_fault(estimate: EstimateView) -> Seq<char> {
    if !Estimate::valid_name(estimate.name) {
        validation_text("Estimate"@, name_rule())
    } else {
        validation_text("Estimate"@, description_rule())
    }
}

/// What adding `estimate` returns: a validation failure where it is invalid,
/// else an operation failure where its identifier is taken, else the estimate.
pub open spec fn add_estimate_outcome(
    store: Map<u128, EstimateView>,
    estimate: EstimateView,
) -> Result<EstimateView, ErrorView> {
    if !valid_estimate(estimate) {
        Err(ErrorView::ValidationFailed { message: estimate_fault(estimate) })
    } else {
        match forwarded(add_outcome(store, estimate.id), "Error adding estimate: "@) {
            Ok(_) => Ok(estimate),
            Err(e) => Err(e),
        }
    }
}

/// The store after adding `estimate`: an invalid one is not stored.
pub open spec fn after_add_estimate(
    store: Map<u128, EstimateView>,
    estimate: EstimateView,
) -> Map<u128, EstimateView> {
    if valid_estimate(estimate) {
        added(store, estimate.id, estimate)
    } else {
        store
    }
}

/// What replacing by `estimate` returns: a validation failure where it is
/// invalid, else an operation failure where nothing is stored under its
/// identifier, else the estimate.
pub open spec fn update_estimate_outcome(
    store: Map<u128, EstimateView>,
    estimate: EstimateView,
) -> Result<EstimateView, ErrorView> {
    if !valid_estimate(estimate) {
        Err(ErrorView::ValidationFailed { message: estimate_fault(estimate) })
    } else {
        match forwarded(update_outcome(store, estimate.id), "Error updating estimate: "@) {
            Ok(_) => Ok(estimate),
            Err(e) => Err(e),
        }
    }
}

/// The store after replacing by `estimate`: an invalid one is not stored.
pub open spec fn after_update_estimate(
    store: Map<u128, EstimateView>,
    estimate: EstimateView,
) -> Map<u128, EstimateView> {
    if valid_estimate(estimate) {
        updated(store, estimate.id, estimate)
    } else {
        store
    }
}

/// Where adding or replacing an estimate fails, the store stays as it was: an
/// invalid estimate is refused before anything is written.
pub proof fn refused_estimate_changes_nothing(
    store: Map<u128, EstimateView>,
    estimate: EstimateView,
)
    ensures
        add_estimate_outcome(store, estimate) is Err ==> after_add_estimate(store, estimate)
            == store,
        update_estimate_outcome(store, estimate) is Err ==> after_update_estimate(store, estimate)
            == store,
        !valid_estimate(estimate) ==> add_estimate_outcome(store, estimate) is Err
            && update_estimate_outcome(store, estimate) is Err,
{
}

impl<R: Repository<Estimate>> GenericService<Estimate, R> {
    /// The service over `repo`.
    pub fn new(repo: R) -> (r: Self)
        ensures
            r.repository == repo,
    {
        GenericService { repository: repo, entity: PhantomData }
    }

    /// Checks the name and the description of `estimate`, in this order.
    pub fn is_valid_estimate(estimate: &Estimate) -> (r: Result<(), EntityError>)
        ensures
            r is Ok <==> valid_estimate(estimate@),
            r matches Err(e) ==> e.spec_text() == estimate_fault(estimate@),
    {
        match Estimate::is_valid_name(estimate.name.as_str()) {
            Ok(()) => Estimate::is_valid_description(estimate.description.as_str()),
            Err(e) => Err(e),
        }
    }

    /// Checks the price of `estimate`.
    pub fn has_valid_price(estimate: &Estimate) -> (r: Result<(), EntityError>)
        ensures
            r is Ok <==> is_positive(estimate.price),
            r is Err ==> rejects(r, price_rule()),
    {
        Estimate::is_valid_price(estimate.price)
    }

    /// Stores a valid estimate under its identifier and returns it. An
    /// invalid one is refused before the repository is touched.
    pub fn add_estimate(&mut self, estimate: Estimate) -> (r: Result<Estimate, Error>)
        ensures
            all_viewed(r) == add_estimate_outcome(old(self).entries(), estimate@),
            final(self).entries() == after_add_estimate(old(self).entries(), estimate@),
            valid_estimate(estimate@) ==> well_keyed::<Estimate>(final(self).entries()),
    {
        if let Err(e) = Self::is_valid_estimate(&estimate) {
            return Err(Error::ValidationFailed { message: e.to_text() });
        }
        match forward(self.repository.add(estimate.clone()), "Error adding estimate: ") {
            Ok(_) => Ok(estimate),
            Err(e) => Err(e),
        }
    }

    /// A clone of the estimate stored under `id`, if there is one.
    pub fn get_estimate(&self, id: u128) -> (r: Result<Option<Estimate>, Error>)
        ensures
            r matches Ok(found) && viewed(found) == self.entries().get(id),
            well_keyed::<Estimate>(self.entries()),
    {
        forward(self.repository.get(id), "Error getting estimate: ")
    }

    /// Replaces the estimate stored under the identifier of a valid estimate
    /// and returns it. An invalid one is refused before the repository is
    /// touched.
    pub fn update_estimate(&mut self, estimate: Estimate) -> (r: Result<Estimate, Error>)
        ensures
            all_viewed(r) == update_estimate_outcome(old(self).entries(), estimate@),
            final(self).entries() == after_update_estimate(old(self).entries(), estimate@),
            valid_estimate(estimate@) ==> well_keyed::<Estimate>(final(self).entries()),
    {
        if let Err(e) = Self::is_valid_estimate(&estimate) {
            return Err(Error::ValidationFailed { message: e.to_text() });
        }
        match forward(self.repository.update(estimate.clone()), "Error updating estimate: ") {
            Ok(_) => Ok(estimate),
            Err(e) => Err(e),
        }
    }

    /// Removes the estimate stored under `id`.
    pub fn delete_estimate(&mut self, id: u128) -> (r: Result<(), Error>)
        ensures
            failure_viewed(r) == forwarded(
                delete_outcome(old(self).entries(), id),
                "Error deleting estimate: "@,
            ),
            final(self).entries() == deleted(old(self).entries(), id),
            well_keyed::<Estimate>(final(self).entries()),
    {
        forward(self.repository.delete(id), "Error deleting estimate: ")
    }
}

} // verus!
