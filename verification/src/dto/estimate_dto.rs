//! The transfer object of an estimate.

use vstd::prelude::*;
use vstd::std_specs::convert::FromSpecImpl;
use crate::entity::clock::{now, Timestamp};
use crate::entity::estimate::{Estimate, EstimateView, ZERO};
use crate::entity::ident::{fresh_id, is_random_id};

verus! {

#[derive(Debug)]
pub struct EstimateDTO {
    pub id: u128,
    pub name: String,
    pub description: String,
    pub location: String,
}

/// What an estimate's transfer object holds, text as sequences of characters.
pub struct EstimateDTOView {
    pub id: u128,
    pub name: Seq<char>,
    pub description: Seq<char>,
    pub location: Seq<char>,
}

impl View for EstimateDTO {
    type V = EstimateDTOView;

    open spec fn view(&self) -> EstimateDTOView {
        EstimateDTOView {
            id: self.id,
            name: self.name@,
            description: self.description@,
            location: self.location@,
        }
    }
}

impl Clone for EstimateDTO {
    fn clone(&self) -> (r: Self)
        ensures
            r@ == self@,
    {
        EstimateDTO {
            id: self.id,
            name: self.name.clone(),
            description: self.description.clone(),
            location: self.location.clone(),
        }
    }
}

/// The transfer object that has only an identifier.
pub open spec fn blank(id: u128) -> EstimateDTOView {
    EstimateDTOView {
        id,
        name: Seq::<char>::empty(),
        description: Seq::<char>::empty(),
        location: Seq::<char>::empty(),
    }
}

/// The transfer object that holds the identifier, name, description and
/// location of an estimate.
pub open spec fn dto_of(estimate: EstimateView) -> EstimateDTOView {
    EstimateDTOView {
        id: estimate.id,
        name: estimate.name,
        description: estimate.description,
        location: estimate.location,
    }
}

impl EstimateDTO {
    /// A transfer object with a new random identifier and empty fields.
    pub fn new() -> (r: Self)
        ensures
            is_random_id(r.id),
            r@ == blank(r.id),
    {
        EstimateDTO {
            id: fresh_id(),
            name: String::new(),
            description: String::new(),
            location: String::new(),
        }
    }
}

impl From<Estimate> for EstimateDTO {
    /// The identifier, name, description and location of an estimate.
    fn from(estimate: Estimate) -> (r: EstimateDTO)
        ensures
            r@ == dto_of(estimate@),
    {
        EstimateDTO {
            id: estimate.id,
            name: estimate.name,
            description: estimate.description,
            location: estimate.location,
        }
    }
}

impl FromSpecImpl<Estimate> for EstimateDTO {
    open spec fn obeys_from_spec() -> bool {
        true
    }

    open spec fn from_spec(estimate: Estimate) -> EstimateDTO {
        EstimateDTO {
            id: estimate.id,
            name: estimate.name,
            description: estimate.description,
            location: estimate.location,
        }
    }
}

/// The estimate that a transfer object becomes at the given times: its
/// identifier, name, description and location, and both prices zero.
pub open spec fn estimate_of(
    dto: EstimateDTOView,
    created_at: Timestamp,
    updated_at: Timestamp,
) -> EstimateView {
    EstimateView {
        id: dto.id,
        name: dto.name,
        description: dto.description,
        price: ZERO,
        location: dto.location,
        price_guess: ZERO,
        created_at,
        updated_at,
    }
}

impl Estimate {
    /// The estimate that a transfer object becomes at the given times.
    pub fn from_dto(estimate_dto: EstimateDTO, created_at: Timestamp, updated_at: Timestamp) -> (r:
        Estimate)
        ensures
            r@ == estimate_of(estimate_dto@, created_at, updated_at),
    {
        Estimate {
            id: estimate_dto.id,
            name: estimate_dto.name,
            description: estimate_dto.description,
            price: ZERO,
            location: estimate_dto.location,
            price_guess: ZERO,
            created_at,
            updated_at,
        }
    }
}

impl From<EstimateDTO> for Estimate {
    /// A new estimate with the identifier, name, description and location of
    /// the transfer object, made and updated now.
    fn from(estimate_dto: EstimateDTO) -> (r: Estimate)
        ensures
            r@ == estimate_of(estimate_dto@, r.created_at, r.updated_at),
    {
        let created_at = now();
        let updated_at = now();
        Estimate::from_dto(estimate_dto, created_at, updated_at)
    }
}

impl FromSpecImpl<EstimateDTO> for Estimate {
    /// The conversion reads the clock, so it is no function of its argument.
    open spec fn obeys_from_spec() -> bool {
        false
    }

    open spec fn from_spec(estimate_dto: EstimateDTO) -> Estimate {
        arbitrary()
    }
}

} // verus!
