//! The controller of sections.

use vstd::prelude::*;
use crate::dto::estimate_dto::EstimateDTO;
use crate::dto::section_dto::SectionDTO;
use crate::entity::clock::Timestamp;
use crate::entity::estimate::Estimate;
use crate::entity::section::Section;
use crate::presenter::estimate_presenter::SUCCESS;
use crate::repository::repository::Repository;
use crate::service::generic_service::{GenericService, Service};
use crate::use_case::create_section_add_to_estimate::{
    after_attach, attach_outcome, attached, CreateSectionAddToEstimate,
};
use crate::use_case::error::{failure_viewed, Error};
use super::estimate_controller::FAILURE;

verus! {

/// What a caller sends to have a section created under an estimate.
pub struct CreateSectionAddToEstimateRequest {
    pub section: SectionDTO,
    pub estimate: EstimateDTO,
}

impl CreateSectionAddToEstimateRequest {
    pub fn new(section: SectionDTO, estimate: EstimateDTO) -> (r: Self)
        ensures
            r.section == section,
            r.estimate == estimate,
    {
        CreateSectionAddToEstimateRequest { section, estimate }
    }
}

/// What a caller is told of the creation of a section.
pub struct CreateSectionAddToEstimateResponse {
    pub status: u16,
    pub message: String,
    /// The identifier of the section, where it was created.
    pub section: Option<u128>,
}

impl CreateSectionAddToEstimateResponse {
    pub fn new(status: u16, message: String, section: Option<u128>) -> (r: Self)
        ensures
            r.status == status,
            r.message == message,
            r.section == section,
    {
        CreateSectionAddToEstimateResponse { status, message, section }
    }

    /// The response to an outcome: success with the identifier of the new
    /// section, or failure, whatever the failure was.
    pub fn of(outcome: &Result<u128, Error>) -> (r: Self)
        ensures
            r.section == outcome.ok(),
            outcome is Ok ==> r.status == SUCCESS && r.message@ == "Section created successfully"@,
            outcome is Err ==> r.status == FAILURE && r.message@ == "E"@,
    {
        match outcome {
            Ok(section) => CreateSectionAddToEstimateResponse::new(
                SUCCESS,
                "Section created successfully".to_string(),
                Some(*section),
            ),
            Err(_) => CreateSectionAddToEstimateResponse::new(FAILURE, "E".to_string(), None),
        }
    }
}

pub struct SectionController {
    create_section_add_to_estimate: CreateSectionAddToEstimate,
}

impl SectionController {
    pub fn new(create_section_add_to_estimate: CreateSectionAddToEstimate) -> (r: Self) {
        SectionController { create_section_add_to_estimate }
    }

    /// Creates the section of `request` under the estimate that it names, and
    /// returns what the use case returned.
    pub fn create_section_add_to_estimate<RS: Repository<Section>, RE: Repository<Estimate>>(
        &self,
        section_service: &mut GenericService<Section, RS>,
        estimate_service: &GenericService<Estimate, RE>,
        request: CreateSectionAddToEstimateRequest,
    ) -> (r: Result<u128, Error>)
        ensures
            exists|made: Timestamp, updated: Timestamp|
                {
                    &&& failure_viewed(r) == attach_outcome(
                        old(section_service).entries(),
                        estimate_service.entries(),
                        #[trigger] attached(request.section@, request.estimate.id, made, updated),
                        request.estimate.id,
                    )
                    &&& final(section_service).entries() == after_attach(
                        old(section_service).entries(),
                        estimate_service.entries(),
                        attached(request.section@, request.estimate.id, made, updated),
                        request.estimate.id,
                    )
                },
    {
        let result = self.create_section_add_to_estimate.execute(
            section_service,
            estimate_service,
            request.section,
            request.estimate,
        );

        let _ = CreateSectionAddToEstimateResponse::of(&result);

        result
    }
}

} // verus!
