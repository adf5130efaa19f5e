//! Creating a section under an estimate.

use vstd::prelude::*;
use super::error::{failure_viewed, Error, ErrorView};
use crate::dto::estimate_dto::EstimateDTO;
use crate::dto::section_dto::{section_of, SectionDTO, SectionDTOView};
use crate::entity::clock::Timestamp;
use crate::entity::estimate::{Estimate, EstimateView};
use crate::entity::section::{Section, SectionView};
use crate::repository::repository::Repository;
use crate::service::generic_service::{GenericService, Service};
use crate::service::section_service::{add_section_outcome, after_add_section};
use crate::text::prefixed;

verus! {

/// `section` as a part of the estimate `estimate_id`, all else as it is.
pub open spec fn under(section: SectionView, estimate_id: u128) -> SectionView {
    SectionView { estimate_id: Some(estimate_id), ..section }
}

/// The section that a transfer object becomes under the estimate
/// `estimate_id`, where it does not say when it was made: made at `made` and
/// updated at `updated`.
pub open spec fn attached(
    dto: SectionDTOView,
    estimate_id: u128,
    made: Timestamp,
    updated: Timestamp,
) -> SectionView {
    under(section_of(dto, made, updated), estimate_id)
}

/// What creating `section` under the estimate `estimate_id` returns: a
/// precondition failure where no such estimate is stored, else an operation
/// failure where the section is invalid or its identifier is taken, else that
/// identifier.
pub open spec fn attach_outcome(
    sections: Map<u128, SectionView>,
    estimates: Map<u128, EstimateView>,
    section: SectionView,
    estimate_id: u128,
) -> Result<u128, ErrorView> {
    if !estimates.contains_key(estimate_id) {
        Err(ErrorView::PreconditionFailed { message: "Estimate does not exist"@ })
    } else {
        match add_section_outcome(sections, section) {
            Ok(stored) => Ok(stored.id),
            Err(cause) => Err(ErrorView::OperationFailed { message: cause.text() }),
        }
    }
}

/// The sections after creating `section` under the estimate `estimate_id`:
/// nothing is stored where no such estimate is, nor where the section is
/// invalid.
pub open spec fn after_attach(
    sections: Map<u128, SectionView>,
    estimates: Map<u128, EstimateView>,
    section: SectionView,
    estimate_id: u128,
) -> Map<u128, SectionView> {
    if estimates.contains_key(estimate_id) {
        after_add_section(sections, section)
    } else {
        sections
    }
}

/// Where creating a section fails, the sections stay as they were; where it
/// succeeds, the section is stored with the identifier of its estimate.
pub proof fn attach_stores_or_changes_nothing(
    sections: Map<u128, SectionView>,
    estimates: Map<u128, EstimateView>,
    section: SectionView,
    estimate_id: u128,
)
    requires
        section.estimate_id == Some(estimate_id),
    ensures
        attach_outcome(sections, estimates, section, estimate_id) is Err ==> after_attach(
            sections,
            estimates,
            section,
            estimate_id,
        ) == sections,
        !estimates.contains_key(estimate_id) ==> attach_outcome(
            sections,
            estimates,
            section,
            estimate_id,
        ) == Err::<u128, ErrorView>(
            ErrorView::PreconditionFailed { message: "Estimate does not exist"@ },
        ),
        attach_outcome(sections, estimates, section, estimate_id) is Ok ==> {
            &&& estimates.contains_key(estimate_id)
            &&& attach_outcome(sections, estimates, section, estimate_id) == Ok::<
                u128,
                ErrorView,
            >(section.id)
            &&& after_attach(sections, estimates, section, estimate_id).get(section.id) == Some(
                section,
            )
            &&& after_attach(sections, estimates, section, estimate_id)[section.id].estimate_id
                == Some(estimate_id)
        },
{
}

/// The use case that stores a new section under an estimate that is there.
pub struct CreateSectionAddToEstimate {}

impl CreateSectionAddToEstimate {
    pub fn new() -> (r: Self) {
        CreateSectionAddToEstimate {}
    }

    /// Looks for the estimate `estimate_id`. Where it is stored, `section` is
    /// marked with its identifier and added through the section service, which
    /// refuses an invalid section; where it is not, nothing is stored.
    pub fn attach<RS: Repository<Section>, RE: Repository<Estimate>>(
        &self,
        section_service: &mut GenericService<Section, RS>,
        estimate_service: &GenericService<Estimate, RE>,
        section: Section,
        estimate_id: u128,
    ) -> (r: Result<u128, Error>)
        ensures
            failure_viewed(r) == attach_outcome(
                old(section_service).entries(),
                estimate_service.entries(),
                under(section@, estimate_id),
                estimate_id,
            ),
            final(section_service).entries() == after_attach(
                old(section_service).entries(),
                estimate_service.entries(),
                under(section@, estimate_id),
                estimate_id,
            ),
    {
        let mut section = section;
        match estimate_service.get_estimate(estimate_id) {
            Ok(Some(_)) => {
                section.estimate_id = Some(estimate_id);
                match section_service.add_section(section) {
                    Ok(section) => Ok(section.id),
                    Err(e) => Err(Error::OperationFailed { message: e.to_text() }),
                }
            },
            Ok(None) => Err(
                Error::PreconditionFailed { message: "Estimate does not exist".to_string() },
            ),
            Err(e) => Err(
                Error::OperationFailed {
                    message: prefixed("Error getting estimate: ", e.to_text().as_str()),
                },
            ),
        }
    }

    /// Makes a section of `section_dto`, as of now, and creates it under the
    /// estimate that `estimate_dto` names.
    pub fn execute<RS: Repository<Section>, RE: Repository<Estimate>>(
        &self,
        section_service: &mut GenericService<Section, RS>,
        estimate_service: &GenericService<Estimate, RE>,
        section_dto: SectionDTO,
        estimate_dto: EstimateDTO,
    ) -> (r: Result<u128, Error>)
        ensures
            exists|made: Timestamp, updated: Timestamp|
                {
                    &&& failure_viewed(r) == attach_outcome(
                        old(section_service).entries(),
                        estimate_service.entries(),
                        #[trigger] attached(section_dto@, estimate_dto.id, made, updated),
                        estimate_dto.id,
                    )
                    &&& final(section_service).entries() == after_attach(
                        old(section_service).entries(),
                        estimate_service.entries(),
                        attached(section_dto@, estimate_dto.id, made, updated),
                        estimate_dto.id,
                    )
                },
    {
        let estimate = Estimate::from(estimate_dto);
        let section = Section::from(section_dto);
        assert(under(section@, estimate.id) == attached(
            section_dto@,
            estimate_dto.id,
            section.created_at,
            section.updated_at,
        ));
        self.attach(section_service, estimate_service, section, estimate.id)
    }
}

} // verus!
