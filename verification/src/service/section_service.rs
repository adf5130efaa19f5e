//! The service of sections.

use vstd::prelude::*;
use std::marker::PhantomData;
use super::error::{all_viewed, failure_viewed, Error, ErrorView};
use super::generic_service::{forward, forwarded, GenericService, Service};
use crate::entity::error::{validation_text, Error as EntityError};
use crate::entity::section::{name_rule, nested_views, sections_rule, Section, SectionView};
use crate::repository::repository::{
    add_outcome, added, delete_outcome, deleted, update_outcome, updated, viewed, well_keyed,
    Repository,
};

verus! {

/// A section may be stored when its name is valid and it has at most 100
/// sections directly under it. The length of its description is not asked
/// for: a section may be created with no description at all.
pub open spec fn valid_section(section: SectionView) -> bool {
    Section::valid_name(section.name) && section.sections.len() <= 100
}

/// The text of the first constraint that `section` breaks: that on its name,
/// else that on the number of its sections.
pub open spec fn section_fault(section: SectionView) -> Seq<char> {
    if !Section::valid_name(section.name) {
        validation_text("Section"@, name_rule())
    } else {
        validation_text("Section"@, sections_rule())
    }
}

/// What adding `section` returns: a validation failure where it is invalid,
/// else an operation failure where its identifier is taken, else the section.
pub open spec fn add_section_outcome(store: Map<u128, SectionView>, section: SectionView) -> Result<
    SectionView,
    ErrorView,
> {
    if !valid_section(section) {
        Err(ErrorView::ValidationFailed { message: section_fault(section) })
    } else {
        match forwarded(add_outcome(store, section.id), "Error adding section: "@) {
            Ok(_) => Ok(section),
            Err(e) => Err(e),
        }
    }
}

/// The store after adding `section`: an invalid one is not stored.
pub open spec fn after_add_section(
    store: Map<u128, SectionView>,
    section: SectionView,
) -> Map<u128, SectionView> {
    if valid_section(section) {
        added(store, section.id, section)
    } else {
        store
    }
}

/// What replacing by `section` returns: a validation failure where it is
/// invalid, else an operation failure where nothing is stored under its
/// identifier, else the section.
pub open spec fn update_section_outcome(
    store: Map<u128, SectionView>,
    section: SectionView,
) -> Result<SectionView, ErrorView> {
    if !valid_section(section) {
        Err(ErrorView::ValidationFailed { message: section_fault(section) })
    } else {
        match forwarded(update_outcome(store, section.id), "Error updating section: "@) {
            Ok(_) => Ok(section),
            Err(e) => Err(e),
        }
    }
}

/// The store after replacing by `section`: an invalid one is not stored.
pub open spec fn after_update_section(
    store: Map<u128, SectionView>,
    section: SectionView,
) -> Map<u128, SectionView> {
    if valid_section(section) {
        updated(store, section.id, section)
    } else {
        store
    }
}

/// Where adding or replacing a section fails, the store stays as it was: an
/// invalid section is refused before anything is written.
pub proof fn refused_section_changes_nothing(store: Map<u128, SectionView>, section: SectionView)
    ensures
        add_section_outcome(store, section) is Err ==> after_add_section(store, section) == store,
        update_section_outcome(store, section) is Err ==> after_update_section(store, section)
            == store,
        !valid_section(section) ==> add_section_outcome(store, section) is Err
            && update_section_outcome(store, section) is Err,
{
}

impl<R: Repository<Section>> GenericService<Section, R> {
    /// The service over `repo`.
    pub fn new(repo: R) -> (r: Self)
        ensures
            r.repository == repo,
    {
        GenericService { repository: repo, entity: PhantomData }
    }

    /// Checks the name of `section` and the number of sections directly under
    /// it, in this order.
    pub fn is_valid_section(section: &Section) -> (r: Result<(), EntityError>)
        ensures
            r is Ok <==> valid_section(section@),
            r matches Err(e) ==> e.spec_text() == section_fault(section@),
    {
        proof {
            nested_views(*section);
        }
        match Section::is_valid_name(section.name.as_str()) {
            Ok(()) => Section::is_valid_sections(&section.sections),
            Err(e) => Err(e),
        }
    }

    /// Stores a valid section under its identifier and returns it. An invalid
    /// one is refused before the repository is touched.
    pub fn add_section(&mut self, section: Section) -> (r: Result<Section, Error>)
        ensures
            all_viewed(r) == add_section_outcome(old(self).entries(), section@),
            final(self).entries() == after_add_section(old(self).entries(), section@),
            valid_section(section@) ==> well_keyed::<Section>(final(self).entries()),
    {
        if let Err(e) = Self::is_valid_section(&section) {
            return Err(Error::ValidationFailed { message: e.to_text() });
        }
        match forward(self.repository.add(section.clone()), "Error adding section: ") {
            Ok(_) => Ok(section),
            Err(e) => Err(e),
        }
    }

    /// A clone of the section stored under `id`, if there is one.
    pub fn get_section(&self, id: u128) -> (r: Result<Option<Section>, Error>)
        ensures
            r matches Ok(found) && viewed(found) == self.entries().get(id),
            well_keyed::<Section>(self.entries()),
    {
        forward(self.repository.get(id), "Error getting section: ")
    }

    /// Replaces the section stored under the identifier of a valid section
    /// and returns it. An invalid one is refused before the repository is
    /// touched.
    pub fn update_section(&mut self, section: Section) -> (r: Result<Section, Error>)
        ensures
            all_viewed(r) == update_section_outcome(old(self).entries(), section@),
            final(self).entries() == after_update_section(old(self).entries(), section@),
            valid_section(section@) ==> well_keyed::<Section>(final(self).entries()),
    {
        if let Err(e) = Self::is_valid_section(&section) {
            return Err(Error::ValidationFailed { message: e.to_text() });
        }
        match forward(self.repository.update(section.clone()), "Error updating section: ") {
            Ok(_) => Ok(section),
            Err(e) => Err(e),
        }
    }

    /// Removes the section stored under `id`.
    pub fn delete_section(&mut self, id: u128) -> (r: Result<(), Error>)
        ensures
            failure_viewed(r) == forwarded(
                delete_outcome(old(self).entries(), id),
                "Error deleting section: "@,
            ),
            final(self).entries() == deleted(old(self).entries(), id),
            well_keyed::<Section>(final(self).entries()),
    {
        forward(self.repository.delete(id), "Error deleting section: ")
    }
}

} // verus!
