//! The transfer object of a section.

use vstd::prelude::*;
use vstd::std_specs::cmp::PartialEqSpecImpl;
use vstd::std_specs::convert::FromSpecImpl;
use crate::entity::clock::{now, Timestamp};
use crate::entity::ident::{fresh_id, is_random_id};
use crate::entity::section::{
    clone_sections, nested_views, same_sections, section_views, Section, SectionView,
};

verus! {

#[derive(Debug)]
pub struct SectionDTO {
    id: u128,
    pub name: String,
    pub code: String,
    pub description: Option<String>,
    pub sections: Option<Vec<Section>>,
    created_at: Option<Timestamp>,
    updated_at: Option<Timestamp>,
    pub estimate_id: Option<u128>,
}

/// What a section's transfer object holds, text as sequences of characters and
/// sections by their views.
pub struct SectionDTOView {
    pub id: u128,
    pub name: Seq<char>,
    pub code: Seq<char>,
    pub description: Option<Seq<char>>,
    pub sections: Option<Seq<SectionView>>,
    pub created_at: Option<Timestamp>,
    pub updated_at: Option<Timestamp>,
    pub estimate_id: Option<u128>,
}

impl View for SectionDTO {
    type V = SectionDTOView;

    closed spec fn view(&self) -> SectionDTOView {
        SectionDTOView {
            id: self.id,
            name: self.name@,
            code: self.code@,
            description: match self.description {
                Some(d) => Some(d@),
                None => None,
            },
            sections: match self.sections {
                Some(s) => Some(section_views(s@)),
                None => None,
            },
            created_at: self.created_at,
            updated_at: self.updated_at,
            estimate_id: self.estimate_id,
        }
    }
}

impl Clone for SectionDTO {
    fn clone(&self) -> (r: Self)
        ensures
            r@ == self@,
    {
        SectionDTO {
            id: self.id,
            name: self.name.clone(),
            code: self.code.clone(),
            description: match &self.description {
                Some(d) => Some(d.clone()),
                None => None,
            },
            sections: match &self.sections {
                Some(s) => Some(clone_sections(s)),
                None => None,
            },
            created_at: self.created_at,
            updated_at: self.updated_at,
            estimate_id: self.estimate_id,
        }
    }
}

impl PartialEq for SectionDTO {
    /// Two transfer objects are equal when all their fields are.
    fn eq(&self, other: &Self) -> (r: bool) {
        let descriptions = match (&self.description, &other.description) {
            (Some(a), Some(b)) => *a == *b,
            (None, None) => true,
            _ => false,
        };
        let sections = match (&self.sections, &other.sections) {
            (Some(a), Some(b)) => same_sections(a, b),
            (None, None) => true,
            _ => false,
        };
        self.id == other.id && self.name == other.name && self.code == other.code && descriptions
            && sections && self.created_at == other.created_at && self.updated_at
            == other.updated_at && self.estimate_id == other.estimate_id
    }
}

impl PartialEqSpecImpl for SectionDTO {
    open spec fn obeys_eq_spec() -> bool {
        true
    }

    open spec fn eq_spec(&self, other: &Self) -> bool {
        self@ == other@
    }
}

/// The transfer object of a section that has only an identifier, a name and a
/// code.
pub open spec fn bare(id: u128, name: Seq<char>, code: Seq<char>) -> SectionDTOView {
    SectionDTOView {
        id,
        name,
        code,
        description: None,
        sections: None,
        created_at: None,
        updated_at: None,
        estimate_id: None,
    }
}

/// The transfer object that holds every field of a section.
pub open spec fn dto_of(section: SectionView) -> SectionDTOView {
    SectionDTOView {
        id: section.id,
        name: section.name,
        code: section.code,
        description: Some(section.description),
        sections: Some(section.sections),
        created_at: Some(section.created_at),
        updated_at: Some(section.updated_at),
        estimate_id: section.estimate_id,
    }
}

/// The section that a transfer object becomes: its identifier, code and name,
/// its description and sections where it has any, and no estimate. Where the
/// transfer object says when it was made, the section was made and updated
/// then, else at `made` and `updated`.
pub open spec fn section_of(
    dto: SectionDTOView,
    made: Timestamp,
    updated: Timestamp,
) -> SectionView {
    SectionView {
        id: dto.id,
        code: dto.code,
        name: dto.name,
        description: match dto.description {
            Some(d) => d,
            None => Seq::<char>::empty(),
        },
        sections: match dto.sections {
            Some(s) => s,
            None => Seq::<SectionView>::empty(),
        },
        created_at: match dto.created_at {
            Some(t) => t,
            None => made,
        },
        updated_at: match dto.created_at {
            Some(t) => t,
            None => updated,
        },
        estimate_id: None,
    }
}

impl SectionDTO {
    /// A transfer object with a new random identifier, the given name and
    /// code, and nothing else.
    pub fn new(name: String, code: String) -> (r: Self)
        ensures
            is_random_id(r@.id),
            r@ == bare(r@.id, name@, code@),
    {
        SectionDTO {
            id: fresh_id(),
            code: code,
            name: name,
            description: None,
            sections: None,
            estimate_id: None,
            created_at: None,
            updated_at: None,
        }
    }

    /// The same transfer object with the description `description`.
    pub fn with_description(self, description: String) -> (r: Self)
        ensures
            r@ == (SectionDTOView { description: Some(description@), ..self@ }),
    {
        SectionDTO { description: Some(description), ..self }
    }

    /// The same transfer object with `sections` directly under it.
    pub fn with_sections(self, sections: Vec<Section>) -> (r: Self)
        ensures
            r@ == (SectionDTOView { sections: Some(section_views(sections@)), ..self@ }),
    {
        SectionDTO { sections: Some(sections), ..self }
    }

    /// The same transfer object as a part of the estimate `estimate_id`.
    pub fn with_estimate_id(self, estimate_id: u128) -> (r: Self)
        ensures
            r@ == (SectionDTOView { estimate_id: Some(estimate_id), ..self@ }),
    {
        SectionDTO { estimate_id: Some(estimate_id), ..self }
    }

    pub fn get_id(&self) -> (r: u128)
        ensures
            r == self@.id,
    {
        self.id
    }

    pub fn get_created_at(&self) -> (r: Option<Timestamp>)
        ensures
            r == self@.created_at,
    {
        self.created_at
    }

    pub fn get_updated_at(&self) -> (r: Option<Timestamp>)
        ensures
            r == self@.updated_at,
    {
        self.updated_at
    }
}

impl From<Section> for SectionDTO {
    /// Every field of a section, the optional ones filled.
    fn from(section: Section) -> (r: SectionDTO)
        ensures
            r@ == dto_of(section@),
    {
        proof {
            nested_views(section);
        }
        SectionDTO {
            id: section.id,
            code: section.code,
            name: section.name,
            description: Some(section.description),
            sections: Some(section.sections),
            estimate_id: section.estimate_id,
            created_at: Some(section.created_at),
            updated_at: Some(section.updated_at),
        }
    }
}

impl FromSpecImpl<Section> for SectionDTO {
    open spec fn obeys_from_spec() -> bool {
        true
    }

    closed spec fn from_spec(section: Section) -> SectionDTO {
        SectionDTO {
            id: section.id,
            code: section.code,
            name: section.name,
            description: Some(section.description),
            sections: Some(section.sections),
            estimate_id: section.estimate_id,
            created_at: Some(section.created_at),
            updated_at: Some(section.updated_at),
        }
    }
}

impl Section {
    /// The section that a transfer object becomes, made at `made` and updated
    /// at `updated` where the transfer object does not say when it was made.
    pub fn from_dto(section_dto: SectionDTO, made: Timestamp, updated: Timestamp) -> (r: Section)
        ensures
            r@ == section_of(section_dto@, made, updated),
    {
        let r = Section {
            id: section_dto.id,
            code: section_dto.code,
            name: section_dto.name,
            description: match section_dto.description {
                Some(d) => d,
                None => String::new(),
            },
            sections: match section_dto.sections {
                Some(s) => s,
                None => Vec::new(),
            },
            created_at: match section_dto.created_at {
                Some(t) => t,
                None => made,
            },
            updated_at: match section_dto.created_at {
                Some(t) => t,
                None => updated,
            },
            estimate_id: None,
        };
        proof {
            nested_views(r);
            assert(r@.sections =~= section_of(section_dto@, made, updated).sections);
        }
        r
    }
}

impl From<SectionDTO> for Section {
    /// A section with what the transfer object holds, made and updated now
    /// where the transfer object does not say when it was made.
    fn from(section_dto: SectionDTO) -> (r: Section)
        ensures
            r@ == section_of(section_dto@, r.created_at, r.updated_at),
    {
        let made = now();
        let updated = now();
        Section::from_dto(section_dto, made, updated)
    }
}

impl FromSpecImpl<SectionDTO> for Section {
    /// The conversion reads the clock, so it is no function of its argument.
    open spec fn obeys_from_spec() -> bool {
        false
    }

    open spec fn from_spec(section_dto: SectionDTO) -> Section {
        arbitrary()
    }
}

} // verus!
