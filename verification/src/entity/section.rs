//! Sections: named parts of an estimate, nested to any depth.

use vstd::prelude::*;
use vstd::string::*;
use vstd::std_specs::cmp::PartialEqSpecImpl;
use super::clock::Timestamp;
use super::error::Error;
use super::ident::{hyphenated, id_text};
use super::traits::Identifiable;

verus! {

/// A part of an estimate. `estimate_id` names the estimate that the section
/// belongs to, without owning it.
#[derive(Debug)]
pub struct Section {
    pub id: u128,
    pub code: String,
    pub name: String,
    pub description: String,
    pub sections: Vec<Section>,
    pub created_at: Timestamp,
    pub updated_at: Timestamp,
    pub estimate_id: Option<u128>,
}

/// What a section holds, text as sequences of characters and the nested
/// sections by their own views.
pub struct SectionView {
    pub id: u128,
    pub code: Seq<char>,
    pub name: Seq<char>,
    pub description: Seq<char>,
    pub sections: Seq<SectionView>,
    pub created_at: Timestamp,
    pub updated_at: Timestamp,
    pub estimate_id: Option<u128>,
}

/// The view of a section, nested sections included.
pub open spec fn section_view(s: Section) -> SectionView
    decreases s,
{
    SectionView {
        id: s.id,
        code: s.code@,
        name: s.name@,
        description: s.description@,
        sections: Seq::new(
            s.sections@.len(),
            |i: int|
                if 0 <= i < s.sections@.len() {
                    section_view(s.sections@[i])
                } else {
                    arbitrary()
                },
        ),
        created_at: s.created_at,
        updated_at: s.updated_at,
        estimate_id: s.estimate_id,
    }
}

/// The views of a sequence of sections, in order.
pub open spec fn section_views(s: Seq<Section>) -> Seq<SectionView> {
    Seq::new(s.len(), |i: int| section_view(s[i]))
}

/// The nested sections of a view are the views of the nested sections.
pub proof fn nested_views(s: Section)
    ensures
        s@.sections == section_views(s.sections@),
{
    assert(s@.sections =~= section_views(s.sections@));
}

impl View for Section {
    type V = SectionView;

    open spec fn view(&self) -> SectionView {
        section_view(*self)
    }
}

/// Clones of `sections`, in order.
pub fn clone_sections(sections: &Vec<Section>) -> (r: Vec<Section>)
    ensures
        section_views(r@) == section_views(sections@),
    decreases sections,
{
    let mut clones: Vec<Section> = Vec::new();
    let mut i: usize = 0;
    while i < sections.len()
        invariant
            i <= sections.len(),
            clones.len() == i,
            forall|j: int| 0 <= j < i ==> clones@[j]@ == sections@[j]@,
        decreases sections.len() - i,
    {
        clones.push(sections[i].clone());
        i += 1;
    }
    assert(section_views(clones@) =~= section_views(sections@));
    clones
}

/// Whether `left` and `right` hold equal sections in the same order.
pub fn same_sections(left: &Vec<Section>, right: &Vec<Section>) -> (r: bool)
    ensures
        r == (section_views(left@) == section_views(right@)),
    decreases left,
{
    if left.len() != right.len() {
        assert(section_views(left@).len() != section_views(right@).len());
        return false;
    }
    let mut i: usize = 0;
    while i < left.len()
        invariant
            i <= left.len(),
            left.len() == right.len(),
            forall|j: int| 0 <= j < i ==> left@[j]@ == right@[j]@,
        decreases left.len() - i,
    {
        if !left[i].eq(&right[i]) {
            assert(section_views(left@)[i as int] == left@[i as int]@);
            assert(section_views(right@)[i as int] == right@[i as int]@);
            return false;
        }
        i += 1;
    }
    assert(section_views(left@) =~= section_views(right@));
    true
}

impl Clone for Section {
    fn clone(&self) -> (r: Self)
        ensures
            r@ == self@,
        decreases self,
    {
        let r = Section {
            id: self.id,
            code: self.code.clone(),
            name: self.name.clone(),
            description: self.description.clone(),
            sections: clone_sections(&self.sections),
            created_at: self.created_at,
            updated_at: self.updated_at,
            estimate_id: self.estimate_id,
        };
        proof {
            nested_views(r);
            nested_views(*self);
        }
        r
    }
}

impl PartialEq for Section {
    /// Two sections are equal when all their fields are, nested sections
    /// included.
    fn eq(&self, other: &Self) -> (r: bool)
        decreases self,
    {
        proof {
            nested_views(*self);
            nested_views(*other);
        }
        self.id == other.id && self.code == other.code && self.name == other.name
            && self.description == other.description && self.created_at == other.created_at
            && self.updated_at == other.updated_at && self.estimate_id == other.estimate_id
            && same_sections(&self.sections, &other.sections)
    }
}

impl PartialEqSpecImpl for Section {
    open spec fn obeys_eq_spec() -> bool {
        true
    }

    open spec fn eq_spec(&self, other: &Self) -> bool {
        self@ == other@
    }
}

impl Identifiable for Section {
    open spec fn id_of(v: SectionView) -> u128 {
        v.id
    }

    fn id(&self) -> (r: u128) {
        self.id
    }

    proof fn clone_keeps_view(a: &Self, b: &Self) {
    }
}

/// What is said of a name that is too short or too long.
pub open spec fn name_rule() -> Seq<char> {
    "Name must be between 3 and 100 characters"@
}

/// What is said of a description that is too short or too long.
pub open spec fn description_rule() -> Seq<char> {
    "Description must be between 10 and 1000 characters"@
}

/// What is said of a section with too many sections directly under it.
pub open spec fn sections_rule() -> Seq<char> {
    "Sections must be at most 100"@
}

/// The failure that names a broken constraint of a section.
pub open spec fn rejects(r: Result<(), Error>, message: Seq<char>) -> bool {
    r matches Err(Error::ValidationError { entity, message: m }) && entity@ == "Section"@ && m@
        == message
}

fn rejected(message: &str) -> (r: Result<(), Error>)
    ensures
        rejects(r, message@),
{
    Err(Error::ValidationError { entity: "Section", message: message.to_string() })
}

impl Section {
    pub open spec fn valid_name(name: Seq<char>) -> bool {
        3 <= name.len() <= 100
    }

    pub open spec fn valid_description(description: Seq<char>) -> bool {
        10 <= description.len() <= 1000
    }

    pub open spec fn valid_sections(sections: Seq<Section>) -> bool {
        sections.len() <= 100
    }

    /// A name has 3 to 100 characters.
    pub fn is_valid_name(name: &str) -> (r: Result<(), Error>)
        ensures
            r is Ok <==> Self::valid_name(name@),
            r is Err ==> rejects(r, name_rule()),
    {
        let n = name.unicode_len();
        if n >= 3 && n <= 100 {
            Ok(())
        } else {
            rejected("Name must be between 3 and 100 characters")
        }
    }

    /// A description has 10 to 1000 characters.
    pub fn is_valid_description(description: &str) -> (r: Result<(), Error>)
        ensures
            r is Ok <==> Self::valid_description(description@),
            r is Err ==> rejects(r, description_rule()),
    {
        let n = description.unicode_len();
        if n >= 10 && n <= 1000 {
            Ok(())
        } else {
            rejected("Description must be between 10 and 1000 characters")
        }
    }

    /// A section has at most 100 sections directly under it.
    pub fn is_valid_sections(sections: &Vec<Section>) -> (r: Result<(), Error>)
        ensures
            r is Ok <==> Self::valid_sections(sections@),
            r is Err ==> rejects(r, sections_rule()),
    {
        if sections.len() <= 100 {
            Ok(())
        } else {
            rejected("Sections must be at most 100")
        }
    }

    /// An identifier is valid when its text is not empty, which holds of every
    /// identifier.
    pub fn is_valid_project_id(project_id: &u128) -> (r: Result<(), Error>)
        ensures
            r is Ok <==> hyphenated(*project_id).len() > 0,
            r is Ok,
    {
        let text = id_text(*project_id);
        if text.as_str().unicode_len() > 0 {
            Ok(())
        } else {
            rejected("Project ID must be a valid UUID")
        }
    }
}

} // verus!
