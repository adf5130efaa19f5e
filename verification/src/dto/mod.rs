//! Transfer objects: plain records that carry field values to and from the
//! entities.

pub mod estimate_dto;
pub mod section_dto;
