//! Services: validation in front of a repository.

pub mod error;
pub mod estimate_service;
pub mod generic_service;
pub mod section_service;
