//! Keyed storage of entities.

pub mod error;
pub mod in_memory_repo;
pub mod repository;
pub mod laws;
