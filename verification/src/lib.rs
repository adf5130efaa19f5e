//! Estimates and sections behind a keyed store.
//!
//! Entities report a 128-bit identifier. A repository keeps one entity per
//! identifier, a service validates and forwards to its repository, and the use
//! cases compose services into the workflows of the application. Every
//! operation states its effect on the store as a map from identifier to the
//! entity's view.

pub mod controller;
pub mod dto;
pub mod entity;
pub mod error;
pub mod presenter;
pub mod repository;
pub mod service;
pub mod text;
pub mod use_case;
