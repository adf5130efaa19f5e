//! Turning responses into text.

pub mod error;
pub mod estimate_presenter;
