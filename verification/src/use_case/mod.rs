//! The workflows of the application.

pub mod create_estimate;
pub mod create_section_add_to_estimate;
pub mod error;
pub mod set_estimate_location;
