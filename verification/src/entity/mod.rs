//! Domain records and what they have in common.

pub mod clock;
pub mod error;
pub mod ident;
pub mod traits;

pub mod estimate;
pub mod section;
