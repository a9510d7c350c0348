//! Users and what they may do.
pub mod model;
