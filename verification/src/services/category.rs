//! Categories.
pub mod model;
