//! Products.
pub mod model;
