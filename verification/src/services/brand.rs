//! Brands.
pub mod model;
