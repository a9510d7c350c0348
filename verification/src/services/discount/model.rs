//! Discount records.
pub mod relations;
