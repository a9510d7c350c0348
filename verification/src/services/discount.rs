//! Discounts.
pub mod model;
pub mod utils;
