//! Stock.
pub mod model;
