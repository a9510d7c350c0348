//! Carts.
pub mod model;
