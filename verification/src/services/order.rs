//! Order lines and warehouses.
pub mod model;
pub mod utils;
