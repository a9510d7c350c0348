//! Records of the catalog, one module per service.
pub mod brand;
pub mod cart;
pub mod category;
pub mod discount;
pub mod identity;
pub mod order;
pub mod product;
pub mod stock;
