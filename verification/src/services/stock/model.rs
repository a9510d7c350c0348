//! Quantities in stock.
use crate::services::order::model::default_warehouse_id;
use vstd::prelude::*;

verus! {

/// How many pieces of a product a warehouse holds.
#[derive(Debug, Clone, Copy, PartialEq, Eq, Structural)]
pub struct StockQuantity {
    pub warehouse_id: i32,
    pub product_id: i32,
    pub quantity: i32,
}

/// A stock quantity that has yet to be stored.
#[derive(Debug, Clone, Copy, PartialEq, Eq, Structural)]
pub struct NewStockQuantity {
    pub product_id: i32,
    pub warehouse_id: Option<i32>,
    pub quantity: i32,
}

impl NewStockQuantity {
    /// A quantity held by `warehouse_id`, or by warehouse 1 where none is
    /// given.
    pub fn new(product_id: i32, quantity: i32, warehouse_id: Option<i32>) -> (stock: Self)
        ensures
            stock == (NewStockQuantity {
                product_id,
                warehouse_id: Some(warehouse_id.unwrap_or(1)),
                quantity,
            }),
    {
        let warehouse_id: i32 = match warehouse_id {
            Some(given) => given,
            None => default_warehouse_id(),
        };
        NewStockQuantity { product_id, warehouse_id: Some(warehouse_id), quantity }
    }
}

} // verus!
