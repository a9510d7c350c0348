//! Order lines and warehouses.
use vstd::prelude::*;

verus! {

/// The warehouse that serves an order line which names none.
pub fn default_warehouse_id() -> (id: i32)
    ensures
        id == 1,
{
    1
}

/// A line of a cart as it is stored.
#[derive(Debug, Clone, Copy, PartialEq, Eq, Structural)]
pub struct OrderLine {
    pub id: i32,
    pub cart_id: i32,
    pub product_id: i32,
    pub warehouse_id: i32,
    pub quantity: i32,
}

/// A line of a cart that has yet to be stored.
#[derive(Debug, Clone, Copy, PartialEq, Eq, Structural)]
pub struct NewOrderLine {
    pub cart_id: i32,
    pub product_id: i32,
    pub warehouse_id: i32,
    pub quantity: i32,
}

impl NewOrderLine {
    /// An order line served by `warehouse_id`, or by warehouse 1 where none
    /// is given.
    pub fn new(cart_id: i32, product_id: i32, warehouse_id: Option<i32>, quantity: i32) -> (line:
        Self)
        ensures
            line == (NewOrderLine {
                cart_id,
                product_id,
                warehouse_id: warehouse_id.unwrap_or(1),
                quantity,
            }),
    {
        let warehouse_id: i32 = match warehouse_id {
            Some(given) => given,
            None => default_warehouse_id(),
        };
        NewOrderLine { cart_id, product_id, warehouse_id, quantity }
    }
}

/// A warehouse as it is stored.
#[derive(Debug, PartialEq)]
pub struct Warehouse {
    pub id: i32,
    pub name: String,
}

/// A warehouse that has yet to be stored.
#[derive(Debug)]
pub struct NewWarehouse {
    pub name: String,
}

} // verus!
