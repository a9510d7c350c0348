//! Amounts of an order line.
use vstd::prelude::*;

verus! {

/// The total of an order line before discounts: the quantity times the
/// price of one piece.
pub fn calculate_orderline_total(quantity: i32, price: i32) -> (total: i32)
    requires
        i32::MIN <= quantity * price <= i32::MAX,
    ensures
        total == quantity * price,
{
    quantity * price
}

} // verus!
