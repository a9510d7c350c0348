//! Totals of an order line.
use vstd::prelude::*;

verus! {

/// The total of an order line after its discounts have been taken off.
pub fn calculate_total_with_discount(orderline_total: i32, total_discount: i32) -> (total: i32)
    requires
        i32::MIN <= orderline_total - total_discount <= i32::MAX,
    ensures
        total == orderline_total - total_discount,
{
    orderline_total - total_discount
}

} // verus!
