//! What a discount applies to.
use vstd::prelude::*;

verus! {

/// A discount that applies to a brand.
#[derive(Debug, Clone, Copy, PartialEq, Eq, Structural)]
pub struct DiscountBrand {
    pub discount_id: i32,
    pub brand_id: i32,
}

/// A discount that applies to a category.
#[derive(Debug, Clone, Copy, PartialEq, Eq, Structural)]
pub struct DiscountCategory {
    pub discount_id: i32,
    pub category_id: i32,
}

/// A discount that applies to a product.
#[derive(Debug, Clone, Copy, PartialEq, Eq, Structural)]
pub struct DiscountProduct {
    pub discount_id: i32,
    pub product_id: i32,
}

} // verus!
