//! Carts.
use vstd::prelude::*;

verus! {

/// A cart as it is stored.
#[derive(Debug, Clone, Copy, PartialEq, Eq, Structural)]
pub struct Cart {
    pub id: i32,
    pub is_active: bool,
}

} // verus!
