//! Brands.
use vstd::prelude::*;

verus! {

/// A brand as it is stored.
#[derive(Debug, PartialEq)]
pub struct Brand {
    pub id: i32,
    pub name: String,
    pub description: Option<String>,
}

/// A brand that has yet to be stored.
#[derive(Debug)]
pub struct NewBrand {
    pub name: String,
    pub description: Option<String>,
}

impl Clone for NewBrand {
    fn clone(&self) -> (copy: Self)
        ensures
            copy == *self,
    {
        NewBrand {
            name: self.name.clone(),
            description: match &self.description {
                Some(text) => Some(text.clone()),
                None => None,
            },
        }
    }
}

/// Request to create a brand.
#[derive(Debug)]
pub struct CreateBrandRequest {
    pub name: String,
    pub description: Option<String>,
}

/// Request to overwrite a brand.
#[derive(Debug)]
pub struct UpdateBrandRequest {
    pub id: i32,
    pub name: String,
    pub description: String,
}

/// Request for the products that a brand has in a category.
#[derive(Debug)]
pub struct GetProductsForBrandInCategoryRequest {
    pub id: i32,
    pub category_id: i32,
}

} // verus!
