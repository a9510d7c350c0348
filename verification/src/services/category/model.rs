//! Categories.
use vstd::prelude::*;

verus! {

/// A category as it is stored.
#[derive(Debug, PartialEq)]
pub struct Category {
    pub id: i32,
    pub name: String,
    pub description: String,
}

impl Category {
    /// A category made of its three columns.
    pub fn new(id: i32, name: String, description: String) -> (category: Self)
        ensures
            category == (Category { id, name, description }),
    {
        Category { id, name, description }
    }
}

/// A category that has yet to be stored.
#[derive(Debug)]
pub struct NewCategory<'a> {
    pub name: &'a String,
    pub description: &'a String,
}

impl<'a> NewCategory<'a> {
    /// A category to be stored under `name`.
    pub fn new(name: &'a String, description: &'a String) -> (category: Self)
        ensures
            category == (NewCategory { name, description }),
    {
        NewCategory { name, description }
    }
}

/// Request to create a category.
#[derive(Debug)]
pub struct CreateCategoryRequest {
    pub name: String,
    pub description: String,
}

/// Request to overwrite a category.
#[derive(Debug)]
pub struct UpdateCategoryRequest {
    pub id: i32,
    pub name: String,
    pub description: String,
}

/// Request for one category.
#[derive(Debug)]
pub struct GetCategoryRequest {
    pub id: i32,
}

/// Request for the products of one category.
#[derive(Debug)]
pub struct GetProductByCategory {
    pub id: i32,
}

} // verus!
