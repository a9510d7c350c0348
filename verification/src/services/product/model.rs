//! Product records and the builder that assembles them.
use vstd::prelude::*;

verus! {

/// A named value that can be attached to products.
#[derive(Debug)]
pub struct Attribute {
    pub id: i32,
    pub name: String,
    pub value: String,
}

impl Clone for Attribute {
    fn clone(&self) -> (copy: Self)
        ensures
            copy == *self,
    {
        Attribute { id: self.id, name: self.name.clone(), value: self.value.clone() }
    }
}

/// Link between a product and one of its attributes.
#[derive(Debug)]
pub struct ProductAttribute {
    pub product_id: i32,
    pub attribute_id: i32,
}

impl Clone for ProductAttribute {
    fn clone(&self) -> (copy: Self)
        ensures
            copy == *self,
    {
        ProductAttribute { product_id: self.product_id, attribute_id: self.attribute_id }
    }
}

/// The attributes every product may carry.
#[derive(Debug)]
pub struct DefaultAttributes {
    pub size: Option<String>,
    pub color: Option<String>,
    pub weight: Option<i32>,
    pub weight_unit: Option<String>,
    pub width: Option<i32>,
    pub height: Option<i32>,
}

impl Default for DefaultAttributes {
    fn default() -> (attributes: Self)
        ensures
            attributes == (DefaultAttributes {
                size: None,
                color: None,
                weight: None,
                weight_unit: None,
                width: None,
                height: None,
            }),
    {
        DefaultAttributes {
            size: None,
            color: None,
            weight: None,
            weight_unit: None,
            width: None,
            height: None,
        }
    }
}

impl Clone for DefaultAttributes {
    fn clone(&self) -> (copy: Self)
        ensures
            copy == *self,
    {
        DefaultAttributes {
            size: clone_text(&self.size),
            color: clone_text(&self.color),
            weight: self.weight,
            weight_unit: clone_text(&self.weight_unit),
            width: self.width,
            height: self.height,
        }
    }
}

/// Copies an optional text.
pub(crate) fn clone_text(text: &Option<String>) -> (copy: Option<String>)
    ensures
        copy == *text,
{
    match text {
        Some(s) => Some(s.clone()),
        None => None,
    }
}

/// A product as the catalog stores it.
#[derive(Debug, PartialEq)]
pub struct Product {
    pub id: i32,
    pub name: String,
    pub in_stock: bool,
    pub category_id: Option<i32>,
    pub brand_id: Option<i32>,
    pub price: i32,
    pub tax_rate: i32,
}

impl Clone for Product {
    fn clone(&self) -> (copy: Self)
        ensures
            copy == *self,
    {
        Product {
            id: self.id,
            name: self.name.clone(),
            in_stock: self.in_stock,
            category_id: self.category_id,
            brand_id: self.brand_id,
            price: self.price,
            tax_rate: self.tax_rate,
        }
    }
}

impl Product {
    /// Starts a builder for a product called `name`.
    pub fn new(name: String) -> (builder: ProductBuilder)
        ensures
            builder@ == ProductBuilderState::named(name),
    {
        ProductBuilder::new(name)
    }
}

/// A product together with its attributes and the quantity in stock.
#[derive(Debug)]
pub struct ProductWithAttributes {
    pub product: Product,
    pub attributes: DefaultAttributes,
    pub stock_quantity: i32,
}

/// A product that has yet to be stored: every column is optional on the way in.
#[derive(Debug, PartialEq)]
pub struct NewProduct {
    pub name: Option<String>,
    pub in_stock: Option<bool>,
    pub category_id: Option<i32>,
    pub brand_id: Option<i32>,
    pub price: Option<i32>,
    pub tax_rate: Option<i32>,
}

impl Clone for NewProduct {
    fn clone(&self) -> (copy: Self)
        ensures
            copy == *self,
    {
        NewProduct {
            name: clone_text(&self.name),
            in_stock: self.in_stock,
            category_id: self.category_id,
            brand_id: self.brand_id,
            price: self.price,
            tax_rate: self.tax_rate,
        }
    }
}

impl NewProduct {
    /// Fills the columns that were left out: the name becomes "Default", the
    /// product is in stock, price and tax rate are zero. Category and brand
    /// stay as given.
    pub fn new(
        name: Option<String>,
        in_stock: Option<bool>,
        category_id: Option<i32>,
        brand_id: Option<i32>,
        price: Option<i32>,
        tax_rate: Option<i32>,
    ) -> (product: Self)
        ensures
            product.name is Some,
            product.name->0@ == (match name {
                Some(given) => given@,
                None => "Default"@,
            }),
            name is Some ==> product.name == name,
            product.in_stock == Some(in_stock.unwrap_or(true)),
            product.category_id == category_id,
            product.brand_id == brand_id,
            product.price == Some(price.unwrap_or(0)),
            product.tax_rate == Some(tax_rate.unwrap_or(0)),
    {
        let name = match name {
            Some(given) => given,
            None => String::from_str("Default"),
        };
        let in_stock = match in_stock {
            Some(given) => given,
            None => true,
        };
        let price: i32 = match price {
            Some(given) => given,
            None => 0,
        };
        let tax_rate: i32 = match tax_rate {
            Some(given) => given,
            None => 0,
        };
        NewProduct {
            name: Some(name),
            in_stock: Some(in_stock),
            category_id,
            brand_id,
            price: Some(price),
            tax_rate: Some(tax_rate),
        }
    }
}

/// What a `ProductBuilder` has been told so far.
pub struct ProductBuilderState {
    pub id: i32,
    pub name: String,
    pub price: Option<i32>,
    pub category_id: Option<i32>,
    pub tax_rate: Option<i32>,
    pub in_stock: Option<bool>,
    pub size: Option<String>,
    pub color: Option<String>,
    pub weight: Option<i32>,
    pub weight_unit: Option<String>,
    pub width: Option<i32>,
    pub height: Option<i32>,
    pub brand_id: Option<i32>,
}

impl ProductBuilderState {
    /// The state of a builder that knows the name only.
    pub open spec fn named(name: String) -> Self {
        ProductBuilderState {
            id: 0,
            name,
            price: None,
            category_id: None,
            tax_rate: None,
            in_stock: None,
            size: None,
            color: None,
            weight: None,
            weight_unit: None,
            width: None,
            height: None,
            brand_id: None,
        }
    }

    /// The product that `build` makes of this state: stock defaults to
    /// `false`, price and tax rate to zero, and neither category nor brand is
    /// carried over.
    pub open spec fn product(self) -> Product {
        Product {
            id: self.id,
            name: self.name,
            in_stock: self.in_stock.unwrap_or(false),
            category_id: None,
            brand_id: None,
            price: self.price.unwrap_or(0),
            tax_rate: self.tax_rate.unwrap_or(0),
        }
    }
}

/// Collects the parts of a product one call at a time.
#[derive(Debug)]
pub struct ProductBuilder {
    id: i32,
    name: String,
    price: Option<i32>,
    category_id: Option<i32>,
    tax_rate: Option<i32>,
    in_stock: Option<bool>,
    size: Option<String>,
    color: Option<String>,
    weight: Option<i32>,
    weight_unit: Option<String>,
    width: Option<i32>,
    height: Option<i32>,
    brand_id: Option<i32>,
}

impl View for ProductBuilder {
    type V = ProductBuilderState;

    closed spec fn view(&self) -> ProductBuilderState {
        ProductBuilderState {
            id: self.id,
            name: self.name,
            price: self.price,
            category_id: self.category_id,
            tax_rate: self.tax_rate,
            in_stock: self.in_stock,
            size: self.size,
            color: self.color,
            weight: self.weight,
            weight_unit: self.weight_unit,
            width: self.width,
            height: self.height,
            brand_id: self.brand_id,
        }
    }
}

impl ProductBuilder {
    /// A builder that knows the name only; the id is zero.
    pub fn new(name: String) -> (builder: Self)
        ensures
            builder@ == ProductBuilderState::named(name),
    {
        ProductBuilder {
            id: 0,
            name,
            price: None,
            category_id: None,
            tax_rate: None,
            in_stock: None,
            size: None,
            color: None,
            weight: None,
            weight_unit: None,
            width: None,
            height: None,
            brand_id: None,
        }
    }

    /// Sets the price.
    pub fn price(&mut self, price: i32) -> (builder: &mut Self)
        ensures
            builder@ == (ProductBuilderState { price: Some(price), ..old(self)@ }),
            *final(self) == *final(builder),
    {
        self.price = Some(price);
        self
    }

    /// Sets the category.
    pub fn category_id(&mut self, category_id: i32) -> (builder: &mut Self)
        ensures
            builder@ == (ProductBuilderState { category_id: Some(category_id), ..old(self)@ }),
            *final(self) == *final(builder),
    {
        self.category_id = Some(category_id);
        self
    }

    /// Sets the tax rate.
    pub fn tax_rate(&mut self, tax_rate: i32) -> (builder: &mut Self)
        ensures
            builder@ == (ProductBuilderState { tax_rate: Some(tax_rate), ..old(self)@ }),
            *final(self) == *final(builder),
    {
        self.tax_rate = Some(tax_rate);
        self
    }

    /// Says whether the product is in stock.
    pub fn in_stock(&mut self, in_stock: bool) -> (builder: &mut Self)
        ensures
            builder@ == (ProductBuilderState { in_stock: Some(in_stock), ..old(self)@ }),
            *final(self) == *final(builder),
    {
        self.in_stock = Some(in_stock);
        self
    }

    /// Sets the size.
    pub fn size(&mut self, size: String) -> (builder: &mut Self)
        ensures
            builder@ == (ProductBuilderState { size: Some(size), ..old(self)@ }),
            *final(self) == *final(builder),
    {
        self.size = Some(size);
        self
    }

    /// Sets the colour.
    pub fn color(&mut self, color: String) -> (builder: &mut Self)
        ensures
            builder@ == (ProductBuilderState { color: Some(color), ..old(self)@ }),
            *final(self) == *final(builder),
    {
        self.color = Some(color);
        self
    }

    /// Sets the weight.
    pub fn weight(&mut self, weight: i32) -> (builder: &mut Self)
        ensures
            builder@ == (ProductBuilderState { weight: Some(weight), ..old(self)@ }),
            *final(self) == *final(builder),
    {
        self.weight = Some(weight);
        self
    }

    /// Sets the unit in which the weight is given.
    pub fn weight_unit(&mut self, weight_unit: String) -> (builder: &mut Self)
        ensures
            builder@ == (ProductBuilderState { weight_unit: Some(weight_unit), ..old(self)@ }),
            *final(self) == *final(builder),
    {
        self.weight_unit = Some(weight_unit);
        self
    }

    /// Sets the width.
    pub fn width(&mut self, width: i32) -> (builder: &mut Self)
        ensures
            builder@ == (ProductBuilderState { width: Some(width), ..old(self)@ }),
            *final(self) == *final(builder),
    {
        self.width = Some(width);
        self
    }

    /// Sets the height.
    pub fn height(&mut self, height: i32) -> (builder: &mut Self)
        ensures
            builder@ == (ProductBuilderState { height: Some(height), ..old(self)@ }),
            *final(self) == *final(builder),
    {
        self.height = Some(height);
        self
    }

    /// Sets the brand.
    pub fn brand_id(&mut self, brand_id: i32) -> (builder: &mut Self)
        ensures
            builder@ == (ProductBuilderState { brand_id: Some(brand_id), ..old(self)@ }),
            *final(self) == *final(builder),
    {
        self.brand_id = Some(brand_id);
        self
    }

    /// The product described so far.
    pub fn build(&self) -> (product: Product)
        ensures
            product == self@.product(),
    {
        let in_stock = match self.in_stock {
            Some(given) => given,
            None => false,
        };
        let price: i32 = match self.price {
            Some(given) => given,
            None => 0,
        };
        let tax_rate: i32 = match self.tax_rate {
            Some(given) => given,
            None => 0,
        };
        Product {
            id: self.id,
            name: self.name.clone(),
            in_stock,
            category_id: None,
            brand_id: None,
            price,
            tax_rate,
        }
    }
}

} // verus!
