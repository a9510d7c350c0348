use ecom_engine::services::product::model::{
    Attribute, DefaultAttributes, NewProduct, Product, ProductAttribute, ProductBuilder,
    ProductWithAttributes,
};

#[test]
fn new_product_fills_what_was_left_out() {
    let product = NewProduct::new(None, None, None, None, None, None);
    assert_eq!(
        product,
        NewProduct {
            name: Some("Default".to_string()),
            in_stock: Some(true),
            category_id: None,
            brand_id: None,
            price: Some(0),
            tax_rate: Some(0),
        }
    );
}

#[test]
fn new_product_keeps_what_was_given() {
    let product = NewProduct::new(
        Some("desk".to_string()),
        Some(false),
        Some(3),
        Some(4),
        Some(1999),
        Some(25),
    );
    assert_eq!(
        product,
        NewProduct {
            name: Some("desk".to_string()),
            in_stock: Some(false),
            category_id: Some(3),
            brand_id: Some(4),
            price: Some(1999),
            tax_rate: Some(25),
        }
    );
    assert_eq!(product.clone(), product);
}

#[test]
fn builder_with_name_only_builds_defaults() {
    let product = ProductBuilder::new("stool".to_string()).build();
    assert_eq!(
        product,
        Product {
            id: 0,
            name: "stool".to_string(),
            in_stock: false,
            category_id: None,
            brand_id: None,
            price: 0,
            tax_rate: 0,
        }
    );
}

#[test]
fn builder_carries_price_tax_and_stock() {
    let mut builder = Product::new("stool".to_string());
    builder.price(450).tax_rate(19).in_stock(true);
    let product = builder.build();
    assert_eq!(product.price, 450);
    assert_eq!(product.tax_rate, 19);
    assert!(product.in_stock);
    assert_eq!(product.name, "stool");
    assert_eq!(product.id, 0);
}

#[test]
fn builder_drops_category_and_brand() {
    let mut builder = ProductBuilder::new("stool".to_string());
    builder
        .category_id(5)
        .brand_id(6)
        .size("L".to_string())
        .color("red".to_string())
        .weight(12)
        .weight_unit("kg".to_string())
        .width(40)
        .height(90);
    let product = builder.build();
    assert_eq!(product.category_id, None);
    assert_eq!(product.brand_id, None);
    assert_eq!(product.price, 0);
    assert!(!product.in_stock);
}

#[test]
fn later_setting_replaces_earlier_one() {
    let mut builder = ProductBuilder::new("stool".to_string());
    builder.price(1).price(2).in_stock(true).in_stock(false);
    let product = builder.build();
    assert_eq!(product.price, 2);
    assert!(!product.in_stock);
    let again = builder.build();
    assert_eq!(again, product);
}

#[test]
fn product_clone_is_equal() {
    let product = Product {
        id: 9,
        name: "shelf".to_string(),
        in_stock: true,
        category_id: Some(1),
        brand_id: Some(2),
        price: 3,
        tax_rate: 4,
    };
    assert_eq!(product.clone(), product);
}

#[test]
fn default_attributes_are_all_absent() {
    let attributes = DefaultAttributes::default();
    assert_eq!(attributes.size, None);
    assert_eq!(attributes.color, None);
    assert_eq!(attributes.weight, None);
    assert_eq!(attributes.weight_unit, None);
    assert_eq!(attributes.width, None);
    assert_eq!(attributes.height, None);
    let mut given = DefaultAttributes::default();
    given.size = Some("M".to_string());
    given.weight = Some(3);
    let copy = given.clone();
    assert_eq!(copy.size, Some("M".to_string()));
    assert_eq!(copy.weight, Some(3));
    assert_eq!(copy.color, None);
}

#[test]
fn attribute_records_hold_their_columns() {
    let attribute = Attribute { id: 1, name: "size".to_string(), value: "L".to_string() };
    let copy = attribute.clone();
    assert_eq!(copy.id, 1);
    assert_eq!(copy.name, "size");
    assert_eq!(copy.value, "L");
    let link = ProductAttribute { product_id: 2, attribute_id: 1 };
    assert_eq!(link.clone().product_id, 2);
    let full = ProductWithAttributes {
        product: ProductBuilder::new("a".to_string()).build(),
        attributes: DefaultAttributes::default(),
        stock_quantity: 7,
    };
    assert_eq!(full.stock_quantity, 7);
    assert_eq!(full.product.name, "a");
}
