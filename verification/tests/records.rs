use ecom_engine::api::rest::{RestApiHandler, DB_CON_RETRY_ATTEMPTS, DEFAULT_PORT};
use ecom_engine::cfg::{Config, Env, PostgresConfig, RedisConfig, RestApiConfig};
use ecom_engine::services::brand::model::{
    Brand, CreateBrandRequest, GetProductsForBrandInCategoryRequest, NewBrand, UpdateBrandRequest,
};
use ecom_engine::services::cart::model::Cart;
use ecom_engine::services::category::model::{
    Category, CreateCategoryRequest, GetCategoryRequest, GetProductByCategory, NewCategory,
    UpdateCategoryRequest,
};
use ecom_engine::services::discount::model::relations::{
    DiscountBrand, DiscountCategory, DiscountProduct,
};
use ecom_engine::services::discount::utils::calculate_orderline_total;
use ecom_engine::services::identity::model::{Claims, LoginRequest, LoginResponse, User, UserRole};
use ecom_engine::services::order::model::{
    default_warehouse_id, NewOrderLine, NewWarehouse, OrderLine, Warehouse,
};
use ecom_engine::services::order::utils::calculate_total_with_discount;
use ecom_engine::services::stock::model::{NewStockQuantity, StockQuantity};
use ecom_engine::{Localhost, ResourceIdentifierRequest, CONFIG_FILE_PATH};

#[test]
fn orderline_total_is_quantity_times_price() {
    assert_eq!(calculate_orderline_total(3, 250), 750);
    assert_eq!(calculate_orderline_total(0, 250), 0);
    assert_eq!(calculate_orderline_total(-2, 40), -80);
    assert_eq!(calculate_orderline_total(46340, 46340), 2147395600);
}

#[test]
fn total_with_discount_takes_the_discount_off() {
    assert_eq!(calculate_total_with_discount(750, 50), 700);
    assert_eq!(calculate_total_with_discount(10, 30), -20);
    assert_eq!(calculate_total_with_discount(0, 0), 0);
    assert_eq!(calculate_total_with_discount(i32::MAX, 1), 2147483646);
}

#[test]
fn order_line_defaults_to_warehouse_one() {
    assert_eq!(default_warehouse_id(), 1);
    assert_eq!(
        NewOrderLine::new(4, 5, None, 6),
        NewOrderLine { cart_id: 4, product_id: 5, warehouse_id: 1, quantity: 6 }
    );
    assert_eq!(
        NewOrderLine::new(4, 5, Some(9), 6),
        NewOrderLine { cart_id: 4, product_id: 5, warehouse_id: 9, quantity: 6 }
    );
}

#[test]
fn stock_quantity_defaults_to_warehouse_one() {
    assert_eq!(
        NewStockQuantity::new(7, 30, None),
        NewStockQuantity { product_id: 7, warehouse_id: Some(1), quantity: 30 }
    );
    assert_eq!(
        NewStockQuantity::new(7, 30, Some(2)),
        NewStockQuantity { product_id: 7, warehouse_id: Some(2), quantity: 30 }
    );
}

#[test]
fn category_is_made_of_its_columns() {
    let category = Category::new(3, "chairs".to_string(), "to sit on".to_string());
    assert_eq!(
        category,
        Category { id: 3, name: "chairs".to_string(), description: "to sit on".to_string() }
    );
    let name = "tables".to_string();
    let description = "to sit at".to_string();
    let new = NewCategory::new(&name, &description);
    assert_eq!(new.name, "tables");
    assert_eq!(new.description, "to sit at");
}

#[test]
fn localhost_names_are_recognised() {
    for name in ["localhost", "127.0.0.1", "0.0.0.0"] {
        assert!(name.is_localhost());
        assert!(name.to_string().is_localhost());
    }
    for name in ["", "localhost ", "Localhost", "127.0.0.2", "example.org", "0.0.0.0:80"] {
        assert!(!name.is_localhost());
        assert!(!name.to_string().is_localhost());
    }
    assert_eq!(Localhost::as_str(&"example.org"), "example.org");
    assert_eq!(Localhost::as_str(&"example.org".to_string()), "example.org");
}

#[test]
fn plain_records_hold_their_columns() {
    assert_eq!(CONFIG_FILE_PATH, "config.json");
    assert_eq!(DB_CON_RETRY_ATTEMPTS, 3);
    assert_eq!(DEFAULT_PORT, 8080);
    let _handler = RestApiHandler;
    assert_eq!(ResourceIdentifierRequest { id: 4 }.id, 4);
    let brand = Brand { id: 1, name: "oak".to_string(), description: None };
    assert_eq!(brand, Brand { id: 1, name: "oak".to_string(), description: None });
    let new_brand = NewBrand { name: "elm".to_string(), description: Some("wood".to_string()) };
    let copy = new_brand.clone();
    assert_eq!(copy.name, "elm");
    assert_eq!(copy.description, Some("wood".to_string()));
    assert_eq!(CreateBrandRequest { name: "a".to_string(), description: None }.name, "a");
    let update = UpdateBrandRequest { id: 2, name: "b".to_string(), description: "c".to_string() };
    assert_eq!((update.id, update.name.as_str(), update.description.as_str()), (2, "b", "c"));
    assert_eq!(GetProductsForBrandInCategoryRequest { id: 1, category_id: 2 }.category_id, 2);
    assert_eq!(Cart { id: 1, is_active: true }, Cart { id: 1, is_active: true });
    assert_eq!(CreateCategoryRequest { name: "a".to_string(), description: "b".to_string() }.name, "a");
    let category =
        UpdateCategoryRequest { id: 1, name: "a".to_string(), description: "b".to_string() };
    assert_eq!(category.description, "b");
    assert_eq!(GetCategoryRequest { id: 5 }.id, 5);
    assert_eq!(GetProductByCategory { id: 6 }.id, 6);
    assert_eq!(DiscountBrand { discount_id: 1, brand_id: 2 }.brand_id, 2);
    assert_eq!(DiscountCategory { discount_id: 1, category_id: 3 }.category_id, 3);
    assert_eq!(DiscountProduct { discount_id: 1, product_id: 4 }.product_id, 4);
    let line = OrderLine { id: 1, cart_id: 2, product_id: 3, warehouse_id: 4, quantity: 5 };
    assert_eq!(line.clone(), line);
    assert_eq!(Warehouse { id: 1, name: "w".to_string() }.name, "w");
    assert_eq!(NewWarehouse { name: "n".to_string() }.name, "n");
    let stock = StockQuantity { warehouse_id: 1, product_id: 2, quantity: 3 };
    assert_eq!(stock.clone(), stock);
    let claims = Claims { sub: "u".to_string(), role: UserRole::Admin, exp: 10 };
    assert_eq!((claims.sub.as_str(), claims.role, claims.exp), ("u", UserRole::Admin, 10));
    let user = User {
        id: 1,
        username: "u".to_string(),
        password: "p".to_string(),
        role: UserRole::User,
    };
    assert_eq!(user.role, UserRole::User);
    assert_eq!(LoginRequest { username: "u".to_string(), password: "p".to_string() }.password, "p");
    assert_eq!(LoginResponse { token: "t".to_string() }.token, "t");
}

#[test]
fn configuration_records_hold_their_fields() {
    let config = Config {
        environment: "dev".to_string(),
        rest_api: RestApiConfig { host: "API_HOST".to_string(), port: "API_PORT".to_string() },
        redis: RedisConfig {
            redis_url: "REDIS_URL".to_string(),
            redis_port: "REDIS_PORT".to_string(),
            redis_host: "REDIS_HOST".to_string(),
        },
        postgres: PostgresConfig {
            db_url: "DB_URL".to_string(),
            db_secret: "DB_SECRET".to_string(),
            db_password: "DB_PASSWORD".to_string(),
            db_user: "DB_USER".to_string(),
            db_name: "DB_NAME".to_string(),
        },
    };
    assert_eq!(config.redis.redis_url, "REDIS_URL");
    assert_eq!(config.postgres.db_name, "DB_NAME");
    let env = Env {
        api_host: "h".to_string(),
        api_port: "1".to_string(),
        redis_url: "r".to_string(),
        redis_port: "2".to_string(),
        redis_host: "rh".to_string(),
        db_url: "d".to_string(),
        db_secret: "s".to_string(),
        db_password: "p".to_string(),
        db_user: "u".to_string(),
        db_name: "n".to_string(),
    };
    assert_eq!(env.redis_url, "r");
    assert_eq!(env.api_port, "1");
}
