[package]
name = "ecom_engine"
version = "0.1.0"
edition = "2021"
publish = false

[dependencies]
actix-cors = "=0.7.2"
actix-web = "=4.18.1"
diesel = { version = "=2.3.14", features = ["postgres"] }
dotenv = "=0.15.0"
env_logger = "=0.11.11"
log = "=0.4.34"
redis = { version = "=0.27.6", features = ["tokio-comp"] }
serde = { version = "=1.0.229", features = ["derive"] }
serde_json = "=1.0.154"
serde_yaml = "0.9"
thiserror = "1"
tokio = { version = "=1.54.1", features = ["macros", "rt-multi-thread", "sync", "time"] }
