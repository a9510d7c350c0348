//! The configuration file and the environment it points into.
use vstd::prelude::*;

verus! {

/// Where the REST API listens, as names of environment variables.
#[derive(Debug)]
pub struct RestApiConfig {
    pub host: String,
    pub port: String,
}

/// How the queue store is reached, as names of environment variables.
#[derive(Debug)]
pub struct RedisConfig {
    pub redis_url: String,
    pub redis_port: String,
    pub redis_host: String,
}

/// How the database is reached, as names of environment variables.
#[derive(Debug)]
pub struct PostgresConfig {
    pub db_url: String,
    pub db_secret: String,
    pub db_password: String,
    pub db_user: String,
    pub db_name: String,
}

/// The configuration file.
#[derive(Debug)]
pub struct Config {
    pub environment: String,
    pub rest_api: RestApiConfig,
    pub redis: RedisConfig,
    pub postgres: PostgresConfig,
}

/// The values that the environment holds under the names of a `Config`.
#[derive(Debug)]
pub struct Env {
    pub api_host: String,
    pub api_port: String,
    pub redis_url: String,
    pub redis_port: String,
    pub redis_host: String,
    pub db_url: String,
    pub db_secret: String,
    pub db_password: String,
    pub db_user: String,
    pub db_name: String,
}

} // verus!
