//! The REST API.
pub mod rest;
