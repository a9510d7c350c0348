//! Settings of the REST API.
use vstd::prelude::*;

verus! {

/// How often a connection pool is asked for before the program gives up.
pub const DB_CON_RETRY_ATTEMPTS: u8 = 3;

/// The port on which the API listens where none is configured.
pub const DEFAULT_PORT: u16 = 8080;

/// Marks the handlers of the REST API.
#[derive(Debug, Clone, Copy)]
pub struct RestApiHandler;

} // verus!
