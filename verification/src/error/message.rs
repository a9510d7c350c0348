//! The texts of the answers that report a failure.
use vstd::prelude::*;

verus! {

pub const INTERNAL_SERVER_ERROR: &'static str = "Internal Server Error";

pub const SERVICE_UNAVAILABLE: &'static str = "Service Unavailable";

pub const UNPROCESSABLE_ENTITY: &'static str = "Unprocessable Entity";

pub const FORBIDDEN: &'static str = "Forbidden";

pub const UNAUTHORIZED: &'static str = "Unauthorized";

pub const BAD_REQUEST: &'static str = "Bad Request";

pub const TIME_OUT: &'static str = "Connection Timed Out";

pub const NOT_FOUND: &'static str = "Not Found";

pub const UNIQUE_VIOLATION: &'static str = "Unique Violation";

pub const FOREIGN_KEY_VIOLATION: &'static str = "Foreign Key Violation";

pub const DATABASE_ERROR: &'static str = "Database Error";

pub const SERIALIZATION_ERROR: &'static str = "Serialization Error";

pub const QUERY_BUILDER_ERROR: &'static str = "Query Builder Error";

pub const CONNECTION_POOL_ERROR: &'static str = "Connection Pool Error";

pub const CONNECTION_ERROR: &'static str = "Connection Error";

pub const REDIS_IO_ERROR: &'static str = INTERNAL_SERVER_ERROR;

pub const REDIS_CLIENT_ERROR: &'static str = BAD_REQUEST;

pub const REDIS_AUTHENTICATION_FAILED: &'static str = UNAUTHORIZED;

pub const REDIS_TYPE_ERROR: &'static str = BAD_REQUEST;

pub const REDIS_EXEC_ABORT_ERROR: &'static str = INTERNAL_SERVER_ERROR;

pub const REDIS_BUSY_LOADING_ERROR: &'static str = SERVICE_UNAVAILABLE;

pub const REDIS_NO_SCRIPT_ERROR: &'static str = SERVICE_UNAVAILABLE;

pub const REDIS_MOVED_ERROR: &'static str = INTERNAL_SERVER_ERROR;

pub const REDIS_ASK_ERROR: &'static str = SERVICE_UNAVAILABLE;

pub const REDIS_TRY_AGAIN: &'static str = SERVICE_UNAVAILABLE;

pub const REDIS_CLUSTER_DOWN: &'static str = SERVICE_UNAVAILABLE;

pub const REDIS_CROSS_SLOT_ERROR: &'static str = SERVICE_UNAVAILABLE;

pub const REDIS_MASTER_DOWN: &'static str = SERVICE_UNAVAILABLE;

pub const REDIS_READ_ONLY_ERROR: &'static str = INTERNAL_SERVER_ERROR;

pub const REDIS_EXTENSION_ERROR: &'static str = INTERNAL_SERVER_ERROR;

pub const REDIS_RESPONSE_ERROR: &'static str = INTERNAL_SERVER_ERROR;

pub const REDIS_PARSE_ERROR: &'static str = INTERNAL_SERVER_ERROR;

pub const REDIS_INVALID_CLIENT_CONFIG: &'static str = INTERNAL_SERVER_ERROR;

pub const REDIS_MASTER_NAME_NOT_FOUND: &'static str = INTERNAL_SERVER_ERROR;

pub const REDIS_NO_VALID_REPLICAS: &'static str = INTERNAL_SERVER_ERROR;

pub const REDIS_EMPTY_SENTINEL_LIST: &'static str = INTERNAL_SERVER_ERROR;

pub const REDIS_NOT_BUSY: &'static str = INTERNAL_SERVER_ERROR;

pub const REDIS_CLUSTER_CONNECTION_NOT_FOUND: &'static str = INTERNAL_SERVER_ERROR;

} // verus!
