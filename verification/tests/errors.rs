use ecom_engine::error::message;
use ecom_engine::error::{
    ConnectionPoolErrorWrapper, DatabaseErrorKind, DatabaseErrorWrapper, ErrorResponse,
    RedisErrorKind, RedisErrorWrapper,
};

fn reply(status: u16, body: &str) -> ErrorResponse {
    ErrorResponse { status, body: body.to_string() }
}

#[test]
fn redis_failures_map_to_their_answers() {
    let cases = [
        (RedisErrorKind::IoError, 500, "Internal Server Error"),
        (RedisErrorKind::ClientError, 500, "Bad Request"),
        (RedisErrorKind::AuthenticationFailed, 401, "Unauthorized"),
        (RedisErrorKind::TypeError, 400, "Bad Request"),
        (RedisErrorKind::ExecAbortError, 500, "Internal Server Error"),
        (RedisErrorKind::BusyLoadingError, 503, "Service Unavailable"),
        (RedisErrorKind::NoScriptError, 500, "Service Unavailable"),
        (RedisErrorKind::Moved, 500, "Internal Server Error"),
        (RedisErrorKind::Ask, 500, "Service Unavailable"),
        (RedisErrorKind::TryAgain, 503, "Service Unavailable"),
        (RedisErrorKind::ClusterDown, 503, "Service Unavailable"),
        (RedisErrorKind::CrossSlot, 400, "Service Unavailable"),
        (RedisErrorKind::MasterDown, 503, "Service Unavailable"),
        (RedisErrorKind::ReadOnly, 503, "Internal Server Error"),
        (RedisErrorKind::ExtensionError, 500, "Internal Server Error"),
        (RedisErrorKind::ResponseError, 500, "Internal Server Error"),
        (RedisErrorKind::ParseError, 500, "Internal Server Error"),
        (RedisErrorKind::InvalidClientConfig, 500, "Internal Server Error"),
        (RedisErrorKind::MasterNameNotFoundBySentinel, 500, "Internal Server Error"),
        (RedisErrorKind::NoValidReplicasFoundBySentinel, 500, "Internal Server Error"),
        (RedisErrorKind::EmptySentinelList, 500, "Internal Server Error"),
        (RedisErrorKind::NotBusy, 500, "Internal Server Error"),
        (RedisErrorKind::ClusterConnectionNotFound, 500, "Internal Server Error"),
        (RedisErrorKind::Other, 500, "Internal Server Error"),
    ];
    for (kind, status, body) in cases {
        let failure = RedisErrorWrapper(kind);
        assert_eq!(failure.error_response(), reply(status, body));
        assert_eq!(failure.status_code(), status);
    }
}

#[test]
fn database_failures_map_to_their_answers() {
    let cases = [
        (DatabaseErrorKind::NotFound, 404, "Not Found", 404),
        (DatabaseErrorKind::UniqueViolation, 409, "Unique Violation", 500),
        (DatabaseErrorKind::ForeignKeyViolation, 400, "Foreign Key Violation", 500),
        (DatabaseErrorKind::Database, 500, "Internal Server Error", 500),
        (
            DatabaseErrorKind::Serialization("bad date".to_string()),
            500,
            "Serialization Error: bad date",
            500,
        ),
        (
            DatabaseErrorKind::QueryBuilder("no changes".to_string()),
            400,
            "Query Builder Error: no changes",
            400,
        ),
        (DatabaseErrorKind::Other, 500, "Internal Server Error", 500),
    ];
    for (kind, status, body, code) in cases {
        let failure = DatabaseErrorWrapper(kind);
        assert_eq!(failure.error_response(), reply(status, body));
        assert_eq!(failure.status_code(), code);
    }
}

#[test]
fn pool_failure_is_an_internal_error() {
    let failure = ConnectionPoolErrorWrapper;
    assert_eq!(failure.error_response(), reply(500, "Connection Pool Error"));
    assert_eq!(failure.status_code(), 500);
}

#[test]
fn message_texts() {
    assert_eq!(message::INTERNAL_SERVER_ERROR, "Internal Server Error");
    assert_eq!(message::SERVICE_UNAVAILABLE, "Service Unavailable");
    assert_eq!(message::UNPROCESSABLE_ENTITY, "Unprocessable Entity");
    assert_eq!(message::FORBIDDEN, "Forbidden");
    assert_eq!(message::TIME_OUT, "Connection Timed Out");
    assert_eq!(message::DATABASE_ERROR, "Database Error");
    assert_eq!(message::CONNECTION_ERROR, "Connection Error");
    assert_eq!(message::REDIS_TYPE_ERROR, message::BAD_REQUEST);
    assert_eq!(message::REDIS_AUTHENTICATION_FAILED, message::UNAUTHORIZED);
}
