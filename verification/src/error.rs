//! Failures of the stores, and the HTTP answers that report them.
use vstd::prelude::*;

pub mod message;

verus! {

/// An HTTP answer that reports a failure.
#[derive(Debug, PartialEq)]
pub struct ErrorResponse {
    /// The status code.
    pub status: u16,
    /// The text of the body.
    pub body: String,
}

/// The kinds of failure that the queue store's client tells apart.
#[derive(Debug, PartialEq, Eq, Structural)]
pub enum RedisErrorKind {
    /// The connection failed.
    IoError,
    /// The client was used wrongly.
    ClientError,
    /// The store refused the credentials.
    AuthenticationFailed,
    /// A value was not of the type asked for.
    TypeError,
    /// A transaction was aborted.
    ExecAbortError,
    /// The store is loading its data.
    BusyLoadingError,
    /// A script is not known to the store.
    NoScriptError,
    /// The key has moved to another node.
    Moved,
    /// The key is being moved to another node.
    Ask,
    /// The request may be tried again.
    TryAgain,
    /// The cluster is down.
    ClusterDown,
    /// The keys of a request lie in several slots.
    CrossSlot,
    /// The master is down.
    MasterDown,
    /// The node takes no writes.
    ReadOnly,
    /// An error of a kind that the client does not know.
    ExtensionError,
    /// The store answered with an error.
    ResponseError,
    /// The answer could not be read.
    ParseError,
    /// The client is configured wrongly.
    InvalidClientConfig,
    /// No sentinel knows the master's name.
    MasterNameNotFoundBySentinel,
    /// No sentinel knows a usable replica.
    NoValidReplicasFoundBySentinel,
    /// No sentinel is configured.
    EmptySentinelList,
    /// There was nothing to interrupt.
    NotBusy,
    /// No connection to the node in charge.
    ClusterConnectionNotFound,
    /// Any other failure.
    Other,
}

impl Clone for RedisErrorKind {
    fn clone(&self) -> (copy: Self)
        ensures
            copy == *self,
    {
        match self {
            RedisErrorKind::IoError => RedisErrorKind::IoError,
            RedisErrorKind::ClientError => RedisErrorKind::ClientError,
            RedisErrorKind::AuthenticationFailed => RedisErrorKind::AuthenticationFailed,
            RedisErrorKind::TypeError => RedisErrorKind::TypeError,
            RedisErrorKind::ExecAbortError => RedisErrorKind::ExecAbortError,
            RedisErrorKind::BusyLoadingError => RedisErrorKind::BusyLoadingError,
            RedisErrorKind::NoScriptError => RedisErrorKind::NoScriptError,
            RedisErrorKind::Moved => RedisErrorKind::Moved,
            RedisErrorKind::Ask => RedisErrorKind::Ask,
            RedisErrorKind::TryAgain => RedisErrorKind::TryAgain,
            RedisErrorKind::ClusterDown => RedisErrorKind::ClusterDown,
            RedisErrorKind::CrossSlot => RedisErrorKind::CrossSlot,
            RedisErrorKind::MasterDown => RedisErrorKind::MasterDown,
            RedisErrorKind::ReadOnly => RedisErrorKind::ReadOnly,
            RedisErrorKind::ExtensionError => RedisErrorKind::ExtensionError,
            RedisErrorKind::ResponseError => RedisErrorKind::ResponseError,
            RedisErrorKind::ParseError => RedisErrorKind::ParseError,
            RedisErrorKind::InvalidClientConfig => RedisErrorKind::InvalidClientConfig,
            RedisErrorKind::MasterNameNotFoundBySentinel => RedisErrorKind::MasterNameNotFoundBySentinel,
            RedisErrorKind::NoValidReplicasFoundBySentinel => RedisErrorKind::NoValidReplicasFoundBySentinel,
            RedisErrorKind::EmptySentinelList => RedisErrorKind::EmptySentinelList,
            RedisErrorKind::NotBusy => RedisErrorKind::NotBusy,
            RedisErrorKind::ClusterConnectionNotFound => RedisErrorKind::ClusterConnectionNotFound,
            RedisErrorKind::Other => RedisErrorKind::Other,
        }
    }
}

impl Copy for RedisErrorKind {

}

/// A failure of the queue store.
#[derive(Debug, Clone, Copy, PartialEq, Eq, Structural)]
pub struct RedisErrorWrapper(pub RedisErrorKind);

impl RedisErrorWrapper {
    /// The status code of the answer that reports a failure of this kind.
    pub open spec fn response_status(kind: RedisErrorKind) -> u16 {
        match kind {
            RedisErrorKind::IoError => 500,
            RedisErrorKind::ClientError => 500,
            RedisErrorKind::AuthenticationFailed => 401,
            RedisErrorKind::TypeError => 400,
            RedisErrorKind::ExecAbortError => 500,
            RedisErrorKind::BusyLoadingError => 503,
            RedisErrorKind::NoScriptError => 500,
            RedisErrorKind::Moved => 500,
            RedisErrorKind::Ask => 500,
            RedisErrorKind::TryAgain => 503,
            RedisErrorKind::ClusterDown => 503,
            RedisErrorKind::CrossSlot => 400,
            RedisErrorKind::MasterDown => 503,
            RedisErrorKind::ReadOnly => 503,
            RedisErrorKind::ExtensionError => 500,
            RedisErrorKind::ResponseError => 500,
            RedisErrorKind::ParseError => 500,
            RedisErrorKind::InvalidClientConfig => 500,
            RedisErrorKind::MasterNameNotFoundBySentinel => 500,
            RedisErrorKind::NoValidReplicasFoundBySentinel => 500,
            RedisErrorKind::EmptySentinelList => 500,
            RedisErrorKind::NotBusy => 500,
            RedisErrorKind::ClusterConnectionNotFound => 500,
            RedisErrorKind::Other => 500,
        }
    }

    /// The body of the answer that reports a failure of this kind.
    pub open spec fn response_body(kind: RedisErrorKind) -> Seq<char> {
        match kind {
            RedisErrorKind::IoError => message::REDIS_IO_ERROR@,
            RedisErrorKind::ClientError => message::REDIS_CLIENT_ERROR@,
            RedisErrorKind::AuthenticationFailed => message::REDIS_AUTHENTICATION_FAILED@,
            RedisErrorKind::TypeError => message::REDIS_TYPE_ERROR@,
            RedisErrorKind::ExecAbortError => message::REDIS_EXEC_ABORT_ERROR@,
            RedisErrorKind::BusyLoadingError => message::REDIS_BUSY_LOADING_ERROR@,
            RedisErrorKind::NoScriptError => message::REDIS_NO_SCRIPT_ERROR@,
            RedisErrorKind::Moved => message::REDIS_MOVED_ERROR@,
            RedisErrorKind::Ask => message::REDIS_ASK_ERROR@,
            RedisErrorKind::TryAgain => message::REDIS_TRY_AGAIN@,
            RedisErrorKind::ClusterDown => message::REDIS_CLUSTER_DOWN@,
            RedisErrorKind::CrossSlot => message::REDIS_CROSS_SLOT_ERROR@,
            RedisErrorKind::MasterDown => message::REDIS_MASTER_DOWN@,
            RedisErrorKind::ReadOnly => message::REDIS_READ_ONLY_ERROR@,
            RedisErrorKind::ExtensionError => message::REDIS_EXTENSION_ERROR@,
            RedisErrorKind::ResponseError => message::REDIS_RESPONSE_ERROR@,
            RedisErrorKind::ParseError => message::REDIS_PARSE_ERROR@,
            RedisErrorKind::InvalidClientConfig => message::REDIS_INVALID_CLIENT_CONFIG@,
            RedisErrorKind::MasterNameNotFoundBySentinel => message::REDIS_MASTER_NAME_NOT_FOUND@,
            RedisErrorKind::NoValidReplicasFoundBySentinel => message::REDIS_NO_VALID_REPLICAS@,
            RedisErrorKind::EmptySentinelList => message::REDIS_EMPTY_SENTINEL_LIST@,
            RedisErrorKind::NotBusy => message::REDIS_NOT_BUSY@,
            RedisErrorKind::ClusterConnectionNotFound => message::REDIS_CLUSTER_CONNECTION_NOT_FOUND@,
            RedisErrorKind::Other => message::INTERNAL_SERVER_ERROR@,
        }
    }

    /// The status code that stands for a failure of this kind.
    pub open spec fn status_of(kind: RedisErrorKind) -> u16 {
        match kind {
            RedisErrorKind::IoError => 500,
            RedisErrorKind::ClientError => 500,
            RedisErrorKind::AuthenticationFailed => 401,
            RedisErrorKind::TypeError => 400,
            RedisErrorKind::ExecAbortError => 500,
            RedisErrorKind::BusyLoadingError => 503,
            RedisErrorKind::NoScriptError => 500,
            RedisErrorKind::Moved => 500,
            RedisErrorKind::Ask => 500,
            RedisErrorKind::TryAgain => 503,
            RedisErrorKind::ClusterDown => 503,
            RedisErrorKind::CrossSlot => 400,
            RedisErrorKind::MasterDown => 503,
            RedisErrorKind::ReadOnly => 503,
            RedisErrorKind::ExtensionError => 500,
            RedisErrorKind::ResponseError => 500,
            RedisErrorKind::ParseError => 500,
            RedisErrorKind::InvalidClientConfig => 500,
            RedisErrorKind::MasterNameNotFoundBySentinel => 500,
            RedisErrorKind::NoValidReplicasFoundBySentinel => 500,
            RedisErrorKind::EmptySentinelList => 500,
            RedisErrorKind::NotBusy => 500,
            RedisErrorKind::ClusterConnectionNotFound => 500,
            RedisErrorKind::Other => 500,
        }
    }

    /// The answer that reports the failure.
    pub fn error_response(&self) -> (response: ErrorResponse)
        ensures
            response.status == Self::response_status(self.0),
            response.body@ == Self::response_body(self.0),
    {
        match self.0 {
            RedisErrorKind::IoError => ErrorResponse { status: 500, body: String::from_str(message::REDIS_IO_ERROR) },
            RedisErrorKind::ClientError => ErrorResponse { status: 500, body: String::from_str(message::REDIS_CLIENT_ERROR) },
            RedisErrorKind::AuthenticationFailed => ErrorResponse { status: 401, body: String::from_str(message::REDIS_AUTHENTICATION_FAILED) },
            RedisErrorKind::TypeError => ErrorResponse { status: 400, body: String::from_str(message::REDIS_TYPE_ERROR) },
            RedisErrorKind::ExecAbortError => ErrorResponse { status: 500, body: String::from_str(message::REDIS_EXEC_ABORT_ERROR) },
            RedisErrorKind::BusyLoadingError => ErrorResponse { status: 503, body: String::from_str(message::REDIS_BUSY_LOADING_ERROR) },
            RedisErrorKind::NoScriptError => ErrorResponse { status: 500, body: String::from_str(message::REDIS_NO_SCRIPT_ERROR) },
            RedisErrorKind::Moved => ErrorResponse { status: 500, body: String::from_str(message::REDIS_MOVED_ERROR) },
            RedisErrorKind::Ask => ErrorResponse { status: 500, body: String::from_str(message::REDIS_ASK_ERROR) },
            RedisErrorKind::TryAgain => ErrorResponse { status: 503, body: String::from_str(message::REDIS_TRY_AGAIN) },
            RedisErrorKind::ClusterDown => ErrorResponse { status: 503, body: String::from_str(message::REDIS_CLUSTER_DOWN) },
            RedisErrorKind::CrossSlot => ErrorResponse { status: 400, body: String::from_str(message::REDIS_CROSS_SLOT_ERROR) },
            RedisErrorKind::MasterDown => ErrorResponse { status: 503, body: String::from_str(message::REDIS_MASTER_DOWN) },
            RedisErrorKind::ReadOnly => ErrorResponse { status: 503, body: String::from_str(message::REDIS_READ_ONLY_ERROR) },
            RedisErrorKind::ExtensionError => ErrorResponse { status: 500, body: String::from_str(message::REDIS_EXTENSION_ERROR) },
            RedisErrorKind::ResponseError => ErrorResponse { status: 500, body: String::from_str(message::REDIS_RESPONSE_ERROR) },
            RedisErrorKind::ParseError => ErrorResponse { status: 500, body: String::from_str(message::REDIS_PARSE_ERROR) },
            RedisErrorKind::InvalidClientConfig => ErrorResponse { status: 500, body: String::from_str(message::REDIS_INVALID_CLIENT_CONFIG) },
            RedisErrorKind::MasterNameNotFoundBySentinel => ErrorResponse { status: 500, body: String::from_str(message::REDIS_MASTER_NAME_NOT_FOUND) },
            RedisErrorKind::NoValidReplicasFoundBySentinel => ErrorResponse { status: 500, body: String::from_str(message::REDIS_NO_VALID_REPLICAS) },
            RedisErrorKind::EmptySentinelList => ErrorResponse { status: 500, body: String::from_str(message::REDIS_EMPTY_SENTINEL_LIST) },
            RedisErrorKind::NotBusy => ErrorResponse { status: 500, body: String::from_str(message::REDIS_NOT_BUSY) },
            RedisErrorKind::ClusterConnectionNotFound => ErrorResponse { status: 500, body: String::from_str(message::REDIS_CLUSTER_CONNECTION_NOT_FOUND) },
            RedisErrorKind::Other => ErrorResponse { status: 500, body: String::from_str(message::INTERNAL_SERVER_ERROR) },
        }
    }

    /// The status code that stands for the failure.
    pub fn status_code(&self) -> (status: u16)
        ensures
            status == Self::status_of(self.0),
    {
        match self.0 {
            RedisErrorKind::IoError => 500,
            RedisErrorKind::ClientError => 500,
            RedisErrorKind::AuthenticationFailed => 401,
            RedisErrorKind::TypeError => 400,
            RedisErrorKind::ExecAbortError => 500,
            RedisErrorKind::BusyLoadingError => 503,
            RedisErrorKind::NoScriptError => 500,
            RedisErrorKind::Moved => 500,
            RedisErrorKind::Ask => 500,
            RedisErrorKind::TryAgain => 503,
            RedisErrorKind::ClusterDown => 503,
            RedisErrorKind::CrossSlot => 400,
            RedisErrorKind::MasterDown => 503,
            RedisErrorKind::ReadOnly => 503,
            RedisErrorKind::ExtensionError => 500,
            RedisErrorKind::ResponseError => 500,
            RedisErrorKind::ParseError => 500,
            RedisErrorKind::InvalidClientConfig => 500,
            RedisErrorKind::MasterNameNotFoundBySentinel => 500,
            RedisErrorKind::NoValidReplicasFoundBySentinel => 500,
            RedisErrorKind::EmptySentinelList => 500,
            RedisErrorKind::NotBusy => 500,
            RedisErrorKind::ClusterConnectionNotFound => 500,
            RedisErrorKind::Other => 500,
        }
    }
}

/// The kinds of failure that the database's client tells apart.
#[derive(Debug, PartialEq)]
pub enum DatabaseErrorKind {
    /// No row was found.
    NotFound,
    /// A unique constraint was violated.
    UniqueViolation,
    /// A foreign key constraint was violated.
    ForeignKeyViolation,
    /// The database reported any other failure.
    Database,
    /// A value could not be written for the database; the text says why.
    Serialization(String),
    /// A query could not be built; the text says why.
    QueryBuilder(String),
    /// Any other failure.
    Other,
}

/// A failure of the database.
#[derive(Debug, PartialEq)]
pub struct DatabaseErrorWrapper(pub DatabaseErrorKind);

impl DatabaseErrorWrapper {
    /// The status code of the answer that reports a failure of this kind.
    pub open spec fn response_status(kind: DatabaseErrorKind) -> u16 {
        match kind {
            DatabaseErrorKind::NotFound => 404,
            DatabaseErrorKind::UniqueViolation => 409,
            DatabaseErrorKind::ForeignKeyViolation => 400,
            DatabaseErrorKind::Database => 500,
            DatabaseErrorKind::Serialization(_) => 500,
            DatabaseErrorKind::QueryBuilder(_) => 400,
            DatabaseErrorKind::Other => 500,
        }
    }

    /// The body of the answer that reports a failure of this kind.
    pub open spec fn response_body(kind: DatabaseErrorKind) -> Seq<char> {
        match kind {
            DatabaseErrorKind::NotFound => message::NOT_FOUND@,
            DatabaseErrorKind::UniqueViolation => message::UNIQUE_VIOLATION@,
            DatabaseErrorKind::ForeignKeyViolation => message::FOREIGN_KEY_VIOLATION@,
            DatabaseErrorKind::Database => message::INTERNAL_SERVER_ERROR@,
            DatabaseErrorKind::Serialization(reason) => message::SERIALIZATION_ERROR@ + ": "@
                + reason@,
            DatabaseErrorKind::QueryBuilder(reason) => message::QUERY_BUILDER_ERROR@ + ": "@
                + reason@,
            DatabaseErrorKind::Other => message::INTERNAL_SERVER_ERROR@,
        }
    }

    /// The status code that stands for a failure of this kind.
    pub open spec fn status_of(kind: DatabaseErrorKind) -> u16 {
        match kind {
            DatabaseErrorKind::NotFound => 404,
            DatabaseErrorKind::QueryBuilder(_) => 400,
            _ => 500,
        }
    }

    /// The answer that reports the failure.
    pub fn error_response(&self) -> (response: ErrorResponse)
        ensures
            response.status == Self::response_status(self.0),
            response.body@ == Self::response_body(self.0),
    {
        match &self.0 {
            DatabaseErrorKind::NotFound => ErrorResponse {
                status: 404,
                body: String::from_str(message::NOT_FOUND),
            },
            DatabaseErrorKind::UniqueViolation => ErrorResponse {
                status: 409,
                body: String::from_str(message::UNIQUE_VIOLATION),
            },
            DatabaseErrorKind::ForeignKeyViolation => ErrorResponse {
                status: 400,
                body: String::from_str(message::FOREIGN_KEY_VIOLATION),
            },
            DatabaseErrorKind::Database => ErrorResponse {
                status: 500,
                body: String::from_str(message::INTERNAL_SERVER_ERROR),
            },
            DatabaseErrorKind::Serialization(reason) => {
                let mut body = String::from_str(message::SERIALIZATION_ERROR);
                body.append(": ");
                body.append(reason.as_str());
                ErrorResponse { status: 500, body }
            },
            DatabaseErrorKind::QueryBuilder(reason) => {
                let mut body = String::from_str(message::QUERY_BUILDER_ERROR);
                body.append(": ");
                body.append(reason.as_str());
                ErrorResponse { status: 400, body }
            },
            DatabaseErrorKind::Other => ErrorResponse {
                status: 500,
                body: String::from_str(message::INTERNAL_SERVER_ERROR),
            },
        }
    }

    /// The status code that stands for the failure.
    pub fn status_code(&self) -> (status: u16)
        ensures
            status == Self::status_of(self.0),
    {
        match &self.0 {
            DatabaseErrorKind::NotFound => 404,
            DatabaseErrorKind::QueryBuilder(_) => 400,
            _ => 500,
        }
    }
}

/// A failure to get a connection from the pool.
#[derive(Debug, Clone, Copy, PartialEq, Eq, Structural)]
pub struct ConnectionPoolErrorWrapper;

impl ConnectionPoolErrorWrapper {
    /// The answer that reports the failure.
    pub fn error_response(&self) -> (response: ErrorResponse)
        ensures
            response.status == 500,
            response.body@ == message::CONNECTION_POOL_ERROR@,
    {
        ErrorResponse { status: 500, body: String::from_str(message::CONNECTION_POOL_ERROR) }
    }

    /// The status code that stands for the failure.
    pub fn status_code(&self) -> (status: u16)
        ensures
            status == 500,
    {
        500
    }
}

} // verus!
