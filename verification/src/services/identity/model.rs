//! Users, and the claims that a token makes for them.
use vstd::prelude::*;

verus! {

/// What a user may do.
#[derive(Debug, Clone, Copy, PartialEq, Eq, Structural)]
pub enum UserRole {
    Admin,
    User,
}

/// The claims of a token.
#[derive(Debug)]
pub struct Claims {
    /// The user that the token was issued to.
    pub sub: String,
    pub role: UserRole,
    /// When the token expires, in seconds since the epoch.
    pub exp: usize,
}

/// A user.
#[derive(Debug)]
pub struct User {
    pub id: i32,
    pub username: String,
    pub password: String,
    pub role: UserRole,
}

/// Request to log in.
pub struct LoginRequest {
    pub username: String,
    pub password: String,
}

/// Answer to a successful log-in.
pub struct LoginResponse {
    pub token: String,
}

} // verus!
