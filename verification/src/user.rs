//! Payload and record shapes of the end-user credential class.

use vstd::prelude::*;

verus! {

/// The acknowledgement message returned by the registration endpoint.
pub struct UserResponse {
    pub message: String,
}

/// A registration payload: chosen identifier, secret, and email address.
pub struct RegisterRequest {
    pub username: String,
    pub password: String,
    pub email: String,
}

/// A login payload: identifier and secret.
pub struct LoginRequest {
    pub username: String,
    pub password: String,
}

/// A persisted credential record. The password field always holds a one-way
/// salted hash of the secret, never the plaintext.
pub struct UserSql {
    pub id: i32,
    pub username: String,
    pub password: String,
    pub email: String,
}

} // verus!
