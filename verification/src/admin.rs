//! Payload shapes of the admin credential class.
//!
//! Admins and end users do not share storage, but their registration and
//! login logic is identical: both are instances of
//! `crate::auth::CredentialStore`.

use vstd::prelude::*;

verus! {

/// The acknowledgement message returned by the admin registration endpoint.
pub struct RegisterResponse {
    pub message: String,
}

/// An admin registration payload.
pub struct RegisterRequest {
    pub username: String,
    pub password: String,
    pub email: String,
}

/// An admin login payload.
pub struct LoginRequest {
    pub username: String,
    pub password: String,
}

} // verus!
