//! The uniform error taxonomy of the service.
//!
//! Every operation converts its failure at the single store round-trip into
//! one of these kinds; none are retried and none cross a component boundary
//! in a richer form.

use vstd::prelude::*;

verus! {

/// The specific static shape rule that a registration payload violated.
#[derive(Clone, Copy, Debug, PartialEq, Eq, Structural)]
pub enum ValidationRule {
    /// The chosen identifier is shorter or longer than the allowed bounds.
    UsernameLength,
    /// The secret is shorter or longer than the allowed bounds.
    PasswordLength,
    /// The email address does not match the accepted grammar.
    EmailFormat,
}

/// The four client-visible failure kinds, plus the degraded outcome of a
/// hashing-primitive fault during registration.
#[derive(Clone, Copy, Debug, PartialEq, Eq, Structural)]
pub enum ApiError {
    /// A payload violated a static shape rule; detected before any store
    /// access and always recoverable by resubmitting corrected input.
    ValidationError(ValidationRule),
    /// The operation targeted an identifier absent from the store.
    NotFound,
    /// The credential identifier exists but secret verification failed.
    Unauthorized,
    /// The backing store could not be reached or returned an unexpected
    /// result (including opaque uniqueness violations).
    StoreUnavailable,
    /// The hashing primitive failed; registration degrades to this error
    /// instead of terminating the process.
    HashingError,
}

impl ApiError {
    /// The transport status the routing layer maps this failure to: a
    /// violated shape rule is the caller's mistake, an absent identifier is
    /// a missing resource, a failed verification is a refusal, and every
    /// server-side fault is an internal error.
    pub fn status_code(&self) -> (r: u16)
        ensures
            r == match self {
                ApiError::ValidationError(_) => 400u16,
                ApiError::NotFound => 404u16,
                ApiError::Unauthorized => 401u16,
                ApiError::StoreUnavailable => 500u16,
                ApiError::HashingError => 500u16,
            },
    {
        match self {
            ApiError::ValidationError(_) => 400,
            ApiError::NotFound => 404,
            ApiError::Unauthorized => 401,
            ApiError::StoreUnavailable => 500,
            ApiError::HashingError => 500,
        }
    }

    /// Whether this failure is logged server-side as a fault. Expected
    /// client outcomes — a violated shape rule, an absent identifier, a
    /// failed verification — are frequent and never logged as faults; a
    /// store or hashing fault always is.
    pub fn is_fault(&self) -> (r: bool)
        ensures
            r == match self {
                ApiError::ValidationError(_) => false,
                ApiError::NotFound => false,
                ApiError::Unauthorized => false,
                ApiError::StoreUnavailable => true,
                ApiError::HashingError => true,
            },
    {
        match self {
            ApiError::StoreUnavailable => true,
            ApiError::HashingError => true,
            _ => false,
        }
    }
}

} // verus!
