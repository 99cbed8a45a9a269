//! Static shape validation of registration payloads.
//!
//! Validation runs before any store access: the chosen identifier and the
//! secret must lie within fixed character-count bounds, and the email must
//! match the accepted address grammar. The first violated rule is reported.

use vstd::prelude::*;
use vstd::string::StrSliceExecFns;

use crate::errors::ValidationRule;

verus! {

/// Fewest characters allowed in the chosen identifier.
pub const USERNAME_MIN_LEN: usize = 4;

/// Most characters allowed in the chosen identifier.
pub const USERNAME_MAX_LEN: usize = 16;

/// Fewest characters allowed in the secret.
pub const PASSWORD_MIN_LEN: usize = 8;

/// Most characters allowed in the secret.
pub const PASSWORD_MAX_LEN: usize = 16;

/// What the validator crate's email check returns for a string: whether it
/// is an email address under the HTML5 grammar. A function of the
/// characters alone.
pub uninterp spec fn email_ok(s: Seq<char>) -> bool;

/// Relies on validator's ValidateEmail for &str, which decides the HTML5
/// email grammar deterministically from the string.
#[verifier::external_body]
fn check_email(s: &str) -> (r: bool)
    ensures
        r == email_ok(s@),
{
    validator::ValidateEmail::validate_email(&s)
}

/// The first static shape rule a registration payload violates, if any:
/// identifier length, then secret length, then email grammar. Lengths
/// count characters, not bytes.
pub open spec fn spec_validate(
    username: Seq<char>,
    password: Seq<char>,
    email: Seq<char>,
) -> Option<ValidationRule> {
    if username.len() < USERNAME_MIN_LEN || username.len() > USERNAME_MAX_LEN {
        Some(ValidationRule::UsernameLength)
    } else if password.len() < PASSWORD_MIN_LEN || password.len() > PASSWORD_MAX_LEN {
        Some(ValidationRule::PasswordLength)
    } else if !email_ok(email) {
        Some(ValidationRule::EmailFormat)
    } else {
        None
    }
}

/// Check a registration payload against the static shape rules and report
/// the first violated rule; `None` means the payload is acceptable.
pub fn validate_registration(username: &str, password: &str, email: &str) -> (r: Option<
    ValidationRule,
>)
    ensures
        r == spec_validate(username@, password@, email@),
{
    let ulen = username.unicode_len();
    if ulen < USERNAME_MIN_LEN || ulen > USERNAME_MAX_LEN {
        return Some(ValidationRule::UsernameLength);
    }
    let plen = password.unicode_len();
    if plen < PASSWORD_MIN_LEN || plen > PASSWORD_MAX_LEN {
        return Some(ValidationRule::PasswordLength);
    }
    if !check_email(email) {
        return Some(ValidationRule::EmailFormat);
    }
    None
}

} // verus!
