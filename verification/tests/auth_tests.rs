use tourism_catalog::auth::login_check;
use tourism_catalog::auth::CredentialStore;
use tourism_catalog::errors::ApiError;
use tourism_catalog::errors::ValidationRule;
use tourism_catalog::user::UserSql;
use tourism_catalog::validate::validate_registration;

#[test]
fn register_then_login_round_trip() {
    let mut store = CredentialStore::new();
    assert_eq!(store.register("alice", "password1", "alice@example.com"), Ok(()));
    assert_eq!(store.login("alice", "password1"), Ok(()));
    assert_eq!(
        store.login("alice", "wrongpass"),
        Err(ApiError::Unauthorized)
    );
}

#[test]
fn login_unknown_identifier_is_not_found_never_unauthorized() {
    let mut store = CredentialStore::new();
    assert_eq!(store.register("alice", "password1", "alice@example.com"), Ok(()));
    assert_eq!(store.login("bob", "password1"), Err(ApiError::NotFound));
}

#[test]
fn register_short_secret_fails_validation_and_writes_nothing() {
    let mut store = CredentialStore::new();
    // one character under the minimum secret length of eight
    let outcome = store.register("alice", "pass123", "alice@example.com");
    assert_eq!(
        outcome,
        Err(ApiError::ValidationError(ValidationRule::PasswordLength))
    );
    // no store write happened: the identifier is absent afterwards
    assert_eq!(store.login("alice", "pass123"), Err(ApiError::NotFound));
}

#[test]
fn register_duplicate_identifier_is_store_unavailable() {
    let mut store = CredentialStore::new();
    assert_eq!(store.register("alice", "password1", "alice@example.com"), Ok(()));
    assert_eq!(
        store.register("alice", "different9", "other@example.com"),
        Err(ApiError::StoreUnavailable)
    );
    // the first credential still wins
    assert_eq!(store.login("alice", "password1"), Ok(()));
}

#[test]
fn admins_and_users_are_independent_instances() {
    let mut users = CredentialStore::new();
    let mut admins = CredentialStore::new();
    assert_eq!(users.register("alice", "password1", "alice@example.com"), Ok(()));
    assert_eq!(admins.login("alice", "password1"), Err(ApiError::NotFound));
    assert_eq!(admins.register("alice", "admin-pass9", "root@example.com"), Ok(()));
    assert_eq!(admins.login("alice", "admin-pass9"), Ok(()));
    assert_eq!(users.login("alice", "admin-pass9"), Err(ApiError::Unauthorized));
}

#[test]
fn login_check_distinguishes_all_three_outcomes() {
    let hashed = bcrypt::hash("password1", bcrypt::DEFAULT_COST).unwrap();
    let row = UserSql {
        id: 1,
        username: "alice".to_string(),
        password: hashed,
        email: "alice@example.com".to_string(),
    };
    assert_eq!(login_check(None, "password1"), Err(ApiError::NotFound));
    assert_eq!(login_check(Some(&row), "password1"), Ok(()));
    assert_eq!(
        login_check(Some(&row), "password2"),
        Err(ApiError::Unauthorized)
    );
}

#[test]
fn login_check_treats_malformed_stored_hash_as_failed_verification() {
    let row = UserSql {
        id: 1,
        username: "alice".to_string(),
        password: "not-a-bcrypt-hash".to_string(),
        email: "alice@example.com".to_string(),
    };
    assert_eq!(
        login_check(Some(&row), "password1"),
        Err(ApiError::Unauthorized)
    );
}

#[test]
fn username_length_bounds_are_inclusive() {
    assert_eq!(
        validate_registration("abc", "password1", "a@example.com"),
        Some(ValidationRule::UsernameLength)
    );
    assert_eq!(validate_registration("abcd", "password1", "a@example.com"), None);
    assert_eq!(
        validate_registration("abcdefghijklmnop", "password1", "a@example.com"),
        None
    );
    assert_eq!(
        validate_registration("abcdefghijklmnopq", "password1", "a@example.com"),
        Some(ValidationRule::UsernameLength)
    );
}

#[test]
fn password_length_bounds_are_inclusive() {
    assert_eq!(
        validate_registration("alice", "abcdefg", "a@example.com"),
        Some(ValidationRule::PasswordLength)
    );
    assert_eq!(validate_registration("alice", "abcdefgh", "a@example.com"), None);
    assert_eq!(
        validate_registration("alice", "abcdefghijklmnop", "a@example.com"),
        None
    );
    assert_eq!(
        validate_registration("alice", "abcdefghijklmnopq", "a@example.com"),
        Some(ValidationRule::PasswordLength)
    );
}

#[test]
fn email_grammar_is_enforced() {
    assert_eq!(
        validate_registration("alice", "password1", ""),
        Some(ValidationRule::EmailFormat)
    );
    assert_eq!(
        validate_registration("alice", "password1", "no-at-sign"),
        Some(ValidationRule::EmailFormat)
    );
    assert_eq!(
        validate_registration("alice", "password1", "two@@example.com"),
        Some(ValidationRule::EmailFormat)
    );
    assert_eq!(validate_registration("alice", "password1", "a.b@example.co.id"), None);
}

#[test]
fn username_rule_is_reported_before_the_others() {
    assert_eq!(
        validate_registration("ab", "short", "broken"),
        Some(ValidationRule::UsernameLength)
    );
    assert_eq!(
        validate_registration("alice", "short", "broken"),
        Some(ValidationRule::PasswordLength)
    );
}

#[test]
fn error_kinds_map_to_their_statuses_and_logging_discipline() {
    let validation = ApiError::ValidationError(ValidationRule::EmailFormat);
    assert_eq!(validation.status_code(), 400);
    assert_eq!(ApiError::NotFound.status_code(), 404);
    assert_eq!(ApiError::Unauthorized.status_code(), 401);
    assert_eq!(ApiError::StoreUnavailable.status_code(), 500);
    assert_eq!(ApiError::HashingError.status_code(), 500);

    assert!(!validation.is_fault());
    assert!(!ApiError::NotFound.is_fault());
    assert!(!ApiError::Unauthorized.is_fault());
    assert!(ApiError::StoreUnavailable.is_fault());
    assert!(ApiError::HashingError.is_fault());
}
