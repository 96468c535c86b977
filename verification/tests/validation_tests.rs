use auth_core::validation::{validate_login, validate_registration};
use auth_core::errors::AuthError;
use auth_core::tokens::{generate_refresh_token, generate_verification_token};
use auth_core::password::{hash_password, verify_password};

fn s(v: &str) -> String {
    v.to_string()
}

#[test]
fn registration_accepts_valid_fields() {
    assert!(validate_registration(&s("alice"), &s("alice@x.com"), &s("password123")).is_ok());
}

#[test]
fn registration_rejects_short_username() {
    assert_eq!(
        validate_registration(&s("al"), &s("alice@x.com"), &s("password123")),
        Err(AuthError::Validation)
    );
}

#[test]
fn registration_rejects_long_username() {
    let long = "a".repeat(51);
    assert_eq!(
        validate_registration(&long, &s("alice@x.com"), &s("password123")),
        Err(AuthError::Validation)
    );
    let edge = "a".repeat(50);
    assert!(validate_registration(&edge, &s("alice@x.com"), &s("password123")).is_ok());
}

#[test]
fn registration_rejects_invalid_email() {
    assert_eq!(
        validate_registration(&s("alice"), &s("not-an-email"), &s("password123")),
        Err(AuthError::Validation)
    );
    assert_eq!(
        validate_registration(&s("alice"), &s(""), &s("password123")),
        Err(AuthError::Validation)
    );
}

#[test]
fn registration_rejects_short_password() {
    assert_eq!(
        validate_registration(&s("alice"), &s("alice@x.com"), &s("short12")),
        Err(AuthError::Validation)
    );
    assert!(validate_registration(&s("alice"), &s("alice@x.com"), &s("short123")).is_ok());
}

#[test]
fn login_requires_valid_email_and_any_password() {
    assert!(validate_login(&s("alice@x.com"), &s("p")).is_ok());
    assert_eq!(validate_login(&s("alice@x.com"), &s("")), Err(AuthError::Validation));
    assert_eq!(validate_login(&s("nope"), &s("password")), Err(AuthError::Validation));
}

#[test]
fn token_values_have_documented_shapes() {
    let refresh = generate_refresh_token();
    assert_eq!(refresh.chars().count(), 36);
    let verification = generate_verification_token();
    assert_eq!(verification.chars().count(), 32);
    assert!(verification
        .chars()
        .all(|c| c.is_ascii_digit() || ('a'..='f').contains(&c)));
    assert_ne!(generate_refresh_token(), generate_refresh_token());
}

#[test]
fn password_hash_verifies_and_rejects() {
    let hash = hash_password("password123").unwrap();
    assert!(verify_password("password123", &hash).unwrap());
    assert!(!verify_password("password124", &hash).unwrap());
}

#[test]
fn malformed_hash_is_an_error_not_a_mismatch() {
    assert!(verify_password("password123", "not-a-bcrypt-hash").is_err());
}
