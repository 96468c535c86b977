use auth_core::codec::{generate_token, validate_token};
use auth_core::errors::AuthError;

#[test]
fn access_token_round_trip_returns_subject() {
    let user_id = "user-123".to_string();
    let secret = "test-secret";
    let token = generate_token(&user_id, secret, 1000, 900).unwrap();
    assert!(!token.is_empty());
    let claims = validate_token(&token, secret, 1000).unwrap();
    assert_eq!(claims.sub, "user-123");
    assert_eq!(claims.iat, 1000);
    assert_eq!(claims.exp, 1900);
}

#[test]
fn access_token_valid_until_just_before_expiry() {
    let user_id = "user-123".to_string();
    let secret = "test-secret";
    let token = generate_token(&user_id, secret, 1000, 900).unwrap();
    assert!(validate_token(&token, secret, 1899).is_ok());
}

#[test]
fn access_token_invalid_once_ttl_elapsed() {
    let user_id = "user-123".to_string();
    let secret = "test-secret";
    let token = generate_token(&user_id, secret, 1000, 900).unwrap();
    assert_eq!(validate_token(&token, secret, 1900).unwrap_err(), AuthError::Unauthorized);
    assert_eq!(validate_token(&token, secret, 5000).unwrap_err(), AuthError::Unauthorized);
}

#[test]
fn access_token_rejected_under_other_secret() {
    let user_id = "user-123".to_string();
    let token = generate_token(&user_id, "secret-a", 1000, 900).unwrap();
    assert_eq!(validate_token(&token, "secret-b", 1000).unwrap_err(), AuthError::Unauthorized);
}

#[test]
fn tampered_token_rejected() {
    let user_id = "user-123".to_string();
    let secret = "test-secret";
    let token = generate_token(&user_id, secret, 1000, 900).unwrap();
    let mut tampered: Vec<char> = token.chars().collect();
    let mid = tampered.len() / 2;
    tampered[mid] = if tampered[mid] == 'A' { 'B' } else { 'A' };
    let tampered: String = tampered.into_iter().collect();
    assert_eq!(validate_token(&tampered, secret, 1000).unwrap_err(), AuthError::Unauthorized);
}

#[test]
fn malformed_token_rejected() {
    assert_eq!(
        validate_token(&"not.a.jwt".to_string(), "s", 0).unwrap_err(),
        AuthError::Unauthorized
    );
    assert_eq!(validate_token(&"".to_string(), "s", 0).unwrap_err(), AuthError::Unauthorized);
}

#[test]
fn status_codes_match_error_kinds() {
    assert_eq!(AuthError::Validation.status_code(), 400);
    assert_eq!(AuthError::Conflict.status_code(), 409);
    assert_eq!(AuthError::Unauthorized.status_code(), 401);
    assert_eq!(AuthError::NotFound.status_code(), 404);
    assert_eq!(AuthError::Gone.status_code(), 410);
    assert_eq!(AuthError::Internal.status_code(), 500);
}
