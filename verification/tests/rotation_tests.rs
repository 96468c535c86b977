use auth_core::engine::{AuthConfig, AuthService, EmailRequest};
use auth_core::errors::AuthError;

fn service() -> AuthService {
    AuthService::new(AuthConfig::new("rotation-secret".to_string()))
}

fn service_with_user_and_token(token: &str) -> AuthService {
    let mut svc = service();
    svc.users
        .create(
            &"u1".to_string(),
            &"alice".to_string(),
            &"alice@x.com".to_string(),
            &"irrelevant-hash".to_string(),
            10,
        )
        .unwrap();
    svc.refresh_tokens
        .create_token(&"u1".to_string(), &token.to_string(), 100)
        .unwrap();
    svc
}

#[test]
fn rotate_unknown_token_is_unauthorized() {
    let mut svc = service();
    let (result, alert) = svc.rotate(&"never-issued".to_string(), 200);
    assert_eq!(result.unwrap_err(), AuthError::Unauthorized);
    assert!(alert.is_none());
}

#[test]
fn rotate_active_token_succeeds_once() {
    let mut svc = service_with_user_and_token("t1");
    let (result, alert) = svc.rotate(&"t1".to_string(), 200);
    let pair = result.unwrap();
    assert!(alert.is_none());
    assert!(!pair.access_token.is_empty());
    assert_eq!(pair.refresh_token.chars().count(), 36);
    assert_ne!(pair.refresh_token, "t1");
    // the redeemed row stays, marked, plus the replacement
    assert_eq!(svc.refresh_tokens.count_user_tokens(&"u1".to_string()), 2);
}

#[test]
fn rotate_replay_revokes_family_and_alerts() {
    let mut svc = service_with_user_and_token("t1");
    let (first, _) = svc.rotate(&"t1".to_string(), 200);
    assert!(first.is_ok());

    // replaying the consumed token fails and kills every token of the user
    let (second, alert) = svc.rotate(&"t1".to_string(), 300);
    assert_eq!(second.unwrap_err(), AuthError::Unauthorized);
    match alert.expect("replay must request a security alert") {
        EmailRequest::SecurityAlert { to, username } => {
            assert_eq!(to, "alice@x.com");
            assert_eq!(username, "alice");
        }
        other => panic!("unexpected mail request: {:?}", other),
    }
    assert_eq!(svc.refresh_tokens.count_user_tokens(&"u1".to_string()), 0);
}

#[test]
fn rotate_after_breach_rejects_even_fresh_pair() {
    let mut svc = service_with_user_and_token("t1");
    let (first, _) = svc.rotate(&"t1".to_string(), 200);
    let pair = first.unwrap();

    let (second, _) = svc.rotate(&"t1".to_string(), 300);
    assert_eq!(second.unwrap_err(), AuthError::Unauthorized);

    // the pair handed out by the first call is dead too
    let (third, alert) = svc.rotate(&pair.refresh_token, 400);
    assert_eq!(third.unwrap_err(), AuthError::Unauthorized);
    assert!(alert.is_none());
}

#[test]
fn rotate_expired_token_is_swept_and_unauthorized() {
    let mut svc = service_with_user_and_token("t1");
    // created at 100, lifetime 2592000: dead strictly after 2592100
    let (result, alert) = svc.rotate(&"t1".to_string(), 2592101);
    assert_eq!(result.unwrap_err(), AuthError::Unauthorized);
    assert!(alert.is_none());
    assert_eq!(svc.refresh_tokens.count_user_tokens(&"u1".to_string()), 0);
}

#[test]
fn rotate_at_exact_lifetime_instant_still_succeeds() {
    // the refresh lifetime boundary is exclusive: at exactly
    // created_at + lifetime the token is still Active
    let mut svc = service_with_user_and_token("t1");
    let (result, _) = svc.rotate(&"t1".to_string(), 2592100);
    assert!(result.is_ok());
}

#[test]
fn rotated_access_token_names_the_user() {
    let mut svc = service_with_user_and_token("t1");
    let (result, _) = svc.rotate(&"t1".to_string(), 200);
    let pair = result.unwrap();
    let user = svc.current_user(&pair.access_token, 250).unwrap();
    assert_eq!(user.id, "u1");
    assert_eq!(user.username, "alice");
}

#[test]
fn logout_is_idempotent() {
    let mut svc = service_with_user_and_token("t1");
    let msg1 = svc.logout(&"t1".to_string());
    assert_eq!(msg1, "Logged out successfully");
    assert_eq!(svc.refresh_tokens.count_user_tokens(&"u1".to_string()), 0);
    // a second logout of the same value is a success all the same
    let msg2 = svc.logout(&"t1".to_string());
    assert_eq!(msg2, "Logged out successfully");
}

#[test]
fn logout_leaves_sibling_sessions_alone() {
    let mut svc = service_with_user_and_token("t1");
    svc.refresh_tokens
        .create_token(&"u1".to_string(), &"t2".to_string(), 110)
        .unwrap();
    svc.logout(&"t1".to_string());
    assert_eq!(svc.refresh_tokens.count_user_tokens(&"u1".to_string()), 1);
    // the surviving sibling still rotates
    let (result, _) = svc.rotate(&"t2".to_string(), 200);
    assert!(result.is_ok());
}
