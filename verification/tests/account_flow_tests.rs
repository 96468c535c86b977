use auth_core::engine::{AuthConfig, AuthService, EmailRequest};
use auth_core::errors::AuthError;
use auth_core::schemas::UserData;

fn service() -> AuthService {
    AuthService::new(AuthConfig::new("flow-secret".to_string()))
}

#[test]
fn register_alice_returns_tokens_and_unverified_account() {
    let mut svc = service();
    let (session, mail) = svc
        .register(
            &"alice".to_string(),
            &"alice@x.com".to_string(),
            &"password123".to_string(),
            1000,
        )
        .unwrap();
    assert!(!session.access_token.is_empty());
    assert!(!session.refresh_token.is_empty());
    assert_eq!(session.user.username, "alice");
    assert_eq!(session.user.email, "alice@x.com");
    assert!(!session.user.email_verified);
    match mail {
        EmailRequest::Verification { to, username, token } => {
            assert_eq!(to, "alice@x.com");
            assert_eq!(username, "alice");
            assert_eq!(token.chars().count(), 32);
        }
        other => panic!("unexpected mail request: {:?}", other),
    }
}

#[test]
fn register_duplicate_email_is_conflict() {
    let mut svc = service();
    svc.register(
        &"alice".to_string(),
        &"alice@x.com".to_string(),
        &"password123".to_string(),
        1000,
    )
    .unwrap();
    let again = svc.register(
        &"alice2".to_string(),
        &"alice@x.com".to_string(),
        &"password456".to_string(),
        1100,
    );
    assert_eq!(again.unwrap_err(), AuthError::Conflict);
    let also = svc.register(
        &"alice".to_string(),
        &"other@x.com".to_string(),
        &"password456".to_string(),
        1200,
    );
    assert_eq!(also.unwrap_err(), AuthError::Conflict);
}

#[test]
fn failed_register_leaves_every_table_unchanged() {
    let mut svc = service();
    svc.register(
        &"alice".to_string(),
        &"alice@x.com".to_string(),
        &"password123".to_string(),
        1000,
    )
    .unwrap();
    let users_before = svc.users.len();
    let verification_before = svc.verification_tokens.len();
    let again = svc.register(
        &"alice2".to_string(),
        &"alice@x.com".to_string(),
        &"password456".to_string(),
        1100,
    );
    assert_eq!(again.unwrap_err(), AuthError::Conflict);
    assert_eq!(svc.users.len(), users_before);
    assert_eq!(svc.verification_tokens.len(), verification_before);
}

#[test]
fn register_invalid_input_is_validation_error() {
    let mut svc = service();
    let r = svc.register(
        &"al".to_string(),
        &"alice@x.com".to_string(),
        &"password123".to_string(),
        1000,
    );
    assert_eq!(r.unwrap_err(), AuthError::Validation);
}

#[test]
fn login_after_register_succeeds_with_fresh_token() {
    let mut svc = service();
    let (registered, _) = svc
        .register(
            &"alice".to_string(),
            &"alice@x.com".to_string(),
            &"password123".to_string(),
            1000,
        )
        .unwrap();
    let session = svc
        .login(&"alice@x.com".to_string(), &"password123".to_string(), 2000)
        .unwrap();
    assert_eq!(session.user.username, "alice");
    assert!(!session.access_token.is_empty());
    // the refresh token is fresh: distinct from the one registration issued
    assert_ne!(session.refresh_token, registered.refresh_token);
    assert_eq!(svc.refresh_tokens.count_user_tokens(&session.user.id), 2);
}

#[test]
fn login_wrong_password_is_unauthorized() {
    let mut svc = service();
    svc.register(
        &"alice".to_string(),
        &"alice@x.com".to_string(),
        &"password123".to_string(),
        1000,
    )
    .unwrap();
    let r = svc.login(&"alice@x.com".to_string(), &"password124".to_string(), 2000);
    assert_eq!(r.unwrap_err(), AuthError::Unauthorized);
}

#[test]
fn login_unknown_email_is_unauthorized() {
    let mut svc = service();
    let r = svc.login(&"nobody@x.com".to_string(), &"password123".to_string(), 2000);
    assert_eq!(r.unwrap_err(), AuthError::Unauthorized);
}

#[test]
fn current_user_reads_subject_from_access_token() {
    let mut svc = service();
    let (session, _) = svc
        .register(
            &"alice".to_string(),
            &"alice@x.com".to_string(),
            &"password123".to_string(),
            1000,
        )
        .unwrap();
    let user = svc.current_user(&session.access_token, 1500).unwrap();
    assert_eq!(user.username, "alice");
    // fifteen minutes later the token is dead
    let late = svc.current_user(&session.access_token, 1000 + 900);
    assert_eq!(late.unwrap_err(), AuthError::Unauthorized);
}

#[test]
fn user_data_flattens_missing_bio() {
    let mut svc = service();
    let (session, _) = svc
        .register(
            &"alice".to_string(),
            &"alice@x.com".to_string(),
            &"password123".to_string(),
            1000,
        )
        .unwrap();
    let data = UserData::from_user_with_token(session.user, session.access_token.clone());
    assert_eq!(data.email, "alice@x.com");
    assert_eq!(data.username, "alice");
    assert_eq!(data.token, session.access_token);
    assert_eq!(data.bio, "");
    assert!(data.image.is_none());
    assert!(!data.email_verified);
}
