use auth_core::engine::{AuthConfig, AuthService, EmailRequest};
use auth_core::errors::AuthError;

fn service() -> AuthService {
    AuthService::new(AuthConfig::new("reset-secret".to_string()))
}

/// A service with one account whose stored hash is irrelevant to the
/// flow under test, so nothing slow ever hashes.
fn service_with_user() -> AuthService {
    let mut svc = service();
    svc.users
        .create(
            &"u1".to_string(),
            &"alice".to_string(),
            &"alice@x.com".to_string(),
            &"irrelevant-hash".to_string(),
            10,
        )
        .unwrap();
    svc
}

const FORGOT_MESSAGE: &str = "If that email exists, a password reset link has been sent";

#[test]
fn forgot_password_unknown_email_reveals_nothing() {
    let mut svc = service_with_user();
    let (message, mail) = svc.forgot_password(&"nobody@x.com".to_string(), 100).unwrap();
    assert_eq!(message, FORGOT_MESSAGE);
    assert!(mail.is_none());
    // and no reset token row was created
    assert_eq!(svc.reset_tokens.len(), 0);
}

#[test]
fn forgot_password_known_email_same_message_and_token() {
    let mut svc = service_with_user();
    let (message, mail) = svc.forgot_password(&"alice@x.com".to_string(), 100).unwrap();
    // the acknowledgement is identical to the unknown-email case
    assert_eq!(message, FORGOT_MESSAGE);
    match mail.expect("known email must produce a reset mail") {
        EmailRequest::PasswordReset { to, username, token } => {
            assert_eq!(to, "alice@x.com");
            assert_eq!(username, "alice");
            assert_eq!(token.chars().count(), 32);
        }
        other => panic!("unexpected mail request: {:?}", other),
    }
    assert_eq!(svc.reset_tokens.len(), 1);
}

#[test]
fn forgot_password_invalid_email_is_validation_error() {
    let mut svc = service_with_user();
    let r = svc.forgot_password(&"not-an-email".to_string(), 100);
    assert_eq!(r.unwrap_err(), AuthError::Validation);
}

#[test]
fn reset_password_happy_path_rotates_credentials() {
    let mut svc = service();
    svc.register(
        &"alice".to_string(),
        &"alice@x.com".to_string(),
        &"password123".to_string(),
        100,
    )
    .unwrap();
    let (_, mail) = svc.forgot_password(&"alice@x.com".to_string(), 200).unwrap();
    let token = match mail.unwrap() {
        EmailRequest::PasswordReset { token, .. } => token,
        other => panic!("unexpected mail request: {:?}", other),
    };
    let message = svc
        .reset_password(&token, &"newpassword456".to_string(), 300)
        .unwrap();
    assert_eq!(
        message,
        "Password has been reset successfully. You can now log in with your new password"
    );
    // every refresh token and reset token of the user is gone
    let uid = svc
        .users
        .find_by_email(&"alice@x.com".to_string())
        .unwrap()
        .id;
    assert_eq!(svc.refresh_tokens.count_user_tokens(&uid), 0);
    assert_eq!(svc.reset_tokens.len(), 0);
    // the old password is dead, the new one works
    let old = svc.login(&"alice@x.com".to_string(), &"password123".to_string(), 400);
    assert_eq!(old.unwrap_err(), AuthError::Unauthorized);
    assert!(svc
        .login(&"alice@x.com".to_string(), &"newpassword456".to_string(), 500)
        .is_ok());
}

#[test]
fn reset_password_unknown_token_is_not_found() {
    let mut svc = service_with_user();
    let r = svc.reset_password(&"missing".to_string(), &"newpassword456".to_string(), 100);
    assert_eq!(r.unwrap_err(), AuthError::NotFound);
}

#[test]
fn reset_password_short_password_is_validation_error() {
    let mut svc = service_with_user();
    let r = svc.reset_password(&"whatever".to_string(), &"short".to_string(), 100);
    assert_eq!(r.unwrap_err(), AuthError::Validation);
}

#[test]
fn reset_token_dead_exactly_at_expiry_instant() {
    let mut svc = service_with_user();
    svc.reset_tokens
        .create_token(&"u1".to_string(), &"rt".to_string(), 100, 500)
        .unwrap();
    // presented exactly at the expiry instant: expired, swept
    let r = svc.reset_password(&"rt".to_string(), &"newpassword456".to_string(), 500);
    assert_eq!(r.unwrap_err(), AuthError::Gone);
    assert_eq!(svc.reset_tokens.len(), 0);
}

#[test]
fn reset_token_alive_just_before_expiry_instant() {
    let mut svc = service_with_user();
    svc.reset_tokens
        .create_token(&"u1".to_string(), &"rt".to_string(), 100, 500)
        .unwrap();
    let r = svc.reset_password(&"rt".to_string(), &"newpassword456".to_string(), 499);
    assert!(r.is_ok());
}

#[test]
fn verify_email_marks_account_verified_and_consumes_token() {
    let mut svc = service_with_user();
    svc.verification_tokens
        .create_token(&"u1".to_string(), &"vt".to_string(), 100, 86500)
        .unwrap();
    let message = svc.verify_email(&"vt".to_string(), 200).unwrap();
    assert_eq!(message, "Email verified successfully!");
    let user = svc.users.find_by_email(&"alice@x.com".to_string()).unwrap();
    assert!(user.email_verified);
    // the token is single-use: a second redemption finds nothing
    let again = svc.verify_email(&"vt".to_string(), 300);
    assert_eq!(again.unwrap_err(), AuthError::NotFound);
}

#[test]
fn verify_email_unknown_token_is_not_found() {
    let mut svc = service_with_user();
    let r = svc.verify_email(&"missing".to_string(), 100);
    assert_eq!(r.unwrap_err(), AuthError::NotFound);
}

#[test]
fn verification_token_dead_exactly_at_expiry_instant() {
    let mut svc = service_with_user();
    svc.verification_tokens
        .create_token(&"u1".to_string(), &"vt".to_string(), 100, 500)
        .unwrap();
    let r = svc.verify_email(&"vt".to_string(), 500);
    assert_eq!(r.unwrap_err(), AuthError::Gone);
    // the dead row was swept
    assert_eq!(svc.verification_tokens.len(), 0);
    let user = svc.users.find_by_email(&"alice@x.com".to_string()).unwrap();
    assert!(!user.email_verified);
}

#[test]
fn verification_token_alive_just_before_expiry_instant() {
    let mut svc = service_with_user();
    svc.verification_tokens
        .create_token(&"u1".to_string(), &"vt".to_string(), 100, 500)
        .unwrap();
    assert!(svc.verify_email(&"vt".to_string(), 499).is_ok());
}
