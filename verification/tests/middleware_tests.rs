use auth_core::engine::{AuthConfig, AuthService};
use auth_core::middleware::extract_token_from_header;

#[test]
fn header_with_token_scheme_yields_the_token() {
    assert_eq!(
        extract_token_from_header("Token abc.def.ghi"),
        Some("abc.def.ghi".to_string())
    );
    assert_eq!(extract_token_from_header("Token "), Some("".to_string()));
}

#[test]
fn header_with_other_scheme_yields_nothing() {
    assert_eq!(extract_token_from_header("Bearer abc.def.ghi"), None);
    assert_eq!(extract_token_from_header("token abc"), None);
    assert_eq!(extract_token_from_header("Tok"), None);
    assert_eq!(extract_token_from_header(""), None);
}

#[test]
fn optional_user_falls_back_to_no_user() {
    let mut svc = AuthService::new(AuthConfig::new("mw-secret".to_string()));
    svc.users
        .create(
            &"u1".to_string(),
            &"alice".to_string(),
            &"alice@x.com".to_string(),
            &"irrelevant-hash".to_string(),
            10,
        )
        .unwrap();
    let token = auth_core::codec::generate_token(&"u1".to_string(), "mw-secret", 100, 900).unwrap();

    let user = svc.optional_user(Some(&token), 200).expect("valid token names alice");
    assert_eq!(user.username, "alice");

    assert!(svc.optional_user(None, 200).is_none());
    assert!(svc.optional_user(Some(&"garbage".to_string()), 200).is_none());
    // expired: dead exactly from the expiry instant on
    assert!(svc.optional_user(Some(&token), 1000).is_none());
    assert!(svc.optional_user(Some(&token), 999).is_some());
}
