use bevy_stdb_auth::error::StdbAuthError;
use bevy_stdb_auth::oidc::browser::{
    clean_callback_url, is_oidc_callback_param, pending_authorization_expired, pending_callback_available,
    preserved_query_params,
};

#[test]
fn callback_params_are_recognized() {
    for p in ["code", "state", "error", "error_description", "error_uri", "session_state", "iss"] {
        assert!(is_oidc_callback_param(p));
    }
    assert!(!is_oidc_callback_param("route"));
    assert!(!is_oidc_callback_param("Code"));
}

#[test]
fn pending_callback_needs_params_and_state() {
    assert!(pending_callback_available("https://game.example/?code=a&state=s", true));
    assert!(pending_callback_available("https://game.example/?error=denied", true));
    assert!(!pending_callback_available("https://game.example/?code=a", false));
    assert!(!pending_callback_available("https://game.example/?route=x", true));
    assert!(!pending_callback_available("not a url", true));
}

#[test]
fn pending_state_expires_after_five_minutes() {
    assert!(!pending_authorization_expired(1_000, 1_000 + 300_000));
    assert!(pending_authorization_expired(1_000, 1_000 + 300_001));
    assert!(!pending_authorization_expired(5_000, 1_000));
}

#[test]
fn callback_url_is_cleaned() {
    assert_eq!(
        clean_callback_url("https://game.example/play?route=x&code=a&state=s&iss=i&lang=en#top"),
        Ok("https://game.example/play?route=x&lang=en#top".to_string())
    );
    assert_eq!(
        clean_callback_url("https://game.example/play?code=a&state=s"),
        Ok("https://game.example/play".to_string())
    );
    assert!(matches!(
        clean_callback_url("::"),
        Err(StdbAuthError::InvalidOidcCallback(m)) if m.starts_with("browser callback URL is invalid: ")
    ));
    let kept = preserved_query_params(&vec![
        ("code".to_string(), "a".to_string()),
        ("x".to_string(), "1".to_string()),
    ]);
    assert_eq!(kept, vec![("x".to_string(), "1".to_string())]);
}
