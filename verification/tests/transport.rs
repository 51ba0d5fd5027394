use bevy_stdb_auth::error::StdbAuthError;
use bevy_stdb_auth::transport::StdbAuthTransportConfig;

#[test]
fn static_spacetimeauth_endpoints_are_used() {
    let config = StdbAuthTransportConfig::default();

    assert_eq!(config.authorization_endpoint_url(), "https://auth.spacetimedb.com/oidc/auth");
    assert_eq!(config.token_endpoint_url(), "https://auth.spacetimedb.com/oidc/token");
    assert_eq!(config.end_session_endpoint_url(), "https://auth.spacetimedb.com/oidc/session/end");
}

#[test]
fn zero_token_request_timeout_is_rejected() {
    let error = StdbAuthTransportConfig::try_new(Some(0)).expect_err("zero timeout should be rejected");

    assert!(matches!(error, StdbAuthError::InvalidConfig(_)));
}

#[test]
fn default_token_request_timeout_is_ten_seconds() {
    assert_eq!(StdbAuthTransportConfig::default().token_request_timeout(), Some(10_000_000_000));
    assert_eq!(StdbAuthTransportConfig::try_new(None).unwrap().token_request_timeout(), None);
    assert_eq!(StdbAuthTransportConfig::try_new(Some(5)).unwrap().token_request_timeout(), Some(5));
}
