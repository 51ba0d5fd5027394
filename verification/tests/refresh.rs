use bevy_stdb_auth::error::StdbAuthError;
use bevy_stdb_auth::refresh::{
    complete_refresh, refresh_request, refresh_token_form, retain_refresh_context, should_refresh_session,
};
use bevy_stdb_auth::session::{
    StdbAuthCredentialMaterial, StdbAuthSession, StdbAuthSessionParts, StdbAuthSessionSource,
};
use bevy_stdb_auth::token::StdbTokenResponse;

fn previous_session() -> StdbAuthSession {
    StdbAuthSession {
        access_token: "old_access".to_string(),
        token_type: "Bearer".to_string(),
        expires_at: None,
        can_refresh: true,
        scope: Some("openid".to_string()),
        client_id: Some("client".to_string()),
        source: StdbAuthSessionSource::Oidc,
        post_logout_redirect_uri: None,
        id_token: None,
    }
}

fn session(expires_at: Option<u128>) -> StdbAuthSession {
    StdbAuthSession {
        access_token: "access".to_string(),
        token_type: "Bearer".to_string(),
        expires_at,
        can_refresh: true,
        scope: None,
        client_id: Some("client".to_string()),
        source: StdbAuthSessionSource::Oidc,
        post_logout_redirect_uri: None,
        id_token: None,
    }
}

const NOW: u128 = 1_000_000_000_000;
const SECOND: u128 = 1_000_000_000;

#[test]
fn refresh_token_form_contains_required_fields() {
    let form = refresh_token_form("client", "refresh").expect("refresh token form should be valid");

    assert_eq!(form.get("grant_type").as_deref(), Some("refresh_token"));
    assert_eq!(form.get("client_id").as_deref(), Some("client"));
    assert_eq!(form.get("refresh_token").as_deref(), Some("refresh"));
}

#[test]
fn refresh_token_form_is_ordered_and_trimmed() {
    let form = refresh_token_form(" client ", "\trefresh\n").expect("valid form");
    assert_eq!(
        form.params,
        vec![
            ("client_id".to_string(), "client".to_string()),
            ("grant_type".to_string(), "refresh_token".to_string()),
            ("refresh_token".to_string(), "refresh".to_string()),
        ]
    );
}

#[test]
fn refresh_token_form_rejects_blank_values() {
    assert_eq!(
        refresh_token_form("client", "  "),
        Err(StdbAuthError::InvalidConfig("`refresh_token` must not be empty".to_string()))
    );
    assert_eq!(
        refresh_token_form(" ", "refresh"),
        Err(StdbAuthError::InvalidConfig("`client_id` must not be empty".to_string()))
    );
    assert_eq!(
        refresh_token_form(" ", " "),
        Err(StdbAuthError::InvalidConfig("`refresh_token` must not be empty".to_string()))
    );
}

#[test]
fn refresh_context_retains_refresh_token_when_not_rotated() {
    let previous_refresh_token = "old_refresh".to_string();
    let parts = StdbTokenResponse {
        access_token: "new_access".to_string(),
        token_type: "Bearer".to_string(),
        expires_in: Some(60),
        refresh_token: None,
        scope: None,
        id_token: None,
    }
    .into_session_parts(Some("client".to_string()), StdbAuthSessionSource::Oidc, None, 0)
    .expect("token response should be valid");

    let parts = retain_refresh_context(previous_session(), previous_refresh_token, parts);

    assert_eq!(parts.session.access_token, "new_access");
    assert_eq!(parts.session.scope.as_deref(), Some("openid"));
    assert!(parts.session.can_refresh);
    assert_eq!(parts.credentials.refresh_token.as_deref(), Some("old_refresh"));
}

#[test]
fn refresh_context_uses_rotated_refresh_token() {
    let parts = StdbAuthSessionParts::new(
        StdbAuthSession {
            access_token: "new_access".to_string(),
            token_type: "Bearer".to_string(),
            expires_at: None,
            can_refresh: true,
            scope: Some("openid email".to_string()),
            client_id: Some("client".to_string()),
            source: StdbAuthSessionSource::Oidc,
            post_logout_redirect_uri: None,
            id_token: None,
        },
        StdbAuthCredentialMaterial::new(Some("new_refresh".to_string()), None),
    );

    let parts = retain_refresh_context(previous_session(), "old_refresh".to_string(), parts);

    assert_eq!(parts.credentials.refresh_token.as_deref(), Some("new_refresh"));
    assert_eq!(parts.session.scope.as_deref(), Some("openid email"));
}

#[test]
fn should_refresh_session_inside_buffer() {
    let session = session(Some(NOW + 30 * SECOND));

    assert!(should_refresh_session(&session, NOW, 60 * SECOND));
}

#[test]
fn should_not_refresh_session_outside_buffer() {
    let session = session(Some(NOW + 120 * SECOND));

    assert!(!should_refresh_session(&session, NOW, 60 * SECOND));
}

#[test]
fn should_not_refresh_session_without_expiration() {
    let session = session(None);

    assert!(!should_refresh_session(&session, NOW, 60 * SECOND));
}

#[test]
fn refresh_due_stays_due_later() {
    let session = session(Some(NOW + 60 * SECOND));
    assert!(should_refresh_session(&session, NOW, 60 * SECOND));
    assert!(should_refresh_session(&session, NOW + 1, 60 * SECOND));
    assert!(should_refresh_session(&session, u128::MAX - 5, 5));
    assert!(should_refresh_session(&session, NOW + 1, 60 * SECOND - 1));
    assert!(!should_refresh_session(&session, NOW, 60 * SECOND - 1));
    assert!(!should_refresh_session(&session, NOW - 1, 60 * SECOND));
}

#[test]
fn refresh_request_requires_client_id() {
    let mut s = session(None);
    s.client_id = None;
    assert_eq!(
        refresh_request(&s, "refresh"),
        Err(StdbAuthError::InvalidConfig("refresh requires a session client ID".to_string()))
    );
    let form = refresh_request(&session(None), "refresh").expect("valid request");
    assert_eq!(form.get("client_id").as_deref(), Some("client"));
}

#[test]
fn complete_refresh_merges_response_into_previous_session() {
    let mut previous = previous_session();
    previous.post_logout_redirect_uri = Some("http://127.0.0.1:3000/out".to_string());
    previous.source = StdbAuthSessionSource::Steam;
    let response = StdbTokenResponse {
        access_token: "new_access".to_string(),
        token_type: "Bearer".to_string(),
        expires_in: Some(10),
        refresh_token: Some("rotated".to_string()),
        scope: None,
        id_token: Some("new_id".to_string()),
    };
    let parts = complete_refresh(previous, "old_refresh".to_string(), response, 7).expect("valid refresh");
    assert_eq!(parts.session.access_token, "new_access");
    assert_eq!(parts.session.expires_at, Some(7 + 10 * SECOND));
    assert_eq!(parts.session.scope.as_deref(), Some("openid"));
    assert_eq!(parts.session.source, StdbAuthSessionSource::Steam);
    assert_eq!(parts.session.client_id.as_deref(), Some("client"));
    assert_eq!(parts.session.post_logout_redirect_uri.as_deref(), Some("http://127.0.0.1:3000/out"));
    assert_eq!(parts.credentials.refresh_token.as_deref(), Some("rotated"));
    assert_eq!(parts.credentials.id_token.as_deref(), Some("new_id"));
    assert!(parts.session.can_refresh);

    let bad = StdbTokenResponse { token_type: "mac".to_string(), ..StdbTokenResponse::default() };
    assert_eq!(
        complete_refresh(previous_session(), "old".to_string(), bad, 0),
        Err(StdbAuthError::InvalidTokenResponse("`access_token` must not be empty".to_string()))
    );
}
