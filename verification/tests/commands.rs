use bevy_stdb_auth::commands::{
    StdbAuthOperationKind, StdbLoginOptions, StdbLogoutOptions, build_end_session_url, logout_plan,
};
use bevy_stdb_auth::error::{StdbAuthCommandError, StdbAuthError};
use bevy_stdb_auth::message::StdbAuthCommandRejectedMessage;
use bevy_stdb_auth::plugin::{PendingAuthKind, StdbAuthState};
use bevy_stdb_auth::session::{StdbAuthCredentialMaterial, StdbAuthSession, StdbAuthSessionSource};
use bevy_stdb_auth::source::StdbAuthSource;
use bevy_stdb_auth::steam::StdbSteamAuthOptions;
use bevy_stdb_auth::transport::StdbAuthTransportConfig;
use std::collections::BTreeMap;

fn session_with_refresh_credentials() -> StdbAuthSession {
    StdbAuthSession {
        access_token: "access".to_string(),
        token_type: "Bearer".to_string(),
        expires_at: None,
        can_refresh: true,
        scope: None,
        client_id: Some("client".to_string()),
        source: StdbAuthSessionSource::Oidc,
        post_logout_redirect_uri: None,
        id_token: None,
    }
}

fn world_with_rejection_messages() -> StdbAuthState {
    StdbAuthState::new(None)
}

fn query_map(url: &str) -> BTreeMap<String, String> {
    url::Url::parse(url)
        .expect("URL should parse")
        .query_pairs()
        .map(|(key, value)| (key.into_owned(), value.into_owned()))
        .collect()
}

#[test]
fn logout_options_end_provider_session_by_default() {
    let options = StdbLogoutOptions::default();

    assert!(options.end_provider_session);
    assert!(!options.clear_stored_credentials);
}

#[test]
fn end_session_url_contains_logout_context() {
    let mut session = session_with_refresh_credentials();
    session.post_logout_redirect_uri = Some("http://127.0.0.1:3000/logged-out".to_string());
    let end_session_url = build_end_session_url(&session, Some("id-token"), &StdbAuthTransportConfig::default());
    let params = query_map(&end_session_url);

    assert_eq!(end_session_url.split('?').next(), Some("https://auth.spacetimedb.com/oidc/session/end"));
    assert_eq!(params.get("client_id").map(String::as_str), Some("client"));
    assert_eq!(params.get("id_token_hint").map(String::as_str), Some("id-token"));
    assert_eq!(
        params.get("post_logout_redirect_uri").map(String::as_str),
        Some("http://127.0.0.1:3000/logged-out")
    );
}

#[test]
fn end_session_url_omits_empty_optional_context() {
    let mut session = session_with_refresh_credentials();
    session.client_id = Some("  ".to_string());
    session.post_logout_redirect_uri = Some("  ".to_string());
    let end_session_url = build_end_session_url(&session, Some("  "), &StdbAuthTransportConfig::default());

    assert!(url::Url::parse(&end_session_url).unwrap().query().is_none());
    assert_eq!(end_session_url, "https://auth.spacetimedb.com/oidc/session/end");
}

#[test]
fn end_session_url_orders_and_encodes_pairs() {
    let mut session = session_with_refresh_credentials();
    session.post_logout_redirect_uri = Some("http://127.0.0.1:3000/a b".to_string());
    let url = build_end_session_url(&session, Some("t&k"), &StdbAuthTransportConfig::default());
    assert_eq!(
        url,
        "https://auth.spacetimedb.com/oidc/session/end?id_token_hint=t%26k&post_logout_redirect_uri=http%3A%2F%2F127.0.0.1%3A3000%2Fa+b&client_id=client"
    );
}

#[test]
fn refresh_admission_rejects_second_same_frame_request() {
    let mut world = world_with_rejection_messages();
    world.pending = Some(PendingAuthKind::Logout);

    let rejected = world.start_refresh().expect_err("a pending operation refuses refresh");

    assert_eq!(world.pending, Some(PendingAuthKind::Logout));
    assert_eq!(rejected.operation, StdbAuthOperationKind::Refresh);
    assert_eq!(rejected.error, StdbAuthCommandError::PendingOperation);
}

#[test]
fn refresh_admission_rejects_missing_credentials() {
    let mut world = world_with_rejection_messages();
    world.session = Some(session_with_refresh_credentials());

    let rejected = world.start_refresh().expect_err("missing credentials refuse refresh");

    assert_eq!(rejected.operation, StdbAuthOperationKind::Refresh);
    assert_eq!(rejected.error, StdbAuthCommandError::MissingRefreshToken);
}

#[test]
fn refresh_admission_rejects_missing_client_id() {
    let mut world = world_with_rejection_messages();
    let mut session = session_with_refresh_credentials();
    session.client_id = None;
    world.session = Some(session);
    world.credentials = Some(StdbAuthCredentialMaterial::new(Some("refresh".to_string()), None));

    let rejected = world.start_refresh().expect_err("missing client ID refuses refresh");

    assert_eq!(rejected.operation, StdbAuthOperationKind::Refresh);
    assert_eq!(rejected.error, StdbAuthCommandError::MissingClientId);
}

#[test]
fn refresh_admission_rejects_missing_session() {
    let mut world = world_with_rejection_messages();

    let rejected = world.start_refresh().expect_err("missing session refuses refresh");

    assert_eq!(rejected.operation, StdbAuthOperationKind::Refresh);
    assert_eq!(rejected.error, StdbAuthCommandError::NoSession);
}

#[test]
fn refresh_admission_accepts_refreshable_session() {
    let mut world = world_with_rejection_messages();
    world.session = Some(session_with_refresh_credentials());
    world.credentials = Some(StdbAuthCredentialMaterial::new(Some("refresh".to_string()), None));
    assert_eq!(world.admit_refresh_now(), Ok(()));

    let plan = world.start_refresh().expect("refresh should start");

    assert_eq!(plan.refresh_token, "refresh");
    assert_eq!(plan.session, session_with_refresh_credentials());
    assert_eq!(world.pending, Some(PendingAuthKind::Refresh { automatic: false }));
}

#[test]
fn command_error_converts_to_auth_error() {
    let error = StdbAuthError::from(StdbAuthCommandError::NoSession);

    assert!(matches!(error, StdbAuthError::Command(StdbAuthCommandError::NoSession)));
}

#[test]
fn logout_plan_follows_options_and_source() {
    let session = session_with_refresh_credentials();
    let config = StdbAuthTransportConfig::default();
    let plan = logout_plan(&session, &Some("id".to_string()), StdbLogoutOptions::default(), &config);
    assert_eq!(plan.clear_stored_credentials_for, None);
    assert_eq!(
        plan.end_session_url.as_deref(),
        Some("https://auth.spacetimedb.com/oidc/session/end?id_token_hint=id&client_id=client")
    );

    let plan = logout_plan(
        &session,
        &None,
        StdbLogoutOptions { end_provider_session: false, clear_stored_credentials: true },
        &config,
    );
    assert_eq!(plan.clear_stored_credentials_for.as_deref(), Some("client"));
    assert_eq!(plan.end_session_url, None);

    let mut steam = session_with_refresh_credentials();
    steam.source = StdbAuthSessionSource::Steam;
    let plan = logout_plan(
        &steam,
        &None,
        StdbLogoutOptions { end_provider_session: true, clear_stored_credentials: true },
        &config,
    );
    assert_eq!(plan.clear_stored_credentials_for, None);
    assert_eq!(plan.end_session_url, None);
}

#[test]
fn login_options_hold_the_source() {
    let source = StdbAuthSource::Steam(StdbSteamAuthOptions { client_id: "client".to_string(), app_id: 480 });
    let options = StdbLoginOptions::new(source.clone());
    assert_eq!(options.source, source);
    assert_eq!(options.source.session_source(), StdbAuthSessionSource::Steam);
}

#[test]
fn rejection_message_carries_operation_and_error() {
    let message = StdbAuthCommandRejectedMessage {
        operation: StdbAuthOperationKind::Cancel,
        error: StdbAuthCommandError::NoPendingOperation,
    };
    assert_eq!(message.error.to_message(), "no authentication operation is pending");
}
