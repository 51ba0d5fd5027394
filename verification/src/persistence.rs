//! Decisions about refresh credentials kept in the operating system keyring.

use vstd::prelude::*;
use crate::oidc::StdbOidcAuthOptions;
use crate::session::{StdbAuthSession, StdbAuthSessionParts, StdbAuthSessionSource};
use crate::text::{clone_opt, opt_view, optional_non_blank, optional_non_empty};

verus! {

/// Determines how refresh credentials are persisted.
#[derive(Clone, Copy, Debug, Default, PartialEq, Eq, Structural)]
pub enum StdbAuthPersistence {
    /// Does not persist refresh credentials.
    #[default]
    Disabled,
    /// Stores refresh credentials in the native OS keyring.
    Keyring,
    /// Stores refresh credentials in browser `localStorage`, which is not
    /// secure against cross-site scripting attacks.
    LocalStorage,
}

/// The client ID and refresh token that are stored for a session: only
/// OIDC sessions with a client ID and a refresh token are stored.
pub open spec fn persist_target(parts: StdbAuthSessionParts) -> Option<(String, String)> {
    if parts.session.source == StdbAuthSessionSource::Oidc && parts.session.client_id is Some
        && parts.credentials.refresh_token is Some {
        Some((parts.session.client_id->0, parts.credentials.refresh_token->0))
    } else {
        None
    }
}

/// The client ID and refresh token to store after a session is acquired.
pub fn refresh_token_to_persist(parts: &StdbAuthSessionParts) -> (r: Option<(String, String)>)
    ensures
        r == persist_target(*parts),
{
    if parts.session.source != StdbAuthSessionSource::Oidc {
        return None;
    }
    match (&parts.session.client_id, &parts.credentials.refresh_token) {
        (Some(client_id), Some(refresh_token)) => Some((client_id.clone(), refresh_token.clone())),
        _ => None,
    }
}

/// The client ID whose stored refresh token is removed when the session's
/// stored credentials are cleared: only OIDC sessions have stored tokens.
pub fn persisted_credentials_to_clear(session: &StdbAuthSession) -> (r: Option<String>)
    ensures
        r == (if session.source == StdbAuthSessionSource::Oidc { session.client_id } else { None }),
{
    if session.source == StdbAuthSessionSource::Oidc {
        clone_opt(&session.client_id)
    } else {
        None
    }
}

/// A stored refresh token as read back: trimmed, and dropped where it holds
/// only white space.
pub fn stored_refresh_token_value(stored: Option<String>) -> (r: Option<String>)
    ensures
        opt_view(r) == optional_non_blank(opt_view(stored)),
{
    optional_non_empty(stored)
}

/// The session that a stored refresh token is redeemed for before a new
/// OIDC login: no access token yet, the options' client ID and logout URI.
pub fn stored_refresh_session(options: &StdbOidcAuthOptions) -> (r: StdbAuthSession)
    ensures
        r.access_token@ == Seq::<char>::empty(),
        r.token_type@ == "Bearer"@,
        r.expires_at is None,
        r.can_refresh,
        r.scope is None,
        r.client_id == Some(options.client_id),
        r.source == StdbAuthSessionSource::Oidc,
        r.post_logout_redirect_uri == options.post_logout_redirect_uri,
        r.id_token is None,
{
    StdbAuthSession {
        access_token: String::new(),
        token_type: "Bearer".to_owned(),
        expires_at: None,
        can_refresh: true,
        scope: None,
        client_id: Some(options.client_id.clone()),
        source: StdbAuthSessionSource::Oidc,
        post_logout_redirect_uri: clone_opt(&options.post_logout_redirect_uri),
        id_token: None,
    }
}

} // verus!
