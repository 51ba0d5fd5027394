//! The active session and the credential material kept beside it.

use vstd::prelude::*;
use crate::text::clone_opt;

verus! {

/// The source that produced a [`StdbAuthSession`].
#[derive(Clone, Copy, Debug, PartialEq, Eq, Structural)]
pub enum StdbAuthSessionSource {
    /// The session was created with the SpacetimeAuth OIDC flow.
    Oidc,
    /// The session was created with the SpacetimeAuth Steam flow.
    Steam,
}

/// The current SpacetimeAuth session.
///
/// Instants are counted in nanoseconds on the monotonic clock of the
/// application that drives the library.
#[derive(Clone, Debug, PartialEq, Eq)]
pub struct StdbAuthSession {
    /// The access token used by authenticated clients.
    pub access_token: String,
    /// The token type, such as `Bearer`.
    pub token_type: String,
    /// The instant, in nanoseconds, when the access token expires.
    pub expires_at: Option<u128>,
    /// Whether this session has refresh credentials.
    pub can_refresh: bool,
    /// The granted OAuth scopes.
    pub scope: Option<String>,
    /// The optional client ID associated with this session.
    pub client_id: Option<String>,
    /// The source that produced this session.
    pub source: StdbAuthSessionSource,
    /// The optional URI returned to after provider logout.
    pub post_logout_redirect_uri: Option<String>,
    /// The OIDC ID token, where the provider returned one.
    pub id_token: Option<String>,
}

impl StdbAuthSession {
    /// A copy of this session.
    pub fn copy(&self) -> (r: Self)
        ensures
            r == *self,
    {
        StdbAuthSession {
            access_token: self.access_token.clone(),
            token_type: self.token_type.clone(),
            expires_at: self.expires_at,
            can_refresh: self.can_refresh,
            scope: clone_opt(&self.scope),
            client_id: clone_opt(&self.client_id),
            source: self.source,
            post_logout_redirect_uri: clone_opt(&self.post_logout_redirect_uri),
            id_token: clone_opt(&self.id_token),
        }
    }
}

/// Credential material for the active [`StdbAuthSession`].
#[derive(Clone, Debug, PartialEq, Eq)]
pub struct StdbAuthCredentialMaterial {
    /// The refresh token, where the session can be refreshed.
    pub refresh_token: Option<String>,
    /// The raw OIDC ID token, where the provider returned one.
    pub id_token: Option<String>,
}

impl Default for StdbAuthCredentialMaterial {
    fn default() -> (r: Self)
        ensures
            r.refresh_token is None,
            r.id_token is None,
    {
        StdbAuthCredentialMaterial { refresh_token: None, id_token: None }
    }
}

impl StdbAuthCredentialMaterial {
    /// Groups a refresh token and an ID token.
    pub fn new(refresh_token: Option<String>, id_token: Option<String>) -> (r: Self)
        ensures
            r.refresh_token == refresh_token,
            r.id_token == id_token,
    {
        StdbAuthCredentialMaterial { refresh_token, id_token }
    }

    /// Whether a refresh token is held.
    pub fn has_refresh_token(&self) -> (r: bool)
        ensures
            r == self.refresh_token is Some,
    {
        self.refresh_token.is_some()
    }

    /// A copy of this credential material.
    pub fn copy(&self) -> (r: Self)
        ensures
            r == *self,
    {
        StdbAuthCredentialMaterial {
            refresh_token: clone_opt(&self.refresh_token),
            id_token: clone_opt(&self.id_token),
        }
    }
}

/// A [`StdbAuthSession`] together with its credential material.
#[derive(Clone, Debug, PartialEq, Eq)]
pub struct StdbAuthSessionParts {
    /// The session.
    pub session: StdbAuthSession,
    /// The credential material of the session.
    pub credentials: StdbAuthCredentialMaterial,
}

impl StdbAuthSessionParts {
    /// Groups a session with its credential material.
    pub fn new(session: StdbAuthSession, credentials: StdbAuthCredentialMaterial) -> (r: Self)
        ensures
            r.session == session,
            r.credentials == credentials,
    {
        StdbAuthSessionParts { session, credentials }
    }
}

} // verus!
