//! Normalization of SpacetimeAuth token endpoint responses.

use vstd::prelude::*;
use crate::error::StdbAuthError;
use crate::session::{
    StdbAuthCredentialMaterial, StdbAuthSession, StdbAuthSessionParts, StdbAuthSessionSource,
};
use crate::text::{
    clone_opt, concat3, eq_ignore_ascii_case, eq_ignore_ascii_case_spec, non_blank, opt_view,
    optional_non_blank, optional_non_empty, trim, trim_spec,
};

verus! {

/// Nanoseconds in one second.
pub const NANOS_PER_SECOND: u128 = 1_000_000_000;

/// A SpacetimeAuth token endpoint response, as decoded from its JSON body.
#[derive(Clone, Debug, Default, PartialEq, Eq)]
pub struct StdbTokenResponse {
    /// The access token used by authenticated clients.
    pub access_token: String,
    /// The token type, such as `Bearer`.
    pub token_type: String,
    /// The number of seconds before the access token expires.
    pub expires_in: Option<u64>,
    /// The optional refresh token used to acquire a new access token.
    pub refresh_token: Option<String>,
    /// The granted OAuth scopes.
    pub scope: Option<String>,
    /// The OIDC ID token.
    pub id_token: Option<String>,
}

/// The message of a required field that holds only white space.
pub open spec fn empty_field_text(field: Seq<char>) -> Seq<char> {
    "`"@ + field + "` must not be empty"@
}

/// The instant `expires_in` seconds after `now`, in nanoseconds.
pub open spec fn expiry_instant(now: u128, expires_in: u64) -> int {
    now + expires_in * 1_000_000_000
}

/// Whether the expiry instant of `expires_in` seconds after `now` can be
/// represented; adding a duration to an instant panics where it cannot.
pub open spec fn expiry_fits(now: u128, expires_in: Option<u64>) -> bool {
    match expires_in {
        Some(e) => expiry_instant(now, e) <= u128::MAX,
        None => true,
    }
}

/// Why a token response is refused: the message of the first check that fails.
pub open spec fn token_response_error(r: StdbTokenResponse) -> Option<Seq<char>> {
    if !non_blank(r.access_token@) {
        Some(empty_field_text("access_token"@))
    } else if !non_blank(r.token_type@) {
        Some(empty_field_text("token_type"@))
    } else if !eq_ignore_ascii_case_spec(trim_spec(r.token_type@), "Bearer"@) {
        Some("`token_type` must be `Bearer`"@)
    } else if r.expires_in == Some(0u64) {
        Some("`expires_in` must be greater than zero"@)
    } else if r.id_token is Some && !non_blank(r.id_token->0@) {
        Some(empty_field_text("id_token"@))
    } else {
        None
    }
}

/// The session parts that an accepted token response yields.
pub open spec fn parts_from_response(
    parts: StdbAuthSessionParts,
    r: StdbTokenResponse,
    client_id: Option<String>,
    source: StdbAuthSessionSource,
    post_logout_redirect_uri: Option<String>,
    now: u128,
) -> bool {
    let s = parts.session;
    let c = parts.credentials;
    &&& s.access_token@ == trim_spec(r.access_token@)
    &&& s.token_type@ == trim_spec(r.token_type@)
    &&& match r.expires_in {
        Some(e) => s.expires_at matches Some(t) && t == expiry_instant(now, e),
        None => s.expires_at is None,
    }
    &&& opt_view(c.refresh_token) == optional_non_blank(opt_view(r.refresh_token))
    &&& s.can_refresh == c.refresh_token is Some
    &&& opt_view(s.scope) == optional_non_blank(opt_view(r.scope))
    &&& s.client_id == client_id
    &&& s.source == source
    &&& s.post_logout_redirect_uri == post_logout_redirect_uri
    &&& opt_view(c.id_token) == optional_non_blank(opt_view(r.id_token))
    &&& s.id_token == c.id_token
}

/// An accepted token response yields a session with an access token, of
/// the `Bearer` type in some ASCII case, that is refreshable exactly when a
/// refresh token is held, and whose ID token is the one kept beside it.
pub proof fn law_accepted_response_session(
    parts: StdbAuthSessionParts,
    r: StdbTokenResponse,
    client_id: Option<String>,
    source: StdbAuthSessionSource,
    post_logout_redirect_uri: Option<String>,
    now: u128,
)
    requires
        token_response_error(r) is None,
        parts_from_response(parts, r, client_id, source, post_logout_redirect_uri, now),
    ensures
        parts.session.access_token@.len() > 0,
        eq_ignore_ascii_case_spec(parts.session.token_type@, "Bearer"@),
        parts.session.can_refresh <==> parts.credentials.refresh_token is Some,
        parts.session.id_token == parts.credentials.id_token,
        r.expires_in matches Some(e) ==> parts.session.expires_at matches Some(t) && t >= now,
{
}

/// An accepted response yields a session whose scope is the trimmed
/// response scope where it holds something besides white space, and no
/// scope otherwise; the refresh token kept is likewise the trimmed response
/// refresh token. The scope does not depend on whether a refresh token was
/// returned: two accepted responses that differ only in their refresh token
/// give sessions with the same scope.
pub proof fn law_response_scope_and_refresh_token(
    parts: StdbAuthSessionParts,
    other: StdbAuthSessionParts,
    r: StdbTokenResponse,
    other_refresh_token: Option<String>,
    client_id: Option<String>,
    source: StdbAuthSessionSource,
    post_logout_redirect_uri: Option<String>,
    now: u128,
)
    requires
        token_response_error(r) is None,
        parts_from_response(parts, r, client_id, source, post_logout_redirect_uri, now),
        parts_from_response(
            other,
            StdbTokenResponse { refresh_token: other_refresh_token, ..r },
            client_id,
            source,
            post_logout_redirect_uri,
            now,
        ),
    ensures
        match r.scope {
            Some(scope) => if trim_spec(scope@).len() > 0 {
                parts.session.scope matches Some(s) && s@ == trim_spec(scope@)
            } else {
                parts.session.scope is None
            },
            None => parts.session.scope is None,
        },
        match r.refresh_token {
            Some(t) => if trim_spec(t@).len() > 0 {
                parts.credentials.refresh_token matches Some(k) && k@ == trim_spec(t@)
            } else {
                parts.credentials.refresh_token is None
            },
            None => parts.credentials.refresh_token is None,
        },
        opt_view(other.session.scope) == opt_view(parts.session.scope),
        parts.session.access_token@ == trim_spec(r.access_token@),
{
}

/// Returns the trimmed value, or the token-response error for `field`.
pub fn require_non_empty(value: &str, field: &str) -> (r: Result<String, StdbAuthError>)
    ensures
        match r {
            Ok(v) => non_blank(value@) && v@ == trim_spec(value@),
            Err(e) => {
                &&& !non_blank(value@)
                &&& e matches StdbAuthError::InvalidTokenResponse(m)
                &&& m@ == empty_field_text(field@)
            },
        },
{
    let v = trim(value);
    if v.as_str().is_empty() {
        return Err(StdbAuthError::InvalidTokenResponse(concat3("`", field, "` must not be empty")));
    }
    Ok(v)
}

/// Returns the trimmed token type where it is `Bearer`, in any ASCII case.
pub fn require_bearer_token_type(value: &str) -> (r: Result<String, StdbAuthError>)
    ensures
        match r {
            Ok(v) => non_blank(value@) && eq_ignore_ascii_case_spec(trim_spec(value@), "Bearer"@)
                && v@ == trim_spec(value@),
            Err(e) => e matches StdbAuthError::InvalidTokenResponse(m) && if !non_blank(value@) {
                m@ == empty_field_text("token_type"@)
            } else {
                !eq_ignore_ascii_case_spec(trim_spec(value@), "Bearer"@)
                    && m@ == "`token_type` must be `Bearer`"@
            },
        },
{
    let v = require_non_empty(value, "token_type")?;
    if !eq_ignore_ascii_case(v.as_str(), "Bearer") {
        return Err(StdbAuthError::InvalidTokenResponse("`token_type` must be `Bearer`".to_owned()));
    }
    Ok(v)
}

/// Refuses an expiration of zero seconds.
pub fn validate_expires_in(expires_in: Option<u64>) -> (r: Result<Option<u64>, StdbAuthError>)
    ensures
        match r {
            Ok(v) => expires_in != Some(0u64) && v == expires_in,
            Err(e) => {
                &&& expires_in == Some(0u64)
                &&& e matches StdbAuthError::InvalidTokenResponse(m)
                &&& m@ == "`expires_in` must be greater than zero"@
            },
        },
{
    match expires_in {
        Some(0) => Err(StdbAuthError::InvalidTokenResponse("`expires_in` must be greater than zero".to_owned())),
        _ => Ok(expires_in),
    }
}

/// Whether the expiry of a response with `expires_in` can be represented
/// as an instant after `now`.
pub fn expiry_representable(now: u128, expires_in: Option<u64>) -> (r: bool)
    ensures
        r == expiry_fits(now, expires_in),
{
    match expires_in {
        Some(e) => (e as u128) * NANOS_PER_SECOND <= u128::MAX - now,
        None => true,
    }
}

/// The instant `expires_in` seconds after `now`, in nanoseconds.
pub fn expires_at_from(now: u128, expires_in: u64) -> (r: u128)
    requires
        expiry_instant(now, expires_in) <= u128::MAX,
    ensures
        r == expiry_instant(now, expires_in),
{
    now + (expires_in as u128) * NANOS_PER_SECOND
}

impl StdbTokenResponse {
    /// Validates this response and splits it into a session and its
    /// credential material. `now` is the current instant in nanoseconds; an
    /// accepted response must have an expiry that can be represented after
    /// it, as adding the duration to the instant panics otherwise.
    pub fn into_session_parts(
        self,
        client_id: Option<String>,
        source: StdbAuthSessionSource,
        post_logout_redirect_uri: Option<String>,
        now: u128,
    ) -> (r: Result<StdbAuthSessionParts, StdbAuthError>)
        requires
            token_response_error(self) is None ==> expiry_fits(now, self.expires_in),
        ensures
            match r {
                Ok(parts) => token_response_error(self) is None && parts_from_response(
                    parts, self, client_id, source, post_logout_redirect_uri, now),
                Err(e) => token_response_error(self) matches Some(m)
                    && e matches StdbAuthError::InvalidTokenResponse(s) && s@ == m,
            },
    {
        let access_token = require_non_empty(self.access_token.as_str(), "access_token")?;
        let token_type = require_bearer_token_type(self.token_type.as_str())?;
        let expires_in = validate_expires_in(self.expires_in)?;
        let id_token = match &self.id_token {
            Some(t) => Some(require_non_empty(t.as_str(), "id_token")?),
            None => None,
        };
        let refresh_token = optional_non_empty(self.refresh_token);
        let can_refresh = refresh_token.is_some();
        let credentials = StdbAuthCredentialMaterial::new(refresh_token, clone_opt(&id_token));
        let expires_at = match expires_in {
            Some(seconds) => Some(expires_at_from(now, seconds)),
            None => None,
        };
        let session = StdbAuthSession {
            access_token,
            token_type,
            expires_at,
            can_refresh,
            scope: optional_non_empty(self.scope),
            client_id,
            source,
            post_logout_redirect_uri,
            id_token,
        };
        Ok(StdbAuthSessionParts::new(session, credentials))
    }
}

} // verus!
