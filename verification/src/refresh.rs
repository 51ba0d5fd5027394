//! Token refresh: the request form, the merge of a refresh response into
//! the previous session, and when an expiring session is refreshed.

use vstd::prelude::*;
use crate::error::{StdbAuthError, StdbAuthErrorView};
use crate::form::{StdbTokenRequestForm, form_result_view, pair, require_non_empty};
use crate::session::{StdbAuthSession, StdbAuthSessionParts};
use crate::text::{clone_opt, non_blank, opt_view, trim_spec};
use crate::token::{StdbTokenResponse, empty_field_text, expiry_fits, parts_from_response, token_response_error};
use crate::urls::pairs_view;

verus! {

/// The fields of a refresh-token grant.
pub open spec fn refresh_form_fields(client_id: Seq<char>, refresh_token: Seq<char>) -> Seq<(Seq<char>, Seq<char>)> {
    seq![
        ("client_id"@, trim_spec(client_id)),
        ("grant_type"@, "refresh_token"@),
        ("refresh_token"@, trim_spec(refresh_token)),
    ]
}

/// The outcome of building a refresh-token grant form.
pub open spec fn refresh_form_result(client_id: Seq<char>, refresh_token: Seq<char>) -> Result<Seq<(Seq<char>, Seq<char>)>, StdbAuthErrorView> {
    if !non_blank(refresh_token) {
        Err(StdbAuthErrorView::InvalidConfig(empty_field_text("refresh_token"@)))
    } else if !non_blank(client_id) {
        Err(StdbAuthErrorView::InvalidConfig(empty_field_text("client_id"@)))
    } else {
        Ok(refresh_form_fields(client_id, refresh_token))
    }
}

/// Builds the refresh-token grant form; both values are trimmed and must
/// hold something besides white space.
pub fn refresh_token_form(client_id: &str, refresh_token: &str) -> (r: Result<StdbTokenRequestForm, StdbAuthError>)
    ensures
        form_result_view(r) == refresh_form_result(client_id@, refresh_token@),
{
    let token = require_non_empty(refresh_token, "refresh_token")?;
    let client = require_non_empty(client_id, "client_id")?;
    let mut params: Vec<(String, String)> = Vec::new();
    params.push(pair("client_id", client));
    params.push(pair("grant_type", "refresh_token".to_owned()));
    params.push(pair("refresh_token", token));
    assert(pairs_view(params@) =~= refresh_form_fields(client_id@, refresh_token@));
    Ok(StdbTokenRequestForm { params })
}

/// Keeps the previous refresh token where the response holds none, keeps
/// the previous scope where the response grants none, and marks the
/// session refreshable when a refresh token is held.
pub fn retain_refresh_context(
    previous_session: StdbAuthSession,
    previous_refresh_token: String,
    parts: StdbAuthSessionParts,
) -> (r: StdbAuthSessionParts)
    ensures
        r.credentials.refresh_token == (match parts.credentials.refresh_token {
            Some(t) => Some(t),
            None => Some(previous_refresh_token),
        }),
        r.credentials.id_token == parts.credentials.id_token,
        r.session.scope == (match parts.session.scope {
            Some(s) => Some(s),
            None => previous_session.scope,
        }),
        r.session.can_refresh,
        r.session == (StdbAuthSession { scope: r.session.scope, can_refresh: true, ..parts.session }),
{
    let mut parts = parts;
    if parts.credentials.refresh_token.is_none() {
        parts.credentials.refresh_token = Some(previous_refresh_token);
    }
    if parts.session.scope.is_none() {
        parts.session.scope = previous_session.scope;
    }
    parts.session.can_refresh = parts.credentials.has_refresh_token();
    parts
}

/// Whether a session is due for refresh at `now`: it has an expiration no
/// later than `refresh_buffer` nanoseconds from `now`.
pub open spec fn refresh_due(session: StdbAuthSession, now: u128, refresh_buffer: u128) -> bool {
    match session.expires_at {
        Some(expires_at) => expires_at <= now + refresh_buffer,
        None => false,
    }
}

/// A session that is due for refresh stays due as time passes.
pub proof fn law_refresh_due_monotonic(session: StdbAuthSession, earlier: u128, later: u128, refresh_buffer: u128)
    requires
        earlier <= later,
        refresh_due(session, earlier, refresh_buffer),
    ensures
        refresh_due(session, later, refresh_buffer),
{
}

/// Whether `session` should be refreshed at `now`, given the refresh buffer.
/// The instant `now + refresh_buffer` must be representable where the
/// session has an expiration, as adding the buffer to the instant panics
/// otherwise.
pub fn should_refresh_session(session: &StdbAuthSession, now: u128, refresh_buffer: u128) -> (r: bool)
    requires
        session.expires_at is Some ==> now + refresh_buffer <= u128::MAX,
    ensures
        r == refresh_due(*session, now, refresh_buffer),
{
    match session.expires_at {
        Some(expires_at) => expires_at <= now + refresh_buffer,
        None => false,
    }
}

/// The request of a refresh: the grant form for the session's client ID.
pub fn refresh_request(session: &StdbAuthSession, refresh_token: &str) -> (r: Result<StdbTokenRequestForm, StdbAuthError>)
    ensures
        form_result_view(r) == match session.client_id {
            None => Err(StdbAuthErrorView::InvalidConfig("refresh requires a session client ID"@)),
            Some(client_id) => refresh_form_result(client_id@, refresh_token@),
        },
{
    match &session.client_id {
        Some(client_id) => refresh_token_form(client_id.as_str(), refresh_token),
        None => Err(StdbAuthError::InvalidConfig("refresh requires a session client ID".to_owned())),
    }
}

/// Completes a refresh with the token endpoint's response: the response is
/// normalized for the session's client, source and logout URI, and the
/// previous refresh token and scope are kept where the response omits them.
pub fn complete_refresh(
    session: StdbAuthSession,
    refresh_token: String,
    response: StdbTokenResponse,
    now: u128,
) -> (r: Result<StdbAuthSessionParts, StdbAuthError>)
    requires
        session.client_id is Some && token_response_error(response) is None
            ==> expiry_fits(now, response.expires_in),
    ensures
        match session.client_id {
            None => r matches Err(e) && e@ == StdbAuthErrorView::InvalidConfig("refresh requires a session client ID"@),
            Some(client_id) => match r {
                Ok(parts) => {
                    &&& token_response_error(response) is None
                    &&& exists|fresh: StdbAuthSessionParts| {
                        &&& parts_from_response(fresh, response, Some(client_id), session.source,
                            session.post_logout_redirect_uri, now)
                        &&& parts.credentials.refresh_token == (match fresh.credentials.refresh_token {
                            Some(t) => Some(t),
                            None => Some(refresh_token),
                        })
                        &&& parts.credentials.id_token == fresh.credentials.id_token
                        &&& parts.session.scope == (match fresh.session.scope {
                            Some(s) => Some(s),
                            None => session.scope,
                        })
                        &&& parts.session == (StdbAuthSession { scope: parts.session.scope, can_refresh: true, ..fresh.session })
                    }
                },
                Err(e) => token_response_error(response) matches Some(m)
                    && e@ == StdbAuthErrorView::InvalidTokenResponse(m),
            },
        },
{
    let client_id = match &session.client_id {
        Some(c) => c.clone(),
        None => return Err(StdbAuthError::InvalidConfig("refresh requires a session client ID".to_owned())),
    };
    let fresh = response.into_session_parts(
        Some(client_id),
        session.source,
        clone_opt(&session.post_logout_redirect_uri),
        now,
    )?;
    let parts = retain_refresh_context(session, refresh_token, fresh);
    Ok(parts)
}

} // verus!
