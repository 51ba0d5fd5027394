//! Authentication command options and the work that a logout performs.

use vstd::prelude::*;
use crate::persistence::persisted_credentials_to_clear;
use crate::session::{StdbAuthSession, StdbAuthSessionSource};
use crate::source::StdbAuthSource;
use crate::text::{concat3, non_blank, opt_view, trim};
use crate::transport::{StdbAuthTransportConfig, end_session_endpoint_spec};
use crate::urls::{form_urlencoded, pairs_view, spec_form_urlencoded};
use crate::form::pair;

verus! {

/// The kind of authentication operation requested by a command.
#[derive(Clone, Copy, Debug, PartialEq, Eq, Structural)]
pub enum StdbAuthOperationKind {
    /// A login operation.
    Login,
    /// A logout operation.
    Logout,
    /// A token refresh operation.
    Refresh,
    /// A pending-operation cancellation.
    Cancel,
}

/// Options for starting an authentication flow.
#[derive(Clone, Debug, PartialEq, Eq)]
pub struct StdbLoginOptions {
    /// The authentication source used to acquire a session.
    pub source: StdbAuthSource,
}

impl StdbLoginOptions {
    /// Creates [`StdbLoginOptions`] with the given [`StdbAuthSource`].
    pub fn new(source: StdbAuthSource) -> (r: Self)
        ensures
            r.source == source,
    {
        StdbLoginOptions { source }
    }
}

/// Options for logging out of the current authentication session.
#[derive(Clone, Copy, Debug, PartialEq, Eq, Structural)]
pub struct StdbLogoutOptions {
    /// Whether the SpacetimeAuth provider session should be ended.
    pub end_provider_session: bool,
    /// Whether provider-backed local credentials should be cleared.
    pub clear_stored_credentials: bool,
}

impl Default for StdbLogoutOptions {
    fn default() -> (r: Self)
        ensures
            r.end_provider_session,
            !r.clear_stored_credentials,
    {
        StdbLogoutOptions { end_provider_session: true, clear_stored_credentials: false }
    }
}

/// One query pair where the value holds something besides white space.
pub open spec fn pair_if_present(key: Seq<char>, value: Option<Seq<char>>) -> Seq<(Seq<char>, Seq<char>)> {
    match value {
        Some(v) => if non_blank(v) { seq![(key, v)] } else { Seq::empty() },
        None => Seq::empty(),
    }
}

/// The query pairs of the end-session request.
pub open spec fn end_session_pairs(session: StdbAuthSession, id_token_hint: Option<Seq<char>>) -> Seq<(Seq<char>, Seq<char>)> {
    pair_if_present("id_token_hint"@, id_token_hint)
        + pair_if_present("post_logout_redirect_uri"@, opt_view(session.post_logout_redirect_uri))
        + pair_if_present("client_id"@, opt_view(session.client_id))
}

/// The end-session URL: the endpoint, with the present pairs as its query.
pub open spec fn end_session_url_spec(session: StdbAuthSession, id_token_hint: Option<Seq<char>>) -> Seq<char> {
    let pairs = end_session_pairs(session, id_token_hint);
    if pairs.len() == 0 {
        end_session_endpoint_spec()
    } else {
        end_session_endpoint_spec() + "?"@ + spec_form_urlencoded(pairs)
    }
}

/// Appends the pair `(key, value)` where the value holds something besides
/// white space.
fn push_if_present(params: &mut Vec<(String, String)>, key: &str, value: Option<&str>)
    ensures
        pairs_view(final(params)@) == pairs_view(old(params)@) + pair_if_present(key@, match value {
            Some(v) => Some(v@),
            None => None,
        }),
{
    match value {
        Some(v) => {
            let t = trim(v);
            if !t.as_str().is_empty() {
                params.push(pair(key, v.to_owned()));
            }
        },
        None => {},
    }
    assert(pairs_view(params@) =~= pairs_view(old(params)@) + pair_if_present(key@, match value {
        Some(v) => Some(v@),
        None => None,
    }));
}

/// The SpacetimeAuth end-session URL for `session`, with the ID token hint,
/// the post-logout redirect URI and the client ID where they are present.
pub fn build_end_session_url(
    session: &StdbAuthSession,
    id_token_hint: Option<&str>,
    transport_config: &StdbAuthTransportConfig,
) -> (r: String)
    ensures
        r@ == end_session_url_spec(*session, match id_token_hint {
            Some(h) => Some(h@),
            None => None,
        }),
{
    let mut params: Vec<(String, String)> = Vec::new();
    push_if_present(&mut params, "id_token_hint", id_token_hint);
    match &session.post_logout_redirect_uri {
        Some(uri) => push_if_present(&mut params, "post_logout_redirect_uri", Some(uri.as_str())),
        None => push_if_present(&mut params, "post_logout_redirect_uri", None),
    }
    match &session.client_id {
        Some(client_id) => push_if_present(&mut params, "client_id", Some(client_id.as_str())),
        None => push_if_present(&mut params, "client_id", None),
    }
    assert(pairs_view(params@) =~= end_session_pairs(*session, match id_token_hint {
        Some(h) => Some(h@),
        None => None,
    }));
    let endpoint = transport_config.end_session_endpoint_url();
    if params.len() == 0 {
        return endpoint.to_owned();
    }
    let query = form_urlencoded(&params);
    concat3(endpoint, "?", query.as_str())
}

/// The outside work of a logout, decided before it runs.
#[derive(Clone, Debug, PartialEq, Eq)]
pub struct StdbLogoutPlan {
    /// The client ID whose stored refresh token is removed, where the
    /// stored credentials are cleared.
    pub clear_stored_credentials_for: Option<String>,
    /// The end-session URL that the user agent is sent to, where the
    /// provider session is ended.
    pub end_session_url: Option<String>,
}

/// Decides the work of a logout of `session`: stored credentials are
/// cleared and the provider session is ended only as the options ask, and
/// only for OIDC sessions.
pub fn logout_plan(
    session: &StdbAuthSession,
    id_token_hint: &Option<String>,
    options: StdbLogoutOptions,
    transport_config: &StdbAuthTransportConfig,
) -> (r: StdbLogoutPlan)
    ensures
        r.clear_stored_credentials_for == (if options.clear_stored_credentials
            && session.source == StdbAuthSessionSource::Oidc { session.client_id } else { None }),
        match r.end_session_url {
            Some(url) => options.end_provider_session && session.source == StdbAuthSessionSource::Oidc
                && url@ == end_session_url_spec(*session, opt_view(*id_token_hint)),
            None => !options.end_provider_session || session.source != StdbAuthSessionSource::Oidc,
        },
{
    let clear_stored_credentials_for = if options.clear_stored_credentials {
        persisted_credentials_to_clear(session)
    } else {
        None
    };
    let end_session_url = if options.end_provider_session && session.source == StdbAuthSessionSource::Oidc {
        match id_token_hint {
            Some(hint) => Some(build_end_session_url(session, Some(hint.as_str()), transport_config)),
            None => Some(build_end_session_url(session, None, transport_config)),
        }
    } else {
        None
    };
    StdbLogoutPlan { clear_stored_credentials_for, end_session_url }
}

} // verus!
