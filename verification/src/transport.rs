//! The SpacetimeAuth endpoints and the token request timeout.

use vstd::prelude::*;
use crate::error::{StdbAuthError, StdbAuthErrorView};

verus! {

/// The SpacetimeAuth authorization endpoint.
pub open spec fn authorization_endpoint_spec() -> Seq<char> {
    "https://auth.spacetimedb.com/oidc/auth"@
}

/// The SpacetimeAuth token endpoint.
pub open spec fn token_endpoint_spec() -> Seq<char> {
    "https://auth.spacetimedb.com/oidc/token"@
}

/// The SpacetimeAuth end-session endpoint.
pub open spec fn end_session_endpoint_spec() -> Seq<char> {
    "https://auth.spacetimedb.com/oidc/session/end"@
}

/// The default token request timeout: ten seconds, in nanoseconds.
pub const DEFAULT_TOKEN_REQUEST_TIMEOUT: u128 = 10_000_000_000;

/// HTTP transport settings for SpacetimeAuth provider requests.
#[derive(Clone, Copy, Debug, PartialEq, Eq)]
pub struct StdbAuthTransportConfig {
    /// The timeout of token endpoint requests, in nanoseconds.
    pub token_request_timeout: Option<u128>,
}

impl Default for StdbAuthTransportConfig {
    fn default() -> (r: Self)
        ensures
            r.token_request_timeout == Some(DEFAULT_TOKEN_REQUEST_TIMEOUT),
    {
        StdbAuthTransportConfig { token_request_timeout: Some(DEFAULT_TOKEN_REQUEST_TIMEOUT) }
    }
}

impl StdbAuthTransportConfig {
    /// Creates a configuration; a timeout of zero is refused.
    pub fn try_new(token_request_timeout: Option<u128>) -> (r: Result<Self, StdbAuthError>)
        ensures
            match r {
                Ok(c) => token_request_timeout != Some(0u128) && c.token_request_timeout == token_request_timeout,
                Err(e) => token_request_timeout == Some(0u128)
                    && e@ == StdbAuthErrorView::InvalidConfig("token request timeout must be greater than zero"@),
            },
    {
        if token_request_timeout == Some(0u128) {
            return Err(StdbAuthError::InvalidConfig("token request timeout must be greater than zero".to_owned()));
        }
        Ok(StdbAuthTransportConfig { token_request_timeout })
    }

    /// The SpacetimeAuth authorization endpoint URL.
    pub fn authorization_endpoint_url(&self) -> (r: &'static str)
        ensures
            r@ == authorization_endpoint_spec(),
    {
        "https://auth.spacetimedb.com/oidc/auth"
    }

    /// The SpacetimeAuth token endpoint URL.
    pub fn token_endpoint_url(&self) -> (r: &'static str)
        ensures
            r@ == token_endpoint_spec(),
    {
        "https://auth.spacetimedb.com/oidc/token"
    }

    /// The SpacetimeAuth end-session endpoint URL.
    pub fn end_session_endpoint_url(&self) -> (r: &'static str)
        ensures
            r@ == end_session_endpoint_spec(),
    {
        "https://auth.spacetimedb.com/oidc/session/end"
    }

    /// The token request timeout, in nanoseconds.
    pub fn token_request_timeout(&self) -> (r: Option<u128>)
        ensures
            r == self.token_request_timeout,
    {
        self.token_request_timeout
    }
}

} // verus!
