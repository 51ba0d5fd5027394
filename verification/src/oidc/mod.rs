//! OIDC authorization-code support for SpacetimeAuth.

use vstd::prelude::*;

pub mod common;
pub mod native;
pub mod browser;

verus! {

/// Controls the OIDC `prompt` authorization parameter.
#[derive(Clone, Copy, Debug, Default, PartialEq, Eq, Structural)]
pub enum StdbOidcPrompt {
    /// Allows the provider to decide whether user interaction is required.
    #[default]
    Unspecified,
    /// Requests that the provider force user authentication.
    Login,
    /// Requests that the provider prompt for account selection.
    SelectAccount,
}

impl StdbOidcPrompt {
    /// The `prompt` parameter value of this prompt.
    pub open spec fn param_spec(self) -> Option<Seq<char>> {
        match self {
            StdbOidcPrompt::Unspecified => None,
            StdbOidcPrompt::Login => Some("login"@),
            StdbOidcPrompt::SelectAccount => Some("select_account"@),
        }
    }

    /// Returns the OIDC `prompt` parameter value.
    pub fn as_param(&self) -> (r: Option<&'static str>)
        ensures
            match r {
                Some(p) => self.param_spec() == Some(p@),
                None => self.param_spec() is None,
            },
    {
        match self {
            StdbOidcPrompt::Unspecified => None,
            StdbOidcPrompt::Login => Some("login"),
            StdbOidcPrompt::SelectAccount => Some("select_account"),
        }
    }
}

/// Options for the SpacetimeAuth OIDC authorization-code flow.
#[derive(Clone, Debug, PartialEq, Eq)]
pub struct StdbOidcAuthOptions {
    /// The OAuth client identifier.
    pub client_id: String,
    /// The redirect URI used by the client.
    pub redirect_uri: String,
    /// The URI returned to after provider logout.
    pub post_logout_redirect_uri: Option<String>,
    /// The requested OAuth scopes.
    pub scopes: Vec<String>,
    /// The prompt behavior for interactive authorization.
    pub prompt: StdbOidcPrompt,
}

} // verus!
