//! The sources from which a SpacetimeAuth session can be acquired.

use vstd::prelude::*;
use crate::oidc::StdbOidcAuthOptions;
use crate::session::StdbAuthSessionSource;
use crate::steam::StdbSteamAuthOptions;

verus! {

/// The source used to acquire a SpacetimeAuth session.
#[derive(Clone, Debug, PartialEq, Eq)]
pub enum StdbAuthSource {
    /// Uses the SpacetimeAuth OIDC authorization-code flow.
    Oidc(StdbOidcAuthOptions),
    /// Uses a Steam Web API ticket exchange through SpacetimeAuth.
    Steam(StdbSteamAuthOptions),
}

impl StdbAuthSource {
    /// The session source that this source yields.
    pub fn session_source(&self) -> (r: StdbAuthSessionSource)
        ensures
            r == (match self {
                StdbAuthSource::Oidc(_) => StdbAuthSessionSource::Oidc,
                StdbAuthSource::Steam(_) => StdbAuthSessionSource::Steam,
            }),
    {
        match self {
            StdbAuthSource::Oidc(_) => StdbAuthSessionSource::Oidc,
            StdbAuthSource::Steam(_) => StdbAuthSessionSource::Steam,
        }
    }
}

} // verus!
