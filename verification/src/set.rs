//! The stages of authentication work within a frame.

use vstd::prelude::*;

verus! {

/// Labels the systems that manage SpacetimeAuth lifecycle work, in the
/// order they run.
#[derive(Clone, Copy, Debug, PartialEq, Eq, Hash, Structural)]
pub enum StdbAuthSet {
    /// Runs application systems that submit authentication commands.
    Command,
    /// Resumes browser OIDC callbacks when running on browser targets.
    BrowserCallback,
    /// Requests automatic refresh operations for expiring sessions.
    AutoRefresh,
    /// Polls pending authentication operations and applies their results.
    Poll,
}

} // verus!
