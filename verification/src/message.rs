//! Lifecycle messages that the authentication state machine emits.

use vstd::prelude::*;
use crate::commands::StdbAuthOperationKind;
use crate::error::StdbAuthCommandError;
use crate::session::StdbAuthSession;

verus! {

/// A message sent when authentication succeeds.
#[derive(Clone, Debug, PartialEq, Eq)]
pub struct StdbAuthSucceededMessage {
    /// The active authentication session.
    pub session: StdbAuthSession,
}

/// A message sent when authentication fails.
#[derive(Clone, Debug, PartialEq, Eq)]
pub struct StdbAuthFailedMessage {
    /// The failure message.
    pub message: String,
}

/// A message sent when an authentication command is rejected.
#[derive(Clone, Debug, PartialEq, Eq)]
pub struct StdbAuthCommandRejectedMessage {
    /// The operation that was rejected.
    pub operation: StdbAuthOperationKind,
    /// Why the operation was rejected.
    pub error: StdbAuthCommandError,
}

/// A message sent when the access token is refreshed.
#[derive(Clone, Debug, PartialEq, Eq)]
pub struct StdbAuthTokenRefreshedMessage {
    /// The active authentication session.
    pub session: StdbAuthSession,
}

/// A message sent when token refresh fails.
#[derive(Clone, Debug, PartialEq, Eq)]
pub struct StdbAuthRefreshFailedMessage {
    /// The failure message.
    pub message: String,
}

/// A message sent when logout succeeds.
#[derive(Clone, Copy, Debug, Default, PartialEq, Eq)]
pub struct StdbAuthLogoutSucceededMessage;

/// A message sent when logout fails.
#[derive(Clone, Debug, PartialEq, Eq)]
pub struct StdbAuthLogoutFailedMessage {
    /// The failure message.
    pub message: String,
}

/// A message sent when local auth session state is cleared.
#[derive(Clone, Copy, Debug, Default, PartialEq, Eq)]
pub struct StdbAuthSessionClearedMessage;

} // verus!
