//! Errors of authentication commands and of the authentication lifecycle.

use vstd::prelude::*;
use crate::text::concat2;

verus! {

/// An error returned when an authentication command cannot be accepted.
#[derive(Clone, Debug, PartialEq, Eq)]
pub enum StdbAuthCommandError {
    /// Another authentication operation is already pending.
    PendingOperation,
    /// No authentication session is active.
    NoSession,
    /// No authentication operation is pending.
    NoPendingOperation,
    /// The active session cannot be refreshed.
    MissingRefreshToken,
    /// The active session does not include a client ID.
    MissingClientId,
    /// The command is not supported by the active authentication source.
    Unsupported(String),
}

/// An authentication lifecycle error.
///
/// Transport and decoding failures carry the text of the underlying error.
#[derive(Clone, Debug, PartialEq, Eq)]
pub enum StdbAuthError {
    /// An authentication command could not be accepted.
    Command(StdbAuthCommandError),
    /// An HTTP request failed.
    Http(String),
    /// A JSON payload failed to decode.
    Decode(String),
    /// The requested operation timed out.
    Timeout,
    /// The authentication configuration is invalid.
    InvalidConfig(String),
    /// A token endpoint response is invalid.
    InvalidTokenResponse(String),
    /// An OIDC callback URL is invalid.
    InvalidOidcCallback(String),
    /// The authentication provider returned an error.
    Provider(String),
    /// The requested operation is not supported by the current auth source.
    Unsupported(String),
    /// An internal authentication operation failed.
    Internal(String),
}

/// A lifecycle error with its texts taken as character sequences.
pub enum StdbAuthErrorView {
    Command(StdbAuthCommandError),
    Http(Seq<char>),
    Decode(Seq<char>),
    Timeout,
    InvalidConfig(Seq<char>),
    InvalidTokenResponse(Seq<char>),
    InvalidOidcCallback(Seq<char>),
    Provider(Seq<char>),
    Unsupported(Seq<char>),
    Internal(Seq<char>),
}

impl View for StdbAuthError {
    type V = StdbAuthErrorView;

    open spec fn view(&self) -> StdbAuthErrorView {
        match self {
            StdbAuthError::Command(c) => StdbAuthErrorView::Command(*c),
            StdbAuthError::Http(s) => StdbAuthErrorView::Http(s@),
            StdbAuthError::Decode(s) => StdbAuthErrorView::Decode(s@),
            StdbAuthError::Timeout => StdbAuthErrorView::Timeout,
            StdbAuthError::InvalidConfig(s) => StdbAuthErrorView::InvalidConfig(s@),
            StdbAuthError::InvalidTokenResponse(s) => StdbAuthErrorView::InvalidTokenResponse(s@),
            StdbAuthError::InvalidOidcCallback(s) => StdbAuthErrorView::InvalidOidcCallback(s@),
            StdbAuthError::Provider(s) => StdbAuthErrorView::Provider(s@),
            StdbAuthError::Unsupported(s) => StdbAuthErrorView::Unsupported(s@),
            StdbAuthError::Internal(s) => StdbAuthErrorView::Internal(s@),
        }
    }
}

/// The display text of a command error.
pub open spec fn command_error_text(e: StdbAuthCommandError) -> Seq<char> {
    match e {
        StdbAuthCommandError::PendingOperation => "another authentication operation is already pending"@,
        StdbAuthCommandError::NoSession => "no authentication session is active"@,
        StdbAuthCommandError::NoPendingOperation => "no authentication operation is pending"@,
        StdbAuthCommandError::MissingRefreshToken => "the active authentication session cannot be refreshed"@,
        StdbAuthCommandError::MissingClientId => "the active authentication session does not include a client ID"@,
        StdbAuthCommandError::Unsupported(s) => "unsupported authentication command: "@ + s@,
    }
}

/// The display text of a lifecycle error.
pub open spec fn auth_error_text(e: StdbAuthError) -> Seq<char> {
    match e {
        StdbAuthError::Command(c) => "auth command rejected: "@ + command_error_text(c),
        StdbAuthError::Http(s) => "auth HTTP request failed: "@ + s@,
        StdbAuthError::Decode(s) => "auth response decode failed: "@ + s@,
        StdbAuthError::Timeout => "auth operation timed out"@,
        StdbAuthError::InvalidConfig(s) => "invalid auth configuration: "@ + s@,
        StdbAuthError::InvalidTokenResponse(s) => "invalid token response: "@ + s@,
        StdbAuthError::InvalidOidcCallback(s) => "invalid OIDC callback: "@ + s@,
        StdbAuthError::Provider(s) => "auth provider error: "@ + s@,
        StdbAuthError::Unsupported(s) => "unsupported auth operation: "@ + s@,
        StdbAuthError::Internal(s) => "auth operation failed: "@ + s@,
    }
}

impl StdbAuthCommandError {
    /// The display text of this error.
    pub fn to_message(&self) -> (r: String)
        ensures
            r@ == command_error_text(*self),
    {
        match self {
            StdbAuthCommandError::PendingOperation => "another authentication operation is already pending".to_owned(),
            StdbAuthCommandError::NoSession => "no authentication session is active".to_owned(),
            StdbAuthCommandError::NoPendingOperation => "no authentication operation is pending".to_owned(),
            StdbAuthCommandError::MissingRefreshToken => "the active authentication session cannot be refreshed".to_owned(),
            StdbAuthCommandError::MissingClientId => "the active authentication session does not include a client ID".to_owned(),
            StdbAuthCommandError::Unsupported(s) => concat2("unsupported authentication command: ", s.as_str()),
        }
    }
}

impl StdbAuthError {
    /// The display text of this error.
    pub fn to_message(&self) -> (r: String)
        ensures
            r@ == auth_error_text(*self),
    {
        match self {
            StdbAuthError::Command(c) => {
                let m = c.to_message();
                concat2("auth command rejected: ", m.as_str())
            },
            StdbAuthError::Http(s) => concat2("auth HTTP request failed: ", s.as_str()),
            StdbAuthError::Decode(s) => concat2("auth response decode failed: ", s.as_str()),
            StdbAuthError::Timeout => "auth operation timed out".to_owned(),
            StdbAuthError::InvalidConfig(s) => concat2("invalid auth configuration: ", s.as_str()),
            StdbAuthError::InvalidTokenResponse(s) => concat2("invalid token response: ", s.as_str()),
            StdbAuthError::InvalidOidcCallback(s) => concat2("invalid OIDC callback: ", s.as_str()),
            StdbAuthError::Provider(s) => concat2("auth provider error: ", s.as_str()),
            StdbAuthError::Unsupported(s) => concat2("unsupported auth operation: ", s.as_str()),
            StdbAuthError::Internal(s) => concat2("auth operation failed: ", s.as_str()),
        }
    }
}

impl From<StdbAuthCommandError> for StdbAuthError {
    fn from(error: StdbAuthCommandError) -> (r: Self) {
        StdbAuthError::Command(error)
    }
}

impl vstd::std_specs::convert::FromSpecImpl<StdbAuthCommandError> for StdbAuthError {
    open spec fn obeys_from_spec() -> bool {
        true
    }

    open spec fn from_spec(error: StdbAuthCommandError) -> Self {
        StdbAuthError::Command(error)
    }
}

} // verus!
