//! Session lifecycle logic for SpacetimeAuth tokens: token normalization,
//! OIDC request and callback handling, refresh scheduling and the
//! authentication state machine that the Bevy plugin drives.

pub mod text;
pub mod error;
pub mod session;
pub mod token;
pub mod urls;
pub mod form;
pub mod refresh;
pub mod transport;
pub mod oidc;
pub mod steam;
pub mod source;
pub mod persistence;
pub mod commands;
pub mod message;
pub mod set;
pub mod plugin;
