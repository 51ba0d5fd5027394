//! Steam Web API ticket exchange through SpacetimeAuth.

use vstd::prelude::*;
use crate::form::{StdbTokenRequestForm, pair};
use crate::text::{decimal_spec, decimal_string};
use crate::urls::pairs_view;

verus! {

/// Options for authenticating with a Steam Web API ticket.
///
/// SpacetimeAuth must be configured with a Steam publisher key and the
/// Steam app IDs of the application.
#[derive(Clone, Debug, PartialEq, Eq)]
pub struct StdbSteamAuthOptions {
    /// The OAuth client identifier.
    pub client_id: String,
    /// The unique identifier for the Steam application.
    pub app_id: u32,
}

/// The lowercase hexadecimal digit of a nibble.
pub open spec fn hex_digit(n: u8) -> char {
    if n < 10 {
        ((n as u32) + 48) as char
    } else {
        ((n as u32) + 87) as char
    }
}

/// Lowercase hexadecimal encoding: two digits per byte, high nibble first.
pub open spec fn hex_lower_spec(bytes: Seq<u8>) -> Seq<char>
    decreases bytes.len(),
{
    if bytes.len() == 0 {
        Seq::empty()
    } else {
        hex_lower_spec(bytes.drop_last()).push(hex_digit(bytes.last() / 16)).push(hex_digit(bytes.last() % 16))
    }
}

/// `hex::encode`, which encodes bytes as lowercase hexadecimal, two digits
/// per byte, as its documentation states.
#[verifier::external_body]
fn hex_encode(bytes: &[u8]) -> (r: String)
    ensures
        r@ == hex_lower_spec(bytes@),
{
    hex::encode(bytes)
}

/// The fields of a Steam ticket grant, in the order they are sent.
pub open spec fn steam_form_fields(client_id: Seq<char>, app_id: u32, ticket: Seq<u8>) -> Seq<(Seq<char>, Seq<char>)> {
    seq![
        ("grant_type"@, "urn:spacetimeauth:steam-ticket"@),
        ("steam_ticket"@, hex_lower_spec(ticket)),
        ("client_id"@, client_id),
        ("steam_app_id"@, decimal_spec(app_id as nat)),
    ]
}

/// Builds the token request that exchanges a Steam Web API ticket.
pub fn steam_ticket_token_form(options: &StdbSteamAuthOptions, steam_ticket: &[u8]) -> (r: StdbTokenRequestForm)
    ensures
        pairs_view(r.params@) == steam_form_fields(options.client_id@, options.app_id, steam_ticket@),
{
    let mut params: Vec<(String, String)> = Vec::new();
    params.push(pair("grant_type", "urn:spacetimeauth:steam-ticket".to_owned()));
    params.push(pair("steam_ticket", hex_encode(steam_ticket)));
    params.push(pair("client_id", options.client_id.clone()));
    params.push(pair("steam_app_id", decimal_string(options.app_id as u64)));
    assert(pairs_view(params@) =~= steam_form_fields(options.client_id@, options.app_id, steam_ticket@));
    StdbTokenRequestForm { params }
}

} // verus!
