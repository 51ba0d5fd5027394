//! OIDC request construction and callback parsing shared by the native and
//! browser flows.

use vstd::prelude::*;
use vstd::string::StringExecFnsIsAscii;
use super::{StdbOidcAuthOptions, StdbOidcPrompt};
use crate::error::{StdbAuthError, StdbAuthErrorView};
use crate::form::{StdbTokenRequestForm, form_result_view, pair, require_non_empty};
use crate::text::{
    concat2, concat3, join_space, join_with_space, non_blank, opt_view, strings_view, trim, trim_spec,
};
use crate::token::empty_field_text;
use crate::transport::{authorization_endpoint_spec, StdbAuthTransportConfig};
use crate::urls::{
    ParsedUrl, ParsedUrlView, first_value, form_urlencoded, pairs_view, parse_url, query_param,
    spec_form_urlencoded, spec_parse_url,
};

verus! {

/// An OIDC authorization request and the values kept to validate its callback.
#[derive(Clone, Debug, PartialEq, Eq)]
pub struct StdbOidcAuthorizationRequest {
    /// The URL that the user agent is sent to.
    pub authorization_url: String,
    /// The CSRF `state` value sent with the request.
    pub state: String,
    /// The PKCE code verifier of the request.
    pub pkce_verifier: String,
}

/// An authorization code returned by SpacetimeAuth.
#[derive(Clone, Debug, PartialEq, Eq)]
pub struct StdbOidcAuthorizationCode {
    /// The authorization code.
    pub code: String,
}

/// What `oauth2::PkceCodeChallenge::from_code_verifier_sha256` yields for a
/// verifier: the URL-safe base64 SHA-256 digest of it.
pub uninterp spec fn spec_pkce_s256_challenge(verifier: Seq<char>) -> Seq<char>;

/// A character of the URL-safe base64 alphabet: `A`-`Z`, `a`-`z`, `0`-`9`,
/// `-` and `_`.
pub open spec fn url_safe_base64_char(c: char) -> bool {
    ||| ('A' <= c && c <= 'Z')
    ||| ('a' <= c && c <= 'z')
    ||| ('0' <= c && c <= '9')
    ||| c == '-'
    ||| c == '_'
}

/// `n` characters of the URL-safe base64 alphabet, as the unpadded encoding
/// of random bytes is written.
pub open spec fn url_safe_base64_text(s: Seq<char>, n: nat) -> bool {
    &&& s.len() == n
    &&& forall|i: int| 0 <= i < s.len() ==> url_safe_base64_char(#[trigger] s[i])
}

/// `oauth2::PkceCodeChallenge::new_random_sha256`, which encodes 32 random
/// bytes as URL-safe base64 without padding: the verifier has 43 characters
/// of that alphabet. Its value is random; nothing else is claimed.
#[verifier::external_body]
fn new_pkce_verifier() -> (r: String)
    ensures
        url_safe_base64_text(r@, 43),
        r.is_ascii(),
{
    let (_challenge, verifier) = oauth2::PkceCodeChallenge::new_random_sha256();
    verifier.into_secret()
}

/// `oauth2::PkceCodeChallenge::from_code_verifier_sha256`: the challenge is
/// named by [`spec_pkce_s256_challenge`] and its method is `S256`. The
/// function panics on verifiers outside 43..=128 bytes, which `requires`
/// leaves out.
#[verifier::external_body]
fn pkce_s256_challenge(verifier: &str) -> (r: (String, String))
    requires
        verifier.is_ascii(),
        43 <= verifier@.len() <= 128,
    ensures
        r.0@ == spec_pkce_s256_challenge(verifier@),
        r.1@ == "S256"@,
{
    let challenge = oauth2::PkceCodeChallenge::from_code_verifier_sha256(
        &oauth2::PkceCodeVerifier::new(verifier.to_string()),
    );
    (challenge.as_str().to_string(), challenge.method().as_str().to_string())
}

/// `oauth2::CsrfToken::new_random`, which encodes 16 random bytes as
/// URL-safe base64 without padding: the token has 22 characters of that
/// alphabet. Its value is random; nothing else is claimed.
#[verifier::external_body]
fn new_csrf_state() -> (r: String)
    ensures
        url_safe_base64_text(r@, 22),
{
    oauth2::CsrfToken::new_random().into_secret()
}

/// The scopes that hold something besides white space, trimmed, in order.
pub open spec fn normalized_scopes_spec(scopes: Seq<Seq<char>>) -> Seq<Seq<char>>
    decreases scopes.len(),
{
    if scopes.len() == 0 {
        Seq::empty()
    } else {
        let rest = normalized_scopes_spec(scopes.drop_last());
        if non_blank(scopes.last()) {
            rest.push(trim_spec(scopes.last()))
        } else {
            rest
        }
    }
}

/// Trims the scopes and drops those that hold only white space.
pub fn normalized_scopes(scopes: &Vec<String>) -> (r: Vec<String>)
    ensures
        strings_view(r@) == normalized_scopes_spec(strings_view(scopes@)),
{
    let mut r: Vec<String> = Vec::new();
    let n = scopes.len();
    let mut i: usize = 0;
    while i < n
        invariant
            n == scopes@.len(),
            i <= n,
            strings_view(r@) == normalized_scopes_spec(strings_view(scopes@).take(i as int)),
        decreases n - i,
    {
        let ghost prefix = strings_view(scopes@).take(i as int + 1);
        assert(prefix.drop_last() =~= strings_view(scopes@).take(i as int));
        assert(prefix.last() == scopes@[i as int]@);
        let scope = trim(scopes[i].as_str());
        if !scope.as_str().is_empty() {
            r.push(scope);
            assert(strings_view(r@) =~= normalized_scopes_spec(prefix));
        }
        i = i + 1;
    }
    assert(strings_view(scopes@).take(n as int) =~= strings_view(scopes@));
    r
}

/// The outcome of validating a redirect URI: it is trimmed, must hold
/// something besides white space, must parse, and must have no fragment.
pub open spec fn redirect_uri_result(redirect_uri: Seq<char>) -> Result<ParsedUrlView, StdbAuthErrorView> {
    if !non_blank(redirect_uri) {
        Err(StdbAuthErrorView::InvalidConfig(empty_field_text("redirect_uri"@)))
    } else {
        match spec_parse_url(trim_spec(redirect_uri)) {
            Err(e) => Err(StdbAuthErrorView::InvalidConfig("`redirect_uri` is invalid: "@ + e)),
            Ok(u) => if u.fragment is Some {
                Err(StdbAuthErrorView::InvalidConfig("`redirect_uri` must not include a fragment"@))
            } else {
                Ok(u)
            },
        }
    }
}

/// A URL result with its strings taken as character sequences.
pub open spec fn url_result_view(r: Result<ParsedUrl, StdbAuthError>) -> Result<ParsedUrlView, StdbAuthErrorView> {
    match r {
        Ok(u) => Ok(u@),
        Err(e) => Err(e@),
    }
}

/// Validates a configured redirect URI.
pub fn validate_redirect_uri(redirect_uri: &str) -> (r: Result<ParsedUrl, StdbAuthError>)
    ensures
        url_result_view(r) == redirect_uri_result(redirect_uri@),
{
    let trimmed = require_non_empty(redirect_uri, "redirect_uri")?;
    let url = match parse_url(trimmed.as_str()) {
        Ok(u) => u,
        Err(e) => return Err(StdbAuthError::InvalidConfig(concat2("`redirect_uri` is invalid: ", e.as_str()))),
    };
    if url.fragment.is_some() {
        return Err(StdbAuthError::InvalidConfig("`redirect_uri` must not include a fragment".to_owned()));
    }
    Ok(url)
}

/// The query pairs of an authorization request.
pub open spec fn authorization_pairs(
    client_id: Seq<char>,
    redirect_uri: Seq<char>,
    state: Seq<char>,
    challenge: Seq<char>,
    scopes: Seq<Seq<char>>,
    prompt: Option<Seq<char>>,
) -> Seq<(Seq<char>, Seq<char>)> {
    seq![
        ("response_type"@, "code"@),
        ("client_id"@, client_id),
        ("redirect_uri"@, redirect_uri),
        ("state"@, state),
        ("code_challenge"@, challenge),
        ("code_challenge_method"@, "S256"@),
    ] + (if scopes.len() > 0 { seq![("scope"@, join_space(scopes))] } else { Seq::empty() })
      + (match prompt { Some(p) => seq![("prompt"@, p)], None => Seq::empty() })
}

/// The authorization query starts with the six fixed PKCE parameters; it
/// carries a `scope` pair, the scopes joined by single spaces, exactly when
/// there are scopes, whatever the prompt; and it ends with a `prompt` pair
/// exactly when the prompt has a value.
pub proof fn law_authorization_pairs_carry_scope_and_prompt(
    client_id: Seq<char>,
    redirect_uri: Seq<char>,
    state: Seq<char>,
    challenge: Seq<char>,
    scopes: Seq<Seq<char>>,
    prompt: Option<Seq<char>>,
)
    ensures ({
        let p = authorization_pairs(client_id, redirect_uri, state, challenge, scopes, prompt);
        &&& p.len() == 6 + (if scopes.len() > 0 { 1int } else { 0int }) + (if prompt is Some { 1int } else { 0int })
        &&& p[0] == ("response_type"@, "code"@)
        &&& p[1] == ("client_id"@, client_id)
        &&& p[2] == ("redirect_uri"@, redirect_uri)
        &&& p[3] == ("state"@, state)
        &&& p[4] == ("code_challenge"@, challenge)
        &&& p[5] == ("code_challenge_method"@, "S256"@)
        &&& scopes.len() > 0 ==> p[6] == ("scope"@, join_space(scopes))
        &&& scopes.len() == 0 ==> forall|i: int| 0 <= i < p.len() ==> (#[trigger] p[i]).0 != "scope"@
        &&& prompt matches Some(v) ==> p[p.len() - 1] == ("prompt"@, v)
        &&& prompt is None ==> forall|i: int| 0 <= i < p.len() ==> (#[trigger] p[i]).0 != "prompt"@
    }),
{
    reveal_strlit("response_type");
    reveal_strlit("client_id");
    reveal_strlit("redirect_uri");
    reveal_strlit("state");
    reveal_strlit("code_challenge");
    reveal_strlit("code_challenge_method");
    reveal_strlit("scope");
    reveal_strlit("prompt");
    let p = authorization_pairs(client_id, redirect_uri, state, challenge, scopes, prompt);
    assert("scope"@.len() == 5 && "prompt"@.len() == 6);
    assert("response_type"@.len() == 13 && "client_id"@.len() == 9);
    assert(p[0].0 != "scope"@ && p[0].0 != "prompt"@);
    assert(p[1].0 != "scope"@ && p[1].0 != "prompt"@);
    assert(p[2].0 != "scope"@ && p[2].0 != "prompt"@);
    assert("state"@.len() == 5 && "state"@[1] == 't' && "scope"@[1] == 'c');
    assert(p[3].0 != "scope"@ && p[3].0 != "prompt"@);
    assert(p[4].0 != "scope"@ && p[4].0 != "prompt"@);
    assert(p[5].0 != "scope"@ && p[5].0 != "prompt"@);
    assert("scope"@ != "prompt"@);
}

/// Builds a SpacetimeAuth OIDC authorization request with a fresh PKCE
/// verifier and CSRF state.
pub fn build_authorization_request(
    options: &StdbOidcAuthOptions,
    transport_config: &StdbAuthTransportConfig,
) -> (r: Result<StdbOidcAuthorizationRequest, StdbAuthError>)
    ensures
        match r {
            Err(e) => if !non_blank(options.client_id@) {
                e@ == StdbAuthErrorView::InvalidConfig(empty_field_text("client_id"@))
            } else {
                redirect_uri_result(options.redirect_uri@) == Err::<ParsedUrlView, StdbAuthErrorView>(e@)
            },
            Ok(request) => {
                &&& non_blank(options.client_id@)
                &&& redirect_uri_result(options.redirect_uri@) matches Ok(redirect)
                &&& url_safe_base64_text(request.pkce_verifier@, 43)
                &&& url_safe_base64_text(request.state@, 22)
                &&& request.authorization_url@ == authorization_endpoint_spec() + "?"@ + spec_form_urlencoded(
                    authorization_pairs(
                        trim_spec(options.client_id@),
                        redirect.serialization,
                        request.state@,
                        spec_pkce_s256_challenge(request.pkce_verifier@),
                        normalized_scopes_spec(strings_view(options.scopes@)),
                        options.prompt.param_spec(),
                    ),
                )
            },
        },
{
    let client_id = require_non_empty(options.client_id.as_str(), "client_id")?;
    let redirect_uri = validate_redirect_uri(options.redirect_uri.as_str())?;
    let scopes = normalized_scopes(&options.scopes);
    let pkce_verifier = new_pkce_verifier();
    let (challenge, method) = pkce_s256_challenge(pkce_verifier.as_str());
    let state = new_csrf_state();

    let mut pairs: Vec<(String, String)> = Vec::new();
    pairs.push(pair("response_type", "code".to_owned()));
    pairs.push(pair("client_id", client_id));
    pairs.push(pair("redirect_uri", redirect_uri.serialization));
    pairs.push(pair("state", state.clone()));
    pairs.push(pair("code_challenge", challenge));
    pairs.push(pair("code_challenge_method", method));
    let ghost base = pairs_view(pairs@);
    if scopes.len() > 0 {
        pairs.push(pair("scope", join_with_space(&scopes)));
    }
    let ghost with_scope = pairs_view(pairs@);
    match options.prompt.as_param() {
        Some(prompt) => pairs.push(pair("prompt", prompt.to_owned())),
        None => {},
    }
    assert(pairs_view(pairs@) =~= authorization_pairs(
        client_id@,
        redirect_uri.serialization@,
        state@,
        challenge@,
        strings_view(scopes@),
        options.prompt.param_spec(),
    ));
    let query = form_urlencoded(&pairs);
    let authorization_url = concat3(transport_config.authorization_endpoint_url(), "?", query.as_str());
    Ok(StdbOidcAuthorizationRequest { authorization_url, state, pkce_verifier })
}

/// The provider error text: the error code, followed by its description
/// where the description holds something besides white space.
pub open spec fn provider_error_text(error: Seq<char>, description: Option<Seq<char>>) -> Seq<char> {
    match description {
        Some(d) => if non_blank(d) { error + ": "@ + d } else { error },
        None => error,
    }
}

/// Formats a provider error code and its optional description.
pub fn format_provider_error(error: &str, description: Option<&str>) -> (r: String)
    ensures
        r@ == provider_error_text(error@, match description { Some(d) => Some(d@), None => None }),
{
    match description {
        Some(d) => {
            let t = trim(d);
            if t.as_str().is_empty() {
                error.to_owned()
            } else {
                concat3(error, ": ", d)
            }
        },
        None => error.to_owned(),
    }
}

/// The outcome of parsing an OIDC callback URL against the expected state:
/// the authorization code, or the error that the callback yields.
pub open spec fn callback_result(callback_url: Seq<char>, expected_state: Seq<char>) -> Result<Seq<char>, StdbAuthErrorView> {
    match spec_parse_url(callback_url) {
        Err(e) => Err(StdbAuthErrorView::InvalidOidcCallback("callback URL is invalid: "@ + e)),
        Ok(u) => match first_value(u.query_pairs, "state"@) {
            None => Err(StdbAuthErrorView::InvalidOidcCallback("callback is missing `state`"@)),
            Some(state) => if state != expected_state {
                Err(StdbAuthErrorView::InvalidOidcCallback(
                    "callback `state` does not match the pending authorization"@))
            } else {
                match first_value(u.query_pairs, "error"@) {
                    Some(error) => Err(StdbAuthErrorView::Provider(provider_error_text(
                        error, first_value(u.query_pairs, "error_description"@)))),
                    None => match first_value(u.query_pairs, "code"@) {
                        None => Err(StdbAuthErrorView::InvalidOidcCallback("callback is missing `code`"@)),
                        Some(code) => if !non_blank(code) {
                            Err(StdbAuthErrorView::InvalidOidcCallback("callback `code` must not be empty"@))
                        } else {
                            Ok(code)
                        },
                    },
                }
            },
        },
    }
}

/// A callback is accepted only when its URL parses, its `state` is the
/// expected one, it carries no provider error, and its code holds
/// something besides white space; the code is the callback's first `code`.
pub proof fn law_accepted_callback(callback_url: Seq<char>, expected_state: Seq<char>)
    requires
        callback_result(callback_url, expected_state) is Ok,
    ensures
        spec_parse_url(callback_url) matches Ok(u) && {
            &&& first_value(u.query_pairs, "state"@) == Some(expected_state)
            &&& first_value(u.query_pairs, "error"@) is None
            &&& first_value(u.query_pairs, "code"@) == Some(callback_result(callback_url, expected_state)->Ok_0)
            &&& non_blank(callback_result(callback_url, expected_state)->Ok_0)
        },
{
}

/// A callback result with its strings taken as character sequences.
pub open spec fn code_result_view(r: Result<StdbOidcAuthorizationCode, StdbAuthError>) -> Result<Seq<char>, StdbAuthErrorView> {
    match r {
        Ok(c) => Ok(c.code@),
        Err(e) => Err(e@),
    }
}

/// Parses a SpacetimeAuth OIDC callback URL.
pub fn parse_callback_url(callback_url: &str, expected_state: &str) -> (r: Result<StdbOidcAuthorizationCode, StdbAuthError>)
    ensures
        code_result_view(r) == callback_result(callback_url@, expected_state@),
{
    let url = match parse_url(callback_url) {
        Ok(u) => u,
        Err(e) => return Err(StdbAuthError::InvalidOidcCallback(concat2("callback URL is invalid: ", e.as_str()))),
    };
    let state = match query_param(&url, "state") {
        Some(s) => s,
        None => return Err(StdbAuthError::InvalidOidcCallback("callback is missing `state`".to_owned())),
    };
    if !crate::text::str_eq(state.as_str(), expected_state) {
        return Err(StdbAuthError::InvalidOidcCallback(
            "callback `state` does not match the pending authorization".to_owned()));
    }
    match query_param(&url, "error") {
        Some(error) => {
            let description = query_param(&url, "error_description");
            let text = match &description {
                Some(d) => format_provider_error(error.as_str(), Some(d.as_str())),
                None => format_provider_error(error.as_str(), None),
            };
            return Err(StdbAuthError::Provider(text));
        },
        None => {},
    }
    let code = match query_param(&url, "code") {
        Some(c) => c,
        None => return Err(StdbAuthError::InvalidOidcCallback("callback is missing `code`".to_owned())),
    };
    let trimmed = trim(code.as_str());
    if trimmed.as_str().is_empty() {
        return Err(StdbAuthError::InvalidOidcCallback("callback `code` must not be empty".to_owned()));
    }
    Ok(StdbOidcAuthorizationCode { code })
}

/// The outcome of building an authorization-code grant form: checks run on
/// the code, the redirect URI, the client ID and the verifier, in order.
pub open spec fn code_form_result(
    client_id: Seq<char>,
    redirect_uri: Seq<char>,
    code: Seq<char>,
    pkce_verifier: Seq<char>,
) -> Result<Seq<(Seq<char>, Seq<char>)>, StdbAuthErrorView> {
    if !non_blank(code) {
        Err(StdbAuthErrorView::InvalidConfig(empty_field_text("code"@)))
    } else {
        match redirect_uri_result(redirect_uri) {
            Err(e) => Err(e),
            Ok(redirect) => if !non_blank(client_id) {
                Err(StdbAuthErrorView::InvalidConfig(empty_field_text("client_id"@)))
            } else if !non_blank(pkce_verifier) {
                Err(StdbAuthErrorView::InvalidConfig(empty_field_text("code_verifier"@)))
            } else {
                Ok(seq![
                    ("client_id"@, trim_spec(client_id)),
                    ("code"@, trim_spec(code)),
                    ("code_verifier"@, trim_spec(pkce_verifier)),
                    ("grant_type"@, "authorization_code"@),
                    ("redirect_uri"@, redirect.serialization),
                ])
            },
        }
    }
}

/// Builds an authorization-code grant form, ordered by field name.
pub fn authorization_code_token_form(
    options: &StdbOidcAuthOptions,
    code: &str,
    pkce_verifier: &str,
) -> (r: Result<StdbTokenRequestForm, StdbAuthError>)
    ensures
        form_result_view(r) == code_form_result(options.client_id@, options.redirect_uri@, code@, pkce_verifier@),
{
    let code_value = require_non_empty(code, "code")?;
    let redirect_uri = validate_redirect_uri(options.redirect_uri.as_str())?;
    let client_id = require_non_empty(options.client_id.as_str(), "client_id")?;
    let verifier = require_non_empty(pkce_verifier, "code_verifier")?;
    let mut params: Vec<(String, String)> = Vec::new();
    params.push(pair("client_id", client_id));
    params.push(pair("code", code_value));
    params.push(pair("code_verifier", verifier));
    params.push(pair("grant_type", "authorization_code".to_owned()));
    params.push(pair("redirect_uri", redirect_uri.serialization));
    assert(pairs_view(params@) =~= seq![
        ("client_id"@, trim_spec(options.client_id@)),
        ("code"@, trim_spec(code@)),
        ("code_verifier"@, trim_spec(pkce_verifier@)),
        ("grant_type"@, "authorization_code"@),
        ("redirect_uri"@, redirect_uri.serialization@),
    ]);
    Ok(StdbTokenRequestForm { params })
}

} // verus!
