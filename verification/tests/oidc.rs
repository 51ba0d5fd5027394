use bevy_stdb_auth::error::StdbAuthError;
use bevy_stdb_auth::oidc::common::{
    authorization_code_token_form, build_authorization_request, format_provider_error, normalized_scopes,
    parse_callback_url, validate_redirect_uri,
};
use bevy_stdb_auth::oidc::{StdbOidcAuthOptions, StdbOidcPrompt};
use bevy_stdb_auth::transport::StdbAuthTransportConfig;
use std::collections::BTreeMap;

fn auth_options() -> StdbOidcAuthOptions {
    StdbOidcAuthOptions {
        client_id: "client".to_string(),
        redirect_uri: "http://127.0.0.1:3000/callback".to_string(),
        post_logout_redirect_uri: None,
        scopes: vec!["openid".to_string(), "email".to_string()],
        prompt: StdbOidcPrompt::Login,
    }
}

fn query_map(url: &str) -> BTreeMap<String, String> {
    url::Url::parse(url)
        .expect("URL should parse")
        .query_pairs()
        .map(|(key, value)| (key.into_owned(), value.into_owned()))
        .collect()
}

#[test]
fn authorization_request_contains_oidc_parameters() {
    let request = build_authorization_request(&auth_options(), &StdbAuthTransportConfig::default())
        .expect("authorization request should be valid");
    let query = query_map(&request.authorization_url);

    assert_eq!(request.authorization_url.split('?').next(), Some("https://auth.spacetimedb.com/oidc/auth"));
    assert_eq!(query.get("response_type").map(String::as_str), Some("code"));
    assert_eq!(query.get("client_id").map(String::as_str), Some("client"));
    assert_eq!(query.get("redirect_uri").map(String::as_str), Some("http://127.0.0.1:3000/callback"));
    assert_eq!(query.get("scope").map(String::as_str), Some("openid email"));
    assert_eq!(query.get("prompt").map(String::as_str), Some("login"));
    assert_eq!(query.get("code_challenge_method").map(String::as_str), Some("S256"));
    assert_eq!(query.get("state"), Some(&request.state));
    assert!(query.contains_key("code_challenge"));
    assert!(request.pkce_verifier.len() >= 43);
}

#[test]
fn authorization_request_uses_s256_challenge_of_verifier() {
    let request = build_authorization_request(&auth_options(), &StdbAuthTransportConfig::default())
        .expect("authorization request should be valid");
    let query = query_map(&request.authorization_url);
    let expected = oauth2::PkceCodeChallenge::from_code_verifier_sha256(&oauth2::PkceCodeVerifier::new(
        request.pkce_verifier.clone(),
    ));
    assert_eq!(request.pkce_verifier.len(), 43);
    assert_eq!(query.get("code_challenge").map(String::as_str), Some(expected.as_str()));
    let keys: Vec<String> = url::Url::parse(&request.authorization_url)
        .unwrap()
        .query_pairs()
        .map(|(k, _)| k.into_owned())
        .collect();
    assert_eq!(
        keys,
        vec!["response_type", "client_id", "redirect_uri", "state", "code_challenge", "code_challenge_method", "scope", "prompt"]
    );
}

#[test]
fn authorization_request_omits_empty_scope_and_default_prompt() {
    let mut options = auth_options();
    options.scopes = vec!["  ".to_string()];
    options.prompt = StdbOidcPrompt::default();
    let request = build_authorization_request(&options, &StdbAuthTransportConfig::default()).expect("valid");
    let query = query_map(&request.authorization_url);
    assert!(!query.contains_key("scope"));
    assert!(!query.contains_key("prompt"));
}

#[test]
fn authorization_request_rejects_bad_configuration() {
    let mut options = auth_options();
    options.client_id = " ".to_string();
    assert_eq!(
        build_authorization_request(&options, &StdbAuthTransportConfig::default()),
        Err(StdbAuthError::InvalidConfig("`client_id` must not be empty".to_string()))
    );
    let mut options = auth_options();
    options.redirect_uri = "http://127.0.0.1:3000/callback#frag".to_string();
    assert_eq!(
        build_authorization_request(&options, &StdbAuthTransportConfig::default()),
        Err(StdbAuthError::InvalidConfig("`redirect_uri` must not include a fragment".to_string()))
    );
}

#[test]
fn callback_url_returns_authorization_code() {
    let callback = parse_callback_url("http://127.0.0.1:3000/callback?code=abc&state=state", "state")
        .expect("callback should be valid");

    assert_eq!(callback.code, "abc");
}

#[test]
fn callback_url_rejects_state_mismatch() {
    let result = parse_callback_url("http://127.0.0.1:3000/callback?code=abc&state=other", "state");

    assert!(matches!(result, Err(StdbAuthError::InvalidOidcCallback(_))));
}

#[test]
fn callback_url_returns_provider_error() {
    let result = parse_callback_url(
        "http://127.0.0.1:3000/callback?error=access_denied&error_description=nope&state=state",
        "state",
    );

    assert!(matches!(result, Err(StdbAuthError::Provider(_))));
}

#[test]
fn callback_url_errors_are_exact() {
    assert_eq!(
        parse_callback_url("http://127.0.0.1:3000/callback?error=access_denied&error_description=nope&state=s", "s"),
        Err(StdbAuthError::Provider("access_denied: nope".to_string()))
    );
    assert_eq!(
        parse_callback_url("http://127.0.0.1:3000/callback?error=access_denied&error_description=%20&state=s", "s"),
        Err(StdbAuthError::Provider("access_denied".to_string()))
    );
    assert_eq!(
        parse_callback_url("http://127.0.0.1:3000/callback?code=abc", "s"),
        Err(StdbAuthError::InvalidOidcCallback("callback is missing `state`".to_string()))
    );
    assert_eq!(
        parse_callback_url("http://127.0.0.1:3000/callback?state=s", "s"),
        Err(StdbAuthError::InvalidOidcCallback("callback is missing `code`".to_string()))
    );
    assert_eq!(
        parse_callback_url("http://127.0.0.1:3000/callback?state=s&code=+", "s"),
        Err(StdbAuthError::InvalidOidcCallback("callback `code` must not be empty".to_string()))
    );
    assert_eq!(
        parse_callback_url("http://127.0.0.1:3000/callback?state=s&state=t&code=x&code=y", "s"),
        Ok(bevy_stdb_auth::oidc::common::StdbOidcAuthorizationCode { code: "x".to_string() })
    );
    assert!(matches!(
        parse_callback_url("not a url", "s"),
        Err(StdbAuthError::InvalidOidcCallback(m)) if m.starts_with("callback URL is invalid: ")
    ));
}

#[test]
fn authorization_code_token_form_contains_required_fields() {
    let form = authorization_code_token_form(&auth_options(), "code", "verifier")
        .expect("authorization-code token form should be valid");

    assert_eq!(form.get("grant_type").as_deref(), Some("authorization_code"));
    assert_eq!(form.get("code").as_deref(), Some("code"));
    assert_eq!(form.get("client_id").as_deref(), Some("client"));
    assert_eq!(form.get("code_verifier").as_deref(), Some("verifier"));
    assert_eq!(form.get("redirect_uri").as_deref(), Some("http://127.0.0.1:3000/callback"));
}

#[test]
fn authorization_code_token_form_checks_in_order() {
    assert_eq!(
        authorization_code_token_form(&auth_options(), " ", ""),
        Err(StdbAuthError::InvalidConfig("`code` must not be empty".to_string()))
    );
    assert_eq!(
        authorization_code_token_form(&auth_options(), "code", ""),
        Err(StdbAuthError::InvalidConfig("`code_verifier` must not be empty".to_string()))
    );
    let form = authorization_code_token_form(&auth_options(), " code ", " v ").unwrap();
    let keys: Vec<&str> = form.params.iter().map(|(k, _)| k.as_str()).collect();
    assert_eq!(keys, vec!["client_id", "code", "code_verifier", "grant_type", "redirect_uri"]);
    assert_eq!(form.get("code").as_deref(), Some("code"));
}

#[test]
fn redirect_uri_validation() {
    let url = validate_redirect_uri(" http://127.0.0.1:3000/callback ").expect("valid");
    assert_eq!(url.serialization, "http://127.0.0.1:3000/callback");
    assert_eq!(
        validate_redirect_uri(""),
        Err(StdbAuthError::InvalidConfig("`redirect_uri` must not be empty".to_string()))
    );
    assert!(matches!(
        validate_redirect_uri("relative/path"),
        Err(StdbAuthError::InvalidConfig(m)) if m.starts_with("`redirect_uri` is invalid: ")
    ));
}

#[test]
fn scopes_are_trimmed_and_blank_ones_dropped() {
    let scopes = vec![" openid ".to_string(), "".to_string(), "\temail".to_string()];
    assert_eq!(normalized_scopes(&scopes), vec!["openid".to_string(), "email".to_string()]);
}

#[test]
fn provider_errors_are_formatted() {
    assert_eq!(format_provider_error("e", Some("d")), "e: d");
    assert_eq!(format_provider_error("e", Some(" ")), "e");
    assert_eq!(format_provider_error("e", None), "e");
}

#[test]
fn prompt_parameter_values() {
    assert_eq!(StdbOidcPrompt::Unspecified.as_param(), None);
    assert_eq!(StdbOidcPrompt::Login.as_param(), Some("login"));
    assert_eq!(StdbOidcPrompt::SelectAccount.as_param(), Some("select_account"));
    assert_eq!(StdbOidcPrompt::default(), StdbOidcPrompt::Unspecified);
}

#[test]
fn authorization_request_state_and_verifier_are_url_safe_base64() {
    let url_safe = |s: &str| s.chars().all(|c| c.is_ascii_alphanumeric() || c == '-' || c == '_');
    let first = build_authorization_request(&auth_options(), &StdbAuthTransportConfig::default())
        .expect("authorization request should be valid");
    let second = build_authorization_request(&auth_options(), &StdbAuthTransportConfig::default())
        .expect("authorization request should be valid");

    assert_eq!(first.state.chars().count(), 22);
    assert!(url_safe(&first.state));
    assert_eq!(first.pkce_verifier.chars().count(), 43);
    assert!(url_safe(&first.pkce_verifier));
    assert_ne!(first.state, second.state);
}
