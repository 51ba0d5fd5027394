//! Native OIDC flow: loopback redirect validation and the handling of the
//! HTTP request that carries the authorization callback.

use vstd::prelude::*;
use super::common::{
    StdbOidcAuthorizationCode, callback_result, code_result_view, parse_callback_url, url_result_view,
};
use crate::error::{StdbAuthError, StdbAuthErrorView};
use crate::text::{
    concat2, decimal_spec, decimal_string, eq_ignore_ascii_case, eq_ignore_ascii_case_spec,
    is_white_space, starts_with, str_chars, str_eq, string_from_chars,
};
use crate::urls::{ParsedUrl, ParsedUrlView, join_url, parse_url, spec_join_url, spec_parse_url};

verus! {

/// What `<core::net::IpAddr as FromStr>::from_str` yields for `host`: the
/// octets of the parsed address (`Ipv4Addr::octets` or `Ipv6Addr::octets`),
/// or the text of the parse error.
pub uninterp spec fn spec_parse_ip_octets(host: Seq<char>) -> Result<Seq<u8>, Seq<char>>;

/// Parses `host` as an IP address literal: the contract names the result as
/// [`spec_parse_ip_octets`]; an IPv4 address has 4 octets and an IPv6
/// address 16, as the types of `octets` show.
#[verifier::external_body]
fn parse_ip_octets(host: &str) -> (r: Result<Vec<u8>, String>)
    ensures
        match r {
            Ok(o) => spec_parse_ip_octets(host@) == Ok::<Seq<u8>, Seq<char>>(o@)
                && (o@.len() == 4 || o@.len() == 16),
            Err(e) => spec_parse_ip_octets(host@) == Err::<Seq<u8>, Seq<char>>(e@),
        },
{
    match host.parse::<core::net::IpAddr>() {
        Ok(core::net::IpAddr::V4(address)) => Ok(address.octets().to_vec()),
        Ok(core::net::IpAddr::V6(address)) => Ok(address.octets().to_vec()),
        Err(error) => Err(error.to_string()),
    }
}

/// `IpAddr::is_loopback` over the octets of an address, as std documents
/// it: an IPv4 address in `127.0.0.0/8`, or the IPv6 address `::1`.
pub open spec fn octets_loopback_spec(octets: Seq<u8>) -> bool {
    ||| (octets.len() == 4 && octets[0] == 127)
    ||| (octets.len() == 16 && octets[15] == 1 && forall|i: int| 0 <= i < 15 ==> #[trigger] octets[i] == 0)
}

/// Whether the octets of an address name the loopback interface.
fn octets_loopback(octets: &Vec<u8>) -> (r: bool)
    ensures
        r == octets_loopback_spec(octets@),
{
    if octets.len() == 4 {
        return octets[0] == 127;
    }
    if octets.len() != 16 || octets[15] != 1 {
        return false;
    }
    let mut i: usize = 0;
    while i < 15
        invariant
            octets@.len() == 16,
            i <= 15,
            forall|j: int| 0 <= j < i ==> #[trigger] octets@[j] == 0,
        decreases 15 - i,
    {
        if octets[i] != 0 {
            return false;
        }
        i = i + 1;
    }
    true
}

/// Whether `host` is an IP address literal of a loopback address, or the
/// text of the parse error.
pub open spec fn ip_literal_loopback_spec(host: Seq<char>) -> Result<bool, Seq<char>> {
    match spec_parse_ip_octets(host) {
        Ok(octets) => Ok(octets_loopback_spec(octets)),
        Err(e) => Err(e),
    }
}

/// Parses `host` as an IP address literal and tests it for loopback.
fn ip_literal_loopback(host: &str) -> (r: Result<bool, String>)
    ensures
        match r {
            Ok(b) => ip_literal_loopback_spec(host@) == Ok::<bool, Seq<char>>(b),
            Err(e) => ip_literal_loopback_spec(host@) == Err::<bool, Seq<char>>(e@),
        },
{
    match parse_ip_octets(host) {
        Ok(octets) => Ok(octets_loopback(&octets)),
        Err(e) => Err(e),
    }
}

/// What `String::from_utf8_lossy` yields for `bytes`.
pub uninterp spec fn spec_utf8_lossy(bytes: Seq<u8>) -> Seq<char>;

/// `String::from_utf8_lossy`: the contract names the decoded text as
/// [`spec_utf8_lossy`] of the bytes.
#[verifier::external_body]
fn utf8_lossy(bytes: &[u8]) -> (r: String)
    ensures
        r@ == spec_utf8_lossy(bytes@),
{
    String::from_utf8_lossy(bytes).into_owned()
}

/// A loopback host: `localhost` in any ASCII case, or an IP address literal
/// of a loopback address.
pub open spec fn loopback_host_spec(host: Seq<char>) -> bool {
    eq_ignore_ascii_case_spec(host, "localhost"@) || ip_literal_loopback_spec(host) == Ok::<bool, Seq<char>>(true)
}

/// Whether `host` names the loopback interface.
pub fn is_loopback_host(host: &str) -> (r: bool)
    ensures
        r == loopback_host_spec(host@),
{
    if eq_ignore_ascii_case(host, "localhost") {
        return true;
    }
    match ip_literal_loopback(host) {
        Ok(b) => b,
        Err(_) => false,
    }
}

/// The outcome of validating a native redirect URI: it must parse, use
/// `http`, carry no query or fragment, name a loopback host, and carry an
/// explicit non-zero port.
pub open spec fn native_redirect_result(redirect_uri: Seq<char>) -> Result<ParsedUrlView, StdbAuthErrorView> {
    match spec_parse_url(redirect_uri) {
        Err(e) => Err(StdbAuthErrorView::InvalidConfig("`redirect_uri` is invalid: "@ + e)),
        Ok(u) => if u.scheme != "http"@ {
            Err(StdbAuthErrorView::InvalidConfig("native OIDC `redirect_uri` must use the `http` scheme"@))
        } else if u.query is Some {
            Err(StdbAuthErrorView::InvalidConfig("native OIDC `redirect_uri` must not include a query string"@))
        } else if u.fragment is Some {
            Err(StdbAuthErrorView::InvalidConfig("native OIDC `redirect_uri` must not include a fragment"@))
        } else if u.host is None {
            Err(StdbAuthErrorView::InvalidConfig("native OIDC `redirect_uri` must include a host"@))
        } else if !loopback_host_spec(u.host->0) {
            Err(StdbAuthErrorView::InvalidConfig("native OIDC `redirect_uri` must use a loopback host"@))
        } else if u.port is None || u.port == Some(0u16) {
            Err(StdbAuthErrorView::InvalidConfig(
                "native OIDC `redirect_uri` must include a non-zero explicit port"@))
        } else {
            Ok(u)
        },
    }
}

/// An accepted native redirect URI is a plain `http` URL on a loopback
/// host with an explicit non-zero port.
pub proof fn law_accepted_native_redirect(redirect_uri: Seq<char>)
    requires
        native_redirect_result(redirect_uri) is Ok,
    ensures
        native_redirect_result(redirect_uri) matches Ok(u) && {
            &&& u.scheme == "http"@
            &&& u.query is None
            &&& u.fragment is None
            &&& u.host matches Some(h) && loopback_host_spec(h)
            &&& u.port matches Some(p) && p != 0
        },
{
}

/// Validates the redirect URI of the native flow.
pub fn validate_native_redirect_uri(redirect_uri: &str) -> (r: Result<ParsedUrl, StdbAuthError>)
    ensures
        url_result_view(r) == native_redirect_result(redirect_uri@),
{
    let url = match parse_url(redirect_uri) {
        Ok(u) => u,
        Err(e) => return Err(StdbAuthError::InvalidConfig(concat2("`redirect_uri` is invalid: ", e.as_str()))),
    };
    if !str_eq(url.scheme.as_str(), "http") {
        return Err(StdbAuthError::InvalidConfig("native OIDC `redirect_uri` must use the `http` scheme".to_owned()));
    }
    if url.query.is_some() {
        return Err(StdbAuthError::InvalidConfig(
            "native OIDC `redirect_uri` must not include a query string".to_owned()));
    }
    if url.fragment.is_some() {
        return Err(StdbAuthError::InvalidConfig("native OIDC `redirect_uri` must not include a fragment".to_owned()));
    }
    let is_loopback = match &url.host {
        Some(host) => is_loopback_host(host.as_str()),
        None => return Err(StdbAuthError::InvalidConfig("native OIDC `redirect_uri` must include a host".to_owned())),
    };
    if !is_loopback {
        return Err(StdbAuthError::InvalidConfig("native OIDC `redirect_uri` must use a loopback host".to_owned()));
    }
    match url.port {
        Some(port) => if port == 0 {
            return Err(StdbAuthError::InvalidConfig(
                "native OIDC `redirect_uri` must include a non-zero explicit port".to_owned()));
        },
        None => return Err(StdbAuthError::InvalidConfig(
            "native OIDC `redirect_uri` must include a non-zero explicit port".to_owned())),
    }
    Ok(url)
}

/// A callback URL matches the redirect URI when scheme, host, port (or the
/// scheme's default) and path are equal.
pub open spec fn callback_matches_redirect(callback: ParsedUrlView, redirect: ParsedUrlView) -> bool {
    &&& callback.scheme == redirect.scheme
    &&& callback.host == redirect.host
    &&& callback.known_port == redirect.known_port
    &&& callback.path == redirect.path
}

/// Refuses a callback URL that does not match the redirect URI.
pub fn validate_callback_url_matches_redirect_uri(callback_url: &ParsedUrl, redirect_uri: &ParsedUrl) -> (r: Result<(), StdbAuthError>)
    ensures
        match r {
            Ok(()) => callback_matches_redirect(callback_url@, redirect_uri@),
            Err(e) => !callback_matches_redirect(callback_url@, redirect_uri@) && e@ == StdbAuthErrorView::InvalidOidcCallback(
                "callback URL does not match the configured redirect URI"@),
        },
{
    let same_host = match (&callback_url.host, &redirect_uri.host) {
        (Some(a), Some(b)) => str_eq(a.as_str(), b.as_str()),
        (None, None) => true,
        _ => false,
    };
    let matches_redirect = str_eq(callback_url.scheme.as_str(), redirect_uri.scheme.as_str())
        && same_host
        && callback_url.known_port == redirect_uri.known_port
        && str_eq(callback_url.path.as_str(), redirect_uri.path.as_str());
    if !matches_redirect {
        return Err(StdbAuthError::InvalidOidcCallback(
            "callback URL does not match the configured redirect URI".to_owned()));
    }
    Ok(())
}

/// The outcome of resolving an HTTP request target against the redirect URI.
pub open spec fn callback_target_result(redirect: ParsedUrlView, target: Seq<char>) -> Result<ParsedUrlView, StdbAuthErrorView> {
    let absolute = (7 <= target.len() && target.subrange(0, 7) == "http://"@)
        || (8 <= target.len() && target.subrange(0, 8) == "https://"@);
    let resolved = if absolute {
        spec_parse_url(target)
    } else {
        spec_join_url(redirect.serialization, target)
    };
    match resolved {
        Err(e) => Err(StdbAuthErrorView::InvalidOidcCallback("callback request target is invalid: "@ + e)),
        Ok(u) => if callback_matches_redirect(u, redirect) {
            Ok(u)
        } else {
            Err(StdbAuthErrorView::InvalidOidcCallback("callback URL does not match the configured redirect URI"@))
        },
    }
}

/// Resolves the target of the callback request against the redirect URI and
/// checks that it addresses the redirect URI.
pub fn callback_url_from_request_target(redirect_uri: &ParsedUrl, request_target: &str) -> (r: Result<ParsedUrl, StdbAuthError>)
    ensures
        url_result_view(r) == callback_target_result(redirect_uri@, request_target@),
{
    let absolute = starts_with(request_target, "http://") || starts_with(request_target, "https://");
    proof {
        reveal_strlit("http://");
        reveal_strlit("https://");
    }
    let resolved = if absolute {
        parse_url(request_target)
    } else {
        join_url(redirect_uri.serialization.as_str(), request_target)
    };
    let callback_url = match resolved {
        Ok(u) => u,
        Err(e) => return Err(StdbAuthError::InvalidOidcCallback(
            concat2("callback request target is invalid: ", e.as_str()))),
    };
    validate_callback_url_matches_redirect_uri(&callback_url, redirect_uri)?;
    Ok(callback_url)
}

/// A character class used when scanning a request: `0` is a line feed,
/// `1` is white space, anything else is a character that is not white space.
pub open spec fn in_class(c: char, class: u8) -> bool {
    if class == 0 {
        c == '\n'
    } else if class == 1 {
        is_white_space(c)
    } else {
        !is_white_space(c)
    }
}

/// The first index at or after `from` whose character is in `class`, or the
/// length of `s` where there is none.
#[verifier::opaque]
pub open spec fn first_in_class(s: Seq<char>, from: int, class: u8) -> int {
    if exists|k: int| from <= k < s.len() && in_class(#[trigger] s[k], class) {
        choose|k: int| from <= k < s.len() && in_class(#[trigger] s[k], class)
            && forall|j: int| from <= j < k ==> !in_class(#[trigger] s[j], class)
    } else {
        s.len() as int
    }
}

/// A scan that stops at `i` finds the first index in the class.
proof fn lemma_first_in_class(s: Seq<char>, from: int, class: u8, i: int)
    requires
        0 <= from <= i <= s.len(),
        forall|j: int| from <= j < i ==> !in_class(#[trigger] s[j], class),
        i < s.len() ==> in_class(s[i], class),
    ensures
        first_in_class(s, from, class) == i,
{
    reveal(first_in_class);
    if i < s.len() {
        assert(from <= i < s.len() && in_class(s[i], class));
        let k = choose|k: int| from <= k < s.len() && in_class(#[trigger] s[k], class)
            && forall|j: int| from <= j < k ==> !in_class(#[trigger] s[j], class);
        assert(from <= i < s.len() && in_class(s[i], class)
            && forall|j: int| from <= j < i ==> !in_class(#[trigger] s[j], class));
        if k < i {
            assert(!in_class(s[k], class));
        } else if k > i {
            assert(!in_class(s[i], class));
        }
    } else {
        assert(!exists|k: int| from <= k < s.len() && in_class(#[trigger] s[k], class));
    }
}

/// Whether a character is white space.
fn is_white_space_char(c: char) -> (r: bool)
    ensures
        r == is_white_space(c),
{
    ('\u{9}' <= c && c <= '\u{d}') || c == ' ' || c == '\u{85}' || c == '\u{a0}' || c == '\u{1680}'
        || ('\u{2000}' <= c && c <= '\u{200a}') || c == '\u{2028}' || c == '\u{2029}' || c == '\u{202f}'
        || c == '\u{205f}' || c == '\u{3000}'
}

/// The first index in `from..end` whose character is in `class`, or `end`.
fn scan(v: &Vec<char>, from: usize, end: usize, class: u8) -> (r: usize)
    requires
        from <= end <= v@.len(),
    ensures
        r as int == first_in_class(v@.subrange(0, end as int), from as int, class),
        from <= r <= end,
{
    let ghost s = v@.subrange(0, end as int);
    let mut i = from;
    while i < end
        invariant
            from <= i <= end <= v@.len(),
            s == v@.subrange(0, end as int),
            forall|j: int| from <= j < i ==> !in_class(#[trigger] s[j], class),
        decreases end - i,
    {
        let c = v[i];
        assert(s[i as int] == c);
        let hit = if class == 0 {
            c == '\n'
        } else if class == 1 {
            is_white_space_char(c)
        } else {
            !is_white_space_char(c)
        };
        if hit {
            proof {
                lemma_first_in_class(s, from as int, class, i as int);
            }
            return i;
        }
        i = i + 1;
    }
    proof {
        lemma_first_in_class(s, from as int, class, i as int);
    }
    i
}

/// The first line of an HTTP request, as `str::lines` yields it: the text
/// before the first line feed without a trailing carriage return, the
/// whole text where there is no line feed, nothing for an empty request.
pub open spec fn first_line(s: Seq<char>) -> Option<Seq<char>> {
    if s.len() == 0 {
        None
    } else {
        let nl = first_in_class(s, 0, 0);
        if nl < s.len() {
            let line = s.subrange(0, nl);
            if line.len() > 0 && line.last() == '\r' {
                Some(line.drop_last())
            } else {
                Some(line)
            }
        } else {
            Some(s)
        }
    }
}

/// The first white-space separated word of `s` at or after `from`, with the
/// index where it ends, as `str::split_whitespace` yields words.
pub open spec fn word_after(s: Seq<char>, from: int) -> Option<(Seq<char>, int)> {
    let start = first_in_class(s, from, 2);
    if start >= s.len() {
        None
    } else {
        let end = first_in_class(s, start, 1);
        Some((s.subrange(start, end), end))
    }
}

/// The outcome of reading the request target of a `GET` request line.
pub open spec fn request_target_result(request: Seq<char>) -> Result<Seq<char>, StdbAuthErrorView> {
    match first_line(request) {
        None => Err(StdbAuthErrorView::InvalidOidcCallback("callback request is empty"@)),
        Some(line) => match word_after(line, 0) {
            None => Err(StdbAuthErrorView::InvalidOidcCallback("callback request is missing method"@)),
            Some((method, end)) => match word_after(line, end) {
                None => Err(StdbAuthErrorView::InvalidOidcCallback("callback request is missing target"@)),
                Some((target, _)) => if method != "GET"@ {
                    Err(StdbAuthErrorView::InvalidOidcCallback("callback request method must be GET"@))
                } else {
                    Ok(target)
                },
            },
        },
    }
}

/// A string result with its strings taken as character sequences.
pub open spec fn string_result_view(r: Result<String, StdbAuthError>) -> Result<Seq<char>, StdbAuthErrorView> {
    match r {
        Ok(s) => Ok(s@),
        Err(e) => Err(e@),
    }
}

/// The end of the first line of a non-empty request.
fn first_line_end(v: &Vec<char>) -> (end: usize)
    requires
        v@.len() > 0,
    ensures
        end <= v@.len(),
        first_line(v@) == Some(v@.subrange(0, end as int)),
{
    let n = v.len();
    let nl = scan(v, 0, n, 0);
    assert(v@.subrange(0, n as int) =~= v@);
    if nl < n && nl > 0 && v[nl - 1] == '\r' {
        assert(v@.subrange(0, nl as int).drop_last() =~= v@.subrange(0, nl - 1));
        nl - 1
    } else {
        nl
    }
}

/// The first word of `v[..end]` at or after `from`, with the index where it ends.
fn word_at(v: &Vec<char>, from: usize, end: usize) -> (r: Option<(String, usize)>)
    requires
        from <= end <= v@.len(),
    ensures
        match r {
            None => word_after(v@.subrange(0, end as int), from as int) is None,
            Some((w, e)) => word_after(v@.subrange(0, end as int), from as int) == Some((w@, e as int))
                && e <= end,
        },
{
    let start = scan(v, from, end, 2);
    if start >= end {
        return None;
    }
    let word_end = scan(v, start, end, 1);
    let word = string_from_chars(v, start, word_end);
    assert(word@ =~= v@.subrange(0, end as int).subrange(start as int, word_end as int));
    Some((word, word_end))
}

/// Reads the target of the request line of a `GET` request.
pub fn callback_request_target(request: &str) -> (r: Result<String, StdbAuthError>)
    ensures
        string_result_view(r) == request_target_result(request@),
{
    let v = str_chars(request);
    if v.len() == 0 {
        return Err(StdbAuthError::InvalidOidcCallback("callback request is empty".to_owned()));
    }
    let end = first_line_end(&v);
    let (method, method_end) = match word_at(&v, 0, end) {
        Some(w) => w,
        None => return Err(StdbAuthError::InvalidOidcCallback("callback request is missing method".to_owned())),
    };
    let (target, _) = match word_at(&v, method_end, end) {
        Some(w) => w,
        None => return Err(StdbAuthError::InvalidOidcCallback("callback request is missing target".to_owned())),
    };
    if !str_eq(method.as_str(), "GET") {
        return Err(StdbAuthError::InvalidOidcCallback("callback request method must be GET".to_owned()));
    }
    Ok(target)
}

/// The body of the response to the callback request.
pub open spec fn callback_body(succeeded: bool) -> Seq<char> {
    if succeeded {
        "<!doctype html><title>Authenticated</title><p>Authentication completed. You can close this window.</p>"@
    } else {
        "<!doctype html><title>Authentication failed</title><p>Authentication failed. You can close this window.</p>"@
    }
}

/// The HTTP response to the callback request: `200 OK` or `400 Bad Request`
/// with an HTML body, its byte length, and `Connection: close`.
pub open spec fn callback_response_spec(succeeded: bool) -> Seq<char> {
    let body_bytes = (vstd::utf8::encode_utf8(callback_body(succeeded)).len() as usize) as nat;
    "HTTP/1.1 "@ + (if succeeded { "200 OK"@ } else { "400 Bad Request"@ })
        + "\r\nContent-Type: text/html; charset=utf-8\r\nContent-Length: "@ + decimal_spec(body_bytes)
        + "\r\nConnection: close\r\n\r\n"@ + callback_body(succeeded)
}

/// The HTTP response written back to the browser after the callback.
pub fn callback_response(succeeded: bool) -> (r: String)
    ensures
        r@ == callback_response_spec(succeeded),
{
    let (status, body) = if succeeded {
        ("200 OK", "<!doctype html><title>Authenticated</title><p>Authentication completed. You can close this window.</p>")
    } else {
        ("400 Bad Request", "<!doctype html><title>Authentication failed</title><p>Authentication failed. You can close this window.</p>")
    };
    let length = decimal_string(body.len() as u64);
    let mut r = concat2("HTTP/1.1 ", status);
    r.append("\r\nContent-Type: text/html; charset=utf-8\r\nContent-Length: ");
    r.append(length.as_str());
    r.append("\r\nConnection: close\r\n\r\n");
    r.append(body);
    r
}

/// The outcome of a callback request: the authorization code or the error,
/// and whether the browser is told that authentication succeeded.
pub open spec fn callback_request_result(
    redirect: ParsedUrlView,
    request: Seq<char>,
    expected_state: Seq<char>,
) -> Result<Seq<char>, StdbAuthErrorView> {
    match request_target_result(request) {
        Err(e) => Err(e),
        Ok(target) => match callback_target_result(redirect, target) {
            Err(e) => Err(e),
            Ok(callback) => callback_result(callback.serialization, expected_state),
        },
    }
}

/// Handles the bytes of the HTTP request that reached the loopback listener:
/// returns the authorization code or the error, with the response to write
/// back.
pub fn handle_callback_request(
    redirect_uri: &ParsedUrl,
    request_bytes: &[u8],
    expected_state: &str,
) -> (r: (Result<StdbOidcAuthorizationCode, StdbAuthError>, String))
    ensures
        code_result_view(r.0) == callback_request_result(redirect_uri@, spec_utf8_lossy(request_bytes@), expected_state@),
        r.1@ == callback_response_spec(r.0 is Ok),
{
    let request = utf8_lossy(request_bytes);
    let target = match callback_request_target(request.as_str()) {
        Ok(t) => t,
        Err(e) => return (Err(e), callback_response(false)),
    };
    let callback_url = match callback_url_from_request_target(redirect_uri, target.as_str()) {
        Ok(u) => u,
        Err(e) => return (Err(e), callback_response(false)),
    };
    let result = parse_callback_url(callback_url.serialization.as_str(), expected_state);
    let succeeded = result.is_ok();
    (result, callback_response(succeeded))
}

/// The address that the loopback listener binds: an IP literal and the
/// explicit port of the redirect URI.
pub open spec fn bind_address_result(redirect: ParsedUrlView) -> Result<(Seq<char>, u16), StdbAuthErrorView> {
    match redirect.host {
        None => Err(StdbAuthErrorView::InvalidConfig("native OIDC `redirect_uri` must include a host"@)),
        Some(host) => match redirect.port {
            None => Err(StdbAuthErrorView::InvalidConfig("native OIDC `redirect_uri` must include an explicit port"@)),
            Some(port) => if eq_ignore_ascii_case_spec(host, "localhost"@) {
                Ok(("127.0.0.1"@, port))
            } else {
                match ip_literal_loopback_spec(host) {
                    Err(e) => Err(StdbAuthErrorView::InvalidConfig("native OIDC loopback host is invalid: "@ + e)),
                    Ok(loopback) => if loopback {
                        Ok((host, port))
                    } else {
                        Err(StdbAuthErrorView::InvalidConfig("native OIDC `redirect_uri` must use a loopback host"@))
                    },
                }
            },
        },
    }
}

/// The loopback IP literal and port that the callback listener binds.
pub fn loopback_bind_address(redirect_uri: &ParsedUrl) -> (r: Result<(String, u16), StdbAuthError>)
    ensures
        match r {
            Ok((ip, port)) => bind_address_result(redirect_uri@) == Ok::<(Seq<char>, u16), StdbAuthErrorView>((ip@, port)),
            Err(e) => bind_address_result(redirect_uri@) == Err::<(Seq<char>, u16), StdbAuthErrorView>(e@),
        },
{
    let host = match &redirect_uri.host {
        Some(h) => h,
        None => return Err(StdbAuthError::InvalidConfig("native OIDC `redirect_uri` must include a host".to_owned())),
    };
    let port = match redirect_uri.port {
        Some(p) => p,
        None => return Err(StdbAuthError::InvalidConfig(
            "native OIDC `redirect_uri` must include an explicit port".to_owned())),
    };
    if eq_ignore_ascii_case(host.as_str(), "localhost") {
        return Ok(("127.0.0.1".to_owned(), port));
    }
    match ip_literal_loopback(host.as_str()) {
        Err(e) => Err(StdbAuthError::InvalidConfig(concat2("native OIDC loopback host is invalid: ", e.as_str()))),
        Ok(loopback) => if loopback {
            Ok((host.clone(), port))
        } else {
            Err(StdbAuthError::InvalidConfig("native OIDC `redirect_uri` must use a loopback host".to_owned()))
        },
    }
}

} // verus!
