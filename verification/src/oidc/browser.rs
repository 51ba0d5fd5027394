//! Browser OIDC flow: recognizing a pending callback, expiring the pending
//! state, and removing the callback parameters from the page URL.

use vstd::prelude::*;
use crate::error::{StdbAuthError, StdbAuthErrorView};
use crate::text::{concat2, str_eq};
use crate::urls::{
    ParsedUrl, has_key, pairs_view, parse_url, spec_parse_url, spec_url_with_query_replaced,
    spec_url_without_query, url_with_query_replaced, url_without_query,
};

verus! {

/// How long pending browser authorization state stays valid: five minutes,
/// in milliseconds.
pub const PENDING_AUTH_TTL_MS: u64 = 300_000;

/// The query parameters that an OIDC callback adds to the page URL.
pub open spec fn callback_param_spec(param: Seq<char>) -> bool {
    ||| param == "code"@
    ||| param == "state"@
    ||| param == "error"@
    ||| param == "error_description"@
    ||| param == "error_uri"@
    ||| param == "session_state"@
    ||| param == "iss"@
}

/// Whether `param` is one of the OIDC callback query parameters.
pub fn is_oidc_callback_param(param: &str) -> (r: bool)
    ensures
        r == callback_param_spec(param@),
{
    str_eq(param, "code") || str_eq(param, "state") || str_eq(param, "error")
        || str_eq(param, "error_description") || str_eq(param, "error_uri")
        || str_eq(param, "session_state") || str_eq(param, "iss")
}

/// Whether the page URL carries an authorization response: a `code` or an
/// `error` query parameter.
pub open spec fn has_callback_params_spec(url: crate::urls::ParsedUrlView) -> bool {
    has_key(url.query_pairs, "code"@) || has_key(url.query_pairs, "error"@)
}

/// Whether the URL carries a `code` or an `error` query parameter.
pub fn has_callback_params(url: &ParsedUrl) -> (r: bool)
    ensures
        r == has_callback_params_spec(url@),
{
    let pairs = &url.query_pairs;
    let n = pairs.len();
    let mut i: usize = 0;
    while i < n
        invariant
            n == pairs@.len(),
            pairs@ == url.query_pairs@,
            i <= n,
            forall|j: int| 0 <= j < i ==> pairs_view(pairs@)[j].0 != "code"@ && #[trigger] pairs_view(pairs@)[j].0 != "error"@,
        decreases n - i,
    {
        let key = pairs[i].0.as_str();
        assert(pairs_view(pairs@)[i as int].0 == key@);
        if str_eq(key, "code") || str_eq(key, "error") {
            return true;
        }
        i = i + 1;
    }
    false
}

/// Whether a pending callback can be resumed: the page URL parses and
/// carries callback parameters, and pending authorization state is stored.
pub open spec fn pending_callback_spec(href: Seq<char>, has_pending: bool) -> bool {
    match spec_parse_url(href) {
        Ok(u) => has_callback_params_spec(u) && has_pending,
        Err(_) => false,
    }
}

/// Whether the page at `href` is a callback that can be resumed, given
/// whether pending authorization state could be loaded.
pub fn pending_callback_available(href: &str, has_pending: bool) -> (r: bool)
    ensures
        r == pending_callback_spec(href@, has_pending),
{
    match parse_url(href) {
        Ok(url) => has_callback_params(&url) && has_pending,
        Err(_) => false,
    }
}

/// Whether pending state created at `created_at_ms` has outlived its
/// time-to-live at `now_ms`.
pub open spec fn pending_expired_spec(created_at_ms: u64, now_ms: u64) -> bool {
    now_ms - created_at_ms > PENDING_AUTH_TTL_MS
}

/// Whether pending browser authorization state has expired.
pub fn pending_authorization_expired(created_at_ms: u64, now_ms: u64) -> (r: bool)
    ensures
        r == pending_expired_spec(created_at_ms, now_ms),
{
    now_ms > created_at_ms && now_ms - created_at_ms > PENDING_AUTH_TTL_MS
}

/// The query pairs that are not OIDC callback parameters, in order.
pub open spec fn preserved_pairs_spec(pairs: Seq<(Seq<char>, Seq<char>)>) -> Seq<(Seq<char>, Seq<char>)>
    decreases pairs.len(),
{
    if pairs.len() == 0 {
        Seq::empty()
    } else {
        let rest = preserved_pairs_spec(pairs.drop_last());
        if callback_param_spec(pairs.last().0) {
            rest
        } else {
            rest.push(pairs.last())
        }
    }
}

/// Cleaning the callback parameters keeps exactly the query pairs whose key
/// is none of `code`, `state`, `error`, `error_description`, `error_uri`,
/// `session_state` and `iss`, in their order; so no pair with one of those
/// keys survives, and every other pair does.
pub proof fn law_callback_params_removed(pairs: Seq<(Seq<char>, Seq<char>)>)
    ensures
        preserved_pairs_spec(pairs) == pairs.filter(|p: (Seq<char>, Seq<char>)| !(
            p.0 == "code"@ || p.0 == "state"@ || p.0 == "error"@ || p.0 == "error_description"@
                || p.0 == "error_uri"@ || p.0 == "session_state"@ || p.0 == "iss"@)),
        forall|i: int| 0 <= i < preserved_pairs_spec(pairs).len() ==> {
            let key = #[trigger] preserved_pairs_spec(pairs)[i].0;
            &&& key != "code"@
            &&& key != "state"@
            &&& key != "error"@
            &&& key != "error_description"@
            &&& key != "error_uri"@
            &&& key != "session_state"@
            &&& key != "iss"@
        },
{
    let keep = |p: (Seq<char>, Seq<char>)| !(
        p.0 == "code"@ || p.0 == "state"@ || p.0 == "error"@ || p.0 == "error_description"@
            || p.0 == "error_uri"@ || p.0 == "session_state"@ || p.0 == "iss"@);
    lemma_preserved_pairs_filter(pairs, keep);
    assert forall|i: int| 0 <= i < pairs.filter(keep).len() implies keep(#[trigger] pairs.filter(keep)[i]) by {
        pairs.lemma_filter_pred(keep, i);
    }
}

/// [`preserved_pairs_spec`] is the filter by any predicate that keeps
/// exactly the pairs whose key is no callback parameter.
proof fn lemma_preserved_pairs_filter(
    pairs: Seq<(Seq<char>, Seq<char>)>,
    keep: spec_fn((Seq<char>, Seq<char>)) -> bool,
)
    requires
        forall|p: (Seq<char>, Seq<char>)| #[trigger] keep(p) == !callback_param_spec(p.0),
    ensures
        preserved_pairs_spec(pairs) == pairs.filter(keep),
    decreases pairs.len(),
{
    reveal(Seq::filter);
    if pairs.len() > 0 {
        lemma_preserved_pairs_filter(pairs.drop_last(), keep);
        assert(keep(pairs.last()) == !callback_param_spec(pairs.last().0));
    }
}

/// The page URL cleaned of its callback parameters is the URL with its query
/// replaced by the pairs whose key is none of the seven OIDC callback
/// parameters, in order, or with no query where no such pair is left.
pub proof fn law_cleaned_url_keeps_other_params(href: Seq<char>)
    ensures
        spec_parse_url(href) matches Ok(u) ==> {
            let kept = u.query_pairs.filter(|p: (Seq<char>, Seq<char>)| !(
                p.0 == "code"@ || p.0 == "state"@ || p.0 == "error"@ || p.0 == "error_description"@
                    || p.0 == "error_uri"@ || p.0 == "session_state"@ || p.0 == "iss"@));
            cleaned_url_result(href) == Ok::<Seq<char>, StdbAuthErrorView>(
                if kept.len() == 0 { spec_url_without_query(href) } else { spec_url_with_query_replaced(href, kept) })
        },
{
    match spec_parse_url(href) {
        Ok(u) => law_callback_params_removed(u.query_pairs),
        Err(_) => {},
    }
}

/// Keeps the query pairs that are not OIDC callback parameters.
pub fn preserved_query_params(pairs: &Vec<(String, String)>) -> (r: Vec<(String, String)>)
    ensures
        pairs_view(r@) == preserved_pairs_spec(pairs_view(pairs@)),
        forall|i: int| 0 <= i < r@.len() ==> {
            let key = #[trigger] r@[i].0@;
            &&& key != "code"@
            &&& key != "state"@
            &&& key != "error"@
            &&& key != "error_description"@
            &&& key != "error_uri"@
            &&& key != "session_state"@
            &&& key != "iss"@
        },
{
    let mut r: Vec<(String, String)> = Vec::new();
    let n = pairs.len();
    let mut i: usize = 0;
    while i < n
        invariant
            n == pairs@.len(),
            i <= n,
            pairs_view(r@) == preserved_pairs_spec(pairs_view(pairs@).take(i as int)),
        decreases n - i,
    {
        let ghost prefix = pairs_view(pairs@).take(i as int + 1);
        assert(prefix.drop_last() =~= pairs_view(pairs@).take(i as int));
        assert(prefix.last() == (pairs@[i as int].0@, pairs@[i as int].1@));
        if !is_oidc_callback_param(pairs[i].0.as_str()) {
            r.push((pairs[i].0.clone(), pairs[i].1.clone()));
            assert(pairs_view(r@) =~= preserved_pairs_spec(prefix));
        }
        i = i + 1;
    }
    assert(pairs_view(pairs@).take(n as int) =~= pairs_view(pairs@));
    proof {
        law_callback_params_removed(pairs_view(pairs@));
        assert forall|i: int| 0 <= i < r@.len() implies #[trigger] r@[i].0@ == pairs_view(r@)[i].0 by {}
    }
    r
}

/// The outcome of removing the callback parameters from the page URL.
pub open spec fn cleaned_url_result(href: Seq<char>) -> Result<Seq<char>, StdbAuthErrorView> {
    match spec_parse_url(href) {
        Err(e) => Err(StdbAuthErrorView::InvalidOidcCallback("browser callback URL is invalid: "@ + e)),
        Ok(u) => {
            let preserved = preserved_pairs_spec(u.query_pairs);
            if preserved.len() == 0 {
                Ok(spec_url_without_query(href))
            } else {
                Ok(spec_url_with_query_replaced(href, preserved))
            }
        },
    }
}

/// The page URL without its OIDC callback parameters; other query
/// parameters are kept in order.
pub fn clean_callback_url(href: &str) -> (r: Result<String, StdbAuthError>)
    ensures
        match r {
            Ok(s) => cleaned_url_result(href@) == Ok::<Seq<char>, StdbAuthErrorView>(s@),
            Err(e) => cleaned_url_result(href@) == Err::<Seq<char>, StdbAuthErrorView>(e@),
        },
{
    let url = match parse_url(href) {
        Ok(u) => u,
        Err(e) => return Err(StdbAuthError::InvalidOidcCallback(concat2("browser callback URL is invalid: ", e.as_str()))),
    };
    let preserved = preserved_query_params(&url.query_pairs);
    let cleaned = if preserved.len() == 0 {
        url_without_query(href)
    } else {
        url_with_query_replaced(href, &preserved)
    };
    match cleaned {
        Ok(s) => Ok(s),
        Err(e) => Err(StdbAuthError::InvalidOidcCallback(concat2("browser callback URL is invalid: ", e.as_str()))),
    }
}

} // verus!
