//! URL parsing and serialization through the `url` crate.
//!
//! A parsed URL is held as plain values ([`ParsedUrl`]); what the `url`
//! crate computes is named by the `spec_*` functions below, which take the
//! wrappers' arguments as character sequences.

use vstd::prelude::*;

verus! {

/// The parts of a parsed URL that the authentication logic reads.
#[derive(Clone, Debug, PartialEq, Eq)]
pub struct ParsedUrl {
    /// The serialization of the whole URL (`Url::as_str`).
    pub serialization: String,
    /// The scheme, such as `http`.
    pub scheme: String,
    /// The host as a string, where there is one (`Url::host_str`).
    pub host: Option<String>,
    /// The port written in the URL, where one is written (`Url::port`).
    pub port: Option<u16>,
    /// The written port or the scheme's default port (`Url::port_or_known_default`).
    pub known_port: Option<u16>,
    /// The path.
    pub path: String,
    /// The query string, where there is one.
    pub query: Option<String>,
    /// The fragment, where there is one.
    pub fragment: Option<String>,
    /// The decoded `application/x-www-form-urlencoded` pairs of the query, in order.
    pub query_pairs: Vec<(String, String)>,
}

/// The characters of a list of string pairs.
pub open spec fn pairs_view(pairs: Seq<(String, String)>) -> Seq<(Seq<char>, Seq<char>)> {
    pairs.map_values(|p: (String, String)| (p.0@, p.1@))
}

/// A [`ParsedUrl`] with its strings taken as character sequences.
pub struct ParsedUrlView {
    pub serialization: Seq<char>,
    pub scheme: Seq<char>,
    pub host: Option<Seq<char>>,
    pub port: Option<u16>,
    pub known_port: Option<u16>,
    pub path: Seq<char>,
    pub query: Option<Seq<char>>,
    pub fragment: Option<Seq<char>>,
    pub query_pairs: Seq<(Seq<char>, Seq<char>)>,
}

impl View for ParsedUrl {
    type V = ParsedUrlView;

    open spec fn view(&self) -> ParsedUrlView {
        ParsedUrlView {
            serialization: self.serialization@,
            scheme: self.scheme@,
            host: crate::text::opt_view(self.host),
            port: self.port,
            known_port: self.known_port,
            path: self.path@,
            query: crate::text::opt_view(self.query),
            fragment: crate::text::opt_view(self.fragment),
            query_pairs: pairs_view(self.query_pairs@),
        }
    }
}

/// What `url::Url::parse` yields for `input`: the parsed URL, or the text of
/// its parse error.
pub uninterp spec fn spec_parse_url(input: Seq<char>) -> Result<ParsedUrlView, Seq<char>>;

/// What `url::Url::join` yields for `target` against the URL that parses
/// from `base`: the joined URL, or the text of the parse error of `base` or
/// of the join.
pub uninterp spec fn spec_join_url(base: Seq<char>, target: Seq<char>) -> Result<ParsedUrlView, Seq<char>>;

/// The `application/x-www-form-urlencoded` serialization of `pairs`, as
/// `url::form_urlencoded::Serializer` writes it.
pub uninterp spec fn spec_form_urlencoded(pairs: Seq<(Seq<char>, Seq<char>)>) -> Seq<char>;

/// The serialization of the URL that parses from `base` after its query is
/// replaced by the encoded `pairs`.
pub uninterp spec fn spec_url_with_query_replaced(
    base: Seq<char>,
    pairs: Seq<(Seq<char>, Seq<char>)>,
) -> Seq<char>;

/// The serialization of the URL that parses from `base` after its query is
/// removed.
pub uninterp spec fn spec_url_without_query(base: Seq<char>) -> Seq<char>;

/// Declares `url::Url` so that the conversion below can take it.
#[verifier::external_type_specification]
#[verifier::external_body]
pub struct ExUrl(url::Url);

/// Copies the parts of a `url::Url` into a [`ParsedUrl`]; nothing is
/// claimed of the copy beyond the contracts of the wrappers that use it.
#[verifier::external_body]
fn url_to_parts(u: &url::Url) -> ParsedUrl {
    ParsedUrl {
        serialization: u.as_str().to_string(),
        scheme: u.scheme().to_string(),
        host: u.host_str().map(|h| h.to_string()),
        port: u.port(),
        known_port: u.port_or_known_default(),
        path: u.path().to_string(),
        query: u.query().map(|q| q.to_string()),
        fragment: u.fragment().map(|f| f.to_string()),
        query_pairs: u.query_pairs().map(|(k, v)| (k.into_owned(), v.into_owned())).collect(),
    }
}

/// `url::Url::parse`: the contract names its result, parsed URL or error
/// text, as [`spec_parse_url`] of the input.
#[verifier::external_body]
pub(crate) fn parse_url(input: &str) -> (r: Result<ParsedUrl, String>)
    ensures
        match r {
            Ok(u) => spec_parse_url(input@) == Ok::<ParsedUrlView, Seq<char>>(u@),
            Err(e) => spec_parse_url(input@) == Err::<ParsedUrlView, Seq<char>>(e@),
        },
{
    url::Url::parse(input).map(|u| url_to_parts(&u)).map_err(|e| e.to_string())
}

/// `url::Url::join` of `target` on the URL that parses from `base`: the
/// contract names its result, joined URL or the text of the error of either
/// step, as [`spec_join_url`] of the two inputs.
#[verifier::external_body]
pub(crate) fn join_url(base: &str, target: &str) -> (r: Result<ParsedUrl, String>)
    ensures
        match r {
            Ok(u) => spec_join_url(base@, target@) == Ok::<ParsedUrlView, Seq<char>>(u@),
            Err(e) => spec_join_url(base@, target@) == Err::<ParsedUrlView, Seq<char>>(e@),
        },
{
    url::Url::parse(base).and_then(|b| b.join(target)).map(|u| url_to_parts(&u)).map_err(|e| e.to_string())
}

/// `url::form_urlencoded::Serializer::extend_pairs` on an empty string: the
/// contract names the encoded pairs as [`spec_form_urlencoded`].
#[verifier::external_body]
pub(crate) fn form_urlencoded(pairs: &Vec<(String, String)>) -> (r: String)
    ensures
        r@ == spec_form_urlencoded(pairs_view(pairs@)),
{
    url::form_urlencoded::Serializer::new(String::new())
        .extend_pairs(pairs.iter().map(|(k, v)| (k.as_str(), v.as_str())))
        .finish()
}

/// `url::Url::set_query(None)` followed by `query_pairs_mut().extend_pairs`
/// on the URL that parses from `base`: the contract names the serialized
/// result as [`spec_url_with_query_replaced`], and a parse failure as
/// [`spec_parse_url`].
#[verifier::external_body]
pub(crate) fn url_with_query_replaced(base: &str, pairs: &Vec<(String, String)>) -> (r: Result<String, String>)
    ensures
        match r {
            Ok(s) => spec_parse_url(base@) is Ok && s@ == spec_url_with_query_replaced(base@, pairs_view(pairs@)),
            Err(e) => spec_parse_url(base@) == Err::<ParsedUrlView, Seq<char>>(e@),
        },
{
    let mut url = url::Url::parse(base).map_err(|e| e.to_string())?;
    url.set_query(None);
    url.query_pairs_mut().extend_pairs(pairs.iter().map(|(k, v)| (k.as_str(), v.as_str())));
    Ok(url.to_string())
}

/// `url::Url::set_query(None)` on the URL that parses from `base`: the
/// contract names the serialized result as [`spec_url_without_query`], and
/// a parse failure as [`spec_parse_url`].
#[verifier::external_body]
pub(crate) fn url_without_query(base: &str) -> (r: Result<String, String>)
    ensures
        match r {
            Ok(s) => spec_parse_url(base@) is Ok && s@ == spec_url_without_query(base@),
            Err(e) => spec_parse_url(base@) == Err::<ParsedUrlView, Seq<char>>(e@),
        },
{
    let mut url = url::Url::parse(base).map_err(|e| e.to_string())?;
    url.set_query(None);
    Ok(url.to_string())
}

/// The value of the first pair whose key is `key`.
pub open spec fn first_value(pairs: Seq<(Seq<char>, Seq<char>)>, key: Seq<char>) -> Option<Seq<char>>
    decreases pairs.len(),
{
    if pairs.len() == 0 {
        None
    } else if pairs[0].0 == key {
        Some(pairs[0].1)
    } else {
        first_value(pairs.drop_first(), key)
    }
}

/// Whether some pair has the key `key`.
pub open spec fn has_key(pairs: Seq<(Seq<char>, Seq<char>)>, key: Seq<char>) -> bool {
    exists|i: int| 0 <= i < pairs.len() && #[trigger] pairs[i].0 == key
}

/// The value of the first pair in `pairs` whose key is `key`.
pub fn pairs_lookup(pairs: &Vec<(String, String)>, key: &str) -> (r: Option<String>)
    ensures
        crate::text::opt_view(r) == first_value(pairs_view(pairs@), key@),
{
    let n = pairs.len();
    let mut i: usize = 0;
    assert(pairs_view(pairs@).subrange(0, n as int) =~= pairs_view(pairs@));
    while i < n
        invariant
            n == pairs@.len(),
            i <= n,
            first_value(pairs_view(pairs@), key@) == first_value(pairs_view(pairs@).subrange(i as int, n as int), key@),
        decreases n - i,
    {
        let ghost rest = pairs_view(pairs@).subrange(i as int, n as int);
        assert(rest.drop_first() =~= pairs_view(pairs@).subrange(i + 1, n as int));
        assert(rest[0] == (pairs@[i as int].0@, pairs@[i as int].1@));
        if crate::text::str_eq(pairs[i].0.as_str(), key) {
            return Some(pairs[i].1.clone());
        }
        i = i + 1;
    }
    assert(pairs_view(pairs@).subrange(n as int, n as int).len() == 0);
    None
}

/// The value of the first query pair named `name`.
pub fn query_param(url: &ParsedUrl, name: &str) -> (r: Option<String>)
    ensures
        crate::text::opt_view(r) == first_value(url@.query_pairs, name@),
{
    pairs_lookup(&url.query_pairs, name)
}

} // verus!
