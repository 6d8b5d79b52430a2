//! The boundary to the `url` crate. A parsed URL is modelled by what the
//! rewriter reads of it: the host, and the decoded (key, value) query pairs.
//! Parsing and reserialization are deterministic functions of the text, named
//! here by `url_parse`, `url_without_query` and `url_with_pairs`.

use vstd::prelude::*;

verus! {

/// What the rewriter reads of a parsed URL: its host, if any, and its
/// decoded query pairs in order.
pub struct UrlModel {
    pub host: Option<Seq<char>>,
    pub pairs: Seq<(Seq<char>, Seq<char>)>,
}

/// The host and decoded query pairs that `url::Url::parse` yields for a
/// text, or `None` where parsing fails.
pub uninterp spec fn url_parse(text: Seq<char>) -> Option<UrlModel>;

/// The serialization of the parsed URL with its query removed.
pub uninterp spec fn url_without_query(text: Seq<char>) -> Seq<char>;

/// The serialization of the parsed URL with its query replaced by the
/// form-urlencoded serialization of `pairs`.
pub uninterp spec fn url_with_pairs(
    text: Seq<char>,
    pairs: Seq<(Seq<char>, Seq<char>)>,
) -> Seq<char>;

/// The host and query pairs read from one parsed URL.
pub struct UrlParts {
    pub host: Option<String>,
    pub pairs: Vec<(String, String)>,
}

impl View for UrlParts {
    type V = UrlModel;

    open spec fn view(&self) -> UrlModel {
        UrlModel { host: self.host.deep_view(), pairs: self.pairs.deep_view() }
    }
}

/// Relies on url::Url::parse, Url::host_str and Url::query_pairs: parsing
/// fails exactly where the crate rejects the text, and otherwise yields the
/// canonical host and the percent-decoded query pairs in their query order.
#[verifier::external_body]
pub(crate) fn parse_url_parts(text: &str) -> (r: Option<UrlParts>)
    ensures
        r is Some <==> url_parse(text@) is Some,
        r matches Some(p) ==> url_parse(text@) == Some(p@),
{
    match url::Url::parse(text) {
        Err(_) => None,
        Ok(u) => {
            let host = u.host_str().map(|h| h.to_string());
            let pairs = u.query_pairs().map(|(k, v)| (k.into_owned(), v.into_owned())).collect();
            Some(UrlParts { host, pairs })
        },
    }
}

/// Relies on url::Url::set_query(None) and Url::as_str: removing the query
/// deletes the `?` and everything to the fragment, leaving the host as it
/// was; and on the WHATWG round trip (a Url's serialization parses back to
/// an equal Url), so the result still parses, with the same host and no
/// query pairs.
#[verifier::external_body]
pub(crate) fn rebuild_without_query(text: &str) -> (r: String)
    requires
        url_parse(text@) is Some,
    ensures
        r@ == url_without_query(text@),
        url_parse(text@) matches Some(m) ==> url_parse(r@) == Some(
            UrlModel { host: m.host, pairs: Seq::<(Seq<char>, Seq<char>)>::empty() },
        ),
{
    let mut u = url::Url::parse(text).unwrap();
    u.set_query(None);
    u.as_str().to_string()
}

/// Relies on url::Url::query_pairs_mut: clearing and extending writes the
/// form-urlencoded serialization of exactly `pairs` as the query, touching
/// no other component; on form_urlencoded: parsing that serialization
/// decodes back to the same pairs; and on the WHATWG round trip, so the
/// result parses, with the same host and with `pairs` as its query pairs.
#[verifier::external_body]
pub(crate) fn rebuild_with_pairs(text: &str, pairs: &Vec<(String, String)>) -> (r: String)
    requires
        url_parse(text@) is Some,
        pairs.deep_view().len() > 0,
    ensures
        r@ == url_with_pairs(text@, pairs.deep_view()),
        url_parse(text@) matches Some(m) ==> url_parse(r@) == Some(
            UrlModel { host: m.host, pairs: pairs.deep_view() },
        ),
{
    let mut u = url::Url::parse(text).unwrap();
    u.query_pairs_mut().clear().extend_pairs(pairs.iter()).finish();
    u.as_str().to_string()
}

} // verus!
