//! URLs parsed by the `url` crate, kept together with the text they were
//! parsed from, and what the library reads out of them.
use vstd::prelude::*;
use crate::text::opt_view;

verus! {

/// The pairs of `v` as text.
pub open spec fn pair_views(v: Seq<(String, String)>) -> Seq<(Seq<char>, Seq<char>)> {
    v.map_values(|p: (String, String)| (p.0@, p.1@))
}

#[verifier::external_type_specification]
#[verifier::external_body]
pub struct ExUrl(url::Url);

/// Whether `url::Url::parse` accepts `input` as an absolute URL. The WHATWG
/// URL grammar that decides it is not restated here.
pub uninterp spec fn url_parses(input: Seq<char>) -> bool;

/// The host that `url::Url::host_str` gives for the URL parsed from `input`.
pub uninterp spec fn url_host_of(input: Seq<char>) -> Option<Seq<char>>;

/// The path that `url::Url::path` gives for the URL parsed from `input`.
pub uninterp spec fn url_path_of(input: Seq<char>) -> Seq<char>;

/// The decoded query pairs that `url::Url::query_pairs` gives, in order,
/// for the URL parsed from `input`.
pub uninterp spec fn url_query_of(input: Seq<char>) -> Seq<(Seq<char>, Seq<char>)>;

/// A URL that `url::Url::parse` accepted, with the text it was parsed from.
/// Only `parse_url` builds one, so `url` is always what parsing `text` gave.
pub struct ParsedUrl {
    url: url::Url,
    text: String,
}

impl View for ParsedUrl {
    type V = Seq<char>;

    /// The text the URL was parsed from.
    closed spec fn view(&self) -> Seq<char> {
        self.text@
    }
}

/// Parses an absolute URL (`url::Url::parse`). Claimed: a URL comes back
/// exactly when the parser accepts the input, and it remembers the input.
#[verifier::external_body]
pub(crate) fn parse_url(input: &str) -> (res: Option<ParsedUrl>)
    ensures
        res is Some <==> url_parses(input@),
        res matches Some(p) ==> p@ == input@,
{
    match url::Url::parse(input) {
        Ok(url) => Some(ParsedUrl { url, text: input.to_string() }),
        Err(_) => None,
    }
}

/// The host of a parsed URL (`url::Url::host_str`), as text. Claimed: it is
/// the named host of the text the URL was parsed from.
#[verifier::external_body]
pub(crate) fn url_host(u: &ParsedUrl) -> (res: Option<String>)
    ensures
        opt_view(res) == url_host_of(u@),
{
    u.url.host_str().map(String::from)
}

/// The path of a parsed URL (`url::Url::path`), as text. Claimed: it is the
/// named path of the text the URL was parsed from.
#[verifier::external_body]
pub(crate) fn url_path(u: &ParsedUrl) -> (res: String)
    ensures
        res@ == url_path_of(u@),
{
    String::from(u.url.path())
}

/// The decoded query pairs of a parsed URL (`url::Url::query_pairs`), in
/// order. Claimed: they are the named pairs of the text the URL was parsed
/// from.
#[verifier::external_body]
pub(crate) fn url_query_pairs(u: &ParsedUrl) -> (res: Vec<(String, String)>)
    ensures
        pair_views(res@) == url_query_of(u@),
{
    u.url.query_pairs().map(|(k, v)| (k.into_owned(), v.into_owned())).collect()
}

} // verus!
