//! URLs as `reqwest::Url` parses them: the parts the library reads.

use vstd::prelude::*;

verus! {

/// The path segments of the URL parsed from `input` (`Url::parse`, then
/// `Url::path_segments`), or `None` when it does not parse or cannot be a base.
pub uninterp spec fn url_path_segments(input: Seq<char>) -> Option<Seq<Seq<char>>>;

/// The decoded query pairs of the URL parsed from `input` (`Url::parse`,
/// then `Url::query_pairs`), or `None` when it does not parse.
pub uninterp spec fn url_query_pairs(input: Seq<char>) -> Option<Seq<(Seq<char>, Seq<char>)>>;

/// The serialization of the URL parsed from `input` (`Url::parse`, then
/// `Url::as_str`), or `None` when it does not parse.
pub uninterp spec fn url_serialization(input: Seq<char>) -> Option<Seq<char>>;

/// The texts of a list of strings.
pub open spec fn string_views(v: Seq<String>) -> Seq<Seq<char>> {
    Seq::new(v.len(), |i: int| v[i]@)
}

/// The texts of a list of string pairs.
pub open spec fn pair_views(v: Seq<(String, String)>) -> Seq<(Seq<char>, Seq<char>)> {
    Seq::new(v.len(), |i: int| (v[i].0@, v[i].1@))
}

/// Parses `input` with `reqwest::Url::parse` and lists its path segments
/// with `Url::path_segments`; `None` when either gives none.
#[verifier::external_body]
pub(crate) fn parsed_path_segments(input: &str) -> (r: Option<Vec<String>>)
    ensures
        match r {
            Some(v) => url_path_segments(input@) == Some(string_views(v@)),
            None => url_path_segments(input@) is None,
        },
{
    let url = match reqwest::Url::parse(input) {
        Ok(url) => url,
        Err(_) => return None,
    };
    let segments = url.path_segments()?;
    Some(segments.map(str::to_owned).collect())
}

/// Parses `input` with `reqwest::Url::parse` and lists its decoded query
/// pairs with `Url::query_pairs`; `None` when it does not parse.
#[verifier::external_body]
pub(crate) fn parsed_query_pairs(input: &str) -> (r: Option<Vec<(String, String)>>)
    ensures
        match r {
            Some(v) => url_query_pairs(input@) == Some(pair_views(v@)),
            None => url_query_pairs(input@) is None,
        },
{
    let url = match reqwest::Url::parse(input) {
        Ok(url) => url,
        Err(_) => return None,
    };
    Some(url.query_pairs().map(|(k, v)| (k.into_owned(), v.into_owned())).collect())
}

/// Parses `input` with `reqwest::Url::parse` and gives its serialization
/// (`Url::as_str`); `None` when it does not parse.
#[verifier::external_body]
pub(crate) fn parsed_url_text(input: &str) -> (r: Option<String>)
    ensures
        match r {
            Some(s) => url_serialization(input@) == Some(s@),
            None => url_serialization(input@) is None,
        },
{
    match reqwest::Url::parse(input) {
        Ok(url) => Some(url.as_str().to_owned()),
        Err(_) => None,
    }
}

} // verus!
