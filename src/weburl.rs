//! The calls into the `url` crate. A URL is held as its serialization, the
//! text that `url::Url` prints for it.
use vstd::prelude::*;

verus! {

/// The serialization of the URL that `url::Url::parse` reads from the text, or
/// `None` where the text is no absolute URL.
pub uninterp spec fn url_parsed(text: Seq<char>) -> Option<Seq<char>>;

/// Relies on `url::Url::parse`: the result depends on the text alone.
#[verifier::external_body]
pub(crate) fn parse_url(text: &str) -> (r: Option<String>)
    ensures
        match r {
            Some(u) => url_parsed(text@) == Some(u@),
            None => url_parsed(text@) is None,
        },
{
    url::Url::parse(text).ok().map(String::from)
}

/// The serialization of what `url::Url::join` gives for `input` against the
/// URL that `url::Url::parse` reads from `base`, or `None` where either fails.
pub uninterp spec fn url_joined(base: Seq<char>, input: Seq<char>) -> Option<Seq<char>>;

/// Relies on `url::Url::join` (after `url::Url::parse` of the base): the
/// result depends on the two texts alone.
#[verifier::external_body]
pub(crate) fn join_url(base: &str, input: &str) -> (r: Option<String>)
    ensures
        match r {
            Some(u) => url_joined(base@, input@) == Some(u@),
            None => url_joined(base@, input@) is None,
        },
{
    url::Url::parse(base).and_then(|b| b.join(input)).ok().map(String::from)
}

/// The serialization of the URL that `url::Url::parse` reads from `url`, with
/// the pair `key=value` appended to its query by `append_pair` of
/// `url::Url::query_pairs_mut`, or `None` where the text does not parse.
pub uninterp spec fn url_with_query_pair(url: Seq<char>, key: Seq<char>, value: Seq<char>) -> Option<
    Seq<char>,
>;

/// Relies on `url::Url::query_pairs_mut` and its `append_pair` (after
/// `url::Url::parse`): the result depends on the three texts alone.
#[verifier::external_body]
pub(crate) fn append_query_pair(url: &str, key: &str, value: &str) -> (r: Option<String>)
    ensures
        match r {
            Some(u) => url_with_query_pair(url@, key@, value@) == Some(u@),
            None => url_with_query_pair(url@, key@, value@) is None,
        },
{
    let mut parsed = url::Url::parse(url).ok()?;
    parsed.query_pairs_mut().append_pair(key, value);
    Some(String::from(parsed))
}

} // verus!
