//! Resolving references against a URL and setting its query.

use vstd::prelude::*;
use vstd::utf8::encode_utf8;

verus! {

/// The longest text, in UTF-8 bytes, that is handed to the URL parser when a
/// query is set.
pub const MAX_URL_BYTES: usize = 0x0100_0000;

/// Whether `text` is at most `MAX_URL_BYTES` long.
pub open spec fn fits(text: Seq<char>) -> bool {
    encode_utf8(text).len() <= MAX_URL_BYTES
}

/// The URL that `reference` denotes relative to the URL `base`, as text;
/// `None` where `base` is not an absolute URL or `reference` cannot be
/// resolved against it.
pub uninterp spec fn url_joined(base: Seq<char>, reference: Seq<char>) -> Option<Seq<char>>;

/// The URL `url` with `query` as its query string, as text; `None` where
/// `url` is not an absolute URL.
pub uninterp spec fn url_with_query(url: Seq<char>, query: Seq<char>) -> Option<Seq<char>>;

/// The view of what a URL operation returned.
pub open spec fn url_text(url: Option<String>) -> Option<Seq<char>> {
    match url {
        None => None,
        Some(text) => Some(text@),
    }
}

/// Tells whether `text` is at most `MAX_URL_BYTES` long.
pub fn within_limit(text: &str) -> (b: bool)
    ensures
        b == fits(text@),
{
    text.as_bytes().len() <= MAX_URL_BYTES
}

/// Parses `base` with `reqwest::Url::parse`, resolves `reference` against it
/// with `Url::join` and serialises the result. Both return an error rather
/// than a URL where the text is not one. The contract only names the
/// outcome: it is the same for the same two texts.
#[verifier::external_body]
pub(crate) fn join(base: &str, reference: &str) -> (joined: Option<String>)
    ensures
        url_text(joined) == url_joined(base@, reference@),
{
    match reqwest::Url::parse(base) {
        Ok(parsed) => parsed.join(reference).ok().map(String::from),
        Err(_) => None,
    }
}

/// Parses `url` with `reqwest::Url::parse`, replaces its query with
/// `Url::set_query` and serialises the result. `set_query` converts the
/// length of the serialisation to `u32` and unwraps, so both texts are kept
/// far below that size. The contract only names the outcome: it is the same
/// for the same two texts.
#[verifier::external_body]
pub(crate) fn with_query(url: &str, query: &str) -> (changed: Option<String>)
    requires
        fits(url@),
        fits(query@),
    ensures
        url_text(changed) == url_with_query(url@, query@),
{
    match reqwest::Url::parse(url) {
        Ok(mut parsed) => {
            parsed.set_query(Some(query));
            Some(String::from(parsed))
        },
        Err(_) => None,
    }
}

} // verus!
