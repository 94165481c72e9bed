//! Addresses: the address of a collaborator with the path and the query of
//! one request put into it.

use url::Url;
use vstd::prelude::*;
use vstd::string::*;
use vstd::utf8::encode_utf8;

verus! {

/// The address that comes of `base` when `Url::parse` has read it,
/// `Url::set_path` has put `path` in the place of its path, and
/// `Url::as_str` has written it out; `None` where `base` is no address.
pub uninterp spec fn url_path_set(base: Seq<char>, path: Seq<char>) -> Option<Seq<char>>;

/// The address that comes of `base` when `Url::parse` has read it,
/// `Url::set_query` has put `query` in the place of its query, or taken its
/// query away where `query` is `None`, and `Url::as_str` has written it
/// out; `None` where `base` is no address.
pub uninterp spec fn url_query_set(base: Seq<char>, query: Option<Seq<char>>) -> Option<Seq<char>>;

/// The longest text, in bytes, that is handed on as an address or as a part
/// of one.
pub const MAX_URL_BYTES: usize = 1_048_576;

/// Whether a text is short enough to be an address or a part of one: its
/// length in bytes, as a `str` reports it, is within the limit.
pub open spec fn fits(text: Seq<char>) -> bool {
    encode_utf8(text).len() as usize <= MAX_URL_BYTES
}

/// The characters of a text that may be missing.
pub open spec fn opt_view(text: Option<String>) -> Option<Seq<char>> {
    match text {
        Some(t) => Some(t@),
        None => None,
    }
}

/// The characters of a borrowed text that may be missing.
pub open spec fn opt_str_view(text: Option<&str>) -> Option<Seq<char>> {
    match text {
        Some(t) => Some(t@),
        None => None,
    }
}

/// Reads `base` with `Url::parse`, replaces its path with `Url::set_path`
/// and writes the address out with `Url::as_str`. The contract names the
/// result. Longer texts are kept out, since `Url::set_path` gives up on an
/// address of more than `u32::MAX` bytes.
#[verifier::external_body]
fn set_path(base: &str, path: &str) -> (r: Option<String>)
    requires
        fits(base@),
        fits(path@),
    ensures
        opt_view(r) == url_path_set(base@, path@),
{
    let mut url = match Url::parse(base) {
        Ok(url) => url,
        Err(_) => return None,
    };
    url.set_path(path);
    Some(url.as_str().to_string())
}

/// Reads `base` with `Url::parse`, replaces its query with `Url::set_query`
/// and writes the address out with `Url::as_str`. The contract names the
/// result. Longer texts are kept out, since `Url::set_query` gives up on an
/// address of more than `u32::MAX` bytes.
#[verifier::external_body]
fn set_query(base: &str, query: Option<&str>) -> (r: Option<String>)
    requires
        fits(base@),
        query matches Some(q) ==> fits(q@),
    ensures
        opt_view(r) == url_query_set(base@, opt_str_view(query)),
{
    let mut url = match Url::parse(base) {
        Ok(url) => url,
        Err(_) => return None,
    };
    url.set_query(query);
    Some(url.as_str().to_string())
}

/// `base` with `path` as its path: `None` where a text is too long, or
/// `base` is no address.
pub open spec fn with_path_of(base: Seq<char>, path: Seq<char>) -> Option<Seq<char>> {
    if fits(base) && fits(path) {
        url_path_set(base, path)
    } else {
        None
    }
}

/// `base` with `query` as its query: `None` where a text is too long, or
/// `base` is no address.
pub open spec fn with_query_of(base: Seq<char>, query: Option<Seq<char>>) -> Option<Seq<char>> {
    if fits(base) && (query matches Some(q) ==> fits(q)) {
        url_query_set(base, query)
    } else {
        None
    }
}

/// `base` with the path and the query of a request in the place of its own.
pub open spec fn target_of(base: Seq<char>, path: Seq<char>, query: Option<Seq<char>>) -> Option<
    Seq<char>,
> {
    match with_path_of(base, path) {
        Some(url) => with_query_of(url, query),
        None => None,
    }
}

/// Puts `path` into `base` in the place of its path.
pub fn with_path(base: &str, path: &str) -> (r: Option<String>)
    ensures
        opt_view(r) == with_path_of(base@, path@),
{
    if base.len() > MAX_URL_BYTES || path.len() > MAX_URL_BYTES {
        return None;
    }
    set_path(base, path)
}

/// Puts `query` into `base` in the place of its query; without a `query`,
/// the address is left without one.
pub fn with_query(base: &str, query: Option<&str>) -> (r: Option<String>)
    ensures
        opt_view(r) == with_query_of(base@, opt_str_view(query)),
{
    if base.len() > MAX_URL_BYTES {
        return None;
    }
    match query {
        Some(q) => {
            if q.len() > MAX_URL_BYTES {
                return None;
            }
        },
        None => {},
    }
    set_query(base, query)
}

/// The address to which a request is forwarded: `base` with the path and
/// the query of the request. What `base` had of its own is not kept.
pub fn target(base: &str, path: &str, query: Option<&str>) -> (r: Option<String>)
    ensures
        opt_view(r) == target_of(base@, path@, opt_str_view(query)),
{
    match with_path(base, path) {
        Some(url) => with_query(url.as_str(), query),
        None => None,
    }
}

} // verus!
