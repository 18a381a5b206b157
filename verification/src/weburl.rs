//! The parts of the `url` crate that the library relies on, with what is
//! assumed of them. What these calls return is named, not restated: URL
//! parsing follows the WHATWG URL standard, which takes pages to describe.
use vstd::prelude::*;

verus! {

/// Whether `url::Url::parse` accepts `s`.
pub uninterp spec fn url_parses(s: Seq<char>) -> bool;

/// `Url::scheme` of the URL that `url::Url::parse` makes of `s`.
pub uninterp spec fn url_scheme(s: Seq<char>) -> Seq<char>;

/// `Url::host_str` of the URL that `url::Url::parse` makes of `s`.
pub uninterp spec fn url_host(s: Seq<char>) -> Option<Seq<char>>;

/// `Url::path` of the URL that `url::Url::parse` makes of `s`.
pub uninterp spec fn url_path(s: Seq<char>) -> Seq<char>;

/// `Url::as_str` of the URL that `url::Url::parse` makes of `s`.
pub uninterp spec fn url_text(s: Seq<char>) -> Seq<char>;

/// `Url::as_str` after `Url::set_path(path)` on the URL parsed from `s`.
pub uninterp spec fn url_set_path_text(s: Seq<char>, path: Seq<char>) -> Seq<char>;

/// `Url::join(input)` on the URL parsed from `base`: `None` when it fails,
/// else the text of the joined URL.
pub uninterp spec fn url_join_text(base: Seq<char>, input: Seq<char>) -> Option<Seq<char>>;

/// The parts of a parsed URL that the library reads.
#[derive(Debug, Clone, PartialEq, Eq)]
pub struct ParsedUrl {
    pub scheme: String,
    pub host: Option<String>,
    pub path: String,
    pub text: String,
}

/// `url::Url::parse(value)`, reduced to its scheme, host, path and text.
/// Claimed: `Some` exactly when the crate accepts `value`, and each part is
/// what the crate's accessor returns; nothing is claimed of what those are.
#[verifier::external_body]
pub(crate) fn parse_url(value: &str) -> (r: Option<ParsedUrl>)
    ensures
        r is Some <==> url_parses(value@),
        r matches Some(p) ==> p.scheme@ == url_scheme(value@) && p.path@ == url_path(value@)
            && p.text@ == url_text(value@) && match p.host {
            Some(h) => url_host(value@) == Some(h@),
            None => url_host(value@) is None,
        },
{
    match url::Url::parse(value) {
        Ok(u) => Some(
            ParsedUrl {
                scheme: u.scheme().to_string(),
                host: u.host_str().map(|h| h.to_string()),
                path: u.path().to_string(),
                text: u.as_str().to_string(),
            },
        ),
        Err(_) => None,
    }
}

/// The text of the URL parsed from `value`, with its path set to `path`,
/// stays within what the url crate records: it keeps positions in the text
/// as `u32`, and the new text is at most the old text plus three bytes for
/// each byte of the path, and three more.
pub open spec fn set_path_fits(value: Seq<char>, path: Seq<char>) -> bool {
    vstd::utf8::encode_utf8(url_text(value)).len() + 3 * vstd::utf8::encode_utf8(path).len() + 3
        <= u32::MAX
}

/// `Url::set_path(path)` on the URL parsed from `value`, then `Url::as_str`.
/// Claimed: the text is the named result for `value` and `path`. The crate
/// panics when the rebuilt text outgrows `u32` (`to_u32(..).unwrap()`), so
/// `requires` keeps the path within that bound.
#[verifier::external_body]
pub(crate) fn set_url_path(value: &str, path: &str) -> (r: String)
    requires
        url_parses(value@),
        set_path_fits(value@, path@),
    ensures
        r@ == url_set_path_text(value@, path@),
{
    let mut u = url::Url::parse(value).unwrap();
    u.set_path(path);
    u.as_str().to_string()
}

/// `Url::join(input)` on the URL parsed from `base`, then `Url::as_str`.
/// Claimed: the result is the named result for `base` and `input`.
#[verifier::external_body]
pub(crate) fn join_url(base: &str, input: &str) -> (r: Option<String>)
    requires
        url_parses(base@),
    ensures
        match (r, url_join_text(base@, input@)) {
            (Some(t), Some(u)) => t@ == u,
            (None, None) => true,
            _ => false,
        },
{
    match url::Url::parse(base).unwrap().join(input) {
        Ok(u) => Some(u.as_str().to_string()),
        Err(_) => None,
    }
}

} // verus!
