//! The `gd` configuration: GitCode host, api base and default repository.
use vstd::prelude::*;
use crate::error::GdError;
use crate::text::{
    concat, ends_with, from_chars, has_suffix, is_blank, to_chars, trim_end_char,
    trim_end_char_chars,
};
use crate::weburl::{
    ParsedUrl, parse_url, set_path_fits, set_url_path, url_parses, url_path, url_scheme,
    url_set_path_text, url_text,
};

verus! {

pub const DEFAULT_HOSTNAME: &'static str = "gitcode.com";

pub const DEFAULT_API_BASE: &'static str = "https://api.gitcode.com/api/v5";

/// Why an api base is refused.
#[derive(Debug, Clone, Copy, PartialEq, Eq, Structural)]
pub enum BaseFault {
    /// The text does not parse as a URL.
    Unparsable,
    /// The scheme is neither http nor https.
    Scheme,
    /// The URL has no host.
    NoHost,
    /// The URL is too long for its path to be rewritten.
    TooLong,
}

/// The path that the normal form gives a URL whose path lacks a trailing
/// slash: the path with its trailing slashes replaced by exactly one.
pub open spec fn slashed_path(value: Seq<char>) -> Seq<char> {
    trim_end_char(url_path(value), '/') + "/"@
}

/// The normal form of the URL parsed from `value` can be made: its path
/// already ends in `/`, or rewriting the path keeps the text within what the
/// url crate records.
pub open spec fn normal_form_fits(value: Seq<char>) -> bool {
    has_suffix(url_path(value), "/"@) || set_path_fits(value, slashed_path(value))
}

/// The normalized form of a parsed URL: its text when its path ends in `/`,
/// else the URL with its trailing slashes replaced by exactly one.
pub open spec fn with_trailing_slash(value: Seq<char>) -> Seq<char> {
    if has_suffix(url_path(value), "/"@) {
        url_text(value)
    } else {
        url_set_path_text(value, slashed_path(value))
    }
}

/// The normalized api base for `value`: it must parse as an http or https
/// URL; its path gets a trailing slash when it has none.
pub open spec fn api_base_spec(value: Seq<char>) -> Result<Seq<char>, BaseFault> {
    if !url_parses(value) {
        Err(BaseFault::Unparsable)
    } else if url_scheme(value) != "https"@ && url_scheme(value) != "http"@ {
        Err(BaseFault::Scheme)
    } else if !normal_form_fits(value) {
        Err(BaseFault::TooLong)
    } else {
        Ok(with_trailing_slash(value))
    }
}

/// `r` is what `api_base_spec` gives for `value`, with its errors.
pub open spec fn api_base_result(value: Seq<char>, r: Result<String, GdError>) -> bool {
    match api_base_spec(value) {
        Ok(s) => r matches Ok(t) && t@ == s,
        Err(BaseFault::Unparsable) => r matches Err(GdError::InvalidApiBase { value: v }) && v@
            == value,
        Err(BaseFault::TooLong) => r == Err::<String, GdError>(GdError::UrlTooLong),
        Err(_) => r == Err::<String, GdError>(GdError::ApiBaseScheme),
    }
}

/// The normal form of a parsed URL with a trailing slash; `None` when the
/// rewritten URL would be too long.
pub fn normalized_text(value: &str, u: ParsedUrl) -> (r: Option<String>)
    requires
        url_parses(value@),
        u.path@ == url_path(value@),
        u.text@ == url_text(value@),
    ensures
        match r {
            Some(t) => normal_form_fits(value@) && t@ == with_trailing_slash(value@),
            None => !normal_form_fits(value@),
        },
{
    let path = to_chars(u.path.as_str());
    let slash = to_chars("/");
    if ends_with(&path, &slash) {
        return Some(u.text);
    }
    let trimmed = trim_end_char_chars(&path, '/');
    let p = concat(&trimmed, &slash);
    let ps = from_chars(&p);
    assert(ps@ == slashed_path(value@));
    let text_len = u.text.as_str().as_bytes().len() as u128;
    let path_len = ps.as_str().as_bytes().len() as u128;
    assert(text_len == vstd::utf8::encode_utf8(url_text(value@)).len());
    assert(path_len == vstd::utf8::encode_utf8(slashed_path(value@)).len());
    if text_len + 3 * path_len + 3 > 4294967295 {
        return None;
    }
    Some(set_url_path(value, ps.as_str()))
}

/// The api base `value`, checked and normalized to end in `/`.
pub fn parse_api_base(value: &str) -> (r: Result<String, GdError>)
    ensures
        api_base_result(value@, r),
{
    let u = match parse_url(value) {
        Some(u) => u,
        None => return Err(GdError::InvalidApiBase { value: from_chars(&to_chars(value)) }),
    };
    let scheme = to_chars(u.scheme.as_str());
    if !crate::text::chars_eq_str(&scheme, "https") && !crate::text::chars_eq_str(&scheme, "http") {
        return Err(GdError::ApiBaseScheme);
    }
    match normalized_text(value, u) {
        Some(t) => Ok(t),
        None => Err(GdError::UrlTooLong),
    }
}

/// Where `gd` talks to GitCode.
#[derive(Debug, Clone, PartialEq, Eq)]
pub struct Config {
    pub hostname: String,
    pub api_base: String,
    pub default_repo: Option<String>,
}

/// A configuration is valid when its hostname is not blank and its api base
/// is an http or https URL.
pub open spec fn config_valid(c: Config) -> bool {
    !is_blank(c.hostname@) && api_base_spec(c.api_base@) is Ok
}

/// The error that validating `c` reports, if any.
pub open spec fn config_result(c: Config, r: Result<(), GdError>) -> bool {
    if is_blank(c.hostname@) {
        r == Err::<(), GdError>(GdError::EmptyHostname)
    } else {
        match api_base_spec(c.api_base@) {
            Ok(_) => r == Ok::<(), GdError>(()),
            Err(BaseFault::Unparsable) => r matches Err(GdError::InvalidApiBase { value: v }) && v@
                == c.api_base@,
            Err(BaseFault::TooLong) => r == Err::<(), GdError>(GdError::UrlTooLong),
            Err(_) => r == Err::<(), GdError>(GdError::ApiBaseScheme),
        }
    }
}

impl Default for Config {
    fn default() -> (r: Config)
        ensures
            r.hostname@ == DEFAULT_HOSTNAME@,
            r.api_base@ == DEFAULT_API_BASE@,
            r.default_repo is None,
    {
        Config {
            hostname: from_chars(&to_chars(DEFAULT_HOSTNAME)),
            api_base: from_chars(&to_chars(DEFAULT_API_BASE)),
            default_repo: None,
        }
    }
}

impl Config {
    /// Checks the hostname and then the api base.
    pub fn validate(&self) -> (r: Result<(), GdError>)
        ensures
            config_result(*self, r),
            r is Ok <==> config_valid(*self),
    {
        if crate::env::blank(self.hostname.as_str()) {
            return Err(GdError::EmptyHostname);
        }
        match parse_api_base(self.api_base.as_str()) {
            Ok(_) => Ok(()),
            Err(e) => Err(e),
        }
    }

    /// The api base, normalized to end in `/`.
    pub fn api_base_url(&self) -> (r: Result<String, GdError>)
        ensures
            api_base_result(self.api_base@, r),
    {
        parse_api_base(self.api_base.as_str())
    }

    /// Replaces the hostname and the api base by those given, then validates.
    pub fn apply_overrides(&mut self, hostname: Option<&str>, api_base: Option<&str>) -> (r: Result<
        (),
        GdError,
    >)
        ensures
            final(self).hostname@ == match hostname {
                Some(h) => h@,
                None => old(self).hostname@,
            },
            final(self).api_base@ == match api_base {
                Some(a) => a@,
                None => old(self).api_base@,
            },
            final(self).default_repo == old(self).default_repo,
            config_result(*final(self), r),
            r is Ok <==> config_valid(*final(self)),
    {
        if let Some(h) = hostname {
            self.hostname = from_chars(&to_chars(h));
        }
        if let Some(a) = api_base {
            self.api_base = from_chars(&to_chars(a));
        }
        self.validate()
    }
}

/// The api base that overrides the configured one: the `--api-base` flag,
/// else the value of the first of `GD_API_BASE`, `GITCODE_API_BASE` that is
/// set and not blank.
pub fn api_base_override(flag: Option<&str>, env_choice: Option<(String, String)>) -> (r: Option<
    String,
>)
    ensures
        match flag {
            Some(f) => r matches Some(v) && v@ == f@,
            None => match env_choice {
                Some((_, value)) => r matches Some(v) && v@ == value@,
                None => r is None,
            },
        },
{
    match flag {
        Some(f) => Some(from_chars(&to_chars(f))),
        None => match env_choice {
            Some((_, value)) => Some(value),
            None => None,
        },
    }
}

} // verus!
