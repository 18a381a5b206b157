//! Settings read from environment variables: tokens, api bases and booleans.
//!
//! The variables themselves are read by the program; these functions decide
//! what their values mean.
use vstd::prelude::*;
use crate::error::GdError;
use crate::text::{chars_eq_str, from_chars, is_blank, lower, lower_chars, to_chars, trim, trim_chars};

verus! {

pub const GD_TOKEN_ENV: &'static str = "GD_TOKEN";

pub const GITCODE_TOKEN_ENV: &'static str = "GITCODE_TOKEN";

pub const GD_API_BASE_ENV: &'static str = "GD_API_BASE";

pub const GITCODE_API_BASE_ENV: &'static str = "GITCODE_API_BASE";

/// The meaning of a boolean setting: trimmed and lower-cased, one of
/// `true 1 yes on` or `false 0 no off`.
pub open spec fn env_bool_spec(value: Seq<char>) -> Option<bool> {
    let w = lower(trim(value));
    if w == "true"@ || w == "1"@ || w == "yes"@ || w == "on"@ {
        Some(true)
    } else if w == "false"@ || w == "0"@ || w == "no"@ || w == "off"@ {
        Some(false)
    } else {
        None
    }
}

/// The word `w`, trimmed and lower-cased, as a boolean.
pub fn bool_word(value: &str) -> (r: Option<bool>)
    ensures
        r == env_bool_spec(value@),
{
    let v = to_chars(value);
    let t = trim_chars(&v);
    let w = lower_chars(&t);
    if chars_eq_str(&w, "true") || chars_eq_str(&w, "1") || chars_eq_str(&w, "yes")
        || chars_eq_str(&w, "on") {
        Some(true)
    } else if chars_eq_str(&w, "false") || chars_eq_str(&w, "0") || chars_eq_str(&w, "no")
        || chars_eq_str(&w, "off") {
        Some(false)
    } else {
        None
    }
}

/// The boolean held by the setting `name`; an unknown word is an error that
/// quotes the name and the value.
pub fn parse_env_bool(name: &str, value: &str) -> (r: Result<bool, GdError>)
    ensures
        match env_bool_spec(value@) {
            Some(b) => r == Ok::<bool, GdError>(b),
            None => r matches Err(GdError::InvalidEnvBool { name: n, value: v }) && n@ == name@
                && v@ == value@,
        },
{
    match bool_word(value) {
        Some(b) => Ok(b),
        None => Err(
            GdError::InvalidEnvBool {
                name: from_chars(&to_chars(name)),
                value: from_chars(&to_chars(value)),
            },
        ),
    }
}

/// Whether `value` is empty or white space only.
pub fn blank(value: &str) -> (r: bool)
    ensures
        r == is_blank(value@),
{
    let v = to_chars(value);
    let t = trim_chars(&v);
    t.len() == 0
}

/// The first variable, in order, whose value is set and not blank.
pub open spec fn first_non_empty_spec(candidates: Seq<(Seq<char>, Option<Seq<char>>)>) -> Option<
    (Seq<char>, Seq<char>),
>
    decreases candidates.len(),
{
    if candidates.len() == 0 {
        None
    } else {
        match candidates[0].1 {
            Some(v) => if !is_blank(v) {
                Some((candidates[0].0, v))
            } else {
                first_non_empty_spec(candidates.drop_first())
            },
            None => first_non_empty_spec(candidates.drop_first()),
        }
    }
}

/// The view of a list of variable names and their values.
pub open spec fn env_pairs_view(candidates: Seq<(String, Option<String>)>) -> Seq<
    (Seq<char>, Option<Seq<char>>),
> {
    candidates.map_values(
        |p: (String, Option<String>)|
            (
                p.0@,
                match p.1 {
                    Some(v) => Some(v@),
                    None => None,
                },
            ),
    )
}

/// The first `(name, value)` of `candidates` whose value is set and not blank.
pub fn first_non_empty_env(candidates: &Vec<(String, Option<String>)>) -> (r: Option<
    (String, String),
>)
    ensures
        match (r, first_non_empty_spec(env_pairs_view(candidates@))) {
            (Some((n, v)), Some((sn, sv))) => n@ == sn && v@ == sv,
            (None, None) => true,
            _ => false,
        },
{
    let ghost all = env_pairs_view(candidates@);
    assert(all.skip(0) =~= all);
    let mut i: usize = 0;
    while i < candidates.len()
        invariant
            i <= candidates@.len(),
            all == env_pairs_view(candidates@),
            first_non_empty_spec(all) == first_non_empty_spec(all.skip(i as int)),
        decreases candidates@.len() - i,
    {
        proof {
            assert(all.skip(i as int)[0] == all[i as int]);
            assert(all.skip(i as int).drop_first() =~= all.skip(i + 1));
        }
        let (name, value) = &candidates[i];
        if let Some(v) = value {
            if !blank(v.as_str()) {
                return Some((from_chars(&to_chars(name.as_str())), from_chars(&to_chars(v.as_str()))));
            }
        }
        i = i + 1;
    }
    None
}

/// The token given by `GD_TOKEN`, else by `GITCODE_TOKEN`, with the name of
/// the variable it came from.
pub fn gitcode_token_env(gd_token: Option<String>, gitcode_token: Option<String>) -> (r: Option<
    (String, String),
>)
    ensures
        match (r, first_non_empty_spec(
            seq![
                ("GD_TOKEN"@, match gd_token { Some(v) => Some(v@), None => None }),
                ("GITCODE_TOKEN"@, match gitcode_token { Some(v) => Some(v@), None => None }),
            ],
        )) {
            (Some((n, v)), Some((sn, sv))) => n@ == sn && v@ == sv,
            (None, None) => true,
            _ => false,
        },
{
    let mut c: Vec<(String, Option<String>)> = Vec::new();
    c.push((from_chars(&to_chars(GD_TOKEN_ENV)), gd_token));
    c.push((from_chars(&to_chars(GITCODE_TOKEN_ENV)), gitcode_token));
    proof {
        assert(env_pairs_view(c@) =~= seq![
            ("GD_TOKEN"@, match gd_token { Some(v) => Some(v@), None => None }),
            ("GITCODE_TOKEN"@, match gitcode_token { Some(v) => Some(v@), None => None }),
        ]);
    }
    first_non_empty_env(&c)
}

/// The api base given by `GD_API_BASE`, else by `GITCODE_API_BASE`, with the
/// name of the variable it came from.
pub fn gitcode_api_base_env(gd_api_base: Option<String>, gitcode_api_base: Option<String>) -> (r:
    Option<(String, String)>)
    ensures
        match (r, first_non_empty_spec(
            seq![
                ("GD_API_BASE"@, match gd_api_base { Some(v) => Some(v@), None => None }),
                ("GITCODE_API_BASE"@, match gitcode_api_base { Some(v) => Some(v@), None => None }),
            ],
        )) {
            (Some((n, v)), Some((sn, sv))) => n@ == sn && v@ == sv,
            (None, None) => true,
            _ => false,
        },
{
    let mut c: Vec<(String, Option<String>)> = Vec::new();
    c.push((from_chars(&to_chars(GD_API_BASE_ENV)), gd_api_base));
    c.push((from_chars(&to_chars(GITCODE_API_BASE_ENV)), gitcode_api_base));
    proof {
        assert(env_pairs_view(c@) =~= seq![
            ("GD_API_BASE"@, match gd_api_base { Some(v) => Some(v@), None => None }),
            ("GITCODE_API_BASE"@, match gitcode_api_base { Some(v) => Some(v@), None => None }),
        ]);
    }
    first_non_empty_env(&c)
}

} // verus!
