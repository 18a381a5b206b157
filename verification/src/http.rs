//! Whether HTTPS certificates are verified, decided from the environment.
use vstd::prelude::*;
use crate::env::{env_bool_spec, first_non_empty_spec, parse_env_bool, blank};
use crate::error::GdError;

verus! {

pub const GD_SSL_VERIFY_ENV: &'static str = "GD_SSL_VERIFY";

pub const GITCODE_SSL_VERIFY_ENV: &'static str = "GITCODE_SSL_VERIFY";

pub const SSL_VERIFY_ENV: &'static str = "SSL_VERIFY";

pub const GIT_SSL_NO_VERIFY_ENV: &'static str = "GIT_SSL_NO_VERIFY";

/// The optional value of a variable as a sequence.
pub open spec fn opt_view(v: Option<&str>) -> Option<Seq<char>> {
    match v {
        Some(s) => Some(s@),
        None => None,
    }
}

/// The variable that decides certificate verification: the first of
/// `GD_SSL_VERIFY`, `GITCODE_SSL_VERIFY`, `SSL_VERIFY` that is set and not blank.
pub open spec fn ssl_setting(gd: Option<&str>, gitcode: Option<&str>, ssl: Option<&str>) -> Option<
    (Seq<char>, Seq<char>),
> {
    first_non_empty_spec(
        seq![
            ("GD_SSL_VERIFY"@, opt_view(gd)),
            ("GITCODE_SSL_VERIFY"@, opt_view(gitcode)),
            ("SSL_VERIFY"@, opt_view(ssl)),
        ],
    )
}

/// Whether certificates are verified: the deciding variable's boolean, and
/// `false` when none of them is set. `GIT_SSL_NO_VERIFY` is looked at but can
/// only leave verification off.
pub fn ssl_verify_from_lookup(
    gd: Option<&str>,
    gitcode: Option<&str>,
    ssl: Option<&str>,
    git_ssl_no_verify: Option<&str>,
) -> (r: Result<bool, GdError>)
    ensures
        match ssl_setting(gd, gitcode, ssl) {
            None => r == Ok::<bool, GdError>(false),
            Some((name, value)) => match env_bool_spec(value) {
                Some(b) => r == Ok::<bool, GdError>(b),
                None => r matches Err(GdError::InvalidEnvBool { name: n, value: v }) && n@ == name
                    && v@ == value,
            },
        },
{
    let ghost s = seq![
        ("GD_SSL_VERIFY"@, opt_view(gd)),
        ("GITCODE_SSL_VERIFY"@, opt_view(gitcode)),
        ("SSL_VERIFY"@, opt_view(ssl)),
    ];
    proof {
        reveal_with_fuel(first_non_empty_spec, 4);
        assert(s.drop_first() =~= seq![
            ("GITCODE_SSL_VERIFY"@, opt_view(gitcode)),
            ("SSL_VERIFY"@, opt_view(ssl)),
        ]);
        assert(s.drop_first().drop_first() =~= seq![("SSL_VERIFY"@, opt_view(ssl))]);
        assert(s.drop_first().drop_first().drop_first() =~= Seq::<
            (Seq<char>, Option<Seq<char>>),
        >::empty());
    }
    if let Some(v) = gd {
        if !blank(v) {
            return parse_env_bool(GD_SSL_VERIFY_ENV, v);
        }
    }
    if let Some(v) = gitcode {
        if !blank(v) {
            return parse_env_bool(GITCODE_SSL_VERIFY_ENV, v);
        }
    }
    if let Some(v) = ssl {
        if !blank(v) {
            return parse_env_bool(SSL_VERIFY_ENV, v);
        }
    }
    if let Some(v) = git_ssl_no_verify {
        if !blank(v) {
            return Ok(false);
        }
    }
    Ok(false)
}

} // verus!
