use relay_gitcode_cli::error::GdError;
use relay_gitcode_cli::http::{
    ssl_verify_from_lookup, GD_SSL_VERIFY_ENV, GITCODE_SSL_VERIFY_ENV, GIT_SSL_NO_VERIFY_ENV,
    SSL_VERIFY_ENV,
};

fn ssl_verify_from_pairs(pairs: &[(&'static str, &str)]) -> Result<bool, GdError> {
    let lookup = |name: &str| {
        pairs
            .iter()
            .find(|(candidate, _)| *candidate == name)
            .map(|(_, value)| *value)
    };
    ssl_verify_from_lookup(
        lookup(GD_SSL_VERIFY_ENV),
        lookup(GITCODE_SSL_VERIFY_ENV),
        lookup(SSL_VERIFY_ENV),
        lookup(GIT_SSL_NO_VERIFY_ENV),
    )
}

#[test]
fn ssl_verification_defaults_to_disabled() {
    assert!(!ssl_verify_from_pairs(&[]).unwrap());
}

#[test]
fn positive_ssl_verify_variables_enable_verification() {
    for name in [GD_SSL_VERIFY_ENV, GITCODE_SSL_VERIFY_ENV, SSL_VERIFY_ENV] {
        assert!(ssl_verify_from_pairs(&[(name, "true")]).unwrap());
        assert!(!ssl_verify_from_pairs(&[(name, "false")]).unwrap());
    }
}

#[test]
fn git_ssl_no_verify_disables_verification_for_any_non_empty_value() {
    for value in ["true", "false", "1", "0", "anything"] {
        assert!(!ssl_verify_from_pairs(&[(GIT_SSL_NO_VERIFY_ENV, value)]).unwrap());
    }
}

#[test]
fn ssl_verify_priority_prefers_gd_prefix() {
    assert!(ssl_verify_from_pairs(&[
        (GD_SSL_VERIFY_ENV, "true"),
        (GITCODE_SSL_VERIFY_ENV, "false"),
        (SSL_VERIFY_ENV, "false"),
        (GIT_SSL_NO_VERIFY_ENV, "true"),
    ])
    .unwrap());
}

#[test]
fn invalid_ssl_verify_value_is_error() {
    let error = ssl_verify_from_pairs(&[(GD_SSL_VERIFY_ENV, "maybe")]).unwrap_err();
    let text = error.message();
    assert!(text.contains("invalid GD_SSL_VERIFY value"), "{text}");
}

#[test]
fn blank_ssl_variable_passes_to_the_next() {
    assert!(ssl_verify_from_pairs(&[(GD_SSL_VERIFY_ENV, "  "), (SSL_VERIFY_ENV, "yes")]).unwrap());
}
