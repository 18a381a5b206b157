use relay_gitcode_cli::config::api_base_override;
use relay_gitcode_cli::config::{parse_api_base, Config};
use relay_gitcode_cli::error::GdError;

#[test]
fn normalizes_api_base_with_trailing_slash() {
    let url = parse_api_base("https://api.gitcode.com/api/v5").unwrap();
    assert_eq!(url.as_str(), "https://api.gitcode.com/api/v5/");
}

#[test]
fn rejects_invalid_api_base_scheme() {
    assert!(parse_api_base("file:///tmp/api").is_err());
}

#[test]
fn default_config_is_valid() {
    let config = Config::default();
    assert_eq!(config.hostname, "gitcode.com");
    assert_eq!(config.api_base, "https://api.gitcode.com/api/v5");
    assert!(config.validate().is_ok());
}

#[test]
fn overrides_replace_and_validate() {
    let mut config = Config::default();
    assert!(config.apply_overrides(Some("example.com"), Some("http://h/api")).is_ok());
    assert_eq!(config.hostname, "example.com");
    assert_eq!(config.api_base_url().unwrap(), "http://h/api/");
    let mut bad = Config::default();
    assert_eq!(bad.apply_overrides(Some("  "), None), Err(GdError::EmptyHostname));
}

#[test]
fn unparsable_api_base_is_an_error() {
    assert!(parse_api_base("not a url").is_err());
    assert_eq!(parse_api_base("https://h/a").unwrap(), "https://h/a/");
}

#[test]
fn flag_overrides_environment_api_base() {
    let env = Some(("GD_API_BASE".to_string(), "https://env/api".to_string()));
    assert_eq!(
        api_base_override(Some("https://flag/api"), env.clone()).as_deref(),
        Some("https://flag/api")
    );
    assert_eq!(api_base_override(None, env).as_deref(), Some("https://env/api"));
    assert_eq!(api_base_override(None, None), None);
}
