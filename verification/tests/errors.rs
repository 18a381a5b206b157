use relay_gitcode_cli::commands::{login_token, token_output};
use relay_gitcode_cli::config::{parse_api_base, Config};
use relay_gitcode_cli::error::GdError;
use relay_gitcode_cli::pipeline::{
    actions_api_base_from_hostname, parse_actions_api_base, parse_key_value_inputs,
    validate_file_content_source, validate_workflow_path,
};
use relay_gitcode_cli::release_migration::{
    migrate_release, validate_options, GithubAsset, GithubRelease, ReleaseMigrationOptions,
};
use relay_gitcode_cli::repo::{parse_remote_url, split_repo};
use relay_gitcode_cli::update::{parse_bool, parse_sources, UpdateConfig};
use relay_gitcode_cli::client::{parse_headers, split_field};
use relay_gitcode_cli::json::Json;

#[test]
fn repository_and_remote_errors() {
    assert_eq!(split_repo("x").unwrap_err().message(), "repository must be in owner/repo form");
    assert_eq!(parse_remote_url("https://example.com/a/b").unwrap_err(), GdError::UnsupportedRemote);
    assert_eq!(GdError::UnsupportedRemote.message(), "unsupported remote URL");
}

#[test]
fn api_base_errors() {
    let e = parse_api_base("not a url").unwrap_err();
    assert_eq!(e.message(), "invalid api base URL: not a url");
    assert_eq!(parse_api_base("ftp://h/x").unwrap_err(), GdError::ApiBaseScheme);
    let config = Config {
        hostname: " ".to_string(),
        api_base: "https://h/".to_string(),
        default_repo: None,
    };
    assert_eq!(config.validate().unwrap_err().message(), "hostname cannot be empty");
}

#[test]
fn actions_base_errors() {
    assert!(matches!(
        parse_actions_api_base("not a url"),
        Err(GdError::InvalidActionsBase { .. })
    ));
    assert_eq!(
        parse_actions_api_base("ftp://h/").unwrap_err().message(),
        "GitCode Actions API base URL must use http or https"
    );
    assert!(actions_api_base_from_hostname("  ").is_err());
}

#[test]
fn workflow_errors() {
    assert_eq!(validate_workflow_path("ci.yml").unwrap_err(), GdError::WorkflowPath);
    assert_eq!(
        validate_file_content_source(Some("a"), Some("b")).unwrap_err().message(),
        "use either --content or --file, not both"
    );
    assert_eq!(
        parse_key_value_inputs(&vec![" = v".to_string()]).unwrap_err().message(),
        "workflow input key cannot be empty"
    );
}

#[test]
fn field_and_header_errors() {
    assert_eq!(
        split_field("nofield").unwrap_err().message(),
        "field must be in key=value form: nofield"
    );
    assert_eq!(
        parse_headers(&vec!["X".to_string()]).unwrap_err().message(),
        "header must be in 'Name: value' form: X"
    );
    assert_eq!(
        parse_headers(&vec!["A: b\u{1}".to_string()]).unwrap_err(),
        GdError::InvalidHeaderValue
    );
}

#[test]
fn release_migration_errors() {
    let options = ReleaseMigrationOptions {
        gitcode_repo: "a/b".to_string(),
        github_repo: "c/d".to_string(),
        tag: None,
        all: false,
        skip_existing_assets: false,
        update_release: false,
        dry_run: false,
        github_token: None,
    };
    assert_eq!(
        validate_options(&options).unwrap_err().message(),
        "set exactly one of --tag or --all"
    );
    let release = GithubRelease {
        tag_name: "v1".to_string(),
        target_commitish: String::new(),
        name: None,
        body: None,
        draft: false,
        prerelease: false,
        assets: vec![GithubAsset {
            name: "a.zip".to_string(),
            browser_download_url: "u".to_string(),
            content_type: None,
            size: 1,
        }],
    };
    let written = Json::Object(vec![(
        "assets".to_string(),
        Json::Array(vec![Json::Object(vec![(
            "name".to_string(),
            Json::Str("a.zip".to_string()),
        )])]),
    )]);
    let plan = migrate_release(&options, &release, None, Some(written));
    assert_eq!(
        plan.failure.unwrap().message(),
        "GitCode release asset already exists: a.zip"
    );
}

#[test]
fn update_setting_errors() {
    assert_eq!(
        parse_sources(Some("npm")).unwrap_err().message(),
        "invalid GD_UPDATE_SOURCES value 'npm', expected github or crates.io"
    );
    assert_eq!(
        parse_sources(Some(" , ")).unwrap_err(),
        GdError::NoUpdateSources
    );
    assert_eq!(parse_bool("maybe").unwrap_err().message(), "expected true or false");
    assert_eq!(
        UpdateConfig::from_environment(Some("maybe"), None, None).unwrap_err().message(),
        "invalid GD_UPDATE_CHECK_ENABLED value 'maybe', expected true or false"
    );
    assert_eq!(
        UpdateConfig::from_environment(None, None, Some("bad")).unwrap_err().message(),
        "GD_UPDATE_GITHUB_REPO must be owner/name, got 'bad'"
    );
}

#[test]
fn auth_errors() {
    assert_eq!(login_token(false, "t").unwrap_err(), GdError::WebLoginUnsupported);
    assert_eq!(login_token(true, "  \n").unwrap_err().message(), "token from stdin is empty");
    assert_eq!(login_token(true, " tok \n").unwrap(), "tok");
    assert_eq!(
        token_output("h.com", None).unwrap_err().message(),
        "not logged in to h.com"
    );
}

#[test]
fn endpoint_errors() {
    assert!(matches!(
        relay_gitcode_cli::client::endpoint_url("https://h/api/", "http://"),
        Err(GdError::InvalidEndpointUrl { .. })
    ));
}
