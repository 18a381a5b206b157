use relay_gitcode_cli::env::{
    first_non_empty_env, gitcode_api_base_env, gitcode_token_env, parse_env_bool,
};

#[test]
fn parses_true_boolean_values() {
    for value in ["true", "1", "yes", "on", " TRUE "] {
        assert!(parse_env_bool("TEST_BOOL", value).unwrap());
    }
}

#[test]
fn parses_false_boolean_values() {
    for value in ["false", "0", "no", "off", " FALSE "] {
        assert!(!parse_env_bool("TEST_BOOL", value).unwrap());
    }
}

#[test]
fn rejects_invalid_boolean_values() {
    let error = parse_env_bool("TEST_BOOL", "maybe").unwrap_err();
    let text = error.message();
    assert!(text.contains("invalid TEST_BOOL value"), "{text}");
}

#[test]
fn invalid_boolean_message_quotes_value() {
    let error = parse_env_bool("X", "maybe").unwrap_err();
    assert_eq!(error.message(), "invalid X value 'maybe', expected true or false");
}

#[test]
fn first_non_empty_env_skips_blank_values() {
    let candidates = vec![
        ("A".to_string(), Some("  ".to_string())),
        ("B".to_string(), None),
        ("C".to_string(), Some("value".to_string())),
        ("D".to_string(), Some("other".to_string())),
    ];
    assert_eq!(
        first_non_empty_env(&candidates),
        Some(("C".to_string(), "value".to_string()))
    );
    let none = vec![("A".to_string(), Some(String::new()))];
    assert_eq!(first_non_empty_env(&none), None);
}

#[test]
fn gd_variables_take_precedence_over_gitcode_variables() {
    assert_eq!(
        gitcode_token_env(Some("t1".to_string()), Some("t2".to_string())),
        Some(("GD_TOKEN".to_string(), "t1".to_string()))
    );
    assert_eq!(
        gitcode_token_env(Some(" ".to_string()), Some("t2".to_string())),
        Some(("GITCODE_TOKEN".to_string(), "t2".to_string()))
    );
    assert_eq!(
        gitcode_api_base_env(None, Some("https://x/api".to_string())),
        Some(("GITCODE_API_BASE".to_string(), "https://x/api".to_string()))
    );
}
