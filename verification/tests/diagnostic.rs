use relay_gitcode_cli::cli::{gd_grammar, Cli};
use relay_gitcode_cli::diagnostic::{ParseDiagnostic, Similar};
use relay_gitcode_cli::distance::edit_distance;
use serde_json::Value;

fn args(words: &[&str]) -> Vec<String> {
    words.iter().map(|w| w.to_string()).collect()
}

fn diagnostic(words: &[&str]) -> ParseDiagnostic {
    let a = args(words);
    let failure = Cli::try_parse_from(&a, None).unwrap_err();
    ParseDiagnostic::from_failure(&gd_grammar(), &a, &failure, &Similar::Nothing)
}

fn diagnostic_with(words: &[&str], similar: Similar) -> ParseDiagnostic {
    let a = args(words);
    let failure = Cli::try_parse_from(&a, None).unwrap_err();
    ParseDiagnostic::from_failure(&gd_grammar(), &a, &failure, &similar)
}

fn text(d: &ParseDiagnostic) -> String {
    d.render_stderr()
}

fn strings(values: &[&str]) -> Value {
    Value::Array(values.iter().map(|v| Value::String(v.to_string())).collect())
}

#[test]
fn parse_diagnostic_suggests_nearest_subcommand() {
    let diagnostic = diagnostic(&["gd", "pipeline", "rnus"]);

    assert_eq!(diagnostic.matched_path, ["pipeline"]);
    assert_eq!(diagnostic.unexpected_token.as_deref(), Some("rnus"));
    assert_eq!(diagnostic.suggestion.as_deref(), Some("gd pipeline runs"));
    assert!(diagnostic.expected.iter().any(|term| term == "runs"));

    let stderr = text(&diagnostic);
    assert!(stderr.contains("Try: gd pipeline runs"));
    assert!(stderr.contains("Usage: gd pipeline"));
}

#[test]
fn parse_diagnostic_reports_deepest_option_context() {
    let diagnostic = diagnostic(&["gd", "repo", "list", "owner", "--limt"]);

    assert_eq!(diagnostic.matched_path, ["repo", "list"]);
    assert_eq!(diagnostic.unexpected_token.as_deref(), Some("--limt"));
    assert!(diagnostic.expected.iter().any(|term| term == "--limit"));
    assert!(diagnostic
        .usage
        .as_deref()
        .is_some_and(|usage| usage.starts_with("gd repo list")));
}

#[test]
fn parse_diagnostic_renders_json_for_json_flag() {
    let diagnostic = diagnostic(&["gd", "--json", "repo", "list", "owner", "--limt"]);
    let stderr = diagnostic.render_stderr();

    assert!(!stderr.contains('\n'));
    let value: Value = serde_json::from_str(&stderr).unwrap();
    assert_eq!(value["matched_path"], strings(&["repo", "list"]));
    assert_eq!(value["unexpected_token"], "--limt");
    assert!(value["expected"]
        .as_array()
        .unwrap()
        .iter()
        .any(|term| term == "--limit"));
}

#[test]
fn parse_diagnostic_renders_json_for_format_json() {
    let diagnostic = diagnostic(&["gd", "--format", "json", "repo", "list", "owner", "--limt"]);
    let stderr = diagnostic.render_stderr();

    assert!(!stderr.contains('\n'));
    let value: Value = serde_json::from_str(&stderr).unwrap();
    assert_eq!(value["matched_path"], strings(&["repo", "list"]));
    assert_eq!(value["unexpected_token"], "--limt");
}

#[test]
fn parse_diagnostic_reports_invalid_repository_value() {
    let diagnostic = diagnostic(&["gd", "repo", "view", "owner/repo/extra"]);

    assert_eq!(diagnostic.matched_path, ["repo", "view"]);
    assert_eq!(diagnostic.unexpected_token.as_deref(), Some("owner/repo/extra"));
    assert!(diagnostic.error.contains("repository must be in owner/repo form"));
}

#[test]
fn parse_diagnostic_reports_invalid_github_repository_value() {
    let diagnostic = diagnostic(&["gd", "repo", "sync-github", "https://gitlab.com/o/r"]);

    assert_eq!(diagnostic.matched_path, ["repo", "sync-github"]);
    assert_eq!(
        diagnostic.unexpected_token.as_deref(),
        Some("https://gitlab.com/o/r")
    );
    assert!(diagnostic.error.contains("repository must be in owner/repo form"));
}

#[test]
fn parse_diagnostic_reports_invalid_workflow_paths() {
    for diagnostic in [
        diagnostic(&["gd", "pipeline", "set", "ci.yml"]),
        diagnostic(&["gd", "pipeline", "codecheck", "--path", "ci.yml"]),
        diagnostic(&["gd", "pipeline", "run", "workflow", "--file-path", "ci.yml"]),
    ] {
        assert_eq!(diagnostic.unexpected_token.as_deref(), Some("ci.yml"));
        assert!(diagnostic
            .error
            .contains("workflow path must be under .gitcode/workflows/"));
    }
}

#[test]
fn parse_diagnostic_reports_invalid_workflow_input() {
    let diagnostic = diagnostic(&[
        "gd",
        "pipeline",
        "run",
        "workflow",
        "--file-path",
        ".gitcode/workflows/ci.yml",
        "--input",
        "missing_equals",
    ]);

    assert_eq!(diagnostic.matched_path, ["pipeline", "run"]);
    assert_eq!(diagnostic.unexpected_token.as_deref(), Some("missing_equals"));
    assert!(diagnostic
        .error
        .contains("workflow input must be in key=value form"));
}

#[test]
fn parse_diagnostic_reports_invalid_codecheck_secret() {
    let diagnostic = diagnostic(&[
        "gd",
        "pipeline",
        "codecheck",
        "--access-token-secret",
        "bad-name",
    ]);

    assert_eq!(diagnostic.matched_path, ["pipeline", "codecheck"]);
    assert_eq!(diagnostic.unexpected_token.as_deref(), Some("bad-name"));
    assert!(diagnostic
        .error
        .contains("must contain only letters, digits, and '_'"));
}

#[test]
fn parse_diagnostic_reports_invalid_api_base() {
    let diagnostic = diagnostic(&["gd", "--api-base", "file:///tmp", "api", "/user"]);

    assert_eq!(diagnostic.matched_path, ["api"]);
    assert_eq!(diagnostic.unexpected_token.as_deref(), Some("file:///tmp"));
    assert!(diagnostic.error.contains("must use http or https"));
}

#[test]
fn parse_diagnostic_reports_invalid_api_field() {
    let diagnostic = diagnostic(&["gd", "api", "/user", "-F", "missing_equals"]);

    assert_eq!(diagnostic.matched_path, ["api"]);
    assert_eq!(diagnostic.unexpected_token.as_deref(), Some("missing_equals"));
    assert!(diagnostic.error.contains("field must be in key=value form"));
}

#[test]
fn parse_diagnostic_renders_json_for_invalid_value() {
    let diagnostic = diagnostic(&["gd", "--json", "repo", "view", "owner/repo/extra"]);
    let stderr = diagnostic.render_stderr();

    assert!(!stderr.contains('\n'));
    let value: Value = serde_json::from_str(&stderr).unwrap();
    assert_eq!(value["matched_path"], strings(&["repo", "view"]));
    assert_eq!(value["unexpected_token"], "owner/repo/extra");
    assert!(value["expected"]
        .as_array()
        .unwrap()
        .iter()
        .any(|term| term == "<REPOSITORY>"));
}

#[test]
fn proposed_names_and_values_become_suggestions() {
    let named = diagnostic_with(
        &["gd", "repo", "list", "owner", "--limt"],
        Similar::Name("--limit".to_string()),
    );
    assert_eq!(named.suggestion.as_deref(), Some("gd repo list --limit"));
    let valued = diagnostic_with(&["gd", "--format", "jsn", "repo", "view"], Similar::Value("json".to_string()));
    assert_eq!(valued.suggestion.as_deref(), Some("json"));
    let nearest = diagnostic_with(&["gd", "pipeline", "rnus"], Similar::Name("other".to_string()));
    assert_eq!(nearest.suggestion.as_deref(), Some("gd pipeline runs"));
}

#[test]
fn far_subcommand_falls_back_to_usage() {
    let diagnostic = diagnostic(&["gd", "pipeline", "zzzzzzzz"]);
    assert_eq!(diagnostic.suggestion, diagnostic.usage);
    let stderr = text(&diagnostic);
    assert!(stderr.starts_with(&diagnostic.error));
}

#[test]
fn edit_distance_counts_single_character_edits() {
    assert_eq!(edit_distance("kitten", "sitting"), 3);
    assert_eq!(edit_distance("", "abc"), 3);
    assert_eq!(edit_distance("runs", "runs"), 0);
    assert_eq!(edit_distance("rnus", "runs"), 2);
}

#[test]
fn json_diagnostic_is_one_compact_line_of_the_fields() {
    let diagnostic = ParseDiagnostic {
        error: "first\nsecond".to_string(),
        usage: Some("gd x".to_string()),
        suggestion: None,
        matched_path: vec!["repo".to_string()],
        unexpected_token: Some("--y".to_string()),
        expected: vec!["--a".to_string(), "<B>".to_string()],
        json: true,
    };
    assert_eq!(
        diagnostic.render_stderr(),
        "{\"error\":\"first\\nsecond\",\"expected\":[\"--a\",\"<B>\"],\"matched_path\":[\"repo\"],\"suggestion\":null,\"unexpected_token\":\"--y\",\"usage\":\"gd x\"}"
    );
    let plain = ParseDiagnostic { json: false, ..diagnostic };
    assert_eq!(plain.render_stderr(), "first\nsecond\nUsage: gd x");
}
