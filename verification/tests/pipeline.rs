use relay_gitcode_cli::cli::PipelineSetMode;
use relay_gitcode_cli::client::HttpMethod;
use relay_gitcode_cli::json::{get, Json};
use relay_gitcode_cli::pipeline::{
    action_path, actions_api_base_from_hostname, dispatch_body, extract_log_text, job_log,
    list_runs, parse_actions_api_base, parse_input_value, parse_key_value_inputs, retry_body,
    validate_file_content_source, validate_workflow_path, workflow_file_body,
    workflow_run_list_body, WorkflowDispatchRequest, WorkflowFileRequest, WorkflowRunListRequest,
};

fn s(v: &str) -> Json {
    Json::Str(v.to_string())
}

fn obj(entries: Vec<(&str, Json)>) -> Json {
    Json::Object(entries.into_iter().map(|(k, v)| (k.to_string(), v)).collect())
}

#[test]
fn builds_actions_api_base_from_hostname() {
    let url = actions_api_base_from_hostname("gitcode.com").unwrap();
    assert_eq!(url.as_str(), "https://gitcode.com/");
}

#[test]
fn rejects_invalid_actions_base_scheme() {
    assert!(parse_actions_api_base("file:///tmp/api").is_err());
}

#[test]
fn builds_action_endpoint_paths() {
    assert_eq!(
        action_path("42", "workflow-runs/7/jobs/build/logs"),
        "api/v2/projects/42/actions/workflow-runs/7/jobs/build/logs"
    );
}

#[test]
fn workflow_file_body_encodes_content() {
    let body = workflow_file_body(WorkflowFileRequest {
        content: "name: ci".to_string(),
        message: "configure ci".to_string(),
        branch: Some("main".to_string()),
        sha: Some("abc".to_string()),
    });

    assert_eq!(get(&body, "content"), Some(&s("bmFtZTogY2k=")));
    assert_eq!(get(&body, "message"), Some(&s("configure ci")));
    assert_eq!(get(&body, "branch"), Some(&s("main")));
    assert_eq!(get(&body, "sha"), Some(&s("abc")));
}

#[test]
fn workflow_run_list_body_omits_empty_filters() {
    let body = workflow_run_list_body(WorkflowRunListRequest {
        workflow_id: Some("wf".to_string()),
        workflow_name: Some("ci".to_string()),
        event: None,
        status: Some("success".to_string()),
        branch: Some(String::new()),
        executor_id: None,
        mr_id: None,
        page: 2,
        per_page: 20,
    });

    assert_eq!(get(&body, "workflow_name"), Some(&s("ci")));
    assert_eq!(get(&body, "status"), Some(&s("success")));
    assert_eq!(get(&body, "page"), Some(&Json::Number("2".to_string())));
    assert_eq!(get(&body, "per_page"), Some(&Json::Number("20".to_string())));
    assert!(get(&body, "branch").is_none());
}

#[test]
fn dispatch_body_includes_inputs() {
    let inputs = vec![("deploy".to_string(), Json::Bool(true))];
    let body = dispatch_body(WorkflowDispatchRequest {
        file_path: ".gitcode/workflows/ci.yml".to_string(),
        repo_https_url: "https://gitcode.com/owner/repo.git".to_string(),
        branch: Some("main".to_string()),
        branch_commit_id: Some("abc".to_string()),
        repo_id: Some("42".to_string()),
        inputs,
    });

    assert_eq!(get(&body, "file_path"), Some(&s(".gitcode/workflows/ci.yml")));
    assert_eq!(get(&body, "branch_commit_id"), Some(&s("abc")));
    assert_eq!(get(&body, "repo_id"), Some(&s("42")));
    let inputs = get(&body, "inputs").unwrap();
    assert_eq!(get(inputs, "deploy"), Some(&Json::Bool(true)));
}

#[test]
fn retry_body_can_target_jobs() {
    let body = retry_body(
        Some("https://gitcode.com/owner/repo.git".to_string()),
        vec!["job-1".to_string(), String::new()],
    );

    assert_eq!(
        get(&body, "repo_https_url"),
        Some(&s("https://gitcode.com/owner/repo.git"))
    );
    assert_eq!(get(&body, "job_run_ids"), Some(&Json::Array(vec![s("job-1")])));
}

#[test]
fn parses_workflow_inputs_as_json_scalars() {
    let inputs = parse_key_value_inputs(&vec![
        "name=release".to_string(),
        "dry_run=true".to_string(),
        "count=2".to_string(),
    ])
    .unwrap();
    let inputs = Json::Object(inputs);

    assert_eq!(get(&inputs, "name"), Some(&s("release")));
    assert_eq!(get(&inputs, "dry_run"), Some(&Json::Raw("true".to_string())));
    assert_eq!(get(&inputs, "count"), Some(&Json::Raw("2".to_string())));
}

#[test]
fn validates_workflow_paths() {
    assert!(validate_workflow_path(".gitcode/workflows/ci.yml").is_ok());
    assert!(validate_workflow_path("ci.yml").is_err());
}

#[test]
fn extracts_nested_log_text() {
    let value = obj(vec![("data", obj(vec![("data", obj(vec![("content", s("hello\n"))]))]))]);
    assert_eq!(extract_log_text(&value).as_deref(), Some("hello\n"));
}

#[test]
fn workflow_path_rules_for_slashes() {
    assert!(validate_workflow_path("/.gitcode/workflows/ci.yml").is_ok());
    assert!(validate_workflow_path(".gitcode/workflows/").is_err());
    assert!(validate_workflow_path(".gitcode/workflows/dir/").is_err());
}

#[test]
fn content_and_file_exclude_each_other() {
    assert!(validate_file_content_source(Some("x"), Some("f.yml")).is_err());
    assert!(validate_file_content_source(Some("x"), None).is_ok());
    assert!(validate_file_content_source(None, Some("f.yml")).is_ok());
}

#[test]
fn input_values_that_are_not_json_stay_strings() {
    assert_eq!(parse_input_value("hello world"), s("hello world"));
    assert_eq!(parse_input_value("{\"a\": 1}"), Json::Raw("{\"a\":1}".to_string()));
}

#[test]
fn inputs_reject_missing_equals_and_blank_keys() {
    let e = parse_key_value_inputs(&vec!["novalue".to_string()]).unwrap_err();
    assert_eq!(e.message(), "workflow input must be in key=value form: novalue");
    assert!(parse_key_value_inputs(&vec![" =1".to_string()]).is_err());
    let later = parse_key_value_inputs(&vec!["a=1".to_string(), " a = x ".to_string()]).unwrap();
    assert_eq!(later, vec![("a".to_string(), s("x"))]);
}

#[test]
fn log_text_of_string_and_missing_paths() {
    assert_eq!(extract_log_text(&s("plain")).as_deref(), Some("plain"));
    assert_eq!(extract_log_text(&obj(vec![("logs", s("L"))])).as_deref(), Some("L"));
    assert_eq!(extract_log_text(&obj(vec![("other", s("x"))])), None);
}

#[test]
fn run_list_request_uses_workflow_path_when_given() {
    let r = list_runs(
        "42",
        WorkflowRunListRequest {
            workflow_id: Some("wf".to_string()),
            workflow_name: None,
            event: None,
            status: None,
            branch: None,
            executor_id: None,
            mr_id: None,
            page: 1,
            per_page: 50,
        },
    );
    assert_eq!(r.method, HttpMethod::Post);
    assert_eq!(r.endpoint, "api/v2/projects/42/actions/workflow-runs/wf/list");
}

#[test]
fn job_log_request_drops_empty_step_id() {
    let r = job_log("42", "7", "build", Some(String::new()), 0, 100);
    assert!(r.query.is_empty());
    let r = job_log("42", "7", "build", Some("s1".to_string()), 0, 100);
    assert_eq!(r.query, vec![("step_run_id".to_string(), "s1".to_string())]);
    assert_eq!(
        r.endpoint,
        "api/v2/projects/42/actions/workflow-runs/7/jobs/build/logs"
    );
}

#[test]
fn workflow_file_request_writes_under_contents() {
    let request = relay_gitcode_cli::pipeline::workflow_file_request(
        "owner/repo",
        "/.gitcode/workflows/code check.yml",
        PipelineSetMode::Update,
        WorkflowFileRequest {
            content: "x".to_string(),
            message: "m".to_string(),
            branch: None,
            sha: Some("abc".to_string()),
        },
    );
    assert_eq!(request.method, HttpMethod::Put);
    assert_eq!(
        request.endpoint,
        "repos/owner/repo/contents/.gitcode/workflows/code%20check.yml"
    );
    let body = request.body.unwrap();
    assert_eq!(get(&body, "content"), Some(&s("eA==")));
    assert_eq!(get(&body, "sha"), Some(&s("abc")));
    assert!(get(&body, "branch").is_none());
}
