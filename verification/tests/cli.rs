use relay_gitcode_cli::cli::{
    Cli, CliOutputFormat, Command, PipelineAuthCommand, PipelineCommand, PipelineSetMode,
    PrCommand, ReleaseCommand, RepoCommand, RepoSyncIfExists, RepoSyncMethod, VersionCommand,
};
use relay_gitcode_cli::scan::ParseFault;

fn args(words: &[&str]) -> Vec<String> {
    words.iter().map(|w| w.to_string()).collect()
}

fn parse(words: &[&str]) -> Cli {
    Cli::try_parse_from(&args(words), None).unwrap()
}

#[test]
fn parses_repo_view_with_json_flag() {
    let cli = parse(&["gd", "--json", "repo", "view", "owner/repo"]);
    assert!(cli.global.json);
    assert!(cli.global.json_output());
    match cli.command {
        Command::Repo(RepoCommand::View(args)) => {
            assert_eq!(args.repository.as_deref(), Some("owner/repo"));
        }
        other => panic!("unexpected command: {other:?}"),
    }
}

#[test]
fn parses_repo_sync_github() {
    let cli = parse(&[
        "gd",
        "repo",
        "sync-github",
        "git@github.com:source/repo.git",
        "--org",
        "target-org",
        "--name",
        "target-repo",
        "--private",
        "--if-exists",
        "skip",
    ]);
    match cli.command {
        Command::Repo(RepoCommand::SyncGithub(args)) => {
            assert_eq!(args.github_repo, "git@github.com:source/repo.git");
            assert_eq!(args.org.as_deref(), Some("target-org"));
            assert_eq!(args.name.as_deref(), Some("target-repo"));
            assert!(args.private);
            assert_eq!(args.if_exists, RepoSyncIfExists::Skip);
            assert_eq!(args.method, RepoSyncMethod::Import);
        }
        other => panic!("unexpected command: {other:?}"),
    }
}

#[test]
fn parses_repo_sync_github_git_push_recreate() {
    let cli = parse(&[
        "gd",
        "repo",
        "sync-github",
        "source/repo",
        "--repo",
        "target-org/target-repo",
        "--method",
        "git-push",
        "--if-exists",
        "recreate",
    ]);
    match cli.command {
        Command::Repo(RepoCommand::SyncGithub(args)) => {
            assert_eq!(args.repository.as_deref(), Some("target-org/target-repo"));
            assert_eq!(args.if_exists, RepoSyncIfExists::Recreate);
            assert_eq!(args.method, RepoSyncMethod::GitPush);
        }
        other => panic!("unexpected command: {other:?}"),
    }
}

#[test]
fn parses_repo_move_target_path() {
    let cli = parse(&[
        "gd",
        "repo",
        "move",
        "source-owner/source-repo",
        "target-owner/target-repo",
    ]);
    match cli.command {
        Command::Repo(RepoCommand::Move(args)) => {
            assert_eq!(args.source, "source-owner/source-repo");
            assert_eq!(args.target, "target-owner/target-repo");
            assert_eq!(args.name, None);
        }
        other => panic!("unexpected command: {other:?}"),
    }
}

#[test]
fn parses_repo_move_with_name_flag() {
    let cli = parse(&[
        "gd",
        "repo",
        "move",
        "source-owner/source-repo",
        "target-owner",
        "--name",
        "target-repo",
    ]);
    match cli.command {
        Command::Repo(RepoCommand::Move(args)) => {
            assert_eq!(args.source, "source-owner/source-repo");
            assert_eq!(args.target, "target-owner");
            assert_eq!(args.name.as_deref(), Some("target-repo"));
        }
        other => panic!("unexpected command: {other:?}"),
    }
}

#[test]
fn parses_format_json_as_json_output() {
    let cli = parse(&["gd", "--format", "json", "repo", "list", "owner"]);
    assert_eq!(cli.global.format, Some(CliOutputFormat::Json));
    assert!(cli.global.json_output());
}

#[test]
fn parses_version_check_without_auth_context() {
    let cli = parse(&["gd", "version", "check", "--json"]);
    assert!(cli.global.json_output());
    match cli.command {
        Command::Version(VersionCommand::Check(_)) => {}
        other => panic!("unexpected command: {other:?}"),
    }
}

#[test]
fn parses_pr_create() {
    let cli = parse(&[
        "gd", "pr", "create", "-R", "owner/repo", "--title", "change", "--body", "body", "--base",
        "main", "--head", "feature",
    ]);
    match cli.command {
        Command::Pr(PrCommand::Create(args)) => {
            assert_eq!(args.repository.as_deref(), Some("owner/repo"));
            assert_eq!(args.title, "change");
            assert_eq!(args.base, "main");
            assert_eq!(args.head, "feature");
        }
        other => panic!("unexpected command: {other:?}"),
    }
}

#[test]
fn parses_pr_comments_comment_and_reply() {
    let comments = parse(&[
        "gd", "pr", "comments", "7", "--repo", "owner/repo", "--page", "2", "--limit", "40",
    ]);
    match comments.command {
        Command::Pr(PrCommand::Comments(args)) => {
            assert_eq!(args.number, 7);
            assert_eq!(args.repository.as_deref(), Some("owner/repo"));
            assert_eq!(args.page, 2);
            assert_eq!(args.limit, 40);
        }
        other => panic!("unexpected command: {other:?}"),
    }

    let comment = parse(&[
        "gd",
        "pr",
        "comment",
        "7",
        "--repo",
        "owner/repo",
        "--body",
        "please fix",
        "--path",
        "src/main.rs",
        "--position",
        "3",
        "--need-to-resolve",
    ]);
    match comment.command {
        Command::Pr(PrCommand::Comment(args)) => {
            assert_eq!(args.number, 7);
            assert_eq!(args.body, "please fix");
            assert_eq!(args.path.as_deref(), Some("src/main.rs"));
            assert_eq!(args.position, Some(3));
            assert!(args.need_to_resolve);
        }
        other => panic!("unexpected command: {other:?}"),
    }

    let reply = parse(&[
        "gd", "pr", "reply", "7", "discussion-1", "--repo", "owner/repo", "--body", "done",
    ]);
    match reply.command {
        Command::Pr(PrCommand::Reply(args)) => {
            assert_eq!(args.number, 7);
            assert_eq!(args.discussion_id, "discussion-1");
            assert_eq!(args.body, "done");
        }
        other => panic!("unexpected command: {other:?}"),
    }
}

#[test]
fn parses_api_typed_and_raw_fields() {
    let cli = parse(&["gd", "api", "/user", "-X", "POST", "-f", "a=b", "-F", "n=2"]);
    match cli.command {
        Command::Api(args) => {
            assert_eq!(args.method, "POST");
            assert_eq!(args.endpoint, "/user");
            assert_eq!(args.raw_fields, ["a=b"]);
            assert_eq!(args.fields, ["n=2"]);
        }
        other => panic!("unexpected command: {other:?}"),
    }
}

#[test]
fn parses_release_migrate_github() {
    let cli = parse(&[
        "gd",
        "release",
        "migrate-github",
        "--repo",
        "owner/repo",
        "--github-repo",
        "source/repo",
        "--tag",
        "v1.0.0",
        "--skip-existing-assets",
        "--update-release",
        "--dry-run",
    ]);
    match cli.command {
        Command::Release(ReleaseCommand::MigrateGithub(args)) => {
            assert_eq!(args.repository.as_deref(), Some("owner/repo"));
            assert_eq!(args.github_repo, "source/repo");
            assert_eq!(args.tag.as_deref(), Some("v1.0.0"));
            assert!(!args.all);
            assert!(args.skip_existing_assets);
            assert!(args.update_release);
            assert!(args.dry_run);
        }
        other => panic!("unexpected command: {other:?}"),
    }
}

#[test]
fn parses_release_migrate_github_disabled_toggles() {
    let cli = parse(&[
        "gd",
        "release",
        "migrate-github",
        "--repo",
        "owner/repo",
        "--github-repo",
        "source/repo",
        "--tag",
        "v1.0.0",
        "--skip-existing-assets=false",
        "--update-release=false",
    ]);
    match cli.command {
        Command::Release(ReleaseCommand::MigrateGithub(args)) => {
            assert!(!args.skip_existing_assets);
            assert!(!args.update_release);
        }
        other => panic!("unexpected command: {other:?}"),
    }
}

#[test]
fn parses_pipeline_auth_login() {
    let cli = parse(&[
        "gd",
        "pipeline",
        "auth",
        "login",
        "--callback-port",
        "19090",
        "--no-browser",
    ]);
    match cli.command {
        Command::Pipeline(PipelineCommand::Auth(PipelineAuthCommand::Login(args))) => {
            assert_eq!(args.callback_port, 19090);
            assert!(args.no_browser);
        }
        other => panic!("unexpected command: {other:?}"),
    }
}

#[test]
fn parses_pipeline_config() {
    let cli = parse(&["gd", "pipeline", "config", "--project-id", "project-1"]);
    match cli.command {
        Command::Pipeline(PipelineCommand::Config(args)) => {
            assert_eq!(args.project_id, "project-1");
        }
        other => panic!("unexpected command: {other:?}"),
    }
}

#[test]
fn parses_pipeline_setup() {
    let cli = parse(&[
        "gd",
        "pipeline",
        "setup",
        "--project-id",
        "project-1",
        "--repo",
        "owner/repo",
        "--language",
        "Rust,Shell",
        "--codecheck-rule-set",
        "default",
        "--public-token-env",
        "GITCODE_TOKEN",
    ]);
    match cli.command {
        Command::Pipeline(PipelineCommand::Setup(args)) => {
            assert_eq!(args.project_id, "project-1");
            assert_eq!(args.repository.as_deref(), Some("owner/repo"));
            assert_eq!(args.language, ["Rust", "Shell"]);
            assert_eq!(args.codecheck_rule_set.as_deref(), Some("default"));
            assert_eq!(args.public_token_env.as_deref(), Some("GITCODE_TOKEN"));
        }
        other => panic!("unexpected command: {other:?}"),
    }
}

#[test]
fn parses_pipeline_prs_and_checks() {
    let cli = parse(&[
        "gd",
        "pipeline",
        "prs",
        "--project-id",
        "project-1",
        "--repo",
        "owner/repo",
        "--state",
        "open",
        "-L",
        "10",
    ]);
    match cli.command {
        Command::Pipeline(PipelineCommand::Prs(args)) => {
            assert_eq!(args.project_id, "project-1");
            assert_eq!(args.repository.as_deref(), Some("owner/repo"));
            assert_eq!(args.state.as_deref(), Some("open"));
            assert_eq!(args.limit, 10);
        }
        other => panic!("unexpected command: {other:?}"),
    }

    let checks = parse(&[
        "gd",
        "pipeline",
        "checks",
        "--project-id",
        "project-1",
        "--repo",
        "owner/repo",
        "--pr",
        "7",
    ]);
    match checks.command {
        Command::Pipeline(PipelineCommand::Checks(args)) => {
            assert_eq!(args.project_id, "project-1");
            assert_eq!(args.repository.as_deref(), Some("owner/repo"));
            assert_eq!(args.number, 7);
        }
        other => panic!("unexpected command: {other:?}"),
    }
}

#[test]
fn parses_pipeline_gate_runs() {
    let cli = parse(&[
        "gd",
        "pipeline",
        "gate-runs",
        "--project-id",
        "project-1",
        "--pipeline-name",
        "ci",
        "--page",
        "2",
        "-L",
        "20",
    ]);
    match cli.command {
        Command::Pipeline(PipelineCommand::GateRuns(args)) => {
            assert_eq!(args.project_id, "project-1");
            assert_eq!(args.pipeline_name.as_deref(), Some("ci"));
            assert_eq!(args.page, 2);
            assert_eq!(args.limit, 20);
        }
        other => panic!("unexpected command: {other:?}"),
    }
}

#[test]
fn parses_pipeline_gate_view() {
    let view = parse(&[
        "gd",
        "pipeline",
        "gate-view",
        "--project-id",
        "project-1",
        "--repo",
        "owner/repo",
        "--mr",
        "12",
    ]);
    match view.command {
        Command::Pipeline(PipelineCommand::GateView(args)) => {
            assert_eq!(args.project_id, "project-1");
            assert_eq!(args.repository.as_deref(), Some("owner/repo"));
            assert_eq!(args.number, 12);
        }
        other => panic!("unexpected command: {other:?}"),
    }
}

#[test]
fn parses_pipeline_set() {
    let cli = parse(&[
        "gd",
        "pipeline",
        "set",
        "--repo",
        "owner/repo",
        ".gitcode/workflows/ci.yml",
        "--content",
        "name: ci",
        "--mode",
        "update",
        "--sha",
        "abc",
    ]);
    match cli.command {
        Command::Pipeline(PipelineCommand::SetWorkflow(args)) => {
            assert_eq!(args.repository.as_deref(), Some("owner/repo"));
            assert_eq!(args.path, ".gitcode/workflows/ci.yml");
            assert_eq!(args.content.as_deref(), Some("name: ci"));
            assert_eq!(args.mode, PipelineSetMode::Update);
            assert_eq!(args.sha.as_deref(), Some("abc"));
        }
        other => panic!("unexpected command: {other:?}"),
    }
}

#[test]
fn parses_pipeline_codecheck() {
    let cli = parse(&[
        "gd",
        "pipeline",
        "codecheck",
        "--repo",
        "owner/repo",
        "--language",
        "SHELL",
        "--language",
        "RUST",
        "--check-branch",
        "main",
        "--access-token-secret",
        "CODECHECK_TOKEN",
    ]);
    match cli.command {
        Command::Pipeline(PipelineCommand::Codecheck(args)) => {
            assert_eq!(args.repository.as_deref(), Some("owner/repo"));
            assert_eq!(args.path, ".gitcode/workflows/codecheck.yml");
            assert_eq!(args.languages, ["SHELL", "RUST"]);
            assert_eq!(args.check_branch.as_deref(), Some("main"));
            assert_eq!(args.access_token_secret, "CODECHECK_TOKEN");
        }
        other => panic!("unexpected command: {other:?}"),
    }
}

#[test]
fn parses_pipeline_register_alias() {
    let cli = parse(&[
        "gd",
        "pipeline",
        "register",
        "--repo",
        "owner/repo",
        ".gitcode/workflows/ci.yml",
        "--content",
        "name: ci",
    ]);
    assert!(matches!(
        cli.command,
        Command::Pipeline(PipelineCommand::SetWorkflow(_))
    ));
}

#[test]
fn parses_actions_alias() {
    let cli = parse(&["gd", "actions", "list", "--repo", "owner/repo", "-L", "10"]);
    match cli.command {
        Command::Pipeline(PipelineCommand::List(args)) => {
            assert_eq!(args.repository.as_deref(), Some("owner/repo"));
            assert_eq!(args.limit, 10);
        }
        other => panic!("unexpected command: {other:?}"),
    }
}

#[test]
fn parses_pipeline_run() {
    let cli = parse(&[
        "gd",
        "pipeline",
        "run",
        "--repo",
        "owner/repo",
        "workflow-1",
        "--file-path",
        ".gitcode/workflows/ci.yml",
        "--branch",
        "main",
        "--branch-commit-id",
        "abc",
        "--input",
        "dry_run=true",
    ]);
    match cli.command {
        Command::Pipeline(PipelineCommand::Run(args)) => {
            assert_eq!(args.repository.as_deref(), Some("owner/repo"));
            assert_eq!(args.workflow_id, "workflow-1");
            assert_eq!(args.file_path, ".gitcode/workflows/ci.yml");
            assert_eq!(args.branch.as_deref(), Some("main"));
            assert_eq!(args.branch_commit_id.as_deref(), Some("abc"));
            assert_eq!(args.inputs, ["dry_run=true"]);
        }
        other => panic!("unexpected command: {other:?}"),
    }
}

#[test]
fn parses_pipeline_runs() {
    let cli = parse(&[
        "gd",
        "pipeline",
        "runs",
        "--repo",
        "owner/repo",
        "--workflow-name",
        "ci",
        "--event",
        "push",
        "--page",
        "2",
        "-L",
        "20",
    ]);
    match cli.command {
        Command::Pipeline(PipelineCommand::Runs(args)) => {
            assert_eq!(args.repository.as_deref(), Some("owner/repo"));
            assert_eq!(args.workflow_name.as_deref(), Some("ci"));
            assert_eq!(args.event.as_deref(), Some("push"));
            assert_eq!(args.page, 2);
            assert_eq!(args.limit, 20);
        }
        other => panic!("unexpected command: {other:?}"),
    }
}

#[test]
fn parses_pipeline_view_log_stop_retry_and_rerun() {
    let view = parse(&["gd", "pipeline", "view", "--repo", "owner/repo", "run"]);
    match view.command {
        Command::Pipeline(PipelineCommand::View(args)) => {
            assert_eq!(args.repository.as_deref(), Some("owner/repo"));
            assert_eq!(args.workflow_run_id, "run");
        }
        other => panic!("unexpected command: {other:?}"),
    }

    let log = parse(&[
        "gd",
        "pipeline",
        "log",
        "--repo",
        "owner/repo",
        "run",
        "job",
        "--step-run-id",
        "step",
        "--limit",
        "7",
    ]);
    match log.command {
        Command::Pipeline(PipelineCommand::Log(args)) => {
            assert_eq!(args.workflow_run_id, "run");
            assert_eq!(args.job_identifier, "job");
            assert_eq!(args.step_run_id.as_deref(), Some("step"));
            assert_eq!(args.limit, 7);
        }
        other => panic!("unexpected command: {other:?}"),
    }

    let stop = parse(&["gd", "pipeline", "stop", "-R", "owner/repo", "run"]);
    assert!(matches!(
        stop.command,
        Command::Pipeline(PipelineCommand::Stop(_))
    ));

    let retry = parse(&[
        "gd",
        "pipeline",
        "retry",
        "-R",
        "owner/repo",
        "run",
        "--job-run-id",
        "job",
    ]);
    match retry.command {
        Command::Pipeline(PipelineCommand::Retry(args)) => {
            assert_eq!(args.job_run_ids, ["job"]);
        }
        other => panic!("unexpected command: {other:?}"),
    }

    let rerun = parse(&["gd", "pipeline", "rerun", "-R", "owner/repo", "run"]);
    assert!(matches!(
        rerun.command,
        Command::Pipeline(PipelineCommand::Rerun(_))
    ));
}

#[test]
fn rejects_tag_together_with_all() {
    let error = Cli::try_parse_from(
        &args(&[
            "gd",
            "release",
            "migrate-github",
            "--github-repo",
            "source/repo",
            "--tag",
            "v1",
            "--all",
        ]),
        None,
    )
    .unwrap_err();
    assert!(matches!(error.fault, ParseFault::Conflict { .. }));
}

#[test]
fn reports_missing_required_option() {
    let error = Cli::try_parse_from(&args(&["gd", "pr", "create", "--title", "t"]), None)
        .unwrap_err();
    match error.fault {
        ParseFault::MissingRequired { args } => {
            assert_eq!(args, ["--base <BASE>", "--head <HEAD>"]);
        }
        other => panic!("unexpected fault: {other:?}"),
    }
}

#[test]
fn rejects_repeated_single_option() {
    let error = Cli::try_parse_from(
        &args(&["gd", "repo", "move", "a/b", "c", "--name", "x", "--name", "y"]),
        None,
    )
    .unwrap_err();
    assert!(matches!(error.fault, ParseFault::Repeated { .. }));
}

#[test]
fn openlibing_base_comes_from_environment() {
    let cli = Cli::try_parse_from(
        &args(&["gd", "pipeline", "config", "--project-id", "p"]),
        Some("https://gate.example.com/"),
    )
    .unwrap();
    assert_eq!(cli.global.openlibing_base, "https://gate.example.com/");
    let cli = parse(&["gd", "pipeline", "config", "--project-id", "p"]);
    assert_eq!(
        cli.global.openlibing_base,
        "https://www.openlibing.com/gateway"
    );
    assert_eq!(cli.global.hostname, "gitcode.com");
}

#[test]
fn help_and_version_stop_the_parse() {
    let error = Cli::try_parse_from(&args(&["gd", "repo", "--help"]), None).unwrap_err();
    assert_eq!(error.fault, ParseFault::Help);
    assert_eq!(error.path, ["repo"]);
    let error = Cli::try_parse_from(&args(&["gd", "--version"]), None).unwrap_err();
    assert_eq!(error.fault, ParseFault::Version);
}

#[test]
fn clone_collects_git_flags_after_double_dash() {
    let cli = parse(&["gd", "repo", "clone", "o/r", "dir", "--", "--depth", "1"]);
    match cli.command {
        Command::Repo(RepoCommand::Clone(args)) => {
            assert_eq!(args.repository, "o/r");
            assert_eq!(args.directory.as_deref(), Some("dir"));
            assert_eq!(args.git_flags, ["--depth", "1"]);
        }
        other => panic!("unexpected command: {other:?}"),
    }
}

#[test]
fn long_options_take_attached_values_and_globals_go_anywhere() {
    let cli = parse(&["gd", "repo", "list", "owner", "--limit=5", "--json"]);
    assert!(cli.global.json);
    match cli.command {
        Command::Repo(RepoCommand::List(args)) => {
            assert_eq!(args.owner.as_deref(), Some("owner"));
            assert_eq!(args.limit, 5);
        }
        other => panic!("unexpected command: {other:?}"),
    }
}

#[test]
fn short_options_take_attached_values() {
    let cli = parse(&["gd", "pr", "view", "3", "-Rowner/repo"]);
    match cli.command {
        Command::Pr(PrCommand::View(args)) => {
            assert_eq!(args.number, 3);
            assert_eq!(args.repository.as_deref(), Some("owner/repo"));
        }
        other => panic!("unexpected command: {other:?}"),
    }
}

#[test]
fn unknown_subcommand_and_missing_subcommand_are_faults() {
    let unknown = Cli::try_parse_from(&args(&["gd", "nope"]), None).unwrap_err();
    assert!(matches!(unknown.fault, ParseFault::UnrecognizedSubcommand { .. }));
    let missing = Cli::try_parse_from(&args(&["gd", "repo"]), None).unwrap_err();
    assert!(matches!(missing.fault, ParseFault::MissingSubcommand));
}

#[test]
fn non_numeric_number_is_an_invalid_value() {
    let failure = Cli::try_parse_from(&args(&["gd", "issue", "view", "abc"]), None).unwrap_err();
    assert!(matches!(failure.fault, ParseFault::InvalidValue { .. }));
}
