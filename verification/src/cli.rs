//! The `gd` command line: the values each command takes, the grammar they
//! are read with, and the reading of an argument list into those values.
use vstd::prelude::*;
use crate::args::{
    Check, CheckV, Grammar, NodeSpec, NodeV, OptKind, OptSpec, OptV, PosSpec, PosV, node_v, opt_v,
};
use crate::scan::{
    Fault, Matches, ParseFailure, ParseFault, ScanV, first_value, flag_of, has_key, number_or,
    number_or_exec, opt_number, opt_number_exec, pos_at, pos_of, scan, scan_spec, sview, text_or,
    text_or_exec, toggle_exec, toggle_of, trailing_of, value_of, values_of, values_of_exec,
};
use crate::text::{to_chars, from_chars};
use vstd::string::StringSliceAdditionalSpecFns;

verus! {

/// How command output is rendered.
#[derive(Debug, Clone, Copy, PartialEq, Eq, Structural)]
pub enum CliOutputFormat {
    Text,
    Json,
}

/// The `CliOutputFormat` a word names.
pub open spec fn cli_output_format_opt(o: Option<Seq<char>>) -> Option<CliOutputFormat> {
    match o {
        Some(s) => if s == "text"@ {
            Some(CliOutputFormat::Text)
        } else if s == "json"@ {
            Some(CliOutputFormat::Json)
        } else {
            None
        },
        None => None,
    }
}

/// The `CliOutputFormat` a word names.
pub fn cli_output_format_opt_exec(o: Option<String>) -> (r: Option<CliOutputFormat>)
    ensures
        r == cli_output_format_opt(sview(o)),
{
    match o {
        Some(s) => {
            let c = to_chars(s.as_str());
            if crate::text::chars_eq_str(&c, "text") {
                Some(CliOutputFormat::Text)
            } else if crate::text::chars_eq_str(&c, "json") {
                Some(CliOutputFormat::Json)
            } else {
                None
            }
        },
        None => None,
    }
}

/// What `repo sync-github` does when the target repository exists.
#[derive(Debug, Clone, Copy, PartialEq, Eq, Structural)]
pub enum RepoSyncIfExists {
    Fail,
    Skip,
    Update,
    Recreate,
}

/// The `RepoSyncIfExists` a word names; `Skip` when it names none.
pub open spec fn repo_sync_if_exists_of(o: Option<Seq<char>>) -> RepoSyncIfExists {
    match repo_sync_if_exists_opt(o) {
        Some(v) => v,
        None => RepoSyncIfExists::Skip,
    }
}

/// The `RepoSyncIfExists` a word names.
pub open spec fn repo_sync_if_exists_opt(o: Option<Seq<char>>) -> Option<RepoSyncIfExists> {
    match o {
        Some(s) => if s == "fail"@ {
            Some(RepoSyncIfExists::Fail)
        } else if s == "skip"@ {
            Some(RepoSyncIfExists::Skip)
        } else if s == "update"@ {
            Some(RepoSyncIfExists::Update)
        } else if s == "recreate"@ {
            Some(RepoSyncIfExists::Recreate)
        } else {
            None
        },
        None => None,
    }
}

/// The `RepoSyncIfExists` a word names.
pub fn repo_sync_if_exists_opt_exec(o: Option<String>) -> (r: Option<RepoSyncIfExists>)
    ensures
        r == repo_sync_if_exists_opt(sview(o)),
{
    match o {
        Some(s) => {
            let c = to_chars(s.as_str());
            if crate::text::chars_eq_str(&c, "fail") {
                Some(RepoSyncIfExists::Fail)
            } else if crate::text::chars_eq_str(&c, "skip") {
                Some(RepoSyncIfExists::Skip)
            } else if crate::text::chars_eq_str(&c, "update") {
                Some(RepoSyncIfExists::Update)
            } else if crate::text::chars_eq_str(&c, "recreate") {
                Some(RepoSyncIfExists::Recreate)
            } else {
                None
            }
        },
        None => None,
    }
}

/// The `RepoSyncIfExists` a word names, `Skip` when it names none.
pub fn repo_sync_if_exists_exec(o: Option<String>) -> (r: RepoSyncIfExists)
    ensures
        r == repo_sync_if_exists_of(sview(o)),
{
    match repo_sync_if_exists_opt_exec(o) {
        Some(v) => v,
        None => RepoSyncIfExists::Skip,
    }
}

/// How `repo sync-github` copies a repository.
#[derive(Debug, Clone, Copy, PartialEq, Eq, Structural)]
pub enum RepoSyncMethod {
    Import,
    GitPush,
}

/// The `RepoSyncMethod` a word names; `Import` when it names none.
pub open spec fn repo_sync_method_of(o: Option<Seq<char>>) -> RepoSyncMethod {
    match repo_sync_method_opt(o) {
        Some(v) => v,
        None => RepoSyncMethod::Import,
    }
}

/// The `RepoSyncMethod` a word names.
pub open spec fn repo_sync_method_opt(o: Option<Seq<char>>) -> Option<RepoSyncMethod> {
    match o {
        Some(s) => if s == "import"@ {
            Some(RepoSyncMethod::Import)
        } else if s == "git-push"@ {
            Some(RepoSyncMethod::GitPush)
        } else {
            None
        },
        None => None,
    }
}

/// The `RepoSyncMethod` a word names.
pub fn repo_sync_method_opt_exec(o: Option<String>) -> (r: Option<RepoSyncMethod>)
    ensures
        r == repo_sync_method_opt(sview(o)),
{
    match o {
        Some(s) => {
            let c = to_chars(s.as_str());
            if crate::text::chars_eq_str(&c, "import") {
                Some(RepoSyncMethod::Import)
            } else if crate::text::chars_eq_str(&c, "git-push") {
                Some(RepoSyncMethod::GitPush)
            } else {
                None
            }
        },
        None => None,
    }
}

/// The `RepoSyncMethod` a word names, `Import` when it names none.
pub fn repo_sync_method_exec(o: Option<String>) -> (r: RepoSyncMethod)
    ensures
        r == repo_sync_method_of(sview(o)),
{
    match repo_sync_method_opt_exec(o) {
        Some(v) => v,
        None => RepoSyncMethod::Import,
    }
}

/// Whether a workflow file is created or updated.
#[derive(Debug, Clone, Copy, PartialEq, Eq, Structural)]
pub enum PipelineSetMode {
    Create,
    Update,
}

/// The `PipelineSetMode` a word names; `Create` when it names none.
pub open spec fn pipeline_set_mode_of(o: Option<Seq<char>>) -> PipelineSetMode {
    match pipeline_set_mode_opt(o) {
        Some(v) => v,
        None => PipelineSetMode::Create,
    }
}

/// The `PipelineSetMode` a word names.
pub open spec fn pipeline_set_mode_opt(o: Option<Seq<char>>) -> Option<PipelineSetMode> {
    match o {
        Some(s) => if s == "create"@ {
            Some(PipelineSetMode::Create)
        } else if s == "update"@ {
            Some(PipelineSetMode::Update)
        } else {
            None
        },
        None => None,
    }
}

/// The `PipelineSetMode` a word names.
pub fn pipeline_set_mode_opt_exec(o: Option<String>) -> (r: Option<PipelineSetMode>)
    ensures
        r == pipeline_set_mode_opt(sview(o)),
{
    match o {
        Some(s) => {
            let c = to_chars(s.as_str());
            if crate::text::chars_eq_str(&c, "create") {
                Some(PipelineSetMode::Create)
            } else if crate::text::chars_eq_str(&c, "update") {
                Some(PipelineSetMode::Update)
            } else {
                None
            }
        },
        None => None,
    }
}

/// The `PipelineSetMode` a word names, `Create` when it names none.
pub fn pipeline_set_mode_exec(o: Option<String>) -> (r: PipelineSetMode)
    ensures
        r == pipeline_set_mode_of(sview(o)),
{
    match pipeline_set_mode_opt_exec(o) {
        Some(v) => v,
        None => PipelineSetMode::Create,
    }
}

/// A shell to generate completions for.
#[derive(Debug, Clone, Copy, PartialEq, Eq, Structural)]
pub enum Shell {
    Bash,
    Zsh,
    Fish,
    Powershell,
}

/// The `Shell` a word names; `Bash` when it names none.
pub open spec fn shell_of(o: Option<Seq<char>>) -> Shell {
    match shell_opt(o) {
        Some(v) => v,
        None => Shell::Bash,
    }
}

/// The `Shell` a word names.
pub open spec fn shell_opt(o: Option<Seq<char>>) -> Option<Shell> {
    match o {
        Some(s) => if s == "bash"@ {
            Some(Shell::Bash)
        } else if s == "zsh"@ {
            Some(Shell::Zsh)
        } else if s == "fish"@ {
            Some(Shell::Fish)
        } else if s == "powershell"@ {
            Some(Shell::Powershell)
        } else {
            None
        },
        None => None,
    }
}

/// The `Shell` a word names.
pub fn shell_opt_exec(o: Option<String>) -> (r: Option<Shell>)
    ensures
        r == shell_opt(sview(o)),
{
    match o {
        Some(s) => {
            let c = to_chars(s.as_str());
            if crate::text::chars_eq_str(&c, "bash") {
                Some(Shell::Bash)
            } else if crate::text::chars_eq_str(&c, "zsh") {
                Some(Shell::Zsh)
            } else if crate::text::chars_eq_str(&c, "fish") {
                Some(Shell::Fish)
            } else if crate::text::chars_eq_str(&c, "powershell") {
                Some(Shell::Powershell)
            } else {
                None
            }
        },
        None => None,
    }
}

/// The `Shell` a word names, `Bash` when it names none.
pub fn shell_exec(o: Option<String>) -> (r: Shell)
    ensures
        r == shell_of(sview(o)),
{
    match shell_opt_exec(o) {
        Some(v) => v,
        None => Shell::Bash,
    }
}

/// The values of `gd version check`.
#[derive(Debug, Clone, PartialEq, Eq)]
pub struct VersionCheckArgs {}

/// The values of `gd auth login`.
#[derive(Debug, Clone, PartialEq, Eq)]
pub struct AuthLoginArgs {
    pub with_token: bool,
}

/// The values of `gd auth logout`.
#[derive(Debug, Clone, PartialEq, Eq)]
pub struct AuthHostArgs {
    pub hostname: Option<String>,
}

/// The values of `gd auth status`.
#[derive(Debug, Clone, PartialEq, Eq)]
pub struct AuthStatusArgs {
    pub hostname: Option<String>,
    pub show_token: bool,
}

/// The values of `gd api`.
#[derive(Debug, Clone, PartialEq, Eq)]
pub struct ApiArgs {
    pub endpoint: String,
    pub method: String,
    pub headers: Vec<String>,
    pub raw_fields: Vec<String>,
    pub fields: Vec<String>,
    pub input: Option<String>,
    pub include_headers: bool,
    pub silent: bool,
    pub paginate: bool,
}

/// The values of `gd repo view`.
#[derive(Debug, Clone, PartialEq, Eq)]
pub struct RepoViewArgs {
    pub repository: Option<String>,
}

/// The values of `gd repo list`.
#[derive(Debug, Clone, PartialEq, Eq)]
pub struct RepoListArgs {
    pub owner: Option<String>,
    pub limit: u32,
}

/// The values of `gd repo clone`.
#[derive(Debug, Clone, PartialEq, Eq)]
pub struct RepoCloneArgs {
    pub repository: String,
    pub directory: Option<String>,
    pub git_flags: Vec<String>,
}

/// The values of `gd repo fork`.
#[derive(Debug, Clone, PartialEq, Eq)]
pub struct RepoRefArgs {
    pub repository: String,
}

/// The values of `gd repo create`.
#[derive(Debug, Clone, PartialEq, Eq)]
pub struct RepoCreateArgs {
    pub name: String,
    pub private: bool,
    pub description: Option<String>,
}

/// The values of `gd repo move`.
#[derive(Debug, Clone, PartialEq, Eq)]
pub struct RepoMoveArgs {
    pub source: String,
    pub target: String,
    pub name: Option<String>,
}

/// The values of `gd repo sync-github`.
#[derive(Debug, Clone, PartialEq, Eq)]
pub struct RepoSyncGithubArgs {
    pub github_repo: String,
    pub repository: Option<String>,
    pub org: Option<String>,
    pub name: Option<String>,
    pub private: bool,
    pub description: Option<String>,
    pub if_exists: RepoSyncIfExists,
    pub method: RepoSyncMethod,
}

/// The values of `gd issue list`.
#[derive(Debug, Clone, PartialEq, Eq)]
pub struct IssueListArgs {
    pub repository: Option<String>,
    pub state: String,
    pub limit: u32,
}

/// The values of `gd issue view`.
#[derive(Debug, Clone, PartialEq, Eq)]
pub struct IssueViewArgs {
    pub number: u64,
    pub repository: Option<String>,
}

/// The values of `gd issue create`.
#[derive(Debug, Clone, PartialEq, Eq)]
pub struct IssueCreateArgs {
    pub repository: Option<String>,
    pub title: String,
    pub body: Option<String>,
    pub label: Vec<String>,
    pub assignee: Option<String>,
}

/// The values of `gd issue comment`.
#[derive(Debug, Clone, PartialEq, Eq)]
pub struct IssueCommentArgs {
    pub number: u64,
    pub repository: Option<String>,
    pub body: String,
}

/// The values of `gd pr list`.
#[derive(Debug, Clone, PartialEq, Eq)]
pub struct PrListArgs {
    pub repository: Option<String>,
    pub state: String,
    pub base: Option<String>,
    pub limit: u32,
}

/// The values of `gd pr view`.
#[derive(Debug, Clone, PartialEq, Eq)]
pub struct PrViewArgs {
    pub number: u64,
    pub repository: Option<String>,
}

/// The values of `gd pr create`.
#[derive(Debug, Clone, PartialEq, Eq)]
pub struct PrCreateArgs {
    pub repository: Option<String>,
    pub title: String,
    pub body: Option<String>,
    pub base: String,
    pub head: String,
    pub label: Vec<String>,
    pub assignee: Vec<String>,
}

/// The values of `gd pr comments`.
#[derive(Debug, Clone, PartialEq, Eq)]
pub struct PrCommentsArgs {
    pub number: u64,
    pub repository: Option<String>,
    pub page: u64,
    pub limit: u64,
}

/// The values of `gd pr comment`.
#[derive(Debug, Clone, PartialEq, Eq)]
pub struct PrCommentArgs {
    pub number: u64,
    pub repository: Option<String>,
    pub body: String,
    pub path: Option<String>,
    pub position: Option<u64>,
    pub need_to_resolve: bool,
}

/// The values of `gd pr reply`.
#[derive(Debug, Clone, PartialEq, Eq)]
pub struct PrReplyArgs {
    pub number: u64,
    pub discussion_id: String,
    pub repository: Option<String>,
    pub body: String,
}

/// The values of `gd search repos`.
#[derive(Debug, Clone, PartialEq, Eq)]
pub struct SearchArgs {
    pub query: String,
    pub limit: u32,
}

/// The values of `gd ssh-key add`.
#[derive(Debug, Clone, PartialEq, Eq)]
pub struct SshKeyAddArgs {
    pub key_file: String,
    pub title: Option<String>,
}

/// The values of `gd ssh-key delete`.
#[derive(Debug, Clone, PartialEq, Eq)]
pub struct SshKeyDeleteArgs {
    pub id: String,
}

/// The values of `gd label list`.
#[derive(Debug, Clone, PartialEq, Eq)]
pub struct LabelListArgs {
    pub repository: Option<String>,
    pub limit: u32,
}

/// The values of `gd label create`.
#[derive(Debug, Clone, PartialEq, Eq)]
pub struct LabelCreateArgs {
    pub name: String,
    pub repository: Option<String>,
    pub color: Option<String>,
    pub description: Option<String>,
}

/// The values of `gd label edit`.
#[derive(Debug, Clone, PartialEq, Eq)]
pub struct LabelEditArgs {
    pub name: String,
    pub repository: Option<String>,
    pub new_name: Option<String>,
    pub color: Option<String>,
    pub description: Option<String>,
}

/// The values of `gd label delete`.
#[derive(Debug, Clone, PartialEq, Eq)]
pub struct LabelDeleteArgs {
    pub name: String,
    pub repository: Option<String>,
}

/// The values of `gd release list`.
#[derive(Debug, Clone, PartialEq, Eq)]
pub struct ReleaseListArgs {
    pub repository: Option<String>,
    pub limit: u32,
}

/// The values of `gd release view`.
#[derive(Debug, Clone, PartialEq, Eq)]
pub struct ReleaseViewArgs {
    pub tag: String,
    pub repository: Option<String>,
}

/// The values of `gd release create`.
#[derive(Debug, Clone, PartialEq, Eq)]
pub struct ReleaseCreateArgs {
    pub tag: String,
    pub repository: Option<String>,
    pub title: Option<String>,
    pub notes: Option<String>,
    pub target: Option<String>,
}

/// The values of `gd release migrate-github`.
#[derive(Debug, Clone, PartialEq, Eq)]
pub struct ReleaseMigrateGithubArgs {
    pub repository: Option<String>,
    pub github_repo: String,
    pub tag: Option<String>,
    pub all: bool,
    pub skip_existing_assets: bool,
    pub update_release: bool,
    pub dry_run: bool,
}

/// The values of `gd pipeline set`.
#[derive(Debug, Clone, PartialEq, Eq)]
pub struct PipelineSetArgs {
    pub repository: Option<String>,
    pub path: String,
    pub mode: PipelineSetMode,
    pub content: Option<String>,
    pub file: Option<String>,
    pub message: String,
    pub branch: Option<String>,
    pub sha: Option<String>,
}

/// The values of `gd pipeline codecheck`.
#[derive(Debug, Clone, PartialEq, Eq)]
pub struct PipelineCodecheckArgs {
    pub repository: Option<String>,
    pub path: String,
    pub mode: PipelineSetMode,
    pub message: String,
    pub commit_branch: Option<String>,
    pub sha: Option<String>,
    pub name: String,
    pub check_branch: Option<String>,
    pub repo_url: Option<String>,
    pub languages: Vec<String>,
    pub access_token_secret: String,
}

/// The values of `gd pipeline list`.
#[derive(Debug, Clone, PartialEq, Eq)]
pub struct PipelineListArgs {
    pub repository: Option<String>,
    pub page: u64,
    pub limit: u64,
}

/// The values of `gd pipeline run`.
#[derive(Debug, Clone, PartialEq, Eq)]
pub struct PipelineRunArgs {
    pub repository: Option<String>,
    pub workflow_id: String,
    pub file_path: String,
    pub branch: Option<String>,
    pub branch_commit_id: Option<String>,
    pub inputs: Vec<String>,
}

/// The values of `gd pipeline runs`.
#[derive(Debug, Clone, PartialEq, Eq)]
pub struct PipelineRunsArgs {
    pub repository: Option<String>,
    pub workflow_id: Option<String>,
    pub workflow_name: Option<String>,
    pub event: Option<String>,
    pub branch: Option<String>,
    pub status: Option<String>,
    pub executor_id: Option<String>,
    pub mr_id: Option<String>,
    pub page: u64,
    pub limit: u64,
}

/// The values of `gd pipeline view`.
#[derive(Debug, Clone, PartialEq, Eq)]
pub struct PipelineViewArgs {
    pub repository: Option<String>,
    pub workflow_run_id: String,
}

/// The values of `gd pipeline log`.
#[derive(Debug, Clone, PartialEq, Eq)]
pub struct PipelineLogArgs {
    pub repository: Option<String>,
    pub workflow_run_id: String,
    pub job_identifier: String,
    pub step_run_id: Option<String>,
    pub offset: u64,
    pub limit: u64,
}

/// The values of `gd pipeline stop`.
#[derive(Debug, Clone, PartialEq, Eq)]
pub struct PipelineStopArgs {
    pub repository: Option<String>,
    pub workflow_run_id: String,
}

/// The values of `gd pipeline retry`.
#[derive(Debug, Clone, PartialEq, Eq)]
pub struct PipelineRetryArgs {
    pub repository: Option<String>,
    pub workflow_run_id: String,
    pub job_run_ids: Vec<String>,
}

/// The values of `gd pipeline rerun`.
#[derive(Debug, Clone, PartialEq, Eq)]
pub struct PipelineRerunArgs {
    pub repository: Option<String>,
    pub workflow_run_id: String,
}

/// The values of `gd pipeline auth login`.
#[derive(Debug, Clone, PartialEq, Eq)]
pub struct PipelineAuthLoginArgs {
    pub callback_host: String,
    pub callback_port: u16,
    pub timeout_seconds: u64,
    pub no_browser: bool,
}

/// The values of `gd pipeline config`.
#[derive(Debug, Clone, PartialEq, Eq)]
pub struct PipelineConfigArgs {
    pub project_id: String,
}

/// The values of `gd pipeline setup`.
#[derive(Debug, Clone, PartialEq, Eq)]
pub struct PipelineSetupArgs {
    pub project_id: String,
    pub repository: Option<String>,
    pub repo_url: Option<String>,
    pub repo_id: Option<u64>,
    pub repo_name: Option<String>,
    pub repo_owner: Option<String>,
    pub language: Vec<String>,
    pub codecheck_rule_set: Option<String>,
    pub anti_rule_set: Option<String>,
    pub purpose: String,
    pub open_source: String,
    pub assume_pr: String,
    pub auto_trigger: String,
    pub auto_trigger_design_scan: String,
    pub disallow_self_merge: u8,
    pub disallow_unresolved_discussions_merge: u8,
    pub public_token_env: Option<String>,
    pub no_configure_webhook: bool,
}

/// The values of `gd pipeline prs`.
#[derive(Debug, Clone, PartialEq, Eq)]
pub struct PipelinePrsArgs {
    pub project_id: String,
    pub repository: Option<String>,
    pub state: Option<String>,
    pub page: u64,
    pub limit: u64,
}

/// The values of `gd pipeline checks`.
#[derive(Debug, Clone, PartialEq, Eq)]
pub struct PipelinePrArgs {
    pub project_id: String,
    pub repository: Option<String>,
    pub number: u64,
}

/// The values of `gd pipeline gate-runs`.
#[derive(Debug, Clone, PartialEq, Eq)]
pub struct PipelineGateRunsArgs {
    pub project_id: String,
    pub pipeline_name: Option<String>,
    pub page: u64,
    pub limit: u64,
}

/// The values of `gd completion`.
#[derive(Debug, Clone, PartialEq, Eq)]
pub struct CompletionArgs {
    pub shell: Shell,
}

/// Options accepted by every command.
#[derive(Debug, Clone, PartialEq, Eq)]
pub struct GlobalArgs {
    pub hostname: String,
    pub api_base: Option<String>,
    pub openlibing_base: String,
    pub json: bool,
    pub format: Option<CliOutputFormat>,
}

/// A `gd` command.
#[derive(Debug, Clone, PartialEq, Eq)]
pub enum Command {
    /// Authenticate gd with GitCode
    Auth(AuthCommand),
    /// Make an authenticated GitCode API request
    Api(ApiArgs),
    /// Manage GitCode repositories
    Repo(RepoCommand),
    /// Manage pull requests
    Pr(PrCommand),
    /// Manage issues
    Issue(IssueCommand),
    /// Search GitCode
    Search(SearchCommand),
    /// Manage SSH keys
    SshKey(SshKeyCommand),
    /// Manage repository labels
    Label(LabelCommand),
    /// Manage repository releases
    Release(ReleaseCommand),
    /// Manage GitCode pipelines
    Pipeline(PipelineCommand),
    /// Inspect gd version and updates
    Version(VersionCommand),
    /// Generate shell completion scripts
    Completion(CompletionArgs),
}

/// The subcommands of `auth`.
#[derive(Debug, Clone, PartialEq, Eq)]
pub enum AuthCommand {
    /// Log in to GitCode
    Login(AuthLoginArgs),
    /// Log out of GitCode
    Logout(AuthHostArgs),
    /// View authentication status
    Status(AuthStatusArgs),
    /// Print the stored authentication token
    Token(AuthHostArgs),
}

/// The subcommands of `repo`.
#[derive(Debug, Clone, PartialEq, Eq)]
pub enum RepoCommand {
    /// View a repository
    View(RepoViewArgs),
    /// List repositories
    List(RepoListArgs),
    /// Clone a repository
    Clone(RepoCloneArgs),
    /// Fork a repository
    Fork(RepoRefArgs),
    /// Create a repository
    Create(RepoCreateArgs),
    /// Move or rename a repository
    Move(RepoMoveArgs),
    /// Sync a GitHub repository into GitCode
    SyncGithub(RepoSyncGithubArgs),
}

/// The subcommands of `pr`.
#[derive(Debug, Clone, PartialEq, Eq)]
pub enum PrCommand {
    /// List pull requests
    List(PrListArgs),
    /// View a pull request
    View(PrViewArgs),
    /// Create a pull request
    Create(PrCreateArgs),
    /// List pull request review comments
    Comments(PrCommentsArgs),
    /// Add a pull request review comment
    Comment(PrCommentArgs),
    /// Reply to a pull request review discussion
    Reply(PrReplyArgs),
}

/// The subcommands of `issue`.
#[derive(Debug, Clone, PartialEq, Eq)]
pub enum IssueCommand {
    /// List issues
    List(IssueListArgs),
    /// View an issue
    View(IssueViewArgs),
    /// Create an issue
    Create(IssueCreateArgs),
    /// Add a comment to an issue
    Comment(IssueCommentArgs),
}

/// The subcommands of `search`.
#[derive(Debug, Clone, PartialEq, Eq)]
pub enum SearchCommand {
    /// Search repositories
    Repos(SearchArgs),
    /// Search issues
    Issues(SearchArgs),
    /// Search users
    Users(SearchArgs),
}

/// The subcommands of `ssh-key`.
#[derive(Debug, Clone, PartialEq, Eq)]
pub enum SshKeyCommand {
    /// List SSH keys
    List,
    /// Add an SSH key
    Add(SshKeyAddArgs),
    /// Delete an SSH key
    Delete(SshKeyDeleteArgs),
}

/// The subcommands of `label`.
#[derive(Debug, Clone, PartialEq, Eq)]
pub enum LabelCommand {
    /// List repository labels
    List(LabelListArgs),
    /// Create a repository label
    Create(LabelCreateArgs),
    /// Edit a repository label
    Edit(LabelEditArgs),
    /// Delete a repository label
    Delete(LabelDeleteArgs),
}

/// The subcommands of `release`.
#[derive(Debug, Clone, PartialEq, Eq)]
pub enum ReleaseCommand {
    /// List repository releases
    List(ReleaseListArgs),
    /// View a repository release
    View(ReleaseViewArgs),
    /// Create a repository release
    Create(ReleaseCreateArgs),
    /// Migrate GitHub Releases and assets into GitCode
    MigrateGithub(ReleaseMigrateGithubArgs),
}

/// The subcommands of `pipeline`.
#[derive(Debug, Clone, PartialEq, Eq)]
pub enum PipelineCommand {
    /// Create or update a GitCode workflow file
    SetWorkflow(PipelineSetArgs),
    /// Create or update a GitCode CodeCheck workflow file
    Codecheck(PipelineCodecheckArgs),
    /// List GitCode workflow files
    List(PipelineListArgs),
    /// Manually run a GitCode workflow
    Run(PipelineRunArgs),
    /// List GitCode workflow run records
    Runs(PipelineRunsArgs),
    /// View a GitCode workflow run
    View(PipelineViewArgs),
    /// Read a GitCode workflow job log
    Log(PipelineLogArgs),
    /// Stop a GitCode workflow run
    Stop(PipelineStopArgs),
    /// Retry failed GitCode workflow jobs
    Retry(PipelineRetryArgs),
    /// Rerun all jobs in a GitCode workflow run
    Rerun(PipelineRerunArgs),
    /// Authenticate OpenLibing GitCode OAuth for pipeline checks
    Auth(PipelineAuthCommand),
    /// Show OpenLibing pipeline and CodeCheck configuration
    Config(PipelineConfigArgs),
    /// Configure an OpenLibing GitCode repository for PR gate checks
    Setup(Box<PipelineSetupArgs>),
    /// List GitCode pull requests known to OpenLibing
    Prs(PipelinePrsArgs),
    /// Show OpenLibing gate checks for a pull request
    Checks(PipelinePrArgs),
    /// View a GitCode pull request with OpenLibing checks
    GateView(PipelinePrArgs),
    /// List OpenLibing pipeline run summaries
    GateRuns(PipelineGateRunsArgs),
}

/// The subcommands of `auth`.
#[derive(Debug, Clone, PartialEq, Eq)]
pub enum PipelineAuthCommand {
    /// Open a browser and complete OpenLibing GitCode OAuth
    Login(PipelineAuthLoginArgs),
    /// View OpenLibing GitCode OAuth status
    Status,
    /// Remove stored OpenLibing pipeline credentials
    Logout,
}

/// The subcommands of `version`.
#[derive(Debug, Clone, PartialEq, Eq)]
pub enum VersionCommand {
    /// Check whether a newer gd release is available
    Check(VersionCheckArgs),
}

/// A whole `gd` command line: the global options and the command.
#[derive(Debug, Clone, PartialEq, Eq)]
pub struct Cli {
    pub global: GlobalArgs,
    pub command: Command,
}

/// `a` holds the values of `gd version check` that `s` read.
pub open spec fn version_check_args_read(s: ScanV, a: VersionCheckArgs) -> bool {
    true
}

/// The values of `gd version check`.
fn version_check_args(m: &Matches) -> (a: VersionCheckArgs)
    ensures
        version_check_args_read(m.sv(), a),
{
    VersionCheckArgs {}
}

/// `a` holds the values of `gd auth login` that `s` read.
pub open spec fn auth_login_args_read(s: ScanV, a: AuthLoginArgs) -> bool {
    &&& a.with_token == has_key(s.opts, "with-token"@)
}

/// The values of `gd auth login`.
fn auth_login_args(m: &Matches) -> (a: AuthLoginArgs)
    ensures
        auth_login_args_read(m.sv(), a),
{
    AuthLoginArgs {
        with_token: flag_of(m, "with-token"),
    }
}

/// `a` holds the values of `gd auth logout` that `s` read.
pub open spec fn auth_host_args_read(s: ScanV, a: AuthHostArgs) -> bool {
    &&& sview(a.hostname) == first_value(s.opts, "hostname"@)
}

/// The values of `gd auth logout`.
fn auth_host_args(m: &Matches) -> (a: AuthHostArgs)
    ensures
        auth_host_args_read(m.sv(), a),
{
    AuthHostArgs {
        hostname: value_of(m, "hostname"),
    }
}

/// `a` holds the values of `gd auth status` that `s` read.
pub open spec fn auth_status_args_read(s: ScanV, a: AuthStatusArgs) -> bool {
    &&& sview(a.hostname) == first_value(s.opts, "hostname"@)
    &&& a.show_token == has_key(s.opts, "show-token"@)
}

/// The values of `gd auth status`.
fn auth_status_args(m: &Matches) -> (a: AuthStatusArgs)
    ensures
        auth_status_args_read(m.sv(), a),
{
    AuthStatusArgs {
        hostname: value_of(m, "hostname"),
        show_token: flag_of(m, "show-token"),
    }
}

/// `a` holds the values of `gd api` that `s` read.
pub open spec fn api_args_read(s: ScanV, a: ApiArgs) -> bool {
    &&& a.endpoint@ == text_or(pos_at(s.pos, 0), ""@)
    &&& a.method@ == text_or(first_value(s.opts, "method"@), "GET"@)
    &&& a.headers.deep_view() == values_of(s.opts, "header"@)
    &&& a.raw_fields.deep_view() == values_of(s.opts, "raw-field"@)
    &&& a.fields.deep_view() == values_of(s.opts, "field"@)
    &&& sview(a.input) == first_value(s.opts, "input"@)
    &&& a.include_headers == has_key(s.opts, "include-headers"@)
    &&& a.silent == has_key(s.opts, "silent"@)
    &&& a.paginate == has_key(s.opts, "paginate"@)
}

/// The values of `gd api`.
fn api_args(m: &Matches) -> (a: ApiArgs)
    ensures
        api_args_read(m.sv(), a),
{
    ApiArgs {
        endpoint: text_or_exec(pos_of(m, 0), ""),
        method: text_or_exec(value_of(m, "method"), "GET"),
        headers: values_of_exec(m, "header"),
        raw_fields: values_of_exec(m, "raw-field"),
        fields: values_of_exec(m, "field"),
        input: value_of(m, "input"),
        include_headers: flag_of(m, "include-headers"),
        silent: flag_of(m, "silent"),
        paginate: flag_of(m, "paginate"),
    }
}

/// `a` holds the values of `gd repo view` that `s` read.
pub open spec fn repo_view_args_read(s: ScanV, a: RepoViewArgs) -> bool {
    &&& sview(a.repository) == pos_at(s.pos, 0)
}

/// The values of `gd repo view`.
fn repo_view_args(m: &Matches) -> (a: RepoViewArgs)
    ensures
        repo_view_args_read(m.sv(), a),
{
    RepoViewArgs {
        repository: pos_of(m, 0),
    }
}

/// `a` holds the values of `gd repo list` that `s` read.
pub open spec fn repo_list_args_read(s: ScanV, a: RepoListArgs) -> bool {
    &&& sview(a.owner) == pos_at(s.pos, 0)
    &&& a.limit == number_or(first_value(s.opts, "limit"@), 30) as u32
}

/// The values of `gd repo list`.
fn repo_list_args(m: &Matches) -> (a: RepoListArgs)
    ensures
        repo_list_args_read(m.sv(), a),
{
    RepoListArgs {
        owner: pos_of(m, 0),
        limit: number_or_exec(value_of(m, "limit"), 30) as u32,
    }
}

/// `a` holds the values of `gd repo clone` that `s` read.
pub open spec fn repo_clone_args_read(s: ScanV, a: RepoCloneArgs) -> bool {
    &&& a.repository@ == text_or(pos_at(s.pos, 0), ""@)
    &&& sview(a.directory) == pos_at(s.pos, 1)
    &&& a.git_flags.deep_view() == s.trailing
}

/// The values of `gd repo clone`.
fn repo_clone_args(m: &Matches) -> (a: RepoCloneArgs)
    ensures
        repo_clone_args_read(m.sv(), a),
{
    RepoCloneArgs {
        repository: text_or_exec(pos_of(m, 0), ""),
        directory: pos_of(m, 1),
        git_flags: trailing_of(m),
    }
}

/// `a` holds the values of `gd repo fork` that `s` read.
pub open spec fn repo_ref_args_read(s: ScanV, a: RepoRefArgs) -> bool {
    &&& a.repository@ == text_or(pos_at(s.pos, 0), ""@)
}

/// The values of `gd repo fork`.
fn repo_ref_args(m: &Matches) -> (a: RepoRefArgs)
    ensures
        repo_ref_args_read(m.sv(), a),
{
    RepoRefArgs {
        repository: text_or_exec(pos_of(m, 0), ""),
    }
}

/// `a` holds the values of `gd repo create` that `s` read.
pub open spec fn repo_create_args_read(s: ScanV, a: RepoCreateArgs) -> bool {
    &&& a.name@ == text_or(pos_at(s.pos, 0), ""@)
    &&& a.private == has_key(s.opts, "private"@)
    &&& sview(a.description) == first_value(s.opts, "description"@)
}

/// The values of `gd repo create`.
fn repo_create_args(m: &Matches) -> (a: RepoCreateArgs)
    ensures
        repo_create_args_read(m.sv(), a),
{
    RepoCreateArgs {
        name: text_or_exec(pos_of(m, 0), ""),
        private: flag_of(m, "private"),
        description: value_of(m, "description"),
    }
}

/// `a` holds the values of `gd repo move` that `s` read.
pub open spec fn repo_move_args_read(s: ScanV, a: RepoMoveArgs) -> bool {
    &&& a.source@ == text_or(pos_at(s.pos, 0), ""@)
    &&& a.target@ == text_or(pos_at(s.pos, 1), ""@)
    &&& sview(a.name) == first_value(s.opts, "name"@)
}

/// The values of `gd repo move`.
fn repo_move_args(m: &Matches) -> (a: RepoMoveArgs)
    ensures
        repo_move_args_read(m.sv(), a),
{
    RepoMoveArgs {
        source: text_or_exec(pos_of(m, 0), ""),
        target: text_or_exec(pos_of(m, 1), ""),
        name: value_of(m, "name"),
    }
}

/// `a` holds the values of `gd repo sync-github` that `s` read.
pub open spec fn repo_sync_github_args_read(s: ScanV, a: RepoSyncGithubArgs) -> bool {
    &&& a.github_repo@ == text_or(pos_at(s.pos, 0), ""@)
    &&& sview(a.repository) == first_value(s.opts, "repo"@)
    &&& sview(a.org) == first_value(s.opts, "org"@)
    &&& sview(a.name) == first_value(s.opts, "name"@)
    &&& a.private == has_key(s.opts, "private"@)
    &&& sview(a.description) == first_value(s.opts, "description"@)
    &&& a.if_exists == repo_sync_if_exists_of(first_value(s.opts, "if-exists"@))
    &&& a.method == repo_sync_method_of(first_value(s.opts, "method"@))
}

/// The values of `gd repo sync-github`.
fn repo_sync_github_args(m: &Matches) -> (a: RepoSyncGithubArgs)
    ensures
        repo_sync_github_args_read(m.sv(), a),
{
    RepoSyncGithubArgs {
        github_repo: text_or_exec(pos_of(m, 0), ""),
        repository: value_of(m, "repo"),
        org: value_of(m, "org"),
        name: value_of(m, "name"),
        private: flag_of(m, "private"),
        description: value_of(m, "description"),
        if_exists: repo_sync_if_exists_exec(value_of(m, "if-exists")),
        method: repo_sync_method_exec(value_of(m, "method")),
    }
}

/// `a` holds the values of `gd issue list` that `s` read.
pub open spec fn issue_list_args_read(s: ScanV, a: IssueListArgs) -> bool {
    &&& sview(a.repository) == first_value(s.opts, "repo"@)
    &&& a.state@ == text_or(first_value(s.opts, "state"@), "open"@)
    &&& a.limit == number_or(first_value(s.opts, "limit"@), 30) as u32
}

/// The values of `gd issue list`.
fn issue_list_args(m: &Matches) -> (a: IssueListArgs)
    ensures
        issue_list_args_read(m.sv(), a),
{
    IssueListArgs {
        repository: value_of(m, "repo"),
        state: text_or_exec(value_of(m, "state"), "open"),
        limit: number_or_exec(value_of(m, "limit"), 30) as u32,
    }
}

/// `a` holds the values of `gd issue view` that `s` read.
pub open spec fn issue_view_args_read(s: ScanV, a: IssueViewArgs) -> bool {
    &&& a.number == number_or(pos_at(s.pos, 0), 0)
    &&& sview(a.repository) == first_value(s.opts, "repo"@)
}

/// The values of `gd issue view`.
fn issue_view_args(m: &Matches) -> (a: IssueViewArgs)
    ensures
        issue_view_args_read(m.sv(), a),
{
    IssueViewArgs {
        number: number_or_exec(pos_of(m, 0), 0),
        repository: value_of(m, "repo"),
    }
}

/// `a` holds the values of `gd issue create` that `s` read.
pub open spec fn issue_create_args_read(s: ScanV, a: IssueCreateArgs) -> bool {
    &&& sview(a.repository) == first_value(s.opts, "repo"@)
    &&& a.title@ == text_or(first_value(s.opts, "title"@), ""@)
    &&& sview(a.body) == first_value(s.opts, "body"@)
    &&& a.label.deep_view() == values_of(s.opts, "label"@)
    &&& sview(a.assignee) == first_value(s.opts, "assignee"@)
}

/// The values of `gd issue create`.
fn issue_create_args(m: &Matches) -> (a: IssueCreateArgs)
    ensures
        issue_create_args_read(m.sv(), a),
{
    IssueCreateArgs {
        repository: value_of(m, "repo"),
        title: text_or_exec(value_of(m, "title"), ""),
        body: value_of(m, "body"),
        label: values_of_exec(m, "label"),
        assignee: value_of(m, "assignee"),
    }
}

/// `a` holds the values of `gd issue comment` that `s` read.
pub open spec fn issue_comment_args_read(s: ScanV, a: IssueCommentArgs) -> bool {
    &&& a.number == number_or(pos_at(s.pos, 0), 0)
    &&& sview(a.repository) == first_value(s.opts, "repo"@)
    &&& a.body@ == text_or(first_value(s.opts, "body"@), ""@)
}

/// The values of `gd issue comment`.
fn issue_comment_args(m: &Matches) -> (a: IssueCommentArgs)
    ensures
        issue_comment_args_read(m.sv(), a),
{
    IssueCommentArgs {
        number: number_or_exec(pos_of(m, 0), 0),
        repository: value_of(m, "repo"),
        body: text_or_exec(value_of(m, "body"), ""),
    }
}

/// `a` holds the values of `gd pr list` that `s` read.
pub open spec fn pr_list_args_read(s: ScanV, a: PrListArgs) -> bool {
    &&& sview(a.repository) == first_value(s.opts, "repo"@)
    &&& a.state@ == text_or(first_value(s.opts, "state"@), "open"@)
    &&& sview(a.base) == first_value(s.opts, "base"@)
    &&& a.limit == number_or(first_value(s.opts, "limit"@), 30) as u32
}

/// The values of `gd pr list`.
fn pr_list_args(m: &Matches) -> (a: PrListArgs)
    ensures
        pr_list_args_read(m.sv(), a),
{
    PrListArgs {
        repository: value_of(m, "repo"),
        state: text_or_exec(value_of(m, "state"), "open"),
        base: value_of(m, "base"),
        limit: number_or_exec(value_of(m, "limit"), 30) as u32,
    }
}

/// `a` holds the values of `gd pr view` that `s` read.
pub open spec fn pr_view_args_read(s: ScanV, a: PrViewArgs) -> bool {
    &&& a.number == number_or(pos_at(s.pos, 0), 0)
    &&& sview(a.repository) == first_value(s.opts, "repo"@)
}

/// The values of `gd pr view`.
fn pr_view_args(m: &Matches) -> (a: PrViewArgs)
    ensures
        pr_view_args_read(m.sv(), a),
{
    PrViewArgs {
        number: number_or_exec(pos_of(m, 0), 0),
        repository: value_of(m, "repo"),
    }
}

/// `a` holds the values of `gd pr create` that `s` read.
pub open spec fn pr_create_args_read(s: ScanV, a: PrCreateArgs) -> bool {
    &&& sview(a.repository) == first_value(s.opts, "repo"@)
    &&& a.title@ == text_or(first_value(s.opts, "title"@), ""@)
    &&& sview(a.body) == first_value(s.opts, "body"@)
    &&& a.base@ == text_or(first_value(s.opts, "base"@), ""@)
    &&& a.head@ == text_or(first_value(s.opts, "head"@), ""@)
    &&& a.label.deep_view() == values_of(s.opts, "label"@)
    &&& a.assignee.deep_view() == values_of(s.opts, "assignee"@)
}

/// The values of `gd pr create`.
fn pr_create_args(m: &Matches) -> (a: PrCreateArgs)
    ensures
        pr_create_args_read(m.sv(), a),
{
    PrCreateArgs {
        repository: value_of(m, "repo"),
        title: text_or_exec(value_of(m, "title"), ""),
        body: value_of(m, "body"),
        base: text_or_exec(value_of(m, "base"), ""),
        head: text_or_exec(value_of(m, "head"), ""),
        label: values_of_exec(m, "label"),
        assignee: values_of_exec(m, "assignee"),
    }
}

/// `a` holds the values of `gd pr comments` that `s` read.
pub open spec fn pr_comments_args_read(s: ScanV, a: PrCommentsArgs) -> bool {
    &&& a.number == number_or(pos_at(s.pos, 0), 0)
    &&& sview(a.repository) == first_value(s.opts, "repo"@)
    &&& a.page == number_or(first_value(s.opts, "page"@), 1)
    &&& a.limit == number_or(first_value(s.opts, "limit"@), 30)
}

/// The values of `gd pr comments`.
fn pr_comments_args(m: &Matches) -> (a: PrCommentsArgs)
    ensures
        pr_comments_args_read(m.sv(), a),
{
    PrCommentsArgs {
        number: number_or_exec(pos_of(m, 0), 0),
        repository: value_of(m, "repo"),
        page: number_or_exec(value_of(m, "page"), 1),
        limit: number_or_exec(value_of(m, "limit"), 30),
    }
}

/// `a` holds the values of `gd pr comment` that `s` read.
pub open spec fn pr_comment_args_read(s: ScanV, a: PrCommentArgs) -> bool {
    &&& a.number == number_or(pos_at(s.pos, 0), 0)
    &&& sview(a.repository) == first_value(s.opts, "repo"@)
    &&& a.body@ == text_or(first_value(s.opts, "body"@), ""@)
    &&& sview(a.path) == first_value(s.opts, "path"@)
    &&& a.position == opt_number(first_value(s.opts, "position"@))
    &&& a.need_to_resolve == has_key(s.opts, "need-to-resolve"@)
}

/// The values of `gd pr comment`.
fn pr_comment_args(m: &Matches) -> (a: PrCommentArgs)
    ensures
        pr_comment_args_read(m.sv(), a),
{
    PrCommentArgs {
        number: number_or_exec(pos_of(m, 0), 0),
        repository: value_of(m, "repo"),
        body: text_or_exec(value_of(m, "body"), ""),
        path: value_of(m, "path"),
        position: opt_number_exec(value_of(m, "position")),
        need_to_resolve: flag_of(m, "need-to-resolve"),
    }
}

/// `a` holds the values of `gd pr reply` that `s` read.
pub open spec fn pr_reply_args_read(s: ScanV, a: PrReplyArgs) -> bool {
    &&& a.number == number_or(pos_at(s.pos, 0), 0)
    &&& a.discussion_id@ == text_or(pos_at(s.pos, 1), ""@)
    &&& sview(a.repository) == first_value(s.opts, "repo"@)
    &&& a.body@ == text_or(first_value(s.opts, "body"@), ""@)
}

/// The values of `gd pr reply`.
fn pr_reply_args(m: &Matches) -> (a: PrReplyArgs)
    ensures
        pr_reply_args_read(m.sv(), a),
{
    PrReplyArgs {
        number: number_or_exec(pos_of(m, 0), 0),
        discussion_id: text_or_exec(pos_of(m, 1), ""),
        repository: value_of(m, "repo"),
        body: text_or_exec(value_of(m, "body"), ""),
    }
}

/// `a` holds the values of `gd search repos` that `s` read.
pub open spec fn search_args_read(s: ScanV, a: SearchArgs) -> bool {
    &&& a.query@ == text_or(pos_at(s.pos, 0), ""@)
    &&& a.limit == number_or(first_value(s.opts, "limit"@), 30) as u32
}

/// The values of `gd search repos`.
fn search_args(m: &Matches) -> (a: SearchArgs)
    ensures
        search_args_read(m.sv(), a),
{
    SearchArgs {
        query: text_or_exec(pos_of(m, 0), ""),
        limit: number_or_exec(value_of(m, "limit"), 30) as u32,
    }
}

/// `a` holds the values of `gd ssh-key add` that `s` read.
pub open spec fn ssh_key_add_args_read(s: ScanV, a: SshKeyAddArgs) -> bool {
    &&& a.key_file@ == text_or(pos_at(s.pos, 0), ""@)
    &&& sview(a.title) == first_value(s.opts, "title"@)
}

/// The values of `gd ssh-key add`.
fn ssh_key_add_args(m: &Matches) -> (a: SshKeyAddArgs)
    ensures
        ssh_key_add_args_read(m.sv(), a),
{
    SshKeyAddArgs {
        key_file: text_or_exec(pos_of(m, 0), ""),
        title: value_of(m, "title"),
    }
}

/// `a` holds the values of `gd ssh-key delete` that `s` read.
pub open spec fn ssh_key_delete_args_read(s: ScanV, a: SshKeyDeleteArgs) -> bool {
    &&& a.id@ == text_or(pos_at(s.pos, 0), ""@)
}

/// The values of `gd ssh-key delete`.
fn ssh_key_delete_args(m: &Matches) -> (a: SshKeyDeleteArgs)
    ensures
        ssh_key_delete_args_read(m.sv(), a),
{
    SshKeyDeleteArgs {
        id: text_or_exec(pos_of(m, 0), ""),
    }
}

/// `a` holds the values of `gd label list` that `s` read.
pub open spec fn label_list_args_read(s: ScanV, a: LabelListArgs) -> bool {
    &&& sview(a.repository) == first_value(s.opts, "repo"@)
    &&& a.limit == number_or(first_value(s.opts, "limit"@), 100) as u32
}

/// The values of `gd label list`.
fn label_list_args(m: &Matches) -> (a: LabelListArgs)
    ensures
        label_list_args_read(m.sv(), a),
{
    LabelListArgs {
        repository: value_of(m, "repo"),
        limit: number_or_exec(value_of(m, "limit"), 100) as u32,
    }
}

/// `a` holds the values of `gd label create` that `s` read.
pub open spec fn label_create_args_read(s: ScanV, a: LabelCreateArgs) -> bool {
    &&& a.name@ == text_or(pos_at(s.pos, 0), ""@)
    &&& sview(a.repository) == first_value(s.opts, "repo"@)
    &&& sview(a.color) == first_value(s.opts, "color"@)
    &&& sview(a.description) == first_value(s.opts, "description"@)
}

/// The values of `gd label create`.
fn label_create_args(m: &Matches) -> (a: LabelCreateArgs)
    ensures
        label_create_args_read(m.sv(), a),
{
    LabelCreateArgs {
        name: text_or_exec(pos_of(m, 0), ""),
        repository: value_of(m, "repo"),
        color: value_of(m, "color"),
        description: value_of(m, "description"),
    }
}

/// `a` holds the values of `gd label edit` that `s` read.
pub open spec fn label_edit_args_read(s: ScanV, a: LabelEditArgs) -> bool {
    &&& a.name@ == text_or(pos_at(s.pos, 0), ""@)
    &&& sview(a.repository) == first_value(s.opts, "repo"@)
    &&& sview(a.new_name) == first_value(s.opts, "new-name"@)
    &&& sview(a.color) == first_value(s.opts, "color"@)
    &&& sview(a.description) == first_value(s.opts, "description"@)
}

/// The values of `gd label edit`.
fn label_edit_args(m: &Matches) -> (a: LabelEditArgs)
    ensures
        label_edit_args_read(m.sv(), a),
{
    LabelEditArgs {
        name: text_or_exec(pos_of(m, 0), ""),
        repository: value_of(m, "repo"),
        new_name: value_of(m, "new-name"),
        color: value_of(m, "color"),
        description: value_of(m, "description"),
    }
}

/// `a` holds the values of `gd label delete` that `s` read.
pub open spec fn label_delete_args_read(s: ScanV, a: LabelDeleteArgs) -> bool {
    &&& a.name@ == text_or(pos_at(s.pos, 0), ""@)
    &&& sview(a.repository) == first_value(s.opts, "repo"@)
}

/// The values of `gd label delete`.
fn label_delete_args(m: &Matches) -> (a: LabelDeleteArgs)
    ensures
        label_delete_args_read(m.sv(), a),
{
    LabelDeleteArgs {
        name: text_or_exec(pos_of(m, 0), ""),
        repository: value_of(m, "repo"),
    }
}

/// `a` holds the values of `gd release list` that `s` read.
pub open spec fn release_list_args_read(s: ScanV, a: ReleaseListArgs) -> bool {
    &&& sview(a.repository) == first_value(s.opts, "repo"@)
    &&& a.limit == number_or(first_value(s.opts, "limit"@), 30) as u32
}

/// The values of `gd release list`.
fn release_list_args(m: &Matches) -> (a: ReleaseListArgs)
    ensures
        release_list_args_read(m.sv(), a),
{
    ReleaseListArgs {
        repository: value_of(m, "repo"),
        limit: number_or_exec(value_of(m, "limit"), 30) as u32,
    }
}

/// `a` holds the values of `gd release view` that `s` read.
pub open spec fn release_view_args_read(s: ScanV, a: ReleaseViewArgs) -> bool {
    &&& a.tag@ == text_or(pos_at(s.pos, 0), ""@)
    &&& sview(a.repository) == first_value(s.opts, "repo"@)
}

/// The values of `gd release view`.
fn release_view_args(m: &Matches) -> (a: ReleaseViewArgs)
    ensures
        release_view_args_read(m.sv(), a),
{
    ReleaseViewArgs {
        tag: text_or_exec(pos_of(m, 0), ""),
        repository: value_of(m, "repo"),
    }
}

/// `a` holds the values of `gd release create` that `s` read.
pub open spec fn release_create_args_read(s: ScanV, a: ReleaseCreateArgs) -> bool {
    &&& a.tag@ == text_or(pos_at(s.pos, 0), ""@)
    &&& sview(a.repository) == first_value(s.opts, "repo"@)
    &&& sview(a.title) == first_value(s.opts, "title"@)
    &&& sview(a.notes) == first_value(s.opts, "notes"@)
    &&& sview(a.target) == first_value(s.opts, "target"@)
}

/// The values of `gd release create`.
fn release_create_args(m: &Matches) -> (a: ReleaseCreateArgs)
    ensures
        release_create_args_read(m.sv(), a),
{
    ReleaseCreateArgs {
        tag: text_or_exec(pos_of(m, 0), ""),
        repository: value_of(m, "repo"),
        title: value_of(m, "title"),
        notes: value_of(m, "notes"),
        target: value_of(m, "target"),
    }
}

/// `a` holds the values of `gd release migrate-github` that `s` read.
pub open spec fn release_migrate_github_args_read(s: ScanV, a: ReleaseMigrateGithubArgs) -> bool {
    &&& sview(a.repository) == first_value(s.opts, "repo"@)
    &&& a.github_repo@ == text_or(first_value(s.opts, "github-repo"@), ""@)
    &&& sview(a.tag) == first_value(s.opts, "tag"@)
    &&& a.all == has_key(s.opts, "all"@)
    &&& a.skip_existing_assets == toggle_of(first_value(s.opts, "skip-existing-assets"@))
    &&& a.update_release == toggle_of(first_value(s.opts, "update-release"@))
    &&& a.dry_run == has_key(s.opts, "dry-run"@)
}

/// The values of `gd release migrate-github`.
fn release_migrate_github_args(m: &Matches) -> (a: ReleaseMigrateGithubArgs)
    ensures
        release_migrate_github_args_read(m.sv(), a),
{
    ReleaseMigrateGithubArgs {
        repository: value_of(m, "repo"),
        github_repo: text_or_exec(value_of(m, "github-repo"), ""),
        tag: value_of(m, "tag"),
        all: flag_of(m, "all"),
        skip_existing_assets: toggle_exec(value_of(m, "skip-existing-assets")),
        update_release: toggle_exec(value_of(m, "update-release")),
        dry_run: flag_of(m, "dry-run"),
    }
}

/// `a` holds the values of `gd pipeline set` that `s` read.
pub open spec fn pipeline_set_args_read(s: ScanV, a: PipelineSetArgs) -> bool {
    &&& sview(a.repository) == first_value(s.opts, "repo"@)
    &&& a.path@ == text_or(pos_at(s.pos, 0), ""@)
    &&& a.mode == pipeline_set_mode_of(first_value(s.opts, "mode"@))
    &&& sview(a.content) == first_value(s.opts, "content"@)
    &&& sview(a.file) == first_value(s.opts, "file"@)
    &&& a.message@ == text_or(first_value(s.opts, "message"@), "Configure GitCode workflow"@)
    &&& sview(a.branch) == first_value(s.opts, "branch"@)
    &&& sview(a.sha) == first_value(s.opts, "sha"@)
}

/// The values of `gd pipeline set`.
fn pipeline_set_args(m: &Matches) -> (a: PipelineSetArgs)
    ensures
        pipeline_set_args_read(m.sv(), a),
{
    PipelineSetArgs {
        repository: value_of(m, "repo"),
        path: text_or_exec(pos_of(m, 0), ""),
        mode: pipeline_set_mode_exec(value_of(m, "mode")),
        content: value_of(m, "content"),
        file: value_of(m, "file"),
        message: text_or_exec(value_of(m, "message"), "Configure GitCode workflow"),
        branch: value_of(m, "branch"),
        sha: value_of(m, "sha"),
    }
}

/// `a` holds the values of `gd pipeline codecheck` that `s` read.
pub open spec fn pipeline_codecheck_args_read(s: ScanV, a: PipelineCodecheckArgs) -> bool {
    &&& sview(a.repository) == first_value(s.opts, "repo"@)
    &&& a.path@ == text_or(first_value(s.opts, "path"@), ".gitcode/workflows/codecheck.yml"@)
    &&& a.mode == pipeline_set_mode_of(first_value(s.opts, "mode"@))
    &&& a.message@ == text_or(first_value(s.opts, "message"@), "Configure GitCode CodeCheck workflow"@)
    &&& sview(a.commit_branch) == first_value(s.opts, "commit-branch"@)
    &&& sview(a.sha) == first_value(s.opts, "sha"@)
    &&& a.name@ == text_or(first_value(s.opts, "name"@), "codecheck-pipeline"@)
    &&& sview(a.check_branch) == first_value(s.opts, "check-branch"@)
    &&& sview(a.repo_url) == first_value(s.opts, "repo-url"@)
    &&& a.languages.deep_view() == values_of(s.opts, "language"@)
    &&& a.access_token_secret@ == text_or(first_value(s.opts, "access-token-secret"@), "CODECHECK_ACCESS_TOKEN"@)
}

/// The values of `gd pipeline codecheck`.
fn pipeline_codecheck_args(m: &Matches) -> (a: PipelineCodecheckArgs)
    ensures
        pipeline_codecheck_args_read(m.sv(), a),
{
    PipelineCodecheckArgs {
        repository: value_of(m, "repo"),
        path: text_or_exec(value_of(m, "path"), ".gitcode/workflows/codecheck.yml"),
        mode: pipeline_set_mode_exec(value_of(m, "mode")),
        message: text_or_exec(value_of(m, "message"), "Configure GitCode CodeCheck workflow"),
        commit_branch: value_of(m, "commit-branch"),
        sha: value_of(m, "sha"),
        name: text_or_exec(value_of(m, "name"), "codecheck-pipeline"),
        check_branch: value_of(m, "check-branch"),
        repo_url: value_of(m, "repo-url"),
        languages: values_of_exec(m, "language"),
        access_token_secret: text_or_exec(value_of(m, "access-token-secret"), "CODECHECK_ACCESS_TOKEN"),
    }
}

/// `a` holds the values of `gd pipeline list` that `s` read.
pub open spec fn pipeline_list_args_read(s: ScanV, a: PipelineListArgs) -> bool {
    &&& sview(a.repository) == first_value(s.opts, "repo"@)
    &&& a.page == number_or(first_value(s.opts, "page"@), 1)
    &&& a.limit == number_or(first_value(s.opts, "limit"@), 50)
}

/// The values of `gd pipeline list`.
fn pipeline_list_args(m: &Matches) -> (a: PipelineListArgs)
    ensures
        pipeline_list_args_read(m.sv(), a),
{
    PipelineListArgs {
        repository: value_of(m, "repo"),
        page: number_or_exec(value_of(m, "page"), 1),
        limit: number_or_exec(value_of(m, "limit"), 50),
    }
}

/// `a` holds the values of `gd pipeline run` that `s` read.
pub open spec fn pipeline_run_args_read(s: ScanV, a: PipelineRunArgs) -> bool {
    &&& sview(a.repository) == first_value(s.opts, "repo"@)
    &&& a.workflow_id@ == text_or(pos_at(s.pos, 0), ""@)
    &&& a.file_path@ == text_or(first_value(s.opts, "file-path"@), ""@)
    &&& sview(a.branch) == first_value(s.opts, "branch"@)
    &&& sview(a.branch_commit_id) == first_value(s.opts, "branch-commit-id"@)
    &&& a.inputs.deep_view() == values_of(s.opts, "input"@)
}

/// The values of `gd pipeline run`.
fn pipeline_run_args(m: &Matches) -> (a: PipelineRunArgs)
    ensures
        pipeline_run_args_read(m.sv(), a),
{
    PipelineRunArgs {
        repository: value_of(m, "repo"),
        workflow_id: text_or_exec(pos_of(m, 0), ""),
        file_path: text_or_exec(value_of(m, "file-path"), ""),
        branch: value_of(m, "branch"),
        branch_commit_id: value_of(m, "branch-commit-id"),
        inputs: values_of_exec(m, "input"),
    }
}

/// `a` holds the values of `gd pipeline runs` that `s` read.
pub open spec fn pipeline_runs_args_read(s: ScanV, a: PipelineRunsArgs) -> bool {
    &&& sview(a.repository) == first_value(s.opts, "repo"@)
    &&& sview(a.workflow_id) == first_value(s.opts, "workflow-id"@)
    &&& sview(a.workflow_name) == first_value(s.opts, "workflow-name"@)
    &&& sview(a.event) == first_value(s.opts, "event"@)
    &&& sview(a.branch) == first_value(s.opts, "branch"@)
    &&& sview(a.status) == first_value(s.opts, "status"@)
    &&& sview(a.executor_id) == first_value(s.opts, "executor-id"@)
    &&& sview(a.mr_id) == first_value(s.opts, "mr-id"@)
    &&& a.page == number_or(first_value(s.opts, "page"@), 1)
    &&& a.limit == number_or(first_value(s.opts, "limit"@), 20)
}

/// The values of `gd pipeline runs`.
fn pipeline_runs_args(m: &Matches) -> (a: PipelineRunsArgs)
    ensures
        pipeline_runs_args_read(m.sv(), a),
{
    PipelineRunsArgs {
        repository: value_of(m, "repo"),
        workflow_id: value_of(m, "workflow-id"),
        workflow_name: value_of(m, "workflow-name"),
        event: value_of(m, "event"),
        branch: value_of(m, "branch"),
        status: value_of(m, "status"),
        executor_id: value_of(m, "executor-id"),
        mr_id: value_of(m, "mr-id"),
        page: number_or_exec(value_of(m, "page"), 1),
        limit: number_or_exec(value_of(m, "limit"), 20),
    }
}

/// `a` holds the values of `gd pipeline view` that `s` read.
pub open spec fn pipeline_view_args_read(s: ScanV, a: PipelineViewArgs) -> bool {
    &&& sview(a.repository) == first_value(s.opts, "repo"@)
    &&& a.workflow_run_id@ == text_or(pos_at(s.pos, 0), ""@)
}

/// The values of `gd pipeline view`.
fn pipeline_view_args(m: &Matches) -> (a: PipelineViewArgs)
    ensures
        pipeline_view_args_read(m.sv(), a),
{
    PipelineViewArgs {
        repository: value_of(m, "repo"),
        workflow_run_id: text_or_exec(pos_of(m, 0), ""),
    }
}

/// `a` holds the values of `gd pipeline log` that `s` read.
pub open spec fn pipeline_log_args_read(s: ScanV, a: PipelineLogArgs) -> bool {
    &&& sview(a.repository) == first_value(s.opts, "repo"@)
    &&& a.workflow_run_id@ == text_or(pos_at(s.pos, 0), ""@)
    &&& a.job_identifier@ == text_or(pos_at(s.pos, 1), ""@)
    &&& sview(a.step_run_id) == first_value(s.opts, "step-run-id"@)
    &&& a.offset == number_or(first_value(s.opts, "offset"@), 0)
    &&& a.limit == number_or(first_value(s.opts, "limit"@), 100)
}

/// The values of `gd pipeline log`.
fn pipeline_log_args(m: &Matches) -> (a: PipelineLogArgs)
    ensures
        pipeline_log_args_read(m.sv(), a),
{
    PipelineLogArgs {
        repository: value_of(m, "repo"),
        workflow_run_id: text_or_exec(pos_of(m, 0), ""),
        job_identifier: text_or_exec(pos_of(m, 1), ""),
        step_run_id: value_of(m, "step-run-id"),
        offset: number_or_exec(value_of(m, "offset"), 0),
        limit: number_or_exec(value_of(m, "limit"), 100),
    }
}

/// `a` holds the values of `gd pipeline stop` that `s` read.
pub open spec fn pipeline_stop_args_read(s: ScanV, a: PipelineStopArgs) -> bool {
    &&& sview(a.repository) == first_value(s.opts, "repo"@)
    &&& a.workflow_run_id@ == text_or(pos_at(s.pos, 0), ""@)
}

/// The values of `gd pipeline stop`.
fn pipeline_stop_args(m: &Matches) -> (a: PipelineStopArgs)
    ensures
        pipeline_stop_args_read(m.sv(), a),
{
    PipelineStopArgs {
        repository: value_of(m, "repo"),
        workflow_run_id: text_or_exec(pos_of(m, 0), ""),
    }
}

/// `a` holds the values of `gd pipeline retry` that `s` read.
pub open spec fn pipeline_retry_args_read(s: ScanV, a: PipelineRetryArgs) -> bool {
    &&& sview(a.repository) == first_value(s.opts, "repo"@)
    &&& a.workflow_run_id@ == text_or(pos_at(s.pos, 0), ""@)
    &&& a.job_run_ids.deep_view() == values_of(s.opts, "job-run-id"@)
}

/// The values of `gd pipeline retry`.
fn pipeline_retry_args(m: &Matches) -> (a: PipelineRetryArgs)
    ensures
        pipeline_retry_args_read(m.sv(), a),
{
    PipelineRetryArgs {
        repository: value_of(m, "repo"),
        workflow_run_id: text_or_exec(pos_of(m, 0), ""),
        job_run_ids: values_of_exec(m, "job-run-id"),
    }
}

/// `a` holds the values of `gd pipeline rerun` that `s` read.
pub open spec fn pipeline_rerun_args_read(s: ScanV, a: PipelineRerunArgs) -> bool {
    &&& sview(a.repository) == first_value(s.opts, "repo"@)
    &&& a.workflow_run_id@ == text_or(pos_at(s.pos, 0), ""@)
}

/// The values of `gd pipeline rerun`.
fn pipeline_rerun_args(m: &Matches) -> (a: PipelineRerunArgs)
    ensures
        pipeline_rerun_args_read(m.sv(), a),
{
    PipelineRerunArgs {
        repository: value_of(m, "repo"),
        workflow_run_id: text_or_exec(pos_of(m, 0), ""),
    }
}

/// `a` holds the values of `gd pipeline auth login` that `s` read.
pub open spec fn pipeline_auth_login_args_read(s: ScanV, a: PipelineAuthLoginArgs) -> bool {
    &&& a.callback_host@ == text_or(first_value(s.opts, "callback-host"@), "127.0.0.1"@)
    &&& a.callback_port == number_or(first_value(s.opts, "callback-port"@), 0) as u16
    &&& a.timeout_seconds == number_or(first_value(s.opts, "timeout-seconds"@), 180)
    &&& a.no_browser == has_key(s.opts, "no-browser"@)
}

/// The values of `gd pipeline auth login`.
fn pipeline_auth_login_args(m: &Matches) -> (a: PipelineAuthLoginArgs)
    ensures
        pipeline_auth_login_args_read(m.sv(), a),
{
    PipelineAuthLoginArgs {
        callback_host: text_or_exec(value_of(m, "callback-host"), "127.0.0.1"),
        callback_port: number_or_exec(value_of(m, "callback-port"), 0) as u16,
        timeout_seconds: number_or_exec(value_of(m, "timeout-seconds"), 180),
        no_browser: flag_of(m, "no-browser"),
    }
}

/// `a` holds the values of `gd pipeline config` that `s` read.
pub open spec fn pipeline_config_args_read(s: ScanV, a: PipelineConfigArgs) -> bool {
    &&& a.project_id@ == text_or(first_value(s.opts, "project-id"@), ""@)
}

/// The values of `gd pipeline config`.
fn pipeline_config_args(m: &Matches) -> (a: PipelineConfigArgs)
    ensures
        pipeline_config_args_read(m.sv(), a),
{
    PipelineConfigArgs {
        project_id: text_or_exec(value_of(m, "project-id"), ""),
    }
}

/// `a` holds the values of `gd pipeline setup` that `s` read.
pub open spec fn pipeline_setup_args_read(s: ScanV, a: PipelineSetupArgs) -> bool {
    &&& a.project_id@ == text_or(first_value(s.opts, "project-id"@), ""@)
    &&& sview(a.repository) == first_value(s.opts, "repo"@)
    &&& sview(a.repo_url) == first_value(s.opts, "repo-url"@)
    &&& a.repo_id == opt_number(first_value(s.opts, "repo-id"@))
    &&& sview(a.repo_name) == first_value(s.opts, "repo-name"@)
    &&& sview(a.repo_owner) == first_value(s.opts, "repo-owner"@)
    &&& a.language.deep_view() == values_of(s.opts, "language"@)
    &&& sview(a.codecheck_rule_set) == first_value(s.opts, "codecheck-rule-set"@)
    &&& sview(a.anti_rule_set) == first_value(s.opts, "anti-rule-set"@)
    &&& a.purpose@ == text_or(first_value(s.opts, "purpose"@), "自研源码"@)
    &&& a.open_source@ == text_or(first_value(s.opts, "open-source"@), "lead"@)
    &&& a.assume_pr@ == text_or(first_value(s.opts, "assume-pr"@), "1"@)
    &&& a.auto_trigger@ == text_or(first_value(s.opts, "auto-trigger"@), "1"@)
    &&& a.auto_trigger_design_scan@ == text_or(first_value(s.opts, "auto-trigger-design-scan"@), "0"@)
    &&& a.disallow_self_merge == number_or(first_value(s.opts, "disallow-self-merge"@), 1) as u8
    &&& a.disallow_unresolved_discussions_merge == number_or(first_value(s.opts, "disallow-unresolved-discussions-merge"@), 0) as u8
    &&& sview(a.public_token_env) == first_value(s.opts, "public-token-env"@)
    &&& a.no_configure_webhook == has_key(s.opts, "no-configure-webhook"@)
}

/// The values of `gd pipeline setup`.
fn pipeline_setup_args(m: &Matches) -> (a: PipelineSetupArgs)
    ensures
        pipeline_setup_args_read(m.sv(), a),
{
    PipelineSetupArgs {
        project_id: text_or_exec(value_of(m, "project-id"), ""),
        repository: value_of(m, "repo"),
        repo_url: value_of(m, "repo-url"),
        repo_id: opt_number_exec(value_of(m, "repo-id")),
        repo_name: value_of(m, "repo-name"),
        repo_owner: value_of(m, "repo-owner"),
        language: values_of_exec(m, "language"),
        codecheck_rule_set: value_of(m, "codecheck-rule-set"),
        anti_rule_set: value_of(m, "anti-rule-set"),
        purpose: text_or_exec(value_of(m, "purpose"), "自研源码"),
        open_source: text_or_exec(value_of(m, "open-source"), "lead"),
        assume_pr: text_or_exec(value_of(m, "assume-pr"), "1"),
        auto_trigger: text_or_exec(value_of(m, "auto-trigger"), "1"),
        auto_trigger_design_scan: text_or_exec(value_of(m, "auto-trigger-design-scan"), "0"),
        disallow_self_merge: number_or_exec(value_of(m, "disallow-self-merge"), 1) as u8,
        disallow_unresolved_discussions_merge: number_or_exec(value_of(m, "disallow-unresolved-discussions-merge"), 0) as u8,
        public_token_env: value_of(m, "public-token-env"),
        no_configure_webhook: flag_of(m, "no-configure-webhook"),
    }
}

/// `a` holds the values of `gd pipeline prs` that `s` read.
pub open spec fn pipeline_prs_args_read(s: ScanV, a: PipelinePrsArgs) -> bool {
    &&& a.project_id@ == text_or(first_value(s.opts, "project-id"@), ""@)
    &&& sview(a.repository) == first_value(s.opts, "repo"@)
    &&& sview(a.state) == first_value(s.opts, "state"@)
    &&& a.page == number_or(first_value(s.opts, "page"@), 1)
    &&& a.limit == number_or(first_value(s.opts, "limit"@), 20)
}

/// The values of `gd pipeline prs`.
fn pipeline_prs_args(m: &Matches) -> (a: PipelinePrsArgs)
    ensures
        pipeline_prs_args_read(m.sv(), a),
{
    PipelinePrsArgs {
        project_id: text_or_exec(value_of(m, "project-id"), ""),
        repository: value_of(m, "repo"),
        state: value_of(m, "state"),
        page: number_or_exec(value_of(m, "page"), 1),
        limit: number_or_exec(value_of(m, "limit"), 20),
    }
}

/// `a` holds the values of `gd pipeline checks` that `s` read.
pub open spec fn pipeline_pr_args_read(s: ScanV, a: PipelinePrArgs) -> bool {
    &&& a.project_id@ == text_or(first_value(s.opts, "project-id"@), ""@)
    &&& sview(a.repository) == first_value(s.opts, "repo"@)
    &&& a.number == number_or(first_value(s.opts, "pr"@), 0)
}

/// The values of `gd pipeline checks`.
fn pipeline_pr_args(m: &Matches) -> (a: PipelinePrArgs)
    ensures
        pipeline_pr_args_read(m.sv(), a),
{
    PipelinePrArgs {
        project_id: text_or_exec(value_of(m, "project-id"), ""),
        repository: value_of(m, "repo"),
        number: number_or_exec(value_of(m, "pr"), 0),
    }
}

/// `a` holds the values of `gd pipeline gate-runs` that `s` read.
pub open spec fn pipeline_gate_runs_args_read(s: ScanV, a: PipelineGateRunsArgs) -> bool {
    &&& a.project_id@ == text_or(first_value(s.opts, "project-id"@), ""@)
    &&& sview(a.pipeline_name) == first_value(s.opts, "pipeline-name"@)
    &&& a.page == number_or(first_value(s.opts, "page"@), 1)
    &&& a.limit == number_or(first_value(s.opts, "limit"@), 20)
}

/// The values of `gd pipeline gate-runs`.
fn pipeline_gate_runs_args(m: &Matches) -> (a: PipelineGateRunsArgs)
    ensures
        pipeline_gate_runs_args_read(m.sv(), a),
{
    PipelineGateRunsArgs {
        project_id: text_or_exec(value_of(m, "project-id"), ""),
        pipeline_name: value_of(m, "pipeline-name"),
        page: number_or_exec(value_of(m, "page"), 1),
        limit: number_or_exec(value_of(m, "limit"), 20),
    }
}

/// `a` holds the values of `gd completion` that `s` read.
pub open spec fn completion_args_read(s: ScanV, a: CompletionArgs) -> bool {
    &&& a.shell == shell_of(pos_at(s.pos, 0))
}

/// The values of `gd completion`.
fn completion_args(m: &Matches) -> (a: CompletionArgs)
    ensures
        completion_args_read(m.sv(), a),
{
    CompletionArgs {
        shell: shell_exec(pos_of(m, 0)),
    }
}

/// `p` is the path of a command of `gd`.
pub open spec fn path_known(p: Seq<Seq<char>>) -> bool {
    ||| p == seq!["auth"@, "login"@]
    ||| p == seq!["auth"@, "logout"@]
    ||| p == seq!["auth"@, "status"@]
    ||| p == seq!["auth"@, "token"@]
    ||| p == seq!["api"@]
    ||| p == seq!["repo"@, "view"@]
    ||| p == seq!["repo"@, "list"@]
    ||| p == seq!["repo"@, "clone"@]
    ||| p == seq!["repo"@, "fork"@]
    ||| p == seq!["repo"@, "create"@]
    ||| p == seq!["repo"@, "move"@]
    ||| p == seq!["repo"@, "sync-github"@]
    ||| p == seq!["pr"@, "list"@]
    ||| p == seq!["pr"@, "view"@]
    ||| p == seq!["pr"@, "create"@]
    ||| p == seq!["pr"@, "comments"@]
    ||| p == seq!["pr"@, "comment"@]
    ||| p == seq!["pr"@, "reply"@]
    ||| p == seq!["issue"@, "list"@]
    ||| p == seq!["issue"@, "view"@]
    ||| p == seq!["issue"@, "create"@]
    ||| p == seq!["issue"@, "comment"@]
    ||| p == seq!["search"@, "repos"@]
    ||| p == seq!["search"@, "issues"@]
    ||| p == seq!["search"@, "users"@]
    ||| p == seq!["ssh-key"@, "list"@]
    ||| p == seq!["ssh-key"@, "add"@]
    ||| p == seq!["ssh-key"@, "delete"@]
    ||| p == seq!["label"@, "list"@]
    ||| p == seq!["label"@, "create"@]
    ||| p == seq!["label"@, "edit"@]
    ||| p == seq!["label"@, "delete"@]
    ||| p == seq!["release"@, "list"@]
    ||| p == seq!["release"@, "view"@]
    ||| p == seq!["release"@, "create"@]
    ||| p == seq!["release"@, "migrate-github"@]
    ||| p == seq!["pipeline"@, "set"@]
    ||| p == seq!["pipeline"@, "codecheck"@]
    ||| p == seq!["pipeline"@, "list"@]
    ||| p == seq!["pipeline"@, "run"@]
    ||| p == seq!["pipeline"@, "runs"@]
    ||| p == seq!["pipeline"@, "view"@]
    ||| p == seq!["pipeline"@, "log"@]
    ||| p == seq!["pipeline"@, "stop"@]
    ||| p == seq!["pipeline"@, "retry"@]
    ||| p == seq!["pipeline"@, "rerun"@]
    ||| p == seq!["pipeline"@, "auth"@, "login"@]
    ||| p == seq!["pipeline"@, "auth"@, "status"@]
    ||| p == seq!["pipeline"@, "auth"@, "logout"@]
    ||| p == seq!["pipeline"@, "config"@]
    ||| p == seq!["pipeline"@, "setup"@]
    ||| p == seq!["pipeline"@, "prs"@]
    ||| p == seq!["pipeline"@, "checks"@]
    ||| p == seq!["pipeline"@, "gate-view"@]
    ||| p == seq!["pipeline"@, "gate-runs"@]
    ||| p == seq!["version"@, "check"@]
    ||| p == seq!["completion"@]
}

/// `c` is the command that `s` reached, holding the values that `s` read.
pub open spec fn command_read(s: ScanV, c: Command) -> bool {
    ||| (s.path == seq!["auth"@, "login"@] && (c matches Command::Auth(AuthCommand::Login(a)) && auth_login_args_read(s, a)))
    ||| (s.path == seq!["auth"@, "logout"@] && (c matches Command::Auth(AuthCommand::Logout(a)) && auth_host_args_read(s, a)))
    ||| (s.path == seq!["auth"@, "status"@] && (c matches Command::Auth(AuthCommand::Status(a)) && auth_status_args_read(s, a)))
    ||| (s.path == seq!["auth"@, "token"@] && (c matches Command::Auth(AuthCommand::Token(a)) && auth_host_args_read(s, a)))
    ||| (s.path == seq!["api"@] && (c matches Command::Api(a) && api_args_read(s, a)))
    ||| (s.path == seq!["repo"@, "view"@] && (c matches Command::Repo(RepoCommand::View(a)) && repo_view_args_read(s, a)))
    ||| (s.path == seq!["repo"@, "list"@] && (c matches Command::Repo(RepoCommand::List(a)) && repo_list_args_read(s, a)))
    ||| (s.path == seq!["repo"@, "clone"@] && (c matches Command::Repo(RepoCommand::Clone(a)) && repo_clone_args_read(s, a)))
    ||| (s.path == seq!["repo"@, "fork"@] && (c matches Command::Repo(RepoCommand::Fork(a)) && repo_ref_args_read(s, a)))
    ||| (s.path == seq!["repo"@, "create"@] && (c matches Command::Repo(RepoCommand::Create(a)) && repo_create_args_read(s, a)))
    ||| (s.path == seq!["repo"@, "move"@] && (c matches Command::Repo(RepoCommand::Move(a)) && repo_move_args_read(s, a)))
    ||| (s.path == seq!["repo"@, "sync-github"@] && (c matches Command::Repo(RepoCommand::SyncGithub(a)) && repo_sync_github_args_read(s, a)))
    ||| (s.path == seq!["pr"@, "list"@] && (c matches Command::Pr(PrCommand::List(a)) && pr_list_args_read(s, a)))
    ||| (s.path == seq!["pr"@, "view"@] && (c matches Command::Pr(PrCommand::View(a)) && pr_view_args_read(s, a)))
    ||| (s.path == seq!["pr"@, "create"@] && (c matches Command::Pr(PrCommand::Create(a)) && pr_create_args_read(s, a)))
    ||| (s.path == seq!["pr"@, "comments"@] && (c matches Command::Pr(PrCommand::Comments(a)) && pr_comments_args_read(s, a)))
    ||| (s.path == seq!["pr"@, "comment"@] && (c matches Command::Pr(PrCommand::Comment(a)) && pr_comment_args_read(s, a)))
    ||| (s.path == seq!["pr"@, "reply"@] && (c matches Command::Pr(PrCommand::Reply(a)) && pr_reply_args_read(s, a)))
    ||| (s.path == seq!["issue"@, "list"@] && (c matches Command::Issue(IssueCommand::List(a)) && issue_list_args_read(s, a)))
    ||| (s.path == seq!["issue"@, "view"@] && (c matches Command::Issue(IssueCommand::View(a)) && issue_view_args_read(s, a)))
    ||| (s.path == seq!["issue"@, "create"@] && (c matches Command::Issue(IssueCommand::Create(a)) && issue_create_args_read(s, a)))
    ||| (s.path == seq!["issue"@, "comment"@] && (c matches Command::Issue(IssueCommand::Comment(a)) && issue_comment_args_read(s, a)))
    ||| (s.path == seq!["search"@, "repos"@] && (c matches Command::Search(SearchCommand::Repos(a)) && search_args_read(s, a)))
    ||| (s.path == seq!["search"@, "issues"@] && (c matches Command::Search(SearchCommand::Issues(a)) && search_args_read(s, a)))
    ||| (s.path == seq!["search"@, "users"@] && (c matches Command::Search(SearchCommand::Users(a)) && search_args_read(s, a)))
    ||| (s.path == seq!["ssh-key"@, "list"@] && c == Command::SshKey(SshKeyCommand::List))
    ||| (s.path == seq!["ssh-key"@, "add"@] && (c matches Command::SshKey(SshKeyCommand::Add(a)) && ssh_key_add_args_read(s, a)))
    ||| (s.path == seq!["ssh-key"@, "delete"@] && (c matches Command::SshKey(SshKeyCommand::Delete(a)) && ssh_key_delete_args_read(s, a)))
    ||| (s.path == seq!["label"@, "list"@] && (c matches Command::Label(LabelCommand::List(a)) && label_list_args_read(s, a)))
    ||| (s.path == seq!["label"@, "create"@] && (c matches Command::Label(LabelCommand::Create(a)) && label_create_args_read(s, a)))
    ||| (s.path == seq!["label"@, "edit"@] && (c matches Command::Label(LabelCommand::Edit(a)) && label_edit_args_read(s, a)))
    ||| (s.path == seq!["label"@, "delete"@] && (c matches Command::Label(LabelCommand::Delete(a)) && label_delete_args_read(s, a)))
    ||| (s.path == seq!["release"@, "list"@] && (c matches Command::Release(ReleaseCommand::List(a)) && release_list_args_read(s, a)))
    ||| (s.path == seq!["release"@, "view"@] && (c matches Command::Release(ReleaseCommand::View(a)) && release_view_args_read(s, a)))
    ||| (s.path == seq!["release"@, "create"@] && (c matches Command::Release(ReleaseCommand::Create(a)) && release_create_args_read(s, a)))
    ||| (s.path == seq!["release"@, "migrate-github"@] && (c matches Command::Release(ReleaseCommand::MigrateGithub(a)) && release_migrate_github_args_read(s, a)))
    ||| (s.path == seq!["pipeline"@, "set"@] && (c matches Command::Pipeline(PipelineCommand::SetWorkflow(a)) && pipeline_set_args_read(s, a)))
    ||| (s.path == seq!["pipeline"@, "codecheck"@] && (c matches Command::Pipeline(PipelineCommand::Codecheck(a)) && pipeline_codecheck_args_read(s, a)))
    ||| (s.path == seq!["pipeline"@, "list"@] && (c matches Command::Pipeline(PipelineCommand::List(a)) && pipeline_list_args_read(s, a)))
    ||| (s.path == seq!["pipeline"@, "run"@] && (c matches Command::Pipeline(PipelineCommand::Run(a)) && pipeline_run_args_read(s, a)))
    ||| (s.path == seq!["pipeline"@, "runs"@] && (c matches Command::Pipeline(PipelineCommand::Runs(a)) && pipeline_runs_args_read(s, a)))
    ||| (s.path == seq!["pipeline"@, "view"@] && (c matches Command::Pipeline(PipelineCommand::View(a)) && pipeline_view_args_read(s, a)))
    ||| (s.path == seq!["pipeline"@, "log"@] && (c matches Command::Pipeline(PipelineCommand::Log(a)) && pipeline_log_args_read(s, a)))
    ||| (s.path == seq!["pipeline"@, "stop"@] && (c matches Command::Pipeline(PipelineCommand::Stop(a)) && pipeline_stop_args_read(s, a)))
    ||| (s.path == seq!["pipeline"@, "retry"@] && (c matches Command::Pipeline(PipelineCommand::Retry(a)) && pipeline_retry_args_read(s, a)))
    ||| (s.path == seq!["pipeline"@, "rerun"@] && (c matches Command::Pipeline(PipelineCommand::Rerun(a)) && pipeline_rerun_args_read(s, a)))
    ||| (s.path == seq!["pipeline"@, "auth"@, "login"@] && (c matches Command::Pipeline(PipelineCommand::Auth(PipelineAuthCommand::Login(a))) && pipeline_auth_login_args_read(s, a)))
    ||| (s.path == seq!["pipeline"@, "auth"@, "status"@] && c == Command::Pipeline(PipelineCommand::Auth(PipelineAuthCommand::Status)))
    ||| (s.path == seq!["pipeline"@, "auth"@, "logout"@] && c == Command::Pipeline(PipelineCommand::Auth(PipelineAuthCommand::Logout)))
    ||| (s.path == seq!["pipeline"@, "config"@] && (c matches Command::Pipeline(PipelineCommand::Config(a)) && pipeline_config_args_read(s, a)))
    ||| (s.path == seq!["pipeline"@, "setup"@] && (c matches Command::Pipeline(PipelineCommand::Setup(a)) && pipeline_setup_args_read(s, *a)))
    ||| (s.path == seq!["pipeline"@, "prs"@] && (c matches Command::Pipeline(PipelineCommand::Prs(a)) && pipeline_prs_args_read(s, a)))
    ||| (s.path == seq!["pipeline"@, "checks"@] && (c matches Command::Pipeline(PipelineCommand::Checks(a)) && pipeline_pr_args_read(s, a)))
    ||| (s.path == seq!["pipeline"@, "gate-view"@] && (c matches Command::Pipeline(PipelineCommand::GateView(a)) && pipeline_pr_args_read(s, a)))
    ||| (s.path == seq!["pipeline"@, "gate-runs"@] && (c matches Command::Pipeline(PipelineCommand::GateRuns(a)) && pipeline_gate_runs_args_read(s, a)))
    ||| (s.path == seq!["version"@, "check"@] && (c matches Command::Version(VersionCommand::Check(a)) && version_check_args_read(s, a)))
    ||| (s.path == seq!["completion"@] && (c matches Command::Completion(a) && completion_args_read(s, a)))
}

/// Whether the command path of `m` has the words `p`.
fn path_words(m: &Matches, p: &Vec<&str>) -> (r: bool)
    ensures
        r == (m.sv().path == p@.map_values(|x: &str| x@)),
{
    let ghost want = p@.map_values(|x: &str| x@);
    if m.path.len() != p.len() {
        assert(m.sv().path.len() != want.len());
        return false;
    }
    let mut i: usize = 0;
    while i < p.len()
        invariant
            i <= p@.len(),
            m.path@.len() == p@.len(),
            want == p@.map_values(|x: &str| x@),
            forall|j: int| 0 <= j < i ==> m.path.deep_view()[j] == want[j],
        decreases p@.len() - i,
    {
        if !crate::text::chars_eq_str(&to_chars(m.path[i].as_str()), p[i]) {
            assert(m.path.deep_view()[i as int] != want[i as int]);
            return false;
        }
        i = i + 1;
    }
    assert(m.sv().path =~= want);
    true
}

/// Whether the command path of `m` is the one word `a`.
fn path_is1(m: &Matches, a: &str) -> (r: bool)
    ensures
        r == (m.sv().path == seq![a@]),
{
    let mut p: Vec<&str> = Vec::new();
    p.push(a);
    assert(p@.map_values(|x: &str| x@) =~= seq![a@]);
    path_words(m, &p)
}

/// Whether the command path of `m` is `a b`.
fn path_is2(m: &Matches, a: &str, b: &str) -> (r: bool)
    ensures
        r == (m.sv().path == seq![a@, b@]),
{
    let mut p: Vec<&str> = Vec::new();
    p.push(a);
    p.push(b);
    assert(p@.map_values(|x: &str| x@) =~= seq![a@, b@]);
    path_words(m, &p)
}

/// Whether the command path of `m` is `a b c`.
fn path_is3(m: &Matches, a: &str, b: &str, c: &str) -> (r: bool)
    ensures
        r == (m.sv().path == seq![a@, b@, c@]),
{
    let mut p: Vec<&str> = Vec::new();
    p.push(a);
    p.push(b);
    p.push(c);
    assert(p@.map_values(|x: &str| x@) =~= seq![a@, b@, c@]);
    path_words(m, &p)
}

/// The command that `m` reached, with its values; a fault when the path is
/// not a command of `gd` or the values break a rule between options.
fn build_command(m: &Matches) -> (r: Result<Command, ParseFault>)
    ensures
        match (r, command_fault(m.sv())) {
            (Ok(c), None) => command_read(m.sv(), c),
            (Err(e), Some(f)) => e.fv() == f,
            _ => false,
        },
{
    if path_is2(m, "release", "migrate-github") && flag_of(m, "tag") && flag_of(m, "all") {
        return Err(ParseFault::Conflict { arg: copy("--tag <TAG>"), other: copy("--all") });
    }
    if path_is2(m, "pipeline", "setup") && !flag_of(m, "repo") && !flag_of(m, "repo-url") {
        let mut args: Vec<String> = Vec::new();
        let a = copy("--repo <REPOSITORY>");
        let b = copy("--repo-url <REPO_URL>");
        let ghost (av, bv) = (a@, b@);
        args.push(a);
        args.push(b);
        assert(args.deep_view() =~= seq![av, bv]);
        return Err(ParseFault::MissingRequired { args });
    }
    if path_is2(m, "auth", "login") {
        return Ok(Command::Auth(AuthCommand::Login(auth_login_args(m))));
    }
    if path_is2(m, "auth", "logout") {
        return Ok(Command::Auth(AuthCommand::Logout(auth_host_args(m))));
    }
    if path_is2(m, "auth", "status") {
        return Ok(Command::Auth(AuthCommand::Status(auth_status_args(m))));
    }
    if path_is2(m, "auth", "token") {
        return Ok(Command::Auth(AuthCommand::Token(auth_host_args(m))));
    }
    if path_is1(m, "api") {
        return Ok(Command::Api(api_args(m)));
    }
    if path_is2(m, "repo", "view") {
        return Ok(Command::Repo(RepoCommand::View(repo_view_args(m))));
    }
    if path_is2(m, "repo", "list") {
        return Ok(Command::Repo(RepoCommand::List(repo_list_args(m))));
    }
    if path_is2(m, "repo", "clone") {
        return Ok(Command::Repo(RepoCommand::Clone(repo_clone_args(m))));
    }
    if path_is2(m, "repo", "fork") {
        return Ok(Command::Repo(RepoCommand::Fork(repo_ref_args(m))));
    }
    if path_is2(m, "repo", "create") {
        return Ok(Command::Repo(RepoCommand::Create(repo_create_args(m))));
    }
    if path_is2(m, "repo", "move") {
        return Ok(Command::Repo(RepoCommand::Move(repo_move_args(m))));
    }
    if path_is2(m, "repo", "sync-github") {
        return Ok(Command::Repo(RepoCommand::SyncGithub(repo_sync_github_args(m))));
    }
    if path_is2(m, "pr", "list") {
        return Ok(Command::Pr(PrCommand::List(pr_list_args(m))));
    }
    if path_is2(m, "pr", "view") {
        return Ok(Command::Pr(PrCommand::View(pr_view_args(m))));
    }
    if path_is2(m, "pr", "create") {
        return Ok(Command::Pr(PrCommand::Create(pr_create_args(m))));
    }
    if path_is2(m, "pr", "comments") {
        return Ok(Command::Pr(PrCommand::Comments(pr_comments_args(m))));
    }
    if path_is2(m, "pr", "comment") {
        return Ok(Command::Pr(PrCommand::Comment(pr_comment_args(m))));
    }
    if path_is2(m, "pr", "reply") {
        return Ok(Command::Pr(PrCommand::Reply(pr_reply_args(m))));
    }
    if path_is2(m, "issue", "list") {
        return Ok(Command::Issue(IssueCommand::List(issue_list_args(m))));
    }
    if path_is2(m, "issue", "view") {
        return Ok(Command::Issue(IssueCommand::View(issue_view_args(m))));
    }
    if path_is2(m, "issue", "create") {
        return Ok(Command::Issue(IssueCommand::Create(issue_create_args(m))));
    }
    if path_is2(m, "issue", "comment") {
        return Ok(Command::Issue(IssueCommand::Comment(issue_comment_args(m))));
    }
    if path_is2(m, "search", "repos") {
        return Ok(Command::Search(SearchCommand::Repos(search_args(m))));
    }
    if path_is2(m, "search", "issues") {
        return Ok(Command::Search(SearchCommand::Issues(search_args(m))));
    }
    if path_is2(m, "search", "users") {
        return Ok(Command::Search(SearchCommand::Users(search_args(m))));
    }
    if path_is2(m, "ssh-key", "list") {
        return Ok(Command::SshKey(SshKeyCommand::List));
    }
    if path_is2(m, "ssh-key", "add") {
        return Ok(Command::SshKey(SshKeyCommand::Add(ssh_key_add_args(m))));
    }
    if path_is2(m, "ssh-key", "delete") {
        return Ok(Command::SshKey(SshKeyCommand::Delete(ssh_key_delete_args(m))));
    }
    if path_is2(m, "label", "list") {
        return Ok(Command::Label(LabelCommand::List(label_list_args(m))));
    }
    if path_is2(m, "label", "create") {
        return Ok(Command::Label(LabelCommand::Create(label_create_args(m))));
    }
    if path_is2(m, "label", "edit") {
        return Ok(Command::Label(LabelCommand::Edit(label_edit_args(m))));
    }
    if path_is2(m, "label", "delete") {
        return Ok(Command::Label(LabelCommand::Delete(label_delete_args(m))));
    }
    if path_is2(m, "release", "list") {
        return Ok(Command::Release(ReleaseCommand::List(release_list_args(m))));
    }
    if path_is2(m, "release", "view") {
        return Ok(Command::Release(ReleaseCommand::View(release_view_args(m))));
    }
    if path_is2(m, "release", "create") {
        return Ok(Command::Release(ReleaseCommand::Create(release_create_args(m))));
    }
    if path_is2(m, "release", "migrate-github") {
        return Ok(Command::Release(ReleaseCommand::MigrateGithub(release_migrate_github_args(m))));
    }
    if path_is2(m, "pipeline", "set") {
        return Ok(Command::Pipeline(PipelineCommand::SetWorkflow(pipeline_set_args(m))));
    }
    if path_is2(m, "pipeline", "codecheck") {
        return Ok(Command::Pipeline(PipelineCommand::Codecheck(pipeline_codecheck_args(m))));
    }
    if path_is2(m, "pipeline", "list") {
        return Ok(Command::Pipeline(PipelineCommand::List(pipeline_list_args(m))));
    }
    if path_is2(m, "pipeline", "run") {
        return Ok(Command::Pipeline(PipelineCommand::Run(pipeline_run_args(m))));
    }
    if path_is2(m, "pipeline", "runs") {
        return Ok(Command::Pipeline(PipelineCommand::Runs(pipeline_runs_args(m))));
    }
    if path_is2(m, "pipeline", "view") {
        return Ok(Command::Pipeline(PipelineCommand::View(pipeline_view_args(m))));
    }
    if path_is2(m, "pipeline", "log") {
        return Ok(Command::Pipeline(PipelineCommand::Log(pipeline_log_args(m))));
    }
    if path_is2(m, "pipeline", "stop") {
        return Ok(Command::Pipeline(PipelineCommand::Stop(pipeline_stop_args(m))));
    }
    if path_is2(m, "pipeline", "retry") {
        return Ok(Command::Pipeline(PipelineCommand::Retry(pipeline_retry_args(m))));
    }
    if path_is2(m, "pipeline", "rerun") {
        return Ok(Command::Pipeline(PipelineCommand::Rerun(pipeline_rerun_args(m))));
    }
    if path_is3(m, "pipeline", "auth", "login") {
        return Ok(Command::Pipeline(PipelineCommand::Auth(PipelineAuthCommand::Login(pipeline_auth_login_args(m)))));
    }
    if path_is3(m, "pipeline", "auth", "status") {
        return Ok(Command::Pipeline(PipelineCommand::Auth(PipelineAuthCommand::Status)));
    }
    if path_is3(m, "pipeline", "auth", "logout") {
        return Ok(Command::Pipeline(PipelineCommand::Auth(PipelineAuthCommand::Logout)));
    }
    if path_is2(m, "pipeline", "config") {
        return Ok(Command::Pipeline(PipelineCommand::Config(pipeline_config_args(m))));
    }
    if path_is2(m, "pipeline", "setup") {
        return Ok(Command::Pipeline(PipelineCommand::Setup(Box::new(pipeline_setup_args(m)))));
    }
    if path_is2(m, "pipeline", "prs") {
        return Ok(Command::Pipeline(PipelineCommand::Prs(pipeline_prs_args(m))));
    }
    if path_is2(m, "pipeline", "checks") {
        return Ok(Command::Pipeline(PipelineCommand::Checks(pipeline_pr_args(m))));
    }
    if path_is2(m, "pipeline", "gate-view") {
        return Ok(Command::Pipeline(PipelineCommand::GateView(pipeline_pr_args(m))));
    }
    if path_is2(m, "pipeline", "gate-runs") {
        return Ok(Command::Pipeline(PipelineCommand::GateRuns(pipeline_gate_runs_args(m))));
    }
    if path_is2(m, "version", "check") {
        return Ok(Command::Version(VersionCommand::Check(version_check_args(m))));
    }
    if path_is1(m, "completion") {
        return Ok(Command::Completion(completion_args(m)));
    }
    Err(ParseFault::MissingSubcommand)
}

/// Command `k` of the grammar of `gd`, as values; out of range, an empty command.
pub open spec fn gd_node(k: int) -> NodeV {
    if k == 0 {
        gd_node_0()
    } else if k == 1 {
        gd_node_1()
    } else if k == 2 {
        gd_node_2()
    } else if k == 3 {
        gd_node_3()
    } else if k == 4 {
        gd_node_4()
    } else if k == 5 {
        gd_node_5()
    } else if k == 6 {
        gd_node_6()
    } else if k == 7 {
        gd_node_7()
    } else if k == 8 {
        gd_node_8()
    } else if k == 9 {
        gd_node_9()
    } else if k == 10 {
        gd_node_10()
    } else if k == 11 {
        gd_node_11()
    } else if k == 12 {
        gd_node_12()
    } else if k == 13 {
        gd_node_13()
    } else if k == 14 {
        gd_node_14()
    } else if k == 15 {
        gd_node_15()
    } else if k == 16 {
        gd_node_16()
    } else if k == 17 {
        gd_node_17()
    } else if k == 18 {
        gd_node_18()
    } else if k == 19 {
        gd_node_19()
    } else if k == 20 {
        gd_node_20()
    } else if k == 21 {
        gd_node_21()
    } else if k == 22 {
        gd_node_22()
    } else if k == 23 {
        gd_node_23()
    } else if k == 24 {
        gd_node_24()
    } else if k == 25 {
        gd_node_25()
    } else if k == 26 {
        gd_node_26()
    } else if k == 27 {
        gd_node_27()
    } else if k == 28 {
        gd_node_28()
    } else if k == 29 {
        gd_node_29()
    } else if k == 30 {
        gd_node_30()
    } else if k == 31 {
        gd_node_31()
    } else if k == 32 {
        gd_node_32()
    } else if k == 33 {
        gd_node_33()
    } else if k == 34 {
        gd_node_34()
    } else if k == 35 {
        gd_node_35()
    } else if k == 36 {
        gd_node_36()
    } else if k == 37 {
        gd_node_37()
    } else if k == 38 {
        gd_node_38()
    } else if k == 39 {
        gd_node_39()
    } else if k == 40 {
        gd_node_40()
    } else if k == 41 {
        gd_node_41()
    } else if k == 42 {
        gd_node_42()
    } else if k == 43 {
        gd_node_43()
    } else if k == 44 {
        gd_node_44()
    } else if k == 45 {
        gd_node_45()
    } else if k == 46 {
        gd_node_46()
    } else if k == 47 {
        gd_node_47()
    } else if k == 48 {
        gd_node_48()
    } else if k == 49 {
        gd_node_49()
    } else if k == 50 {
        gd_node_50()
    } else if k == 51 {
        gd_node_51()
    } else if k == 52 {
        gd_node_52()
    } else if k == 53 {
        gd_node_53()
    } else if k == 54 {
        gd_node_54()
    } else if k == 55 {
        gd_node_55()
    } else if k == 56 {
        gd_node_56()
    } else if k == 57 {
        gd_node_57()
    } else if k == 58 {
        gd_node_58()
    } else if k == 59 {
        gd_node_59()
    } else if k == 60 {
        gd_node_60()
    } else if k == 61 {
        gd_node_61()
    } else if k == 62 {
        gd_node_62()
    } else if k == 63 {
        gd_node_63()
    } else if k == 64 {
        gd_node_64()
    } else if k == 65 {
        gd_node_65()
    } else if k == 66 {
        gd_node_66()
    } else if k == 67 {
        gd_node_67()
    } else if k == 68 {
        gd_node_68()
    } else {
        NodeV { name: seq![], alias: None, about: seq![], children: seq![], options: seq![], positionals: seq![] }
    }
}

/// The options accepted at every level, as values.
pub open spec fn gd_globals() -> Seq<OptV> {
    seq![
        OptV { long: "hostname"@, alias: None, short: None, kind: OptKind::Single, check: CheckV::Any, value_name: "HOSTNAME"@, required: false, help: ""@ },
        OptV { long: "api-base"@, alias: None, short: None, kind: OptKind::Single, check: CheckV::ApiBase, value_name: "URL"@, required: false, help: "GitCode API base URL"@ },
        OptV { long: "openlibing-base"@, alias: None, short: None, kind: OptKind::Single, check: CheckV::GatewayBase, value_name: "OPENLIBING_BASE"@, required: false, help: "OpenLibing gateway base URL for pipeline gate checks"@ },
        OptV { long: "json"@, alias: None, short: None, kind: OptKind::Flag, check: CheckV::Any, value_name: "JSON"@, required: false, help: "Render command output as JSON"@ },
        OptV { long: "format"@, alias: None, short: None, kind: OptKind::Single, check: CheckV::Choice(seq!["text"@, "json"@]), value_name: "FORMAT"@, required: false, help: "Render command output as text or JSON"@ },
    ]
}

/// `g` is the grammar of `gd`: its commands are those of `gd_node`, in
/// order, and its global options those of `gd_globals`.
pub open spec fn is_gd_grammar(g: Grammar) -> bool {
    &&& g.nodes@.len() == 69
    &&& forall|k: int| 0 <= k < 69 ==> node_v(#[trigger] g.nodes@[k]) == gd_node(k)
    &&& g.globals@.map_values(|o: OptSpec| opt_v(o)) == gd_globals()
}

/// The command `gd`, as values.
pub open spec fn gd_node_0() -> NodeV {
    NodeV {
        name: "gd"@,
        alias: None,
        about: "Work with GitCode from the command line"@,
        children: seq![1usize, 2usize, 3usize, 4usize, 5usize, 6usize, 7usize, 8usize, 9usize, 10usize, 11usize, 12usize],
        options: seq![],
        positionals: seq![],
    }
}

/// The command `auth`, as values.
pub open spec fn gd_node_1() -> NodeV {
    NodeV {
        name: "auth"@,
        alias: None,
        about: "Authenticate gd with GitCode"@,
        children: seq![13usize, 14usize, 15usize, 16usize],
        options: seq![],
        positionals: seq![],
    }
}

/// The command `api`, as values.
pub open spec fn gd_node_2() -> NodeV {
    NodeV {
        name: "api"@,
        alias: None,
        about: "Make an authenticated GitCode API request"@,
        children: seq![],
        options: seq![
            OptV { long: "method"@, alias: None, short: Some('X'), kind: OptKind::Single, check: CheckV::Any, value_name: "METHOD"@, required: false, help: ""@ },
            OptV { long: "header"@, alias: None, short: Some('H'), kind: OptKind::Multi, check: CheckV::Any, value_name: "HEADERS"@, required: false, help: ""@ },
            OptV { long: "raw-field"@, alias: None, short: Some('f'), kind: OptKind::Multi, check: CheckV::Field, value_name: "RAW_FIELDS"@, required: false, help: ""@ },
            OptV { long: "field"@, alias: None, short: Some('F'), kind: OptKind::Multi, check: CheckV::Field, value_name: "FIELDS"@, required: false, help: ""@ },
            OptV { long: "input"@, alias: None, short: None, kind: OptKind::Single, check: CheckV::Any, value_name: "INPUT"@, required: false, help: ""@ },
            OptV { long: "include-headers"@, alias: None, short: Some('i'), kind: OptKind::Flag, check: CheckV::Any, value_name: "INCLUDE_HEADERS"@, required: false, help: ""@ },
            OptV { long: "silent"@, alias: None, short: None, kind: OptKind::Flag, check: CheckV::Any, value_name: "SILENT"@, required: false, help: ""@ },
            OptV { long: "paginate"@, alias: None, short: None, kind: OptKind::Flag, check: CheckV::Any, value_name: "PAGINATE"@, required: false, help: ""@ },
        ],
        positionals: seq![
            PosV { name: "ENDPOINT"@, required: true, check: CheckV::Any, last: false },
        ],
    }
}

/// The command `repo`, as values.
pub open spec fn gd_node_3() -> NodeV {
    NodeV {
        name: "repo"@,
        alias: None,
        about: "Manage GitCode repositories"@,
        children: seq![17usize, 18usize, 19usize, 20usize, 21usize, 22usize, 23usize],
        options: seq![],
        positionals: seq![],
    }
}

/// The command `pr`, as values.
pub open spec fn gd_node_4() -> NodeV {
    NodeV {
        name: "pr"@,
        alias: Some("mr"@),
        about: "Manage pull requests"@,
        children: seq![24usize, 25usize, 26usize, 27usize, 28usize, 29usize],
        options: seq![],
        positionals: seq![],
    }
}

/// The command `issue`, as values.
pub open spec fn gd_node_5() -> NodeV {
    NodeV {
        name: "issue"@,
        alias: None,
        about: "Manage issues"@,
        children: seq![30usize, 31usize, 32usize, 33usize],
        options: seq![],
        positionals: seq![],
    }
}

/// The command `search`, as values.
pub open spec fn gd_node_6() -> NodeV {
    NodeV {
        name: "search"@,
        alias: None,
        about: "Search GitCode"@,
        children: seq![34usize, 35usize, 36usize],
        options: seq![],
        positionals: seq![],
    }
}

/// The command `ssh-key`, as values.
pub open spec fn gd_node_7() -> NodeV {
    NodeV {
        name: "ssh-key"@,
        alias: None,
        about: "Manage SSH keys"@,
        children: seq![37usize, 38usize, 39usize],
        options: seq![],
        positionals: seq![],
    }
}

/// The command `label`, as values.
pub open spec fn gd_node_8() -> NodeV {
    NodeV {
        name: "label"@,
        alias: None,
        about: "Manage repository labels"@,
        children: seq![40usize, 41usize, 42usize, 43usize],
        options: seq![],
        positionals: seq![],
    }
}

/// The command `release`, as values.
pub open spec fn gd_node_9() -> NodeV {
    NodeV {
        name: "release"@,
        alias: None,
        about: "Manage repository releases"@,
        children: seq![44usize, 45usize, 46usize, 47usize],
        options: seq![],
        positionals: seq![],
    }
}

/// The command `pipeline`, as values.
pub open spec fn gd_node_10() -> NodeV {
    NodeV {
        name: "pipeline"@,
        alias: Some("actions"@),
        about: "Manage GitCode pipelines"@,
        children: seq![48usize, 49usize, 50usize, 51usize, 52usize, 53usize, 54usize, 55usize, 56usize, 57usize, 58usize, 59usize, 60usize, 61usize, 62usize, 63usize, 64usize],
        options: seq![],
        positionals: seq![],
    }
}

/// The command `version`, as values.
pub open spec fn gd_node_11() -> NodeV {
    NodeV {
        name: "version"@,
        alias: None,
        about: "Inspect gd version and updates"@,
        children: seq![68usize],
        options: seq![],
        positionals: seq![],
    }
}

/// The command `completion`, as values.
pub open spec fn gd_node_12() -> NodeV {
    NodeV {
        name: "completion"@,
        alias: None,
        about: "Generate shell completion scripts"@,
        children: seq![],
        options: seq![],
        positionals: seq![
            PosV { name: "SHELL"@, required: true, check: CheckV::Choice(seq!["bash"@, "zsh"@, "fish"@, "powershell"@]), last: false },
        ],
    }
}

/// The command `login`, as values.
pub open spec fn gd_node_13() -> NodeV {
    NodeV {
        name: "login"@,
        alias: None,
        about: "Log in to GitCode"@,
        children: seq![],
        options: seq![
            OptV { long: "with-token"@, alias: None, short: None, kind: OptKind::Flag, check: CheckV::Any, value_name: "WITH_TOKEN"@, required: false, help: "Read a GitCode personal access token from stdin"@ },
        ],
        positionals: seq![],
    }
}

/// The command `logout`, as values.
pub open spec fn gd_node_14() -> NodeV {
    NodeV {
        name: "logout"@,
        alias: None,
        about: "Log out of GitCode"@,
        children: seq![],
        options: seq![
            OptV { long: "hostname"@, alias: None, short: None, kind: OptKind::Single, check: CheckV::Any, value_name: "HOSTNAME"@, required: false, help: ""@ },
        ],
        positionals: seq![],
    }
}

/// The command `status`, as values.
pub open spec fn gd_node_15() -> NodeV {
    NodeV {
        name: "status"@,
        alias: None,
        about: "View authentication status"@,
        children: seq![],
        options: seq![
            OptV { long: "hostname"@, alias: None, short: None, kind: OptKind::Single, check: CheckV::Any, value_name: "HOSTNAME"@, required: false, help: ""@ },
            OptV { long: "show-token"@, alias: None, short: Some('t'), kind: OptKind::Flag, check: CheckV::Any, value_name: "SHOW_TOKEN"@, required: false, help: ""@ },
        ],
        positionals: seq![],
    }
}

/// The command `token`, as values.
pub open spec fn gd_node_16() -> NodeV {
    NodeV {
        name: "token"@,
        alias: None,
        about: "Print the stored authentication token"@,
        children: seq![],
        options: seq![
            OptV { long: "hostname"@, alias: None, short: None, kind: OptKind::Single, check: CheckV::Any, value_name: "HOSTNAME"@, required: false, help: ""@ },
        ],
        positionals: seq![],
    }
}

/// The command `view`, as values.
pub open spec fn gd_node_17() -> NodeV {
    NodeV {
        name: "view"@,
        alias: None,
        about: "View a repository"@,
        children: seq![],
        options: seq![],
        positionals: seq![
            PosV { name: "REPOSITORY"@, required: false, check: CheckV::Repo, last: false },
        ],
    }
}

/// The command `list`, as values.
pub open spec fn gd_node_18() -> NodeV {
    NodeV {
        name: "list"@,
        alias: None,
        about: "List repositories"@,
        children: seq![],
        options: seq![
            OptV { long: "limit"@, alias: None, short: Some('L'), kind: OptKind::Single, check: CheckV::Unsigned(4294967295), value_name: "LIMIT"@, required: false, help: ""@ },
        ],
        positionals: seq![
            PosV { name: "OWNER"@, required: false, check: CheckV::Any, last: false },
        ],
    }
}

/// The command `clone`, as values.
pub open spec fn gd_node_19() -> NodeV {
    NodeV {
        name: "clone"@,
        alias: None,
        about: "Clone a repository"@,
        children: seq![],
        options: seq![],
        positionals: seq![
            PosV { name: "REPOSITORY"@, required: true, check: CheckV::Repo, last: false },
            PosV { name: "DIRECTORY"@, required: false, check: CheckV::Any, last: false },
            PosV { name: "GIT_FLAGS"@, required: false, check: CheckV::Any, last: true },
        ],
    }
}

/// The command `fork`, as values.
pub open spec fn gd_node_20() -> NodeV {
    NodeV {
        name: "fork"@,
        alias: None,
        about: "Fork a repository"@,
        children: seq![],
        options: seq![],
        positionals: seq![
            PosV { name: "REPOSITORY"@, required: true, check: CheckV::Repo, last: false },
        ],
    }
}

/// The command `create`, as values.
pub open spec fn gd_node_21() -> NodeV {
    NodeV {
        name: "create"@,
        alias: None,
        about: "Create a repository"@,
        children: seq![],
        options: seq![
            OptV { long: "private"@, alias: None, short: None, kind: OptKind::Flag, check: CheckV::Any, value_name: "PRIVATE"@, required: false, help: ""@ },
            OptV { long: "description"@, alias: None, short: None, kind: OptKind::Single, check: CheckV::Any, value_name: "DESCRIPTION"@, required: false, help: ""@ },
        ],
        positionals: seq![
            PosV { name: "NAME"@, required: true, check: CheckV::Any, last: false },
        ],
    }
}

/// The command `move`, as values.
pub open spec fn gd_node_22() -> NodeV {
    NodeV {
        name: "move"@,
        alias: None,
        about: "Move or rename a repository"@,
        children: seq![],
        options: seq![
            OptV { long: "name"@, alias: None, short: None, kind: OptKind::Single, check: CheckV::Any, value_name: "NAME"@, required: false, help: ""@ },
        ],
        positionals: seq![
            PosV { name: "SOURCE"@, required: true, check: CheckV::Repo, last: false },
            PosV { name: "TARGET"@, required: true, check: CheckV::Any, last: false },
        ],
    }
}

/// The command `sync-github`, as values.
pub open spec fn gd_node_23() -> NodeV {
    NodeV {
        name: "sync-github"@,
        alias: None,
        about: "Sync a GitHub repository into GitCode"@,
        children: seq![],
        options: seq![
            OptV { long: "repo"@, alias: None, short: Some('R'), kind: OptKind::Single, check: CheckV::Repo, value_name: "REPOSITORY"@, required: false, help: ""@ },
            OptV { long: "org"@, alias: None, short: None, kind: OptKind::Single, check: CheckV::Any, value_name: "ORG"@, required: false, help: ""@ },
            OptV { long: "name"@, alias: None, short: None, kind: OptKind::Single, check: CheckV::Any, value_name: "NAME"@, required: false, help: ""@ },
            OptV { long: "private"@, alias: None, short: None, kind: OptKind::Flag, check: CheckV::Any, value_name: "PRIVATE"@, required: false, help: ""@ },
            OptV { long: "description"@, alias: None, short: None, kind: OptKind::Single, check: CheckV::Any, value_name: "DESCRIPTION"@, required: false, help: ""@ },
            OptV { long: "if-exists"@, alias: None, short: None, kind: OptKind::Single, check: CheckV::Choice(seq!["fail"@, "skip"@, "update"@, "recreate"@]), value_name: "IF_EXISTS"@, required: false, help: ""@ },
            OptV { long: "method"@, alias: None, short: None, kind: OptKind::Single, check: CheckV::Choice(seq!["import"@, "git-push"@]), value_name: "METHOD"@, required: false, help: ""@ },
        ],
        positionals: seq![
            PosV { name: "GITHUB_REPO"@, required: true, check: CheckV::GithubRepo, last: false },
        ],
    }
}

/// The command `list`, as values.
pub open spec fn gd_node_24() -> NodeV {
    NodeV {
        name: "list"@,
        alias: None,
        about: "List pull requests"@,
        children: seq![],
        options: seq![
            OptV { long: "repo"@, alias: None, short: Some('R'), kind: OptKind::Single, check: CheckV::Repo, value_name: "REPOSITORY"@, required: false, help: ""@ },
            OptV { long: "state"@, alias: None, short: Some('s'), kind: OptKind::Single, check: CheckV::Any, value_name: "STATE"@, required: false, help: ""@ },
            OptV { long: "base"@, alias: None, short: Some('B'), kind: OptKind::Single, check: CheckV::Any, value_name: "BASE"@, required: false, help: ""@ },
            OptV { long: "limit"@, alias: None, short: Some('L'), kind: OptKind::Single, check: CheckV::Unsigned(4294967295), value_name: "LIMIT"@, required: false, help: ""@ },
        ],
        positionals: seq![],
    }
}

/// The command `view`, as values.
pub open spec fn gd_node_25() -> NodeV {
    NodeV {
        name: "view"@,
        alias: None,
        about: "View a pull request"@,
        children: seq![],
        options: seq![
            OptV { long: "repo"@, alias: None, short: Some('R'), kind: OptKind::Single, check: CheckV::Repo, value_name: "REPOSITORY"@, required: false, help: ""@ },
        ],
        positionals: seq![
            PosV { name: "NUMBER"@, required: true, check: CheckV::Unsigned(18446744073709551615), last: false },
        ],
    }
}

/// The command `create`, as values.
pub open spec fn gd_node_26() -> NodeV {
    NodeV {
        name: "create"@,
        alias: None,
        about: "Create a pull request"@,
        children: seq![],
        options: seq![
            OptV { long: "repo"@, alias: None, short: Some('R'), kind: OptKind::Single, check: CheckV::Repo, value_name: "REPOSITORY"@, required: false, help: ""@ },
            OptV { long: "title"@, alias: None, short: Some('t'), kind: OptKind::Single, check: CheckV::Any, value_name: "TITLE"@, required: true, help: ""@ },
            OptV { long: "body"@, alias: None, short: Some('b'), kind: OptKind::Single, check: CheckV::Any, value_name: "BODY"@, required: false, help: ""@ },
            OptV { long: "base"@, alias: None, short: Some('B'), kind: OptKind::Single, check: CheckV::Any, value_name: "BASE"@, required: true, help: ""@ },
            OptV { long: "head"@, alias: None, short: Some('H'), kind: OptKind::Single, check: CheckV::Any, value_name: "HEAD"@, required: true, help: ""@ },
            OptV { long: "label"@, alias: None, short: Some('l'), kind: OptKind::Multi, check: CheckV::Any, value_name: "LABEL"@, required: false, help: ""@ },
            OptV { long: "assignee"@, alias: None, short: Some('a'), kind: OptKind::Multi, check: CheckV::Any, value_name: "ASSIGNEE"@, required: false, help: ""@ },
        ],
        positionals: seq![],
    }
}

/// The command `comments`, as values.
pub open spec fn gd_node_27() -> NodeV {
    NodeV {
        name: "comments"@,
        alias: None,
        about: "List pull request review comments"@,
        children: seq![],
        options: seq![
            OptV { long: "repo"@, alias: None, short: Some('R'), kind: OptKind::Single, check: CheckV::Repo, value_name: "REPOSITORY"@, required: false, help: ""@ },
            OptV { long: "page"@, alias: None, short: None, kind: OptKind::Single, check: CheckV::Unsigned(18446744073709551615), value_name: "PAGE"@, required: false, help: ""@ },
            OptV { long: "limit"@, alias: None, short: Some('L'), kind: OptKind::Single, check: CheckV::Unsigned(18446744073709551615), value_name: "LIMIT"@, required: false, help: ""@ },
        ],
        positionals: seq![
            PosV { name: "NUMBER"@, required: true, check: CheckV::Unsigned(18446744073709551615), last: false },
        ],
    }
}

/// The command `comment`, as values.
pub open spec fn gd_node_28() -> NodeV {
    NodeV {
        name: "comment"@,
        alias: None,
        about: "Add a pull request review comment"@,
        children: seq![],
        options: seq![
            OptV { long: "repo"@, alias: None, short: Some('R'), kind: OptKind::Single, check: CheckV::Repo, value_name: "REPOSITORY"@, required: false, help: ""@ },
            OptV { long: "body"@, alias: None, short: Some('b'), kind: OptKind::Single, check: CheckV::Any, value_name: "BODY"@, required: true, help: ""@ },
            OptV { long: "path"@, alias: None, short: None, kind: OptKind::Single, check: CheckV::Any, value_name: "PATH"@, required: false, help: ""@ },
            OptV { long: "position"@, alias: None, short: None, kind: OptKind::Single, check: CheckV::Unsigned(18446744073709551615), value_name: "POSITION"@, required: false, help: ""@ },
            OptV { long: "need-to-resolve"@, alias: None, short: None, kind: OptKind::Flag, check: CheckV::Any, value_name: "NEED_TO_RESOLVE"@, required: false, help: ""@ },
        ],
        positionals: seq![
            PosV { name: "NUMBER"@, required: true, check: CheckV::Unsigned(18446744073709551615), last: false },
        ],
    }
}

/// The command `reply`, as values.
pub open spec fn gd_node_29() -> NodeV {
    NodeV {
        name: "reply"@,
        alias: None,
        about: "Reply to a pull request review discussion"@,
        children: seq![],
        options: seq![
            OptV { long: "repo"@, alias: None, short: Some('R'), kind: OptKind::Single, check: CheckV::Repo, value_name: "REPOSITORY"@, required: false, help: ""@ },
            OptV { long: "body"@, alias: None, short: Some('b'), kind: OptKind::Single, check: CheckV::Any, value_name: "BODY"@, required: true, help: ""@ },
        ],
        positionals: seq![
            PosV { name: "NUMBER"@, required: true, check: CheckV::Unsigned(18446744073709551615), last: false },
            PosV { name: "DISCUSSION_ID"@, required: true, check: CheckV::Any, last: false },
        ],
    }
}

/// The command `list`, as values.
pub open spec fn gd_node_30() -> NodeV {
    NodeV {
        name: "list"@,
        alias: None,
        about: "List issues"@,
        children: seq![],
        options: seq![
            OptV { long: "repo"@, alias: None, short: Some('R'), kind: OptKind::Single, check: CheckV::Repo, value_name: "REPOSITORY"@, required: false, help: ""@ },
            OptV { long: "state"@, alias: None, short: Some('s'), kind: OptKind::Single, check: CheckV::Any, value_name: "STATE"@, required: false, help: ""@ },
            OptV { long: "limit"@, alias: None, short: Some('L'), kind: OptKind::Single, check: CheckV::Unsigned(4294967295), value_name: "LIMIT"@, required: false, help: ""@ },
        ],
        positionals: seq![],
    }
}

/// The command `view`, as values.
pub open spec fn gd_node_31() -> NodeV {
    NodeV {
        name: "view"@,
        alias: None,
        about: "View an issue"@,
        children: seq![],
        options: seq![
            OptV { long: "repo"@, alias: None, short: Some('R'), kind: OptKind::Single, check: CheckV::Repo, value_name: "REPOSITORY"@, required: false, help: ""@ },
        ],
        positionals: seq![
            PosV { name: "NUMBER"@, required: true, check: CheckV::Unsigned(18446744073709551615), last: false },
        ],
    }
}

/// The command `create`, as values.
pub open spec fn gd_node_32() -> NodeV {
    NodeV {
        name: "create"@,
        alias: None,
        about: "Create an issue"@,
        children: seq![],
        options: seq![
            OptV { long: "repo"@, alias: None, short: Some('R'), kind: OptKind::Single, check: CheckV::Repo, value_name: "REPOSITORY"@, required: false, help: ""@ },
            OptV { long: "title"@, alias: None, short: Some('t'), kind: OptKind::Single, check: CheckV::Any, value_name: "TITLE"@, required: true, help: ""@ },
            OptV { long: "body"@, alias: None, short: Some('b'), kind: OptKind::Single, check: CheckV::Any, value_name: "BODY"@, required: false, help: ""@ },
            OptV { long: "label"@, alias: None, short: Some('l'), kind: OptKind::Multi, check: CheckV::Any, value_name: "LABEL"@, required: false, help: ""@ },
            OptV { long: "assignee"@, alias: None, short: Some('a'), kind: OptKind::Single, check: CheckV::Any, value_name: "ASSIGNEE"@, required: false, help: ""@ },
        ],
        positionals: seq![],
    }
}

/// The command `comment`, as values.
pub open spec fn gd_node_33() -> NodeV {
    NodeV {
        name: "comment"@,
        alias: None,
        about: "Add a comment to an issue"@,
        children: seq![],
        options: seq![
            OptV { long: "repo"@, alias: None, short: Some('R'), kind: OptKind::Single, check: CheckV::Repo, value_name: "REPOSITORY"@, required: false, help: ""@ },
            OptV { long: "body"@, alias: None, short: Some('b'), kind: OptKind::Single, check: CheckV::Any, value_name: "BODY"@, required: true, help: ""@ },
        ],
        positionals: seq![
            PosV { name: "NUMBER"@, required: true, check: CheckV::Unsigned(18446744073709551615), last: false },
        ],
    }
}

/// The command `repos`, as values.
pub open spec fn gd_node_34() -> NodeV {
    NodeV {
        name: "repos"@,
        alias: None,
        about: "Search repositories"@,
        children: seq![],
        options: seq![
            OptV { long: "limit"@, alias: None, short: Some('L'), kind: OptKind::Single, check: CheckV::Unsigned(4294967295), value_name: "LIMIT"@, required: false, help: ""@ },
        ],
        positionals: seq![
            PosV { name: "QUERY"@, required: true, check: CheckV::Any, last: false },
        ],
    }
}

/// The command `issues`, as values.
pub open spec fn gd_node_35() -> NodeV {
    NodeV {
        name: "issues"@,
        alias: None,
        about: "Search issues"@,
        children: seq![],
        options: seq![
            OptV { long: "limit"@, alias: None, short: Some('L'), kind: OptKind::Single, check: CheckV::Unsigned(4294967295), value_name: "LIMIT"@, required: false, help: ""@ },
        ],
        positionals: seq![
            PosV { name: "QUERY"@, required: true, check: CheckV::Any, last: false },
        ],
    }
}

/// The command `users`, as values.
pub open spec fn gd_node_36() -> NodeV {
    NodeV {
        name: "users"@,
        alias: None,
        about: "Search users"@,
        children: seq![],
        options: seq![
            OptV { long: "limit"@, alias: None, short: Some('L'), kind: OptKind::Single, check: CheckV::Unsigned(4294967295), value_name: "LIMIT"@, required: false, help: ""@ },
        ],
        positionals: seq![
            PosV { name: "QUERY"@, required: true, check: CheckV::Any, last: false },
        ],
    }
}

/// The command `list`, as values.
pub open spec fn gd_node_37() -> NodeV {
    NodeV {
        name: "list"@,
        alias: None,
        about: "List SSH keys"@,
        children: seq![],
        options: seq![],
        positionals: seq![],
    }
}

/// The command `add`, as values.
pub open spec fn gd_node_38() -> NodeV {
    NodeV {
        name: "add"@,
        alias: None,
        about: "Add an SSH key"@,
        children: seq![],
        options: seq![
            OptV { long: "title"@, alias: None, short: Some('t'), kind: OptKind::Single, check: CheckV::Any, value_name: "TITLE"@, required: false, help: ""@ },
        ],
        positionals: seq![
            PosV { name: "KEY_FILE"@, required: true, check: CheckV::Any, last: false },
        ],
    }
}

/// The command `delete`, as values.
pub open spec fn gd_node_39() -> NodeV {
    NodeV {
        name: "delete"@,
        alias: None,
        about: "Delete an SSH key"@,
        children: seq![],
        options: seq![],
        positionals: seq![
            PosV { name: "ID"@, required: true, check: CheckV::Any, last: false },
        ],
    }
}

/// The command `list`, as values.
pub open spec fn gd_node_40() -> NodeV {
    NodeV {
        name: "list"@,
        alias: None,
        about: "List repository labels"@,
        children: seq![],
        options: seq![
            OptV { long: "repo"@, alias: None, short: Some('R'), kind: OptKind::Single, check: CheckV::Repo, value_name: "REPOSITORY"@, required: false, help: ""@ },
            OptV { long: "limit"@, alias: None, short: Some('L'), kind: OptKind::Single, check: CheckV::Unsigned(4294967295), value_name: "LIMIT"@, required: false, help: ""@ },
        ],
        positionals: seq![],
    }
}

/// The command `create`, as values.
pub open spec fn gd_node_41() -> NodeV {
    NodeV {
        name: "create"@,
        alias: None,
        about: "Create a repository label"@,
        children: seq![],
        options: seq![
            OptV { long: "repo"@, alias: None, short: Some('R'), kind: OptKind::Single, check: CheckV::Repo, value_name: "REPOSITORY"@, required: false, help: ""@ },
            OptV { long: "color"@, alias: None, short: Some('c'), kind: OptKind::Single, check: CheckV::Any, value_name: "COLOR"@, required: false, help: ""@ },
            OptV { long: "description"@, alias: None, short: Some('d'), kind: OptKind::Single, check: CheckV::Any, value_name: "DESCRIPTION"@, required: false, help: ""@ },
        ],
        positionals: seq![
            PosV { name: "NAME"@, required: true, check: CheckV::Any, last: false },
        ],
    }
}

/// The command `edit`, as values.
pub open spec fn gd_node_42() -> NodeV {
    NodeV {
        name: "edit"@,
        alias: None,
        about: "Edit a repository label"@,
        children: seq![],
        options: seq![
            OptV { long: "repo"@, alias: None, short: Some('R'), kind: OptKind::Single, check: CheckV::Repo, value_name: "REPOSITORY"@, required: false, help: ""@ },
            OptV { long: "new-name"@, alias: None, short: None, kind: OptKind::Single, check: CheckV::Any, value_name: "NEW_NAME"@, required: false, help: ""@ },
            OptV { long: "color"@, alias: None, short: Some('c'), kind: OptKind::Single, check: CheckV::Any, value_name: "COLOR"@, required: false, help: ""@ },
            OptV { long: "description"@, alias: None, short: Some('d'), kind: OptKind::Single, check: CheckV::Any, value_name: "DESCRIPTION"@, required: false, help: ""@ },
        ],
        positionals: seq![
            PosV { name: "NAME"@, required: true, check: CheckV::Any, last: false },
        ],
    }
}

/// The command `delete`, as values.
pub open spec fn gd_node_43() -> NodeV {
    NodeV {
        name: "delete"@,
        alias: None,
        about: "Delete a repository label"@,
        children: seq![],
        options: seq![
            OptV { long: "repo"@, alias: None, short: Some('R'), kind: OptKind::Single, check: CheckV::Repo, value_name: "REPOSITORY"@, required: false, help: ""@ },
        ],
        positionals: seq![
            PosV { name: "NAME"@, required: true, check: CheckV::Any, last: false },
        ],
    }
}

/// The command `list`, as values.
pub open spec fn gd_node_44() -> NodeV {
    NodeV {
        name: "list"@,
        alias: None,
        about: "List repository releases"@,
        children: seq![],
        options: seq![
            OptV { long: "repo"@, alias: None, short: Some('R'), kind: OptKind::Single, check: CheckV::Repo, value_name: "REPOSITORY"@, required: false, help: ""@ },
            OptV { long: "limit"@, alias: None, short: Some('L'), kind: OptKind::Single, check: CheckV::Unsigned(4294967295), value_name: "LIMIT"@, required: false, help: ""@ },
        ],
        positionals: seq![],
    }
}

/// The command `view`, as values.
pub open spec fn gd_node_45() -> NodeV {
    NodeV {
        name: "view"@,
        alias: None,
        about: "View a repository release"@,
        children: seq![],
        options: seq![
            OptV { long: "repo"@, alias: None, short: Some('R'), kind: OptKind::Single, check: CheckV::Repo, value_name: "REPOSITORY"@, required: false, help: ""@ },
        ],
        positionals: seq![
            PosV { name: "TAG"@, required: true, check: CheckV::Any, last: false },
        ],
    }
}

/// The command `create`, as values.
pub open spec fn gd_node_46() -> NodeV {
    NodeV {
        name: "create"@,
        alias: None,
        about: "Create a repository release"@,
        children: seq![],
        options: seq![
            OptV { long: "repo"@, alias: None, short: Some('R'), kind: OptKind::Single, check: CheckV::Repo, value_name: "REPOSITORY"@, required: false, help: ""@ },
            OptV { long: "title"@, alias: None, short: Some('t'), kind: OptKind::Single, check: CheckV::Any, value_name: "TITLE"@, required: false, help: ""@ },
            OptV { long: "notes"@, alias: None, short: Some('n'), kind: OptKind::Single, check: CheckV::Any, value_name: "NOTES"@, required: false, help: ""@ },
            OptV { long: "target"@, alias: None, short: None, kind: OptKind::Single, check: CheckV::Any, value_name: "TARGET"@, required: false, help: ""@ },
        ],
        positionals: seq![
            PosV { name: "TAG"@, required: true, check: CheckV::Any, last: false },
        ],
    }
}

/// The command `migrate-github`, as values.
pub open spec fn gd_node_47() -> NodeV {
    NodeV {
        name: "migrate-github"@,
        alias: None,
        about: "Migrate GitHub Releases and assets into GitCode"@,
        children: seq![],
        options: seq![
            OptV { long: "repo"@, alias: None, short: Some('R'), kind: OptKind::Single, check: CheckV::Repo, value_name: "REPOSITORY"@, required: false, help: ""@ },
            OptV { long: "github-repo"@, alias: None, short: None, kind: OptKind::Single, check: CheckV::GithubRepo, value_name: "GITHUB_REPO"@, required: true, help: ""@ },
            OptV { long: "tag"@, alias: None, short: None, kind: OptKind::Single, check: CheckV::Any, value_name: "TAG"@, required: false, help: ""@ },
            OptV { long: "all"@, alias: None, short: None, kind: OptKind::Flag, check: CheckV::Any, value_name: "ALL"@, required: false, help: ""@ },
            OptV { long: "skip-existing-assets"@, alias: None, short: None, kind: OptKind::Toggle, check: CheckV::Choice(seq!["true"@, "false"@]), value_name: "SKIP_EXISTING_ASSETS"@, required: false, help: ""@ },
            OptV { long: "update-release"@, alias: None, short: None, kind: OptKind::Toggle, check: CheckV::Choice(seq!["true"@, "false"@]), value_name: "UPDATE_RELEASE"@, required: false, help: ""@ },
            OptV { long: "dry-run"@, alias: None, short: None, kind: OptKind::Flag, check: CheckV::Any, value_name: "DRY_RUN"@, required: false, help: ""@ },
        ],
        positionals: seq![],
    }
}

/// The command `set`, as values.
pub open spec fn gd_node_48() -> NodeV {
    NodeV {
        name: "set"@,
        alias: Some("register"@),
        about: "Create or update a GitCode workflow file"@,
        children: seq![],
        options: seq![
            OptV { long: "repo"@, alias: None, short: Some('R'), kind: OptKind::Single, check: CheckV::Repo, value_name: "REPOSITORY"@, required: false, help: ""@ },
            OptV { long: "mode"@, alias: None, short: None, kind: OptKind::Single, check: CheckV::Choice(seq!["create"@, "update"@]), value_name: "MODE"@, required: false, help: ""@ },
            OptV { long: "content"@, alias: None, short: None, kind: OptKind::Single, check: CheckV::Any, value_name: "CONTENT"@, required: false, help: ""@ },
            OptV { long: "file"@, alias: None, short: None, kind: OptKind::Single, check: CheckV::Any, value_name: "FILE"@, required: false, help: ""@ },
            OptV { long: "message"@, alias: None, short: Some('m'), kind: OptKind::Single, check: CheckV::Any, value_name: "MESSAGE"@, required: false, help: ""@ },
            OptV { long: "branch"@, alias: None, short: None, kind: OptKind::Single, check: CheckV::Any, value_name: "BRANCH"@, required: false, help: ""@ },
            OptV { long: "sha"@, alias: None, short: None, kind: OptKind::Single, check: CheckV::Any, value_name: "SHA"@, required: false, help: ""@ },
        ],
        positionals: seq![
            PosV { name: "PATH"@, required: true, check: CheckV::WorkflowPath, last: false },
        ],
    }
}

/// The command `codecheck`, as values.
pub open spec fn gd_node_49() -> NodeV {
    NodeV {
        name: "codecheck"@,
        alias: None,
        about: "Create or update a GitCode CodeCheck workflow file"@,
        children: seq![],
        options: seq![
            OptV { long: "repo"@, alias: None, short: Some('R'), kind: OptKind::Single, check: CheckV::Repo, value_name: "REPOSITORY"@, required: false, help: ""@ },
            OptV { long: "path"@, alias: None, short: None, kind: OptKind::Single, check: CheckV::WorkflowPath, value_name: "PATH"@, required: false, help: ""@ },
            OptV { long: "mode"@, alias: None, short: None, kind: OptKind::Single, check: CheckV::Choice(seq!["create"@, "update"@]), value_name: "MODE"@, required: false, help: ""@ },
            OptV { long: "message"@, alias: None, short: Some('m'), kind: OptKind::Single, check: CheckV::Any, value_name: "MESSAGE"@, required: false, help: ""@ },
            OptV { long: "commit-branch"@, alias: None, short: None, kind: OptKind::Single, check: CheckV::Any, value_name: "COMMIT_BRANCH"@, required: false, help: ""@ },
            OptV { long: "sha"@, alias: None, short: None, kind: OptKind::Single, check: CheckV::Any, value_name: "SHA"@, required: false, help: ""@ },
            OptV { long: "name"@, alias: None, short: None, kind: OptKind::Single, check: CheckV::Any, value_name: "NAME"@, required: false, help: ""@ },
            OptV { long: "check-branch"@, alias: None, short: None, kind: OptKind::Single, check: CheckV::Any, value_name: "CHECK_BRANCH"@, required: false, help: ""@ },
            OptV { long: "repo-url"@, alias: None, short: None, kind: OptKind::Single, check: CheckV::Any, value_name: "REPO_URL"@, required: false, help: ""@ },
            OptV { long: "language"@, alias: None, short: None, kind: OptKind::Multi, check: CheckV::Any, value_name: "LANGUAGES"@, required: false, help: ""@ },
            OptV { long: "access-token-secret"@, alias: None, short: None, kind: OptKind::Single, check: CheckV::SecretName, value_name: "ACCESS_TOKEN_SECRET"@, required: false, help: ""@ },
        ],
        positionals: seq![],
    }
}

/// The command `list`, as values.
pub open spec fn gd_node_50() -> NodeV {
    NodeV {
        name: "list"@,
        alias: None,
        about: "List GitCode workflow files"@,
        children: seq![],
        options: seq![
            OptV { long: "repo"@, alias: None, short: Some('R'), kind: OptKind::Single, check: CheckV::Repo, value_name: "REPOSITORY"@, required: false, help: ""@ },
            OptV { long: "page"@, alias: None, short: None, kind: OptKind::Single, check: CheckV::Unsigned(18446744073709551615), value_name: "PAGE"@, required: false, help: ""@ },
            OptV { long: "limit"@, alias: None, short: Some('L'), kind: OptKind::Single, check: CheckV::Unsigned(18446744073709551615), value_name: "LIMIT"@, required: false, help: ""@ },
        ],
        positionals: seq![],
    }
}

/// The command `run`, as values.
pub open spec fn gd_node_51() -> NodeV {
    NodeV {
        name: "run"@,
        alias: None,
        about: "Manually run a GitCode workflow"@,
        children: seq![],
        options: seq![
            OptV { long: "repo"@, alias: None, short: Some('R'), kind: OptKind::Single, check: CheckV::Repo, value_name: "REPOSITORY"@, required: false, help: ""@ },
            OptV { long: "file-path"@, alias: None, short: None, kind: OptKind::Single, check: CheckV::WorkflowPath, value_name: "FILE_PATH"@, required: true, help: ""@ },
            OptV { long: "branch"@, alias: None, short: None, kind: OptKind::Single, check: CheckV::Any, value_name: "BRANCH"@, required: false, help: ""@ },
            OptV { long: "branch-commit-id"@, alias: None, short: None, kind: OptKind::Single, check: CheckV::Any, value_name: "BRANCH_COMMIT_ID"@, required: false, help: ""@ },
            OptV { long: "input"@, alias: None, short: None, kind: OptKind::Multi, check: CheckV::WorkflowInput, value_name: "INPUTS"@, required: false, help: ""@ },
        ],
        positionals: seq![
            PosV { name: "WORKFLOW_ID"@, required: true, check: CheckV::Any, last: false },
        ],
    }
}

/// The command `runs`, as values.
pub open spec fn gd_node_52() -> NodeV {
    NodeV {
        name: "runs"@,
        alias: None,
        about: "List GitCode workflow run records"@,
        children: seq![],
        options: seq![
            OptV { long: "repo"@, alias: None, short: Some('R'), kind: OptKind::Single, check: CheckV::Repo, value_name: "REPOSITORY"@, required: false, help: ""@ },
            OptV { long: "workflow-id"@, alias: None, short: None, kind: OptKind::Single, check: CheckV::Any, value_name: "WORKFLOW_ID"@, required: false, help: ""@ },
            OptV { long: "workflow-name"@, alias: None, short: None, kind: OptKind::Single, check: CheckV::Any, value_name: "WORKFLOW_NAME"@, required: false, help: ""@ },
            OptV { long: "event"@, alias: None, short: None, kind: OptKind::Single, check: CheckV::Any, value_name: "EVENT"@, required: false, help: ""@ },
            OptV { long: "branch"@, alias: None, short: None, kind: OptKind::Single, check: CheckV::Any, value_name: "BRANCH"@, required: false, help: ""@ },
            OptV { long: "status"@, alias: None, short: None, kind: OptKind::Single, check: CheckV::Any, value_name: "STATUS"@, required: false, help: ""@ },
            OptV { long: "executor-id"@, alias: None, short: None, kind: OptKind::Single, check: CheckV::Any, value_name: "EXECUTOR_ID"@, required: false, help: ""@ },
            OptV { long: "mr-id"@, alias: None, short: None, kind: OptKind::Single, check: CheckV::Any, value_name: "MR_ID"@, required: false, help: ""@ },
            OptV { long: "page"@, alias: None, short: None, kind: OptKind::Single, check: CheckV::Unsigned(18446744073709551615), value_name: "PAGE"@, required: false, help: ""@ },
            OptV { long: "limit"@, alias: None, short: Some('L'), kind: OptKind::Single, check: CheckV::Unsigned(18446744073709551615), value_name: "LIMIT"@, required: false, help: ""@ },
        ],
        positionals: seq![],
    }
}

/// The command `view`, as values.
pub open spec fn gd_node_53() -> NodeV {
    NodeV {
        name: "view"@,
        alias: None,
        about: "View a GitCode workflow run"@,
        children: seq![],
        options: seq![
            OptV { long: "repo"@, alias: None, short: Some('R'), kind: OptKind::Single, check: CheckV::Repo, value_name: "REPOSITORY"@, required: false, help: ""@ },
        ],
        positionals: seq![
            PosV { name: "WORKFLOW_RUN_ID"@, required: true, check: CheckV::Any, last: false },
        ],
    }
}

/// The command `log`, as values.
pub open spec fn gd_node_54() -> NodeV {
    NodeV {
        name: "log"@,
        alias: None,
        about: "Read a GitCode workflow job log"@,
        children: seq![],
        options: seq![
            OptV { long: "repo"@, alias: None, short: Some('R'), kind: OptKind::Single, check: CheckV::Repo, value_name: "REPOSITORY"@, required: false, help: ""@ },
            OptV { long: "step-run-id"@, alias: None, short: None, kind: OptKind::Single, check: CheckV::Any, value_name: "STEP_RUN_ID"@, required: false, help: ""@ },
            OptV { long: "offset"@, alias: None, short: None, kind: OptKind::Single, check: CheckV::Unsigned(18446744073709551615), value_name: "OFFSET"@, required: false, help: ""@ },
            OptV { long: "limit"@, alias: None, short: None, kind: OptKind::Single, check: CheckV::Unsigned(18446744073709551615), value_name: "LIMIT"@, required: false, help: ""@ },
        ],
        positionals: seq![
            PosV { name: "WORKFLOW_RUN_ID"@, required: true, check: CheckV::Any, last: false },
            PosV { name: "JOB_IDENTIFIER"@, required: true, check: CheckV::Any, last: false },
        ],
    }
}

/// The command `stop`, as values.
pub open spec fn gd_node_55() -> NodeV {
    NodeV {
        name: "stop"@,
        alias: None,
        about: "Stop a GitCode workflow run"@,
        children: seq![],
        options: seq![
            OptV { long: "repo"@, alias: None, short: Some('R'), kind: OptKind::Single, check: CheckV::Repo, value_name: "REPOSITORY"@, required: false, help: ""@ },
        ],
        positionals: seq![
            PosV { name: "WORKFLOW_RUN_ID"@, required: true, check: CheckV::Any, last: false },
        ],
    }
}

/// The command `retry`, as values.
pub open spec fn gd_node_56() -> NodeV {
    NodeV {
        name: "retry"@,
        alias: None,
        about: "Retry failed GitCode workflow jobs"@,
        children: seq![],
        options: seq![
            OptV { long: "repo"@, alias: None, short: Some('R'), kind: OptKind::Single, check: CheckV::Repo, value_name: "REPOSITORY"@, required: false, help: ""@ },
            OptV { long: "job-run-id"@, alias: None, short: None, kind: OptKind::Multi, check: CheckV::Any, value_name: "JOB_RUN_IDS"@, required: false, help: ""@ },
        ],
        positionals: seq![
            PosV { name: "WORKFLOW_RUN_ID"@, required: true, check: CheckV::Any, last: false },
        ],
    }
}

/// The command `rerun`, as values.
pub open spec fn gd_node_57() -> NodeV {
    NodeV {
        name: "rerun"@,
        alias: None,
        about: "Rerun all jobs in a GitCode workflow run"@,
        children: seq![],
        options: seq![
            OptV { long: "repo"@, alias: None, short: Some('R'), kind: OptKind::Single, check: CheckV::Repo, value_name: "REPOSITORY"@, required: false, help: ""@ },
        ],
        positionals: seq![
            PosV { name: "WORKFLOW_RUN_ID"@, required: true, check: CheckV::Any, last: false },
        ],
    }
}

/// The command `auth`, as values.
pub open spec fn gd_node_58() -> NodeV {
    NodeV {
        name: "auth"@,
        alias: None,
        about: "Authenticate OpenLibing GitCode OAuth for pipeline checks"@,
        children: seq![65usize, 66usize, 67usize],
        options: seq![],
        positionals: seq![],
    }
}

/// The command `config`, as values.
pub open spec fn gd_node_59() -> NodeV {
    NodeV {
        name: "config"@,
        alias: None,
        about: "Show OpenLibing pipeline and CodeCheck configuration"@,
        children: seq![],
        options: seq![
            OptV { long: "project-id"@, alias: None, short: None, kind: OptKind::Single, check: CheckV::Any, value_name: "PROJECT_ID"@, required: true, help: ""@ },
        ],
        positionals: seq![],
    }
}

/// The command `setup`, as values.
pub open spec fn gd_node_60() -> NodeV {
    NodeV {
        name: "setup"@,
        alias: None,
        about: "Configure an OpenLibing GitCode repository for PR gate checks"@,
        children: seq![],
        options: seq![
            OptV { long: "project-id"@, alias: None, short: None, kind: OptKind::Single, check: CheckV::Any, value_name: "PROJECT_ID"@, required: true, help: ""@ },
            OptV { long: "repo"@, alias: None, short: Some('R'), kind: OptKind::Single, check: CheckV::Repo, value_name: "REPOSITORY"@, required: false, help: ""@ },
            OptV { long: "repo-url"@, alias: None, short: None, kind: OptKind::Single, check: CheckV::Any, value_name: "REPO_URL"@, required: false, help: ""@ },
            OptV { long: "repo-id"@, alias: None, short: None, kind: OptKind::Single, check: CheckV::Unsigned(18446744073709551615), value_name: "REPO_ID"@, required: false, help: ""@ },
            OptV { long: "repo-name"@, alias: None, short: None, kind: OptKind::Single, check: CheckV::Any, value_name: "REPO_NAME"@, required: false, help: ""@ },
            OptV { long: "repo-owner"@, alias: None, short: None, kind: OptKind::Single, check: CheckV::Any, value_name: "REPO_OWNER"@, required: false, help: ""@ },
            OptV { long: "language"@, alias: None, short: None, kind: OptKind::Delimited, check: CheckV::Any, value_name: "LANGUAGE"@, required: false, help: ""@ },
            OptV { long: "codecheck-rule-set"@, alias: None, short: None, kind: OptKind::Single, check: CheckV::Any, value_name: "CODECHECK_RULE_SET"@, required: false, help: ""@ },
            OptV { long: "anti-rule-set"@, alias: None, short: None, kind: OptKind::Single, check: CheckV::Any, value_name: "ANTI_RULE_SET"@, required: false, help: ""@ },
            OptV { long: "purpose"@, alias: None, short: None, kind: OptKind::Single, check: CheckV::Any, value_name: "PURPOSE"@, required: false, help: ""@ },
            OptV { long: "open-source"@, alias: None, short: None, kind: OptKind::Single, check: CheckV::Any, value_name: "OPEN_SOURCE"@, required: false, help: ""@ },
            OptV { long: "assume-pr"@, alias: None, short: None, kind: OptKind::Single, check: CheckV::Any, value_name: "ASSUME_PR"@, required: false, help: ""@ },
            OptV { long: "auto-trigger"@, alias: None, short: None, kind: OptKind::Single, check: CheckV::Any, value_name: "AUTO_TRIGGER"@, required: false, help: ""@ },
            OptV { long: "auto-trigger-design-scan"@, alias: None, short: None, kind: OptKind::Single, check: CheckV::Any, value_name: "AUTO_TRIGGER_DESIGN_SCAN"@, required: false, help: ""@ },
            OptV { long: "disallow-self-merge"@, alias: None, short: None, kind: OptKind::Single, check: CheckV::Unsigned(255), value_name: "DISALLOW_SELF_MERGE"@, required: false, help: ""@ },
            OptV { long: "disallow-unresolved-discussions-merge"@, alias: None, short: None, kind: OptKind::Single, check: CheckV::Unsigned(255), value_name: "DISALLOW_UNRESOLVED_DISCUSSIONS_MERGE"@, required: false, help: ""@ },
            OptV { long: "public-token-env"@, alias: None, short: None, kind: OptKind::Single, check: CheckV::Any, value_name: "PUBLIC_TOKEN_ENV"@, required: false, help: ""@ },
            OptV { long: "no-configure-webhook"@, alias: None, short: None, kind: OptKind::Flag, check: CheckV::Any, value_name: "NO_CONFIGURE_WEBHOOK"@, required: false, help: "Skip OpenLibing webhook reconfiguration after repository setup"@ },
        ],
        positionals: seq![],
    }
}

/// The command `prs`, as values.
pub open spec fn gd_node_61() -> NodeV {
    NodeV {
        name: "prs"@,
        alias: None,
        about: "List GitCode pull requests known to OpenLibing"@,
        children: seq![],
        options: seq![
            OptV { long: "project-id"@, alias: None, short: None, kind: OptKind::Single, check: CheckV::Any, value_name: "PROJECT_ID"@, required: true, help: ""@ },
            OptV { long: "repo"@, alias: None, short: Some('R'), kind: OptKind::Single, check: CheckV::Repo, value_name: "REPOSITORY"@, required: false, help: ""@ },
            OptV { long: "state"@, alias: None, short: Some('s'), kind: OptKind::Single, check: CheckV::Any, value_name: "STATE"@, required: false, help: ""@ },
            OptV { long: "page"@, alias: None, short: None, kind: OptKind::Single, check: CheckV::Unsigned(18446744073709551615), value_name: "PAGE"@, required: false, help: ""@ },
            OptV { long: "limit"@, alias: None, short: Some('L'), kind: OptKind::Single, check: CheckV::Unsigned(18446744073709551615), value_name: "LIMIT"@, required: false, help: ""@ },
        ],
        positionals: seq![],
    }
}

/// The command `checks`, as values.
pub open spec fn gd_node_62() -> NodeV {
    NodeV {
        name: "checks"@,
        alias: None,
        about: "Show OpenLibing gate checks for a pull request"@,
        children: seq![],
        options: seq![
            OptV { long: "project-id"@, alias: None, short: None, kind: OptKind::Single, check: CheckV::Any, value_name: "PROJECT_ID"@, required: true, help: ""@ },
            OptV { long: "repo"@, alias: None, short: Some('R'), kind: OptKind::Single, check: CheckV::Repo, value_name: "REPOSITORY"@, required: false, help: ""@ },
            OptV { long: "pr"@, alias: Some("mr"@), short: None, kind: OptKind::Single, check: CheckV::Unsigned(18446744073709551615), value_name: "NUMBER"@, required: true, help: ""@ },
        ],
        positionals: seq![],
    }
}

/// The command `gate-view`, as values.
pub open spec fn gd_node_63() -> NodeV {
    NodeV {
        name: "gate-view"@,
        alias: None,
        about: "View a GitCode pull request with OpenLibing checks"@,
        children: seq![],
        options: seq![
            OptV { long: "project-id"@, alias: None, short: None, kind: OptKind::Single, check: CheckV::Any, value_name: "PROJECT_ID"@, required: true, help: ""@ },
            OptV { long: "repo"@, alias: None, short: Some('R'), kind: OptKind::Single, check: CheckV::Repo, value_name: "REPOSITORY"@, required: false, help: ""@ },
            OptV { long: "pr"@, alias: Some("mr"@), short: None, kind: OptKind::Single, check: CheckV::Unsigned(18446744073709551615), value_name: "NUMBER"@, required: true, help: ""@ },
        ],
        positionals: seq![],
    }
}

/// The command `gate-runs`, as values.
pub open spec fn gd_node_64() -> NodeV {
    NodeV {
        name: "gate-runs"@,
        alias: None,
        about: "List OpenLibing pipeline run summaries"@,
        children: seq![],
        options: seq![
            OptV { long: "project-id"@, alias: None, short: None, kind: OptKind::Single, check: CheckV::Any, value_name: "PROJECT_ID"@, required: true, help: ""@ },
            OptV { long: "pipeline-name"@, alias: None, short: None, kind: OptKind::Single, check: CheckV::Any, value_name: "PIPELINE_NAME"@, required: false, help: ""@ },
            OptV { long: "page"@, alias: None, short: None, kind: OptKind::Single, check: CheckV::Unsigned(18446744073709551615), value_name: "PAGE"@, required: false, help: ""@ },
            OptV { long: "limit"@, alias: None, short: Some('L'), kind: OptKind::Single, check: CheckV::Unsigned(18446744073709551615), value_name: "LIMIT"@, required: false, help: ""@ },
        ],
        positionals: seq![],
    }
}

/// The command `login`, as values.
pub open spec fn gd_node_65() -> NodeV {
    NodeV {
        name: "login"@,
        alias: None,
        about: "Open a browser and complete OpenLibing GitCode OAuth"@,
        children: seq![],
        options: seq![
            OptV { long: "callback-host"@, alias: None, short: None, kind: OptKind::Single, check: CheckV::Any, value_name: "CALLBACK_HOST"@, required: false, help: ""@ },
            OptV { long: "callback-port"@, alias: None, short: None, kind: OptKind::Single, check: CheckV::Unsigned(65535), value_name: "CALLBACK_PORT"@, required: false, help: ""@ },
            OptV { long: "timeout-seconds"@, alias: None, short: None, kind: OptKind::Single, check: CheckV::Unsigned(18446744073709551615), value_name: "TIMEOUT_SECONDS"@, required: false, help: ""@ },
            OptV { long: "no-browser"@, alias: None, short: None, kind: OptKind::Flag, check: CheckV::Any, value_name: "NO_BROWSER"@, required: false, help: "Print the OAuth URL without opening a browser"@ },
        ],
        positionals: seq![],
    }
}

/// The command `status`, as values.
pub open spec fn gd_node_66() -> NodeV {
    NodeV {
        name: "status"@,
        alias: None,
        about: "View OpenLibing GitCode OAuth status"@,
        children: seq![],
        options: seq![],
        positionals: seq![],
    }
}

/// The command `logout`, as values.
pub open spec fn gd_node_67() -> NodeV {
    NodeV {
        name: "logout"@,
        alias: None,
        about: "Remove stored OpenLibing pipeline credentials"@,
        children: seq![],
        options: seq![],
        positionals: seq![],
    }
}

/// The command `check`, as values.
pub open spec fn gd_node_68() -> NodeV {
    NodeV {
        name: "check"@,
        alias: None,
        about: "Check whether a newer gd release is available"@,
        children: seq![],
        options: seq![],
        positionals: seq![],
    }
}

/// The grammar of `gd`: node 0 is `gd` itself.
pub fn gd_grammar() -> (g: Grammar)
    ensures
        is_gd_grammar(g),
{
    let mut nodes: Vec<NodeSpec> = Vec::new();
    grammar_part_0(&mut nodes);
    grammar_part_1(&mut nodes);
    grammar_part_2(&mut nodes);
    grammar_part_3(&mut nodes);
    grammar_part_4(&mut nodes);
    grammar_part_5(&mut nodes);
    grammar_part_6(&mut nodes);
    grammar_part_7(&mut nodes);
    grammar_part_8(&mut nodes);
    let globals = vec![
        option("hostname", None, None, OptKind::Single, Check::Any, "HOSTNAME", false, ""),
        option("api-base", None, None, OptKind::Single, Check::ApiBase, "URL", false, "GitCode API base URL"),
        option("openlibing-base", None, None, OptKind::Single, Check::GatewayBase, "OPENLIBING_BASE", false, "OpenLibing gateway base URL for pipeline gate checks"),
        option("json", None, None, OptKind::Flag, Check::Any, "JSON", false, "Render command output as JSON"),
        option("format", None, None, OptKind::Single, choice(vec!["text", "json"]), "FORMAT", false, "Render command output as text or JSON"),
    ];
    assert(globals@.map_values(|o: OptSpec| opt_v(o)) =~~= gd_globals());
    Grammar { nodes, globals }
}

/// Appends commands 0 to 7 of the grammar.
fn grammar_part_0(nodes: &mut Vec<NodeSpec>)
    requires
        old(nodes)@.len() == 0,
        forall|k: int| 0 <= k < 0 ==> node_v(#[trigger] old(nodes)@[k]) == gd_node(k),
    ensures
        final(nodes)@.len() == 8,
        forall|k: int| 0 <= k < 8 ==> node_v(#[trigger] final(nodes)@[k]) == gd_node(k),
{
    let ghost before = nodes@;
    nodes.push(node_0());
    assert forall|k: int| 0 <= k < 1 implies node_v(#[trigger] nodes@[k]) == gd_node(k) by {
        if k < 0 {
            assert(nodes@[k] == before[k]);
        }
    }
    let ghost before = nodes@;
    nodes.push(node_1());
    assert forall|k: int| 0 <= k < 2 implies node_v(#[trigger] nodes@[k]) == gd_node(k) by {
        if k < 1 {
            assert(nodes@[k] == before[k]);
        }
    }
    let ghost before = nodes@;
    nodes.push(node_2());
    assert forall|k: int| 0 <= k < 3 implies node_v(#[trigger] nodes@[k]) == gd_node(k) by {
        if k < 2 {
            assert(nodes@[k] == before[k]);
        }
    }
    let ghost before = nodes@;
    nodes.push(node_3());
    assert forall|k: int| 0 <= k < 4 implies node_v(#[trigger] nodes@[k]) == gd_node(k) by {
        if k < 3 {
            assert(nodes@[k] == before[k]);
        }
    }
    let ghost before = nodes@;
    nodes.push(node_4());
    assert forall|k: int| 0 <= k < 5 implies node_v(#[trigger] nodes@[k]) == gd_node(k) by {
        if k < 4 {
            assert(nodes@[k] == before[k]);
        }
    }
    let ghost before = nodes@;
    nodes.push(node_5());
    assert forall|k: int| 0 <= k < 6 implies node_v(#[trigger] nodes@[k]) == gd_node(k) by {
        if k < 5 {
            assert(nodes@[k] == before[k]);
        }
    }
    let ghost before = nodes@;
    nodes.push(node_6());
    assert forall|k: int| 0 <= k < 7 implies node_v(#[trigger] nodes@[k]) == gd_node(k) by {
        if k < 6 {
            assert(nodes@[k] == before[k]);
        }
    }
    let ghost before = nodes@;
    nodes.push(node_7());
    assert forall|k: int| 0 <= k < 8 implies node_v(#[trigger] nodes@[k]) == gd_node(k) by {
        if k < 7 {
            assert(nodes@[k] == before[k]);
        }
    }
}

/// Appends commands 8 to 15 of the grammar.
fn grammar_part_1(nodes: &mut Vec<NodeSpec>)
    requires
        old(nodes)@.len() == 8,
        forall|k: int| 0 <= k < 8 ==> node_v(#[trigger] old(nodes)@[k]) == gd_node(k),
    ensures
        final(nodes)@.len() == 16,
        forall|k: int| 0 <= k < 16 ==> node_v(#[trigger] final(nodes)@[k]) == gd_node(k),
{
    let ghost before = nodes@;
    nodes.push(node_8());
    assert forall|k: int| 0 <= k < 9 implies node_v(#[trigger] nodes@[k]) == gd_node(k) by {
        if k < 8 {
            assert(nodes@[k] == before[k]);
        }
    }
    let ghost before = nodes@;
    nodes.push(node_9());
    assert forall|k: int| 0 <= k < 10 implies node_v(#[trigger] nodes@[k]) == gd_node(k) by {
        if k < 9 {
            assert(nodes@[k] == before[k]);
        }
    }
    let ghost before = nodes@;
    nodes.push(node_10());
    assert forall|k: int| 0 <= k < 11 implies node_v(#[trigger] nodes@[k]) == gd_node(k) by {
        if k < 10 {
            assert(nodes@[k] == before[k]);
        }
    }
    let ghost before = nodes@;
    nodes.push(node_11());
    assert forall|k: int| 0 <= k < 12 implies node_v(#[trigger] nodes@[k]) == gd_node(k) by {
        if k < 11 {
            assert(nodes@[k] == before[k]);
        }
    }
    let ghost before = nodes@;
    nodes.push(node_12());
    assert forall|k: int| 0 <= k < 13 implies node_v(#[trigger] nodes@[k]) == gd_node(k) by {
        if k < 12 {
            assert(nodes@[k] == before[k]);
        }
    }
    let ghost before = nodes@;
    nodes.push(node_13());
    assert forall|k: int| 0 <= k < 14 implies node_v(#[trigger] nodes@[k]) == gd_node(k) by {
        if k < 13 {
            assert(nodes@[k] == before[k]);
        }
    }
    let ghost before = nodes@;
    nodes.push(node_14());
    assert forall|k: int| 0 <= k < 15 implies node_v(#[trigger] nodes@[k]) == gd_node(k) by {
        if k < 14 {
            assert(nodes@[k] == before[k]);
        }
    }
    let ghost before = nodes@;
    nodes.push(node_15());
    assert forall|k: int| 0 <= k < 16 implies node_v(#[trigger] nodes@[k]) == gd_node(k) by {
        if k < 15 {
            assert(nodes@[k] == before[k]);
        }
    }
}

/// Appends commands 16 to 23 of the grammar.
fn grammar_part_2(nodes: &mut Vec<NodeSpec>)
    requires
        old(nodes)@.len() == 16,
        forall|k: int| 0 <= k < 16 ==> node_v(#[trigger] old(nodes)@[k]) == gd_node(k),
    ensures
        final(nodes)@.len() == 24,
        forall|k: int| 0 <= k < 24 ==> node_v(#[trigger] final(nodes)@[k]) == gd_node(k),
{
    let ghost before = nodes@;
    nodes.push(node_16());
    assert forall|k: int| 0 <= k < 17 implies node_v(#[trigger] nodes@[k]) == gd_node(k) by {
        if k < 16 {
            assert(nodes@[k] == before[k]);
        }
    }
    let ghost before = nodes@;
    nodes.push(node_17());
    assert forall|k: int| 0 <= k < 18 implies node_v(#[trigger] nodes@[k]) == gd_node(k) by {
        if k < 17 {
            assert(nodes@[k] == before[k]);
        }
    }
    let ghost before = nodes@;
    nodes.push(node_18());
    assert forall|k: int| 0 <= k < 19 implies node_v(#[trigger] nodes@[k]) == gd_node(k) by {
        if k < 18 {
            assert(nodes@[k] == before[k]);
        }
    }
    let ghost before = nodes@;
    nodes.push(node_19());
    assert forall|k: int| 0 <= k < 20 implies node_v(#[trigger] nodes@[k]) == gd_node(k) by {
        if k < 19 {
            assert(nodes@[k] == before[k]);
        }
    }
    let ghost before = nodes@;
    nodes.push(node_20());
    assert forall|k: int| 0 <= k < 21 implies node_v(#[trigger] nodes@[k]) == gd_node(k) by {
        if k < 20 {
            assert(nodes@[k] == before[k]);
        }
    }
    let ghost before = nodes@;
    nodes.push(node_21());
    assert forall|k: int| 0 <= k < 22 implies node_v(#[trigger] nodes@[k]) == gd_node(k) by {
        if k < 21 {
            assert(nodes@[k] == before[k]);
        }
    }
    let ghost before = nodes@;
    nodes.push(node_22());
    assert forall|k: int| 0 <= k < 23 implies node_v(#[trigger] nodes@[k]) == gd_node(k) by {
        if k < 22 {
            assert(nodes@[k] == before[k]);
        }
    }
    let ghost before = nodes@;
    nodes.push(node_23());
    assert forall|k: int| 0 <= k < 24 implies node_v(#[trigger] nodes@[k]) == gd_node(k) by {
        if k < 23 {
            assert(nodes@[k] == before[k]);
        }
    }
}

/// Appends commands 24 to 31 of the grammar.
fn grammar_part_3(nodes: &mut Vec<NodeSpec>)
    requires
        old(nodes)@.len() == 24,
        forall|k: int| 0 <= k < 24 ==> node_v(#[trigger] old(nodes)@[k]) == gd_node(k),
    ensures
        final(nodes)@.len() == 32,
        forall|k: int| 0 <= k < 32 ==> node_v(#[trigger] final(nodes)@[k]) == gd_node(k),
{
    let ghost before = nodes@;
    nodes.push(node_24());
    assert forall|k: int| 0 <= k < 25 implies node_v(#[trigger] nodes@[k]) == gd_node(k) by {
        if k < 24 {
            assert(nodes@[k] == before[k]);
        }
    }
    let ghost before = nodes@;
    nodes.push(node_25());
    assert forall|k: int| 0 <= k < 26 implies node_v(#[trigger] nodes@[k]) == gd_node(k) by {
        if k < 25 {
            assert(nodes@[k] == before[k]);
        }
    }
    let ghost before = nodes@;
    nodes.push(node_26());
    assert forall|k: int| 0 <= k < 27 implies node_v(#[trigger] nodes@[k]) == gd_node(k) by {
        if k < 26 {
            assert(nodes@[k] == before[k]);
        }
    }
    let ghost before = nodes@;
    nodes.push(node_27());
    assert forall|k: int| 0 <= k < 28 implies node_v(#[trigger] nodes@[k]) == gd_node(k) by {
        if k < 27 {
            assert(nodes@[k] == before[k]);
        }
    }
    let ghost before = nodes@;
    nodes.push(node_28());
    assert forall|k: int| 0 <= k < 29 implies node_v(#[trigger] nodes@[k]) == gd_node(k) by {
        if k < 28 {
            assert(nodes@[k] == before[k]);
        }
    }
    let ghost before = nodes@;
    nodes.push(node_29());
    assert forall|k: int| 0 <= k < 30 implies node_v(#[trigger] nodes@[k]) == gd_node(k) by {
        if k < 29 {
            assert(nodes@[k] == before[k]);
        }
    }
    let ghost before = nodes@;
    nodes.push(node_30());
    assert forall|k: int| 0 <= k < 31 implies node_v(#[trigger] nodes@[k]) == gd_node(k) by {
        if k < 30 {
            assert(nodes@[k] == before[k]);
        }
    }
    let ghost before = nodes@;
    nodes.push(node_31());
    assert forall|k: int| 0 <= k < 32 implies node_v(#[trigger] nodes@[k]) == gd_node(k) by {
        if k < 31 {
            assert(nodes@[k] == before[k]);
        }
    }
}

/// Appends commands 32 to 39 of the grammar.
fn grammar_part_4(nodes: &mut Vec<NodeSpec>)
    requires
        old(nodes)@.len() == 32,
        forall|k: int| 0 <= k < 32 ==> node_v(#[trigger] old(nodes)@[k]) == gd_node(k),
    ensures
        final(nodes)@.len() == 40,
        forall|k: int| 0 <= k < 40 ==> node_v(#[trigger] final(nodes)@[k]) == gd_node(k),
{
    let ghost before = nodes@;
    nodes.push(node_32());
    assert forall|k: int| 0 <= k < 33 implies node_v(#[trigger] nodes@[k]) == gd_node(k) by {
        if k < 32 {
            assert(nodes@[k] == before[k]);
        }
    }
    let ghost before = nodes@;
    nodes.push(node_33());
    assert forall|k: int| 0 <= k < 34 implies node_v(#[trigger] nodes@[k]) == gd_node(k) by {
        if k < 33 {
            assert(nodes@[k] == before[k]);
        }
    }
    let ghost before = nodes@;
    nodes.push(node_34());
    assert forall|k: int| 0 <= k < 35 implies node_v(#[trigger] nodes@[k]) == gd_node(k) by {
        if k < 34 {
            assert(nodes@[k] == before[k]);
        }
    }
    let ghost before = nodes@;
    nodes.push(node_35());
    assert forall|k: int| 0 <= k < 36 implies node_v(#[trigger] nodes@[k]) == gd_node(k) by {
        if k < 35 {
            assert(nodes@[k] == before[k]);
        }
    }
    let ghost before = nodes@;
    nodes.push(node_36());
    assert forall|k: int| 0 <= k < 37 implies node_v(#[trigger] nodes@[k]) == gd_node(k) by {
        if k < 36 {
            assert(nodes@[k] == before[k]);
        }
    }
    let ghost before = nodes@;
    nodes.push(node_37());
    assert forall|k: int| 0 <= k < 38 implies node_v(#[trigger] nodes@[k]) == gd_node(k) by {
        if k < 37 {
            assert(nodes@[k] == before[k]);
        }
    }
    let ghost before = nodes@;
    nodes.push(node_38());
    assert forall|k: int| 0 <= k < 39 implies node_v(#[trigger] nodes@[k]) == gd_node(k) by {
        if k < 38 {
            assert(nodes@[k] == before[k]);
        }
    }
    let ghost before = nodes@;
    nodes.push(node_39());
    assert forall|k: int| 0 <= k < 40 implies node_v(#[trigger] nodes@[k]) == gd_node(k) by {
        if k < 39 {
            assert(nodes@[k] == before[k]);
        }
    }
}

/// Appends commands 40 to 47 of the grammar.
fn grammar_part_5(nodes: &mut Vec<NodeSpec>)
    requires
        old(nodes)@.len() == 40,
        forall|k: int| 0 <= k < 40 ==> node_v(#[trigger] old(nodes)@[k]) == gd_node(k),
    ensures
        final(nodes)@.len() == 48,
        forall|k: int| 0 <= k < 48 ==> node_v(#[trigger] final(nodes)@[k]) == gd_node(k),
{
    let ghost before = nodes@;
    nodes.push(node_40());
    assert forall|k: int| 0 <= k < 41 implies node_v(#[trigger] nodes@[k]) == gd_node(k) by {
        if k < 40 {
            assert(nodes@[k] == before[k]);
        }
    }
    let ghost before = nodes@;
    nodes.push(node_41());
    assert forall|k: int| 0 <= k < 42 implies node_v(#[trigger] nodes@[k]) == gd_node(k) by {
        if k < 41 {
            assert(nodes@[k] == before[k]);
        }
    }
    let ghost before = nodes@;
    nodes.push(node_42());
    assert forall|k: int| 0 <= k < 43 implies node_v(#[trigger] nodes@[k]) == gd_node(k) by {
        if k < 42 {
            assert(nodes@[k] == before[k]);
        }
    }
    let ghost before = nodes@;
    nodes.push(node_43());
    assert forall|k: int| 0 <= k < 44 implies node_v(#[trigger] nodes@[k]) == gd_node(k) by {
        if k < 43 {
            assert(nodes@[k] == before[k]);
        }
    }
    let ghost before = nodes@;
    nodes.push(node_44());
    assert forall|k: int| 0 <= k < 45 implies node_v(#[trigger] nodes@[k]) == gd_node(k) by {
        if k < 44 {
            assert(nodes@[k] == before[k]);
        }
    }
    let ghost before = nodes@;
    nodes.push(node_45());
    assert forall|k: int| 0 <= k < 46 implies node_v(#[trigger] nodes@[k]) == gd_node(k) by {
        if k < 45 {
            assert(nodes@[k] == before[k]);
        }
    }
    let ghost before = nodes@;
    nodes.push(node_46());
    assert forall|k: int| 0 <= k < 47 implies node_v(#[trigger] nodes@[k]) == gd_node(k) by {
        if k < 46 {
            assert(nodes@[k] == before[k]);
        }
    }
    let ghost before = nodes@;
    nodes.push(node_47());
    assert forall|k: int| 0 <= k < 48 implies node_v(#[trigger] nodes@[k]) == gd_node(k) by {
        if k < 47 {
            assert(nodes@[k] == before[k]);
        }
    }
}

/// Appends commands 48 to 55 of the grammar.
fn grammar_part_6(nodes: &mut Vec<NodeSpec>)
    requires
        old(nodes)@.len() == 48,
        forall|k: int| 0 <= k < 48 ==> node_v(#[trigger] old(nodes)@[k]) == gd_node(k),
    ensures
        final(nodes)@.len() == 56,
        forall|k: int| 0 <= k < 56 ==> node_v(#[trigger] final(nodes)@[k]) == gd_node(k),
{
    let ghost before = nodes@;
    nodes.push(node_48());
    assert forall|k: int| 0 <= k < 49 implies node_v(#[trigger] nodes@[k]) == gd_node(k) by {
        if k < 48 {
            assert(nodes@[k] == before[k]);
        }
    }
    let ghost before = nodes@;
    nodes.push(node_49());
    assert forall|k: int| 0 <= k < 50 implies node_v(#[trigger] nodes@[k]) == gd_node(k) by {
        if k < 49 {
            assert(nodes@[k] == before[k]);
        }
    }
    let ghost before = nodes@;
    nodes.push(node_50());
    assert forall|k: int| 0 <= k < 51 implies node_v(#[trigger] nodes@[k]) == gd_node(k) by {
        if k < 50 {
            assert(nodes@[k] == before[k]);
        }
    }
    let ghost before = nodes@;
    nodes.push(node_51());
    assert forall|k: int| 0 <= k < 52 implies node_v(#[trigger] nodes@[k]) == gd_node(k) by {
        if k < 51 {
            assert(nodes@[k] == before[k]);
        }
    }
    let ghost before = nodes@;
    nodes.push(node_52());
    assert forall|k: int| 0 <= k < 53 implies node_v(#[trigger] nodes@[k]) == gd_node(k) by {
        if k < 52 {
            assert(nodes@[k] == before[k]);
        }
    }
    let ghost before = nodes@;
    nodes.push(node_53());
    assert forall|k: int| 0 <= k < 54 implies node_v(#[trigger] nodes@[k]) == gd_node(k) by {
        if k < 53 {
            assert(nodes@[k] == before[k]);
        }
    }
    let ghost before = nodes@;
    nodes.push(node_54());
    assert forall|k: int| 0 <= k < 55 implies node_v(#[trigger] nodes@[k]) == gd_node(k) by {
        if k < 54 {
            assert(nodes@[k] == before[k]);
        }
    }
    let ghost before = nodes@;
    nodes.push(node_55());
    assert forall|k: int| 0 <= k < 56 implies node_v(#[trigger] nodes@[k]) == gd_node(k) by {
        if k < 55 {
            assert(nodes@[k] == before[k]);
        }
    }
}

/// Appends commands 56 to 63 of the grammar.
fn grammar_part_7(nodes: &mut Vec<NodeSpec>)
    requires
        old(nodes)@.len() == 56,
        forall|k: int| 0 <= k < 56 ==> node_v(#[trigger] old(nodes)@[k]) == gd_node(k),
    ensures
        final(nodes)@.len() == 64,
        forall|k: int| 0 <= k < 64 ==> node_v(#[trigger] final(nodes)@[k]) == gd_node(k),
{
    let ghost before = nodes@;
    nodes.push(node_56());
    assert forall|k: int| 0 <= k < 57 implies node_v(#[trigger] nodes@[k]) == gd_node(k) by {
        if k < 56 {
            assert(nodes@[k] == before[k]);
        }
    }
    let ghost before = nodes@;
    nodes.push(node_57());
    assert forall|k: int| 0 <= k < 58 implies node_v(#[trigger] nodes@[k]) == gd_node(k) by {
        if k < 57 {
            assert(nodes@[k] == before[k]);
        }
    }
    let ghost before = nodes@;
    nodes.push(node_58());
    assert forall|k: int| 0 <= k < 59 implies node_v(#[trigger] nodes@[k]) == gd_node(k) by {
        if k < 58 {
            assert(nodes@[k] == before[k]);
        }
    }
    let ghost before = nodes@;
    nodes.push(node_59());
    assert forall|k: int| 0 <= k < 60 implies node_v(#[trigger] nodes@[k]) == gd_node(k) by {
        if k < 59 {
            assert(nodes@[k] == before[k]);
        }
    }
    let ghost before = nodes@;
    nodes.push(node_60());
    assert forall|k: int| 0 <= k < 61 implies node_v(#[trigger] nodes@[k]) == gd_node(k) by {
        if k < 60 {
            assert(nodes@[k] == before[k]);
        }
    }
    let ghost before = nodes@;
    nodes.push(node_61());
    assert forall|k: int| 0 <= k < 62 implies node_v(#[trigger] nodes@[k]) == gd_node(k) by {
        if k < 61 {
            assert(nodes@[k] == before[k]);
        }
    }
    let ghost before = nodes@;
    nodes.push(node_62());
    assert forall|k: int| 0 <= k < 63 implies node_v(#[trigger] nodes@[k]) == gd_node(k) by {
        if k < 62 {
            assert(nodes@[k] == before[k]);
        }
    }
    let ghost before = nodes@;
    nodes.push(node_63());
    assert forall|k: int| 0 <= k < 64 implies node_v(#[trigger] nodes@[k]) == gd_node(k) by {
        if k < 63 {
            assert(nodes@[k] == before[k]);
        }
    }
}

/// Appends commands 64 to 68 of the grammar.
fn grammar_part_8(nodes: &mut Vec<NodeSpec>)
    requires
        old(nodes)@.len() == 64,
        forall|k: int| 0 <= k < 64 ==> node_v(#[trigger] old(nodes)@[k]) == gd_node(k),
    ensures
        final(nodes)@.len() == 69,
        forall|k: int| 0 <= k < 69 ==> node_v(#[trigger] final(nodes)@[k]) == gd_node(k),
{
    let ghost before = nodes@;
    nodes.push(node_64());
    assert forall|k: int| 0 <= k < 65 implies node_v(#[trigger] nodes@[k]) == gd_node(k) by {
        if k < 64 {
            assert(nodes@[k] == before[k]);
        }
    }
    let ghost before = nodes@;
    nodes.push(node_65());
    assert forall|k: int| 0 <= k < 66 implies node_v(#[trigger] nodes@[k]) == gd_node(k) by {
        if k < 65 {
            assert(nodes@[k] == before[k]);
        }
    }
    let ghost before = nodes@;
    nodes.push(node_66());
    assert forall|k: int| 0 <= k < 67 implies node_v(#[trigger] nodes@[k]) == gd_node(k) by {
        if k < 66 {
            assert(nodes@[k] == before[k]);
        }
    }
    let ghost before = nodes@;
    nodes.push(node_67());
    assert forall|k: int| 0 <= k < 68 implies node_v(#[trigger] nodes@[k]) == gd_node(k) by {
        if k < 67 {
            assert(nodes@[k] == before[k]);
        }
    }
    let ghost before = nodes@;
    nodes.push(node_68());
    assert forall|k: int| 0 <= k < 69 implies node_v(#[trigger] nodes@[k]) == gd_node(k) by {
        if k < 68 {
            assert(nodes@[k] == before[k]);
        }
    }
}

/// The command `gd`.
fn node_0() -> (r: NodeSpec)
    ensures
        node_v(r) == gd_node_0(),
{
    let r = node(
        "gd",
        None,
        "Work with GitCode from the command line",
        vec![1, 2, 3, 4, 5, 6, 7, 8, 9, 10, 11, 12],
        vec![],
        vec![],
    );
    assert(node_v(r) =~~= gd_node_0());
    r
}

/// The command `auth`.
fn node_1() -> (r: NodeSpec)
    ensures
        node_v(r) == gd_node_1(),
{
    let r = node(
        "auth",
        None,
        "Authenticate gd with GitCode",
        vec![13, 14, 15, 16],
        vec![],
        vec![],
    );
    assert(node_v(r) =~~= gd_node_1());
    r
}

/// The command `api`.
fn node_2() -> (r: NodeSpec)
    ensures
        node_v(r) == gd_node_2(),
{
    let r = node(
        "api",
        None,
        "Make an authenticated GitCode API request",
        vec![],
        vec![
            option("method", None, Some('X'), OptKind::Single, Check::Any, "METHOD", false, ""),
            option("header", None, Some('H'), OptKind::Multi, Check::Any, "HEADERS", false, ""),
            option("raw-field", None, Some('f'), OptKind::Multi, Check::Field, "RAW_FIELDS", false, ""),
            option("field", None, Some('F'), OptKind::Multi, Check::Field, "FIELDS", false, ""),
            option("input", None, None, OptKind::Single, Check::Any, "INPUT", false, ""),
            option("include-headers", None, Some('i'), OptKind::Flag, Check::Any, "INCLUDE_HEADERS", false, ""),
            option("silent", None, None, OptKind::Flag, Check::Any, "SILENT", false, ""),
            option("paginate", None, None, OptKind::Flag, Check::Any, "PAGINATE", false, ""),
        ],
        vec![
            positional("ENDPOINT", true, Check::Any, false),
        ],
    );
    assert(node_v(r) =~~= gd_node_2());
    r
}

/// The command `repo`.
fn node_3() -> (r: NodeSpec)
    ensures
        node_v(r) == gd_node_3(),
{
    let r = node(
        "repo",
        None,
        "Manage GitCode repositories",
        vec![17, 18, 19, 20, 21, 22, 23],
        vec![],
        vec![],
    );
    assert(node_v(r) =~~= gd_node_3());
    r
}

/// The command `pr`.
fn node_4() -> (r: NodeSpec)
    ensures
        node_v(r) == gd_node_4(),
{
    let r = node(
        "pr",
        Some("mr"),
        "Manage pull requests",
        vec![24, 25, 26, 27, 28, 29],
        vec![],
        vec![],
    );
    assert(node_v(r) =~~= gd_node_4());
    r
}

/// The command `issue`.
fn node_5() -> (r: NodeSpec)
    ensures
        node_v(r) == gd_node_5(),
{
    let r = node(
        "issue",
        None,
        "Manage issues",
        vec![30, 31, 32, 33],
        vec![],
        vec![],
    );
    assert(node_v(r) =~~= gd_node_5());
    r
}

/// The command `search`.
fn node_6() -> (r: NodeSpec)
    ensures
        node_v(r) == gd_node_6(),
{
    let r = node(
        "search",
        None,
        "Search GitCode",
        vec![34, 35, 36],
        vec![],
        vec![],
    );
    assert(node_v(r) =~~= gd_node_6());
    r
}

/// The command `ssh-key`.
fn node_7() -> (r: NodeSpec)
    ensures
        node_v(r) == gd_node_7(),
{
    let r = node(
        "ssh-key",
        None,
        "Manage SSH keys",
        vec![37, 38, 39],
        vec![],
        vec![],
    );
    assert(node_v(r) =~~= gd_node_7());
    r
}

/// The command `label`.
fn node_8() -> (r: NodeSpec)
    ensures
        node_v(r) == gd_node_8(),
{
    let r = node(
        "label",
        None,
        "Manage repository labels",
        vec![40, 41, 42, 43],
        vec![],
        vec![],
    );
    assert(node_v(r) =~~= gd_node_8());
    r
}

/// The command `release`.
fn node_9() -> (r: NodeSpec)
    ensures
        node_v(r) == gd_node_9(),
{
    let r = node(
        "release",
        None,
        "Manage repository releases",
        vec![44, 45, 46, 47],
        vec![],
        vec![],
    );
    assert(node_v(r) =~~= gd_node_9());
    r
}

/// The command `pipeline`.
fn node_10() -> (r: NodeSpec)
    ensures
        node_v(r) == gd_node_10(),
{
    let r = node(
        "pipeline",
        Some("actions"),
        "Manage GitCode pipelines",
        vec![48, 49, 50, 51, 52, 53, 54, 55, 56, 57, 58, 59, 60, 61, 62, 63, 64],
        vec![],
        vec![],
    );
    assert(node_v(r) =~~= gd_node_10());
    r
}

/// The command `version`.
fn node_11() -> (r: NodeSpec)
    ensures
        node_v(r) == gd_node_11(),
{
    let r = node(
        "version",
        None,
        "Inspect gd version and updates",
        vec![68],
        vec![],
        vec![],
    );
    assert(node_v(r) =~~= gd_node_11());
    r
}

/// The command `completion`.
fn node_12() -> (r: NodeSpec)
    ensures
        node_v(r) == gd_node_12(),
{
    let r = node(
        "completion",
        None,
        "Generate shell completion scripts",
        vec![],
        vec![],
        vec![
            positional("SHELL", true, choice(vec!["bash", "zsh", "fish", "powershell"]), false),
        ],
    );
    assert(node_v(r) =~~= gd_node_12());
    r
}

/// The command `login`.
fn node_13() -> (r: NodeSpec)
    ensures
        node_v(r) == gd_node_13(),
{
    let r = node(
        "login",
        None,
        "Log in to GitCode",
        vec![],
        vec![
            option("with-token", None, None, OptKind::Flag, Check::Any, "WITH_TOKEN", false, "Read a GitCode personal access token from stdin"),
        ],
        vec![],
    );
    assert(node_v(r) =~~= gd_node_13());
    r
}

/// The command `logout`.
fn node_14() -> (r: NodeSpec)
    ensures
        node_v(r) == gd_node_14(),
{
    let r = node(
        "logout",
        None,
        "Log out of GitCode",
        vec![],
        vec![
            option("hostname", None, None, OptKind::Single, Check::Any, "HOSTNAME", false, ""),
        ],
        vec![],
    );
    assert(node_v(r) =~~= gd_node_14());
    r
}

/// The command `status`.
fn node_15() -> (r: NodeSpec)
    ensures
        node_v(r) == gd_node_15(),
{
    let r = node(
        "status",
        None,
        "View authentication status",
        vec![],
        vec![
            option("hostname", None, None, OptKind::Single, Check::Any, "HOSTNAME", false, ""),
            option("show-token", None, Some('t'), OptKind::Flag, Check::Any, "SHOW_TOKEN", false, ""),
        ],
        vec![],
    );
    assert(node_v(r) =~~= gd_node_15());
    r
}

/// The command `token`.
fn node_16() -> (r: NodeSpec)
    ensures
        node_v(r) == gd_node_16(),
{
    let r = node(
        "token",
        None,
        "Print the stored authentication token",
        vec![],
        vec![
            option("hostname", None, None, OptKind::Single, Check::Any, "HOSTNAME", false, ""),
        ],
        vec![],
    );
    assert(node_v(r) =~~= gd_node_16());
    r
}

/// The command `view`.
fn node_17() -> (r: NodeSpec)
    ensures
        node_v(r) == gd_node_17(),
{
    let r = node(
        "view",
        None,
        "View a repository",
        vec![],
        vec![],
        vec![
            positional("REPOSITORY", false, Check::Repo, false),
        ],
    );
    assert(node_v(r) =~~= gd_node_17());
    r
}

/// The command `list`.
fn node_18() -> (r: NodeSpec)
    ensures
        node_v(r) == gd_node_18(),
{
    let r = node(
        "list",
        None,
        "List repositories",
        vec![],
        vec![
            option("limit", None, Some('L'), OptKind::Single, Check::Unsigned(4294967295), "LIMIT", false, ""),
        ],
        vec![
            positional("OWNER", false, Check::Any, false),
        ],
    );
    assert(node_v(r) =~~= gd_node_18());
    r
}

/// The command `clone`.
fn node_19() -> (r: NodeSpec)
    ensures
        node_v(r) == gd_node_19(),
{
    let r = node(
        "clone",
        None,
        "Clone a repository",
        vec![],
        vec![],
        vec![
            positional("REPOSITORY", true, Check::Repo, false),
            positional("DIRECTORY", false, Check::Any, false),
            positional("GIT_FLAGS", false, Check::Any, true),
        ],
    );
    assert(node_v(r) =~~= gd_node_19());
    r
}

/// The command `fork`.
fn node_20() -> (r: NodeSpec)
    ensures
        node_v(r) == gd_node_20(),
{
    let r = node(
        "fork",
        None,
        "Fork a repository",
        vec![],
        vec![],
        vec![
            positional("REPOSITORY", true, Check::Repo, false),
        ],
    );
    assert(node_v(r) =~~= gd_node_20());
    r
}

/// The command `create`.
fn node_21() -> (r: NodeSpec)
    ensures
        node_v(r) == gd_node_21(),
{
    let r = node(
        "create",
        None,
        "Create a repository",
        vec![],
        vec![
            option("private", None, None, OptKind::Flag, Check::Any, "PRIVATE", false, ""),
            option("description", None, None, OptKind::Single, Check::Any, "DESCRIPTION", false, ""),
        ],
        vec![
            positional("NAME", true, Check::Any, false),
        ],
    );
    assert(node_v(r) =~~= gd_node_21());
    r
}

/// The command `move`.
fn node_22() -> (r: NodeSpec)
    ensures
        node_v(r) == gd_node_22(),
{
    let r = node(
        "move",
        None,
        "Move or rename a repository",
        vec![],
        vec![
            option("name", None, None, OptKind::Single, Check::Any, "NAME", false, ""),
        ],
        vec![
            positional("SOURCE", true, Check::Repo, false),
            positional("TARGET", true, Check::Any, false),
        ],
    );
    assert(node_v(r) =~~= gd_node_22());
    r
}

/// The command `sync-github`.
fn node_23() -> (r: NodeSpec)
    ensures
        node_v(r) == gd_node_23(),
{
    let r = node(
        "sync-github",
        None,
        "Sync a GitHub repository into GitCode",
        vec![],
        vec![
            option("repo", None, Some('R'), OptKind::Single, Check::Repo, "REPOSITORY", false, ""),
            option("org", None, None, OptKind::Single, Check::Any, "ORG", false, ""),
            option("name", None, None, OptKind::Single, Check::Any, "NAME", false, ""),
            option("private", None, None, OptKind::Flag, Check::Any, "PRIVATE", false, ""),
            option("description", None, None, OptKind::Single, Check::Any, "DESCRIPTION", false, ""),
            option("if-exists", None, None, OptKind::Single, choice(vec!["fail", "skip", "update", "recreate"]), "IF_EXISTS", false, ""),
            option("method", None, None, OptKind::Single, choice(vec!["import", "git-push"]), "METHOD", false, ""),
        ],
        vec![
            positional("GITHUB_REPO", true, Check::GithubRepo, false),
        ],
    );
    assert(node_v(r) =~~= gd_node_23());
    r
}

/// The command `list`.
fn node_24() -> (r: NodeSpec)
    ensures
        node_v(r) == gd_node_24(),
{
    let r = node(
        "list",
        None,
        "List pull requests",
        vec![],
        vec![
            option("repo", None, Some('R'), OptKind::Single, Check::Repo, "REPOSITORY", false, ""),
            option("state", None, Some('s'), OptKind::Single, Check::Any, "STATE", false, ""),
            option("base", None, Some('B'), OptKind::Single, Check::Any, "BASE", false, ""),
            option("limit", None, Some('L'), OptKind::Single, Check::Unsigned(4294967295), "LIMIT", false, ""),
        ],
        vec![],
    );
    assert(node_v(r) =~~= gd_node_24());
    r
}

/// The command `view`.
fn node_25() -> (r: NodeSpec)
    ensures
        node_v(r) == gd_node_25(),
{
    let r = node(
        "view",
        None,
        "View a pull request",
        vec![],
        vec![
            option("repo", None, Some('R'), OptKind::Single, Check::Repo, "REPOSITORY", false, ""),
        ],
        vec![
            positional("NUMBER", true, Check::Unsigned(18446744073709551615), false),
        ],
    );
    assert(node_v(r) =~~= gd_node_25());
    r
}

/// The command `create`.
fn node_26() -> (r: NodeSpec)
    ensures
        node_v(r) == gd_node_26(),
{
    let r = node(
        "create",
        None,
        "Create a pull request",
        vec![],
        vec![
            option("repo", None, Some('R'), OptKind::Single, Check::Repo, "REPOSITORY", false, ""),
            option("title", None, Some('t'), OptKind::Single, Check::Any, "TITLE", true, ""),
            option("body", None, Some('b'), OptKind::Single, Check::Any, "BODY", false, ""),
            option("base", None, Some('B'), OptKind::Single, Check::Any, "BASE", true, ""),
            option("head", None, Some('H'), OptKind::Single, Check::Any, "HEAD", true, ""),
            option("label", None, Some('l'), OptKind::Multi, Check::Any, "LABEL", false, ""),
            option("assignee", None, Some('a'), OptKind::Multi, Check::Any, "ASSIGNEE", false, ""),
        ],
        vec![],
    );
    assert(node_v(r) =~~= gd_node_26());
    r
}

/// The command `comments`.
fn node_27() -> (r: NodeSpec)
    ensures
        node_v(r) == gd_node_27(),
{
    let r = node(
        "comments",
        None,
        "List pull request review comments",
        vec![],
        vec![
            option("repo", None, Some('R'), OptKind::Single, Check::Repo, "REPOSITORY", false, ""),
            option("page", None, None, OptKind::Single, Check::Unsigned(18446744073709551615), "PAGE", false, ""),
            option("limit", None, Some('L'), OptKind::Single, Check::Unsigned(18446744073709551615), "LIMIT", false, ""),
        ],
        vec![
            positional("NUMBER", true, Check::Unsigned(18446744073709551615), false),
        ],
    );
    assert(node_v(r) =~~= gd_node_27());
    r
}

/// The command `comment`.
fn node_28() -> (r: NodeSpec)
    ensures
        node_v(r) == gd_node_28(),
{
    let r = node(
        "comment",
        None,
        "Add a pull request review comment",
        vec![],
        vec![
            option("repo", None, Some('R'), OptKind::Single, Check::Repo, "REPOSITORY", false, ""),
            option("body", None, Some('b'), OptKind::Single, Check::Any, "BODY", true, ""),
            option("path", None, None, OptKind::Single, Check::Any, "PATH", false, ""),
            option("position", None, None, OptKind::Single, Check::Unsigned(18446744073709551615), "POSITION", false, ""),
            option("need-to-resolve", None, None, OptKind::Flag, Check::Any, "NEED_TO_RESOLVE", false, ""),
        ],
        vec![
            positional("NUMBER", true, Check::Unsigned(18446744073709551615), false),
        ],
    );
    assert(node_v(r) =~~= gd_node_28());
    r
}

/// The command `reply`.
fn node_29() -> (r: NodeSpec)
    ensures
        node_v(r) == gd_node_29(),
{
    let r = node(
        "reply",
        None,
        "Reply to a pull request review discussion",
        vec![],
        vec![
            option("repo", None, Some('R'), OptKind::Single, Check::Repo, "REPOSITORY", false, ""),
            option("body", None, Some('b'), OptKind::Single, Check::Any, "BODY", true, ""),
        ],
        vec![
            positional("NUMBER", true, Check::Unsigned(18446744073709551615), false),
            positional("DISCUSSION_ID", true, Check::Any, false),
        ],
    );
    assert(node_v(r) =~~= gd_node_29());
    r
}

/// The command `list`.
fn node_30() -> (r: NodeSpec)
    ensures
        node_v(r) == gd_node_30(),
{
    let r = node(
        "list",
        None,
        "List issues",
        vec![],
        vec![
            option("repo", None, Some('R'), OptKind::Single, Check::Repo, "REPOSITORY", false, ""),
            option("state", None, Some('s'), OptKind::Single, Check::Any, "STATE", false, ""),
            option("limit", None, Some('L'), OptKind::Single, Check::Unsigned(4294967295), "LIMIT", false, ""),
        ],
        vec![],
    );
    assert(node_v(r) =~~= gd_node_30());
    r
}

/// The command `view`.
fn node_31() -> (r: NodeSpec)
    ensures
        node_v(r) == gd_node_31(),
{
    let r = node(
        "view",
        None,
        "View an issue",
        vec![],
        vec![
            option("repo", None, Some('R'), OptKind::Single, Check::Repo, "REPOSITORY", false, ""),
        ],
        vec![
            positional("NUMBER", true, Check::Unsigned(18446744073709551615), false),
        ],
    );
    assert(node_v(r) =~~= gd_node_31());
    r
}

/// The command `create`.
fn node_32() -> (r: NodeSpec)
    ensures
        node_v(r) == gd_node_32(),
{
    let r = node(
        "create",
        None,
        "Create an issue",
        vec![],
        vec![
            option("repo", None, Some('R'), OptKind::Single, Check::Repo, "REPOSITORY", false, ""),
            option("title", None, Some('t'), OptKind::Single, Check::Any, "TITLE", true, ""),
            option("body", None, Some('b'), OptKind::Single, Check::Any, "BODY", false, ""),
            option("label", None, Some('l'), OptKind::Multi, Check::Any, "LABEL", false, ""),
            option("assignee", None, Some('a'), OptKind::Single, Check::Any, "ASSIGNEE", false, ""),
        ],
        vec![],
    );
    assert(node_v(r) =~~= gd_node_32());
    r
}

/// The command `comment`.
fn node_33() -> (r: NodeSpec)
    ensures
        node_v(r) == gd_node_33(),
{
    let r = node(
        "comment",
        None,
        "Add a comment to an issue",
        vec![],
        vec![
            option("repo", None, Some('R'), OptKind::Single, Check::Repo, "REPOSITORY", false, ""),
            option("body", None, Some('b'), OptKind::Single, Check::Any, "BODY", true, ""),
        ],
        vec![
            positional("NUMBER", true, Check::Unsigned(18446744073709551615), false),
        ],
    );
    assert(node_v(r) =~~= gd_node_33());
    r
}

/// The command `repos`.
fn node_34() -> (r: NodeSpec)
    ensures
        node_v(r) == gd_node_34(),
{
    let r = node(
        "repos",
        None,
        "Search repositories",
        vec![],
        vec![
            option("limit", None, Some('L'), OptKind::Single, Check::Unsigned(4294967295), "LIMIT", false, ""),
        ],
        vec![
            positional("QUERY", true, Check::Any, false),
        ],
    );
    assert(node_v(r) =~~= gd_node_34());
    r
}

/// The command `issues`.
fn node_35() -> (r: NodeSpec)
    ensures
        node_v(r) == gd_node_35(),
{
    let r = node(
        "issues",
        None,
        "Search issues",
        vec![],
        vec![
            option("limit", None, Some('L'), OptKind::Single, Check::Unsigned(4294967295), "LIMIT", false, ""),
        ],
        vec![
            positional("QUERY", true, Check::Any, false),
        ],
    );
    assert(node_v(r) =~~= gd_node_35());
    r
}

/// The command `users`.
fn node_36() -> (r: NodeSpec)
    ensures
        node_v(r) == gd_node_36(),
{
    let r = node(
        "users",
        None,
        "Search users",
        vec![],
        vec![
            option("limit", None, Some('L'), OptKind::Single, Check::Unsigned(4294967295), "LIMIT", false, ""),
        ],
        vec![
            positional("QUERY", true, Check::Any, false),
        ],
    );
    assert(node_v(r) =~~= gd_node_36());
    r
}

/// The command `list`.
fn node_37() -> (r: NodeSpec)
    ensures
        node_v(r) == gd_node_37(),
{
    let r = node(
        "list",
        None,
        "List SSH keys",
        vec![],
        vec![],
        vec![],
    );
    assert(node_v(r) =~~= gd_node_37());
    r
}

/// The command `add`.
fn node_38() -> (r: NodeSpec)
    ensures
        node_v(r) == gd_node_38(),
{
    let r = node(
        "add",
        None,
        "Add an SSH key",
        vec![],
        vec![
            option("title", None, Some('t'), OptKind::Single, Check::Any, "TITLE", false, ""),
        ],
        vec![
            positional("KEY_FILE", true, Check::Any, false),
        ],
    );
    assert(node_v(r) =~~= gd_node_38());
    r
}

/// The command `delete`.
fn node_39() -> (r: NodeSpec)
    ensures
        node_v(r) == gd_node_39(),
{
    let r = node(
        "delete",
        None,
        "Delete an SSH key",
        vec![],
        vec![],
        vec![
            positional("ID", true, Check::Any, false),
        ],
    );
    assert(node_v(r) =~~= gd_node_39());
    r
}

/// The command `list`.
fn node_40() -> (r: NodeSpec)
    ensures
        node_v(r) == gd_node_40(),
{
    let r = node(
        "list",
        None,
        "List repository labels",
        vec![],
        vec![
            option("repo", None, Some('R'), OptKind::Single, Check::Repo, "REPOSITORY", false, ""),
            option("limit", None, Some('L'), OptKind::Single, Check::Unsigned(4294967295), "LIMIT", false, ""),
        ],
        vec![],
    );
    assert(node_v(r) =~~= gd_node_40());
    r
}

/// The command `create`.
fn node_41() -> (r: NodeSpec)
    ensures
        node_v(r) == gd_node_41(),
{
    let r = node(
        "create",
        None,
        "Create a repository label",
        vec![],
        vec![
            option("repo", None, Some('R'), OptKind::Single, Check::Repo, "REPOSITORY", false, ""),
            option("color", None, Some('c'), OptKind::Single, Check::Any, "COLOR", false, ""),
            option("description", None, Some('d'), OptKind::Single, Check::Any, "DESCRIPTION", false, ""),
        ],
        vec![
            positional("NAME", true, Check::Any, false),
        ],
    );
    assert(node_v(r) =~~= gd_node_41());
    r
}

/// The command `edit`.
fn node_42() -> (r: NodeSpec)
    ensures
        node_v(r) == gd_node_42(),
{
    let r = node(
        "edit",
        None,
        "Edit a repository label",
        vec![],
        vec![
            option("repo", None, Some('R'), OptKind::Single, Check::Repo, "REPOSITORY", false, ""),
            option("new-name", None, None, OptKind::Single, Check::Any, "NEW_NAME", false, ""),
            option("color", None, Some('c'), OptKind::Single, Check::Any, "COLOR", false, ""),
            option("description", None, Some('d'), OptKind::Single, Check::Any, "DESCRIPTION", false, ""),
        ],
        vec![
            positional("NAME", true, Check::Any, false),
        ],
    );
    assert(node_v(r) =~~= gd_node_42());
    r
}

/// The command `delete`.
fn node_43() -> (r: NodeSpec)
    ensures
        node_v(r) == gd_node_43(),
{
    let r = node(
        "delete",
        None,
        "Delete a repository label",
        vec![],
        vec![
            option("repo", None, Some('R'), OptKind::Single, Check::Repo, "REPOSITORY", false, ""),
        ],
        vec![
            positional("NAME", true, Check::Any, false),
        ],
    );
    assert(node_v(r) =~~= gd_node_43());
    r
}

/// The command `list`.
fn node_44() -> (r: NodeSpec)
    ensures
        node_v(r) == gd_node_44(),
{
    let r = node(
        "list",
        None,
        "List repository releases",
        vec![],
        vec![
            option("repo", None, Some('R'), OptKind::Single, Check::Repo, "REPOSITORY", false, ""),
            option("limit", None, Some('L'), OptKind::Single, Check::Unsigned(4294967295), "LIMIT", false, ""),
        ],
        vec![],
    );
    assert(node_v(r) =~~= gd_node_44());
    r
}

/// The command `view`.
fn node_45() -> (r: NodeSpec)
    ensures
        node_v(r) == gd_node_45(),
{
    let r = node(
        "view",
        None,
        "View a repository release",
        vec![],
        vec![
            option("repo", None, Some('R'), OptKind::Single, Check::Repo, "REPOSITORY", false, ""),
        ],
        vec![
            positional("TAG", true, Check::Any, false),
        ],
    );
    assert(node_v(r) =~~= gd_node_45());
    r
}

/// The command `create`.
fn node_46() -> (r: NodeSpec)
    ensures
        node_v(r) == gd_node_46(),
{
    let r = node(
        "create",
        None,
        "Create a repository release",
        vec![],
        vec![
            option("repo", None, Some('R'), OptKind::Single, Check::Repo, "REPOSITORY", false, ""),
            option("title", None, Some('t'), OptKind::Single, Check::Any, "TITLE", false, ""),
            option("notes", None, Some('n'), OptKind::Single, Check::Any, "NOTES", false, ""),
            option("target", None, None, OptKind::Single, Check::Any, "TARGET", false, ""),
        ],
        vec![
            positional("TAG", true, Check::Any, false),
        ],
    );
    assert(node_v(r) =~~= gd_node_46());
    r
}

/// The command `migrate-github`.
fn node_47() -> (r: NodeSpec)
    ensures
        node_v(r) == gd_node_47(),
{
    let r = node(
        "migrate-github",
        None,
        "Migrate GitHub Releases and assets into GitCode",
        vec![],
        vec![
            option("repo", None, Some('R'), OptKind::Single, Check::Repo, "REPOSITORY", false, ""),
            option("github-repo", None, None, OptKind::Single, Check::GithubRepo, "GITHUB_REPO", true, ""),
            option("tag", None, None, OptKind::Single, Check::Any, "TAG", false, ""),
            option("all", None, None, OptKind::Flag, Check::Any, "ALL", false, ""),
            option("skip-existing-assets", None, None, OptKind::Toggle, choice(vec!["true", "false"]), "SKIP_EXISTING_ASSETS", false, ""),
            option("update-release", None, None, OptKind::Toggle, choice(vec!["true", "false"]), "UPDATE_RELEASE", false, ""),
            option("dry-run", None, None, OptKind::Flag, Check::Any, "DRY_RUN", false, ""),
        ],
        vec![],
    );
    assert(node_v(r) =~~= gd_node_47());
    r
}

/// The command `set`.
fn node_48() -> (r: NodeSpec)
    ensures
        node_v(r) == gd_node_48(),
{
    let r = node(
        "set",
        Some("register"),
        "Create or update a GitCode workflow file",
        vec![],
        vec![
            option("repo", None, Some('R'), OptKind::Single, Check::Repo, "REPOSITORY", false, ""),
            option("mode", None, None, OptKind::Single, choice(vec!["create", "update"]), "MODE", false, ""),
            option("content", None, None, OptKind::Single, Check::Any, "CONTENT", false, ""),
            option("file", None, None, OptKind::Single, Check::Any, "FILE", false, ""),
            option("message", None, Some('m'), OptKind::Single, Check::Any, "MESSAGE", false, ""),
            option("branch", None, None, OptKind::Single, Check::Any, "BRANCH", false, ""),
            option("sha", None, None, OptKind::Single, Check::Any, "SHA", false, ""),
        ],
        vec![
            positional("PATH", true, Check::WorkflowPath, false),
        ],
    );
    assert(node_v(r) =~~= gd_node_48());
    r
}

/// The command `codecheck`.
fn node_49() -> (r: NodeSpec)
    ensures
        node_v(r) == gd_node_49(),
{
    let r = node(
        "codecheck",
        None,
        "Create or update a GitCode CodeCheck workflow file",
        vec![],
        vec![
            option("repo", None, Some('R'), OptKind::Single, Check::Repo, "REPOSITORY", false, ""),
            option("path", None, None, OptKind::Single, Check::WorkflowPath, "PATH", false, ""),
            option("mode", None, None, OptKind::Single, choice(vec!["create", "update"]), "MODE", false, ""),
            option("message", None, Some('m'), OptKind::Single, Check::Any, "MESSAGE", false, ""),
            option("commit-branch", None, None, OptKind::Single, Check::Any, "COMMIT_BRANCH", false, ""),
            option("sha", None, None, OptKind::Single, Check::Any, "SHA", false, ""),
            option("name", None, None, OptKind::Single, Check::Any, "NAME", false, ""),
            option("check-branch", None, None, OptKind::Single, Check::Any, "CHECK_BRANCH", false, ""),
            option("repo-url", None, None, OptKind::Single, Check::Any, "REPO_URL", false, ""),
            option("language", None, None, OptKind::Multi, Check::Any, "LANGUAGES", false, ""),
            option("access-token-secret", None, None, OptKind::Single, Check::SecretName, "ACCESS_TOKEN_SECRET", false, ""),
        ],
        vec![],
    );
    assert(node_v(r) =~~= gd_node_49());
    r
}

/// The command `list`.
fn node_50() -> (r: NodeSpec)
    ensures
        node_v(r) == gd_node_50(),
{
    let r = node(
        "list",
        None,
        "List GitCode workflow files",
        vec![],
        vec![
            option("repo", None, Some('R'), OptKind::Single, Check::Repo, "REPOSITORY", false, ""),
            option("page", None, None, OptKind::Single, Check::Unsigned(18446744073709551615), "PAGE", false, ""),
            option("limit", None, Some('L'), OptKind::Single, Check::Unsigned(18446744073709551615), "LIMIT", false, ""),
        ],
        vec![],
    );
    assert(node_v(r) =~~= gd_node_50());
    r
}

/// The command `run`.
fn node_51() -> (r: NodeSpec)
    ensures
        node_v(r) == gd_node_51(),
{
    let r = node(
        "run",
        None,
        "Manually run a GitCode workflow",
        vec![],
        vec![
            option("repo", None, Some('R'), OptKind::Single, Check::Repo, "REPOSITORY", false, ""),
            option("file-path", None, None, OptKind::Single, Check::WorkflowPath, "FILE_PATH", true, ""),
            option("branch", None, None, OptKind::Single, Check::Any, "BRANCH", false, ""),
            option("branch-commit-id", None, None, OptKind::Single, Check::Any, "BRANCH_COMMIT_ID", false, ""),
            option("input", None, None, OptKind::Multi, Check::WorkflowInput, "INPUTS", false, ""),
        ],
        vec![
            positional("WORKFLOW_ID", true, Check::Any, false),
        ],
    );
    assert(node_v(r) =~~= gd_node_51());
    r
}

/// The command `runs`.
fn node_52() -> (r: NodeSpec)
    ensures
        node_v(r) == gd_node_52(),
{
    let r = node(
        "runs",
        None,
        "List GitCode workflow run records",
        vec![],
        vec![
            option("repo", None, Some('R'), OptKind::Single, Check::Repo, "REPOSITORY", false, ""),
            option("workflow-id", None, None, OptKind::Single, Check::Any, "WORKFLOW_ID", false, ""),
            option("workflow-name", None, None, OptKind::Single, Check::Any, "WORKFLOW_NAME", false, ""),
            option("event", None, None, OptKind::Single, Check::Any, "EVENT", false, ""),
            option("branch", None, None, OptKind::Single, Check::Any, "BRANCH", false, ""),
            option("status", None, None, OptKind::Single, Check::Any, "STATUS", false, ""),
            option("executor-id", None, None, OptKind::Single, Check::Any, "EXECUTOR_ID", false, ""),
            option("mr-id", None, None, OptKind::Single, Check::Any, "MR_ID", false, ""),
            option("page", None, None, OptKind::Single, Check::Unsigned(18446744073709551615), "PAGE", false, ""),
            option("limit", None, Some('L'), OptKind::Single, Check::Unsigned(18446744073709551615), "LIMIT", false, ""),
        ],
        vec![],
    );
    assert(node_v(r) =~~= gd_node_52());
    r
}

/// The command `view`.
fn node_53() -> (r: NodeSpec)
    ensures
        node_v(r) == gd_node_53(),
{
    let r = node(
        "view",
        None,
        "View a GitCode workflow run",
        vec![],
        vec![
            option("repo", None, Some('R'), OptKind::Single, Check::Repo, "REPOSITORY", false, ""),
        ],
        vec![
            positional("WORKFLOW_RUN_ID", true, Check::Any, false),
        ],
    );
    assert(node_v(r) =~~= gd_node_53());
    r
}

/// The command `log`.
fn node_54() -> (r: NodeSpec)
    ensures
        node_v(r) == gd_node_54(),
{
    let r = node(
        "log",
        None,
        "Read a GitCode workflow job log",
        vec![],
        vec![
            option("repo", None, Some('R'), OptKind::Single, Check::Repo, "REPOSITORY", false, ""),
            option("step-run-id", None, None, OptKind::Single, Check::Any, "STEP_RUN_ID", false, ""),
            option("offset", None, None, OptKind::Single, Check::Unsigned(18446744073709551615), "OFFSET", false, ""),
            option("limit", None, None, OptKind::Single, Check::Unsigned(18446744073709551615), "LIMIT", false, ""),
        ],
        vec![
            positional("WORKFLOW_RUN_ID", true, Check::Any, false),
            positional("JOB_IDENTIFIER", true, Check::Any, false),
        ],
    );
    assert(node_v(r) =~~= gd_node_54());
    r
}

/// The command `stop`.
fn node_55() -> (r: NodeSpec)
    ensures
        node_v(r) == gd_node_55(),
{
    let r = node(
        "stop",
        None,
        "Stop a GitCode workflow run",
        vec![],
        vec![
            option("repo", None, Some('R'), OptKind::Single, Check::Repo, "REPOSITORY", false, ""),
        ],
        vec![
            positional("WORKFLOW_RUN_ID", true, Check::Any, false),
        ],
    );
    assert(node_v(r) =~~= gd_node_55());
    r
}

/// The command `retry`.
fn node_56() -> (r: NodeSpec)
    ensures
        node_v(r) == gd_node_56(),
{
    let r = node(
        "retry",
        None,
        "Retry failed GitCode workflow jobs",
        vec![],
        vec![
            option("repo", None, Some('R'), OptKind::Single, Check::Repo, "REPOSITORY", false, ""),
            option("job-run-id", None, None, OptKind::Multi, Check::Any, "JOB_RUN_IDS", false, ""),
        ],
        vec![
            positional("WORKFLOW_RUN_ID", true, Check::Any, false),
        ],
    );
    assert(node_v(r) =~~= gd_node_56());
    r
}

/// The command `rerun`.
fn node_57() -> (r: NodeSpec)
    ensures
        node_v(r) == gd_node_57(),
{
    let r = node(
        "rerun",
        None,
        "Rerun all jobs in a GitCode workflow run",
        vec![],
        vec![
            option("repo", None, Some('R'), OptKind::Single, Check::Repo, "REPOSITORY", false, ""),
        ],
        vec![
            positional("WORKFLOW_RUN_ID", true, Check::Any, false),
        ],
    );
    assert(node_v(r) =~~= gd_node_57());
    r
}

/// The command `auth`.
fn node_58() -> (r: NodeSpec)
    ensures
        node_v(r) == gd_node_58(),
{
    let r = node(
        "auth",
        None,
        "Authenticate OpenLibing GitCode OAuth for pipeline checks",
        vec![65, 66, 67],
        vec![],
        vec![],
    );
    assert(node_v(r) =~~= gd_node_58());
    r
}

/// The command `config`.
fn node_59() -> (r: NodeSpec)
    ensures
        node_v(r) == gd_node_59(),
{
    let r = node(
        "config",
        None,
        "Show OpenLibing pipeline and CodeCheck configuration",
        vec![],
        vec![
            option("project-id", None, None, OptKind::Single, Check::Any, "PROJECT_ID", true, ""),
        ],
        vec![],
    );
    assert(node_v(r) =~~= gd_node_59());
    r
}

/// The command `setup`.
fn node_60() -> (r: NodeSpec)
    ensures
        node_v(r) == gd_node_60(),
{
    let r = node(
        "setup",
        None,
        "Configure an OpenLibing GitCode repository for PR gate checks",
        vec![],
        vec![
            option("project-id", None, None, OptKind::Single, Check::Any, "PROJECT_ID", true, ""),
            option("repo", None, Some('R'), OptKind::Single, Check::Repo, "REPOSITORY", false, ""),
            option("repo-url", None, None, OptKind::Single, Check::Any, "REPO_URL", false, ""),
            option("repo-id", None, None, OptKind::Single, Check::Unsigned(18446744073709551615), "REPO_ID", false, ""),
            option("repo-name", None, None, OptKind::Single, Check::Any, "REPO_NAME", false, ""),
            option("repo-owner", None, None, OptKind::Single, Check::Any, "REPO_OWNER", false, ""),
            option("language", None, None, OptKind::Delimited, Check::Any, "LANGUAGE", false, ""),
            option("codecheck-rule-set", None, None, OptKind::Single, Check::Any, "CODECHECK_RULE_SET", false, ""),
            option("anti-rule-set", None, None, OptKind::Single, Check::Any, "ANTI_RULE_SET", false, ""),
            option("purpose", None, None, OptKind::Single, Check::Any, "PURPOSE", false, ""),
            option("open-source", None, None, OptKind::Single, Check::Any, "OPEN_SOURCE", false, ""),
            option("assume-pr", None, None, OptKind::Single, Check::Any, "ASSUME_PR", false, ""),
            option("auto-trigger", None, None, OptKind::Single, Check::Any, "AUTO_TRIGGER", false, ""),
            option("auto-trigger-design-scan", None, None, OptKind::Single, Check::Any, "AUTO_TRIGGER_DESIGN_SCAN", false, ""),
            option("disallow-self-merge", None, None, OptKind::Single, Check::Unsigned(255), "DISALLOW_SELF_MERGE", false, ""),
            option("disallow-unresolved-discussions-merge", None, None, OptKind::Single, Check::Unsigned(255), "DISALLOW_UNRESOLVED_DISCUSSIONS_MERGE", false, ""),
            option("public-token-env", None, None, OptKind::Single, Check::Any, "PUBLIC_TOKEN_ENV", false, ""),
            option("no-configure-webhook", None, None, OptKind::Flag, Check::Any, "NO_CONFIGURE_WEBHOOK", false, "Skip OpenLibing webhook reconfiguration after repository setup"),
        ],
        vec![],
    );
    assert(node_v(r) =~~= gd_node_60());
    r
}

/// The command `prs`.
fn node_61() -> (r: NodeSpec)
    ensures
        node_v(r) == gd_node_61(),
{
    let r = node(
        "prs",
        None,
        "List GitCode pull requests known to OpenLibing",
        vec![],
        vec![
            option("project-id", None, None, OptKind::Single, Check::Any, "PROJECT_ID", true, ""),
            option("repo", None, Some('R'), OptKind::Single, Check::Repo, "REPOSITORY", false, ""),
            option("state", None, Some('s'), OptKind::Single, Check::Any, "STATE", false, ""),
            option("page", None, None, OptKind::Single, Check::Unsigned(18446744073709551615), "PAGE", false, ""),
            option("limit", None, Some('L'), OptKind::Single, Check::Unsigned(18446744073709551615), "LIMIT", false, ""),
        ],
        vec![],
    );
    assert(node_v(r) =~~= gd_node_61());
    r
}

/// The command `checks`.
fn node_62() -> (r: NodeSpec)
    ensures
        node_v(r) == gd_node_62(),
{
    let r = node(
        "checks",
        None,
        "Show OpenLibing gate checks for a pull request",
        vec![],
        vec![
            option("project-id", None, None, OptKind::Single, Check::Any, "PROJECT_ID", true, ""),
            option("repo", None, Some('R'), OptKind::Single, Check::Repo, "REPOSITORY", false, ""),
            option("pr", Some("mr"), None, OptKind::Single, Check::Unsigned(18446744073709551615), "NUMBER", true, ""),
        ],
        vec![],
    );
    assert(node_v(r) =~~= gd_node_62());
    r
}

/// The command `gate-view`.
fn node_63() -> (r: NodeSpec)
    ensures
        node_v(r) == gd_node_63(),
{
    let r = node(
        "gate-view",
        None,
        "View a GitCode pull request with OpenLibing checks",
        vec![],
        vec![
            option("project-id", None, None, OptKind::Single, Check::Any, "PROJECT_ID", true, ""),
            option("repo", None, Some('R'), OptKind::Single, Check::Repo, "REPOSITORY", false, ""),
            option("pr", Some("mr"), None, OptKind::Single, Check::Unsigned(18446744073709551615), "NUMBER", true, ""),
        ],
        vec![],
    );
    assert(node_v(r) =~~= gd_node_63());
    r
}

/// The command `gate-runs`.
fn node_64() -> (r: NodeSpec)
    ensures
        node_v(r) == gd_node_64(),
{
    let r = node(
        "gate-runs",
        None,
        "List OpenLibing pipeline run summaries",
        vec![],
        vec![
            option("project-id", None, None, OptKind::Single, Check::Any, "PROJECT_ID", true, ""),
            option("pipeline-name", None, None, OptKind::Single, Check::Any, "PIPELINE_NAME", false, ""),
            option("page", None, None, OptKind::Single, Check::Unsigned(18446744073709551615), "PAGE", false, ""),
            option("limit", None, Some('L'), OptKind::Single, Check::Unsigned(18446744073709551615), "LIMIT", false, ""),
        ],
        vec![],
    );
    assert(node_v(r) =~~= gd_node_64());
    r
}

/// The command `login`.
fn node_65() -> (r: NodeSpec)
    ensures
        node_v(r) == gd_node_65(),
{
    let r = node(
        "login",
        None,
        "Open a browser and complete OpenLibing GitCode OAuth",
        vec![],
        vec![
            option("callback-host", None, None, OptKind::Single, Check::Any, "CALLBACK_HOST", false, ""),
            option("callback-port", None, None, OptKind::Single, Check::Unsigned(65535), "CALLBACK_PORT", false, ""),
            option("timeout-seconds", None, None, OptKind::Single, Check::Unsigned(18446744073709551615), "TIMEOUT_SECONDS", false, ""),
            option("no-browser", None, None, OptKind::Flag, Check::Any, "NO_BROWSER", false, "Print the OAuth URL without opening a browser"),
        ],
        vec![],
    );
    assert(node_v(r) =~~= gd_node_65());
    r
}

/// The command `status`.
fn node_66() -> (r: NodeSpec)
    ensures
        node_v(r) == gd_node_66(),
{
    let r = node(
        "status",
        None,
        "View OpenLibing GitCode OAuth status",
        vec![],
        vec![],
        vec![],
    );
    assert(node_v(r) =~~= gd_node_66());
    r
}

/// The command `logout`.
fn node_67() -> (r: NodeSpec)
    ensures
        node_v(r) == gd_node_67(),
{
    let r = node(
        "logout",
        None,
        "Remove stored OpenLibing pipeline credentials",
        vec![],
        vec![],
        vec![],
    );
    assert(node_v(r) =~~= gd_node_67());
    r
}

/// The command `check`.
fn node_68() -> (r: NodeSpec)
    ensures
        node_v(r) == gd_node_68(),
{
    let r = node(
        "check",
        None,
        "Check whether a newer gd release is available",
        vec![],
        vec![],
        vec![],
    );
    assert(node_v(r) =~~= gd_node_68());
    r
}

/// A copy of a string.
fn copy(s: &str) -> (r: String)
    ensures
        r@ == s@,
{
    from_chars(&to_chars(s))
}

/// An option of the grammar.
fn option(
    long: &str,
    alias: Option<&str>,
    short: Option<char>,
    kind: OptKind,
    check: Check,
    value_name: &str,
    required: bool,
    help: &str,
) -> (r: OptSpec)
    ensures
        r.long@ == long@,
        r.short == short,
        r.kind == kind,
        r.check == check,
        r.value_name@ == value_name@,
        r.required == required,
        r.help@ == help@,
        match (r.alias, alias) {
            (Some(a), Some(b)) => a@ == b@,
            (None, None) => true,
            _ => false,
        },
{
    let alias = match alias {
        Some(a) => Some(copy(a)),
        None => None,
    };
    OptSpec {
        long: copy(long),
        alias,
        short,
        kind,
        check,
        value_name: copy(value_name),
        required,
        help: copy(help),
    }
}

/// A positional argument of the grammar.
fn positional(name: &str, required: bool, check: Check, last: bool) -> (r: PosSpec)
    ensures
        r.name@ == name@,
        r.required == required,
        r.check == check,
        r.last == last,
{
    PosSpec { name: copy(name), required, check, last }
}

/// A check that accepts exactly the given words.
fn choice(words: Vec<&str>) -> (r: Check)
    ensures
        r matches Check::Choice(ws) && ws.deep_view() == words@.map_values(|x: &str| x@),
{
    let mut ws: Vec<String> = Vec::new();
    let mut i: usize = 0;
    while i < words.len()
        invariant
            i <= words@.len(),
            ws.deep_view() == words@.take(i as int).map_values(|x: &str| x@),
        decreases words@.len() - i,
    {
        let ghost before = ws.deep_view();
        let c = copy(words[i]);
        let ghost cv = c@;
        ws.push(c);
        assert(ws.deep_view() =~= before.push(cv));
        assert(words@.take(i + 1).map_values(|x: &str| x@) =~= words@.take(i as int).map_values(
            |x: &str| x@,
        ).push(cv));
        i = i + 1;
    }
    assert(words@.take(words@.len() as int) =~= words@);
    Check::Choice(ws)
}

/// A command of the grammar.
fn node(
    name: &str,
    alias: Option<&str>,
    about: &str,
    children: Vec<usize>,
    options: Vec<OptSpec>,
    positionals: Vec<PosSpec>,
) -> (r: NodeSpec)
    ensures
        r.name@ == name@,
        r.about@ == about@,
        r.children == children,
        r.options == options,
        r.positionals == positionals,
        match (r.alias, alias) {
            (Some(a), Some(b)) => a@ == b@,
            (None, None) => true,
            _ => false,
        },
{
    let alias = match alias {
        Some(a) => Some(copy(a)),
        None => None,
    };
    NodeSpec { name: copy(name), alias, about: copy(about), children, options, positionals }
}

/// The default gateway of OpenLibing.
pub open spec fn default_gateway() -> Seq<char> {
    "https://www.openlibing.com/gateway"@
}

/// The gateway base: the option when given, else the environment value
/// when set and not empty, else the default.
pub open spec fn gateway_choice(given: Option<Seq<char>>, env: Option<Seq<char>>) -> Seq<char> {
    match given {
        Some(v) => v,
        None => match env {
            Some(e) => if e.len() > 0 {
                e
            } else {
                default_gateway()
            },
            None => default_gateway(),
        },
    }
}

/// `g` holds the global options that `s` read, with `env` the value of
/// `GD_OPENLIBING_BASE`.
pub open spec fn global_read(s: ScanV, env: Option<Seq<char>>, g: GlobalArgs) -> bool {
    &&& g.hostname@ == text_or(first_value(s.opts, "hostname"@), "gitcode.com"@)
    &&& sview(g.api_base) == first_value(s.opts, "api-base"@)
    &&& g.openlibing_base@ == gateway_choice(first_value(s.opts, "openlibing-base"@), env)
    &&& g.json == has_key(s.opts, "json"@)
    &&& g.format == cli_output_format_opt(first_value(s.opts, "format"@))
}

/// What is wrong with a scan that read every token, beyond the scan itself:
/// a path that is no command of `gd`, `--tag` with `--all`, `pipeline setup`
/// without `--repo` or `--repo-url`, or a gateway from the environment that
/// fails its check.
pub open spec fn command_fault(s: ScanV) -> Option<Fault> {
    if !path_known(s.path) {
        Some(Fault::MissingSubcommand)
    } else if s.path == seq!["release"@, "migrate-github"@] && has_key(s.opts, "tag"@) && has_key(
        s.opts,
        "all"@,
    ) {
        Some(Fault::Conflict("--tag <TAG>"@, "--all"@))
    } else if s.path == seq!["pipeline"@, "setup"@] && !has_key(s.opts, "repo"@) && !has_key(
        s.opts,
        "repo-url"@,
    ) {
        Some(Fault::MissingRequired(seq!["--repo <REPOSITORY>"@, "--repo-url <REPO_URL>"@]))
    } else {
        None
    }
}

/// The fault of a gateway taken from the environment.
pub open spec fn env_fault(s: ScanV, env: Option<Seq<char>>) -> Option<Fault> {
    match (first_value(s.opts, "openlibing-base"@), env) {
        (None, Some(e)) => if e.len() > 0 {
            match crate::args::check_reason(Check::GatewayBase, e) {
                Some(reason) => Some(
                    Fault::InvalidValue(e, "--openlibing-base <OPENLIBING_BASE>"@, reason),
                ),
                None => None,
            }
        } else {
            None
        },
        _ => None,
    }
}

/// The tokens after the program name.
pub open spec fn tail(args: Seq<Seq<char>>) -> Seq<Seq<char>> {
    if args.len() == 0 {
        seq![]
    } else {
        args.skip(1)
    }
}

/// `r` is what reading `args` against `g` gives, `env` the value of
/// `GD_OPENLIBING_BASE`: the scan's fault when the scan fails; else the
/// environment's fault, then the command's fault, with the command reached;
/// else the global options and the command with the values read.
pub open spec fn parse_outcome(
    g: Grammar,
    args: Seq<Seq<char>>,
    env: Option<Seq<char>>,
    r: Result<Cli, ParseFailure>,
) -> bool {
    match scan_spec(g, tail(args)) {
        Err((f, n, p)) => r matches Err(e) && e.fault.fv() == f && e.node == n
            && e.path.deep_view() == p,
        Ok(s) => match (env_fault(s, env), command_fault(s)) {
            (Some(f), _) => r matches Err(e) && e.fault.fv() == f && e.node == s.node
                && e.path.deep_view() == s.path,
            (None, Some(f)) => r matches Err(e) && e.fault.fv() == f && e.node == s.node
                && e.path.deep_view() == s.path,
            (None, None) => r matches Ok(c) && global_read(s, env, c.global) && command_read(
                s,
                c.command,
            ),
        },
    }
}

/// The global options in `m`.
fn global_args(m: &Matches, env: Option<&str>) -> (r: Result<GlobalArgs, ParseFault>)
    ensures
        match (r, env_fault(m.sv(), crate::http::opt_view(env))) {
            (Ok(g), None) => global_read(m.sv(), crate::http::opt_view(env), g),
            (Err(e), Some(f)) => e.fv() == f,
            _ => false,
        },
{
    let given = value_of(m, "openlibing-base");
    let openlibing_base = match given {
        Some(v) => v,
        None => match env {
            Some(e) => {
                let ec = to_chars(e);
                if ec.len() > 0 {
                    match crate::args::check_value(&Check::GatewayBase, e) {
                        Some(reason) => {
                            return Err(
                                ParseFault::InvalidValue {
                                    value: copy(e),
                                    arg: copy("--openlibing-base <OPENLIBING_BASE>"),
                                    reason,
                                },
                            );
                        },
                        None => copy(e),
                    }
                } else {
                    copy("https://www.openlibing.com/gateway")
                }
            },
            None => copy("https://www.openlibing.com/gateway"),
        },
    };
    Ok(
        GlobalArgs {
            hostname: text_or_exec(value_of(m, "hostname"), "gitcode.com"),
            api_base: value_of(m, "api-base"),
            openlibing_base,
            json: flag_of(m, "json"),
            format: cli_output_format_opt_exec(value_of(m, "format")),
        },
    )
}

impl GlobalArgs {
    /// Output is rendered as JSON: `--json`, or `--format json`.
    pub fn json_output(&self) -> (r: bool)
        ensures
            r == (self.json || self.format == Some(CliOutputFormat::Json)),
    {
        self.json || match self.format {
            Some(CliOutputFormat::Json) => true,
            _ => false,
        }
    }
}

impl Cli {
    /// Reads `args` (the program name first) against the grammar `g`, with
    /// `openlibing_env` the value of `GD_OPENLIBING_BASE`.
    pub fn parse_with(g: &Grammar, args: &Vec<String>, openlibing_env: Option<&str>) -> (r: Result<
        Cli,
        ParseFailure,
    >)
        ensures
            parse_outcome(*g, args.deep_view(), crate::http::opt_view(openlibing_env), r),
    {
        let mut toks: Vec<String> = Vec::new();
        assert(toks.deep_view() =~= Seq::<Seq<char>>::empty());
        if args.len() > 0 {
            let mut i: usize = 1;
            assert(args.deep_view().subrange(1, 1) =~= Seq::<Seq<char>>::empty());
            while i < args.len()
                invariant
                    1 <= i <= args@.len(),
                    toks.deep_view() == args.deep_view().subrange(1, i as int),
                decreases args@.len() - i,
            {
                let ghost before = toks.deep_view();
                let c = copy(args[i].as_str());
                let ghost cv = c@;
                toks.push(c);
                assert(toks.deep_view() =~= before.push(cv));
                assert(args.deep_view().subrange(1, i + 1) =~= args.deep_view().subrange(
                    1,
                    i as int,
                ).push(cv));
                i = i + 1;
            }
            assert(args.deep_view().subrange(1, args@.len() as int) =~= tail(args.deep_view()));
        }
        assert(toks.deep_view() =~= tail(args.deep_view()));
        let m = match scan(g, &toks) {
            Ok(m) => m,
            Err(e) => return Err(e),
        };
        let global = match global_args(&m, openlibing_env) {
            Ok(g) => g,
            Err(f) => return Err(ParseFailure { fault: f, node: m.node, path: m.path }),
        };
        match build_command(&m) {
            Ok(command) => Ok(Cli { global, command }),
            Err(f) => Err(ParseFailure { fault: f, node: m.node, path: m.path }),
        }
    }

    /// Reads `args` (the program name first) as a `gd` command line, with
    /// `openlibing_env` the value of `GD_OPENLIBING_BASE`: the outcome of
    /// reading them with the grammar of `gd`.
    pub fn try_parse_from(args: &Vec<String>, openlibing_env: Option<&str>) -> (r: Result<
        Cli,
        ParseFailure,
    >)
        ensures
            exists|g: Grammar|
                is_gd_grammar(g) && parse_outcome(
                    g,
                    args.deep_view(),
                    crate::http::opt_view(openlibing_env),
                    r,
                ),
    {
        let g = gd_grammar();
        let r = Cli::parse_with(&g, args, openlibing_env);
        assert(is_gd_grammar(g) && parse_outcome(
            g,
            args.deep_view(),
            crate::http::opt_view(openlibing_env),
            r,
        ));
        r
    }
}

} // verus!

verus! {

/// `gd issue list` lists open issues unless `--state` says otherwise: when
/// the command line reached `issue list` and gave no `--state`, the parsed
/// state is `open`; when it gave one, the parsed state is that value.
pub proof fn law_issue_list_state_defaults_to_open(s: ScanV, a: IssueListArgs)
    requires
        command_read(s, Command::Issue(IssueCommand::List(a))),
    ensures
        s.path == seq!["issue"@, "list"@],
        first_value(s.opts, "state"@) is None ==> a.state@ == "open"@,
        first_value(s.opts, "state"@) matches Some(v) ==> a.state@ == v,
        first_value(s.opts, "limit"@) is None ==> a.limit == 30,
{
}

/// The other list commands read the same defaults: `gd pr list` lists open
/// pull requests, 30 at most, and `gd repo list` 30 repositories, unless
/// told otherwise; `gd api` sends `GET` unless `--method` names another.
pub proof fn law_list_and_api_defaults(s: ScanV, c: Command)
    requires
        command_read(s, c),
    ensures
        c matches Command::Pr(PrCommand::List(a)) ==> (first_value(s.opts, "state"@) is None
            ==> a.state@ == "open"@) && (first_value(s.opts, "limit"@) is None ==> a.limit == 30),
        c matches Command::Repo(RepoCommand::List(a)) ==> (first_value(s.opts, "limit"@) is None
            ==> a.limit == 30),
        c matches Command::Api(a) ==> (first_value(s.opts, "method"@) is None ==> a.method@
            == "GET"@),
{
}

} // verus!
