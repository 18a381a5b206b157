use relay_gitcode_cli::error::GdError;
use relay_gitcode_cli::repo::{
    clone_url, github_clone_url, parse_github_repo, parse_remote_url, resolve_repo, split_repo,
    RepoChoice,
};

#[test]
fn splits_owner_repo() {
    assert_eq!(
        split_repo("owner/repo").unwrap(),
        ("owner".to_string(), "repo".to_string())
    );
    assert!(split_repo("owner").is_err());
    assert!(split_repo("owner/repo/more").is_err());
}

#[test]
fn parses_gitcode_remote_urls() {
    assert_eq!(
        parse_remote_url("git@gitcode.com:space/project.git").unwrap(),
        "space/project"
    );
    assert_eq!(
        parse_remote_url("https://gitcode.com/space/project.git").unwrap(),
        "space/project"
    );
}

#[test]
fn parses_github_repository_inputs() {
    assert_eq!(
        parse_github_repo("coolplayagent/relay-gitcode-cli").unwrap(),
        "coolplayagent/relay-gitcode-cli"
    );
    assert_eq!(
        parse_github_repo("git@github.com:coolplayagent/relay-gitcode-cli.git").unwrap(),
        "coolplayagent/relay-gitcode-cli"
    );
    assert_eq!(
        parse_github_repo("https://github.com/coolplayagent/relay-gitcode-cli.git").unwrap(),
        "coolplayagent/relay-gitcode-cli"
    );
}

#[test]
fn split_repo_trims_spaces_and_outer_slashes() {
    assert_eq!(
        split_repo("  /owner/repo/ ").unwrap(),
        ("owner".to_string(), "repo".to_string())
    );
    assert_eq!(split_repo("/repo"), Err(GdError::RepoForm));
    assert_eq!(split_repo("owner/"), Err(GdError::RepoForm));
}

#[test]
fn rejects_unsupported_remote_url() {
    assert!(parse_remote_url("https://example.com/a/b.git").is_err());
    assert_eq!(
        parse_remote_url("ssh://git@gitcode.com/space/project").unwrap(),
        "space/project"
    );
}

#[test]
fn clone_urls_name_the_host() {
    assert_eq!(clone_url("gitcode.com", "a/b"), "https://gitcode.com/a/b.git");
    assert_eq!(github_clone_url("a/b"), "https://github.com/a/b.git");
}

#[test]
fn resolve_repo_prefers_explicit_then_default() {
    assert_eq!(
        resolve_repo(Some("a/b"), Some("c/d")).unwrap(),
        RepoChoice::Named("a/b".to_string())
    );
    assert_eq!(
        resolve_repo(None, Some("c/d")).unwrap(),
        RepoChoice::Named("c/d".to_string())
    );
    assert_eq!(resolve_repo(None, None).unwrap(), RepoChoice::FromGitRemote);
    assert!(resolve_repo(Some("bad"), Some("c/d")).is_err());
}

#[test]
fn github_clone_urls_parse_back_to_the_name() {
    for name in ["octo/hello", "a/b", "coolplayagent/relay-gitcode-cli", "x.y/z_w"] {
        assert_eq!(parse_github_repo(&github_clone_url(name)).unwrap(), name);
        assert_eq!(parse_github_repo(&format!("git@github.com:{name}.git")).unwrap(), name);
        assert_eq!(parse_github_repo(name).unwrap(), name);
    }
}

#[test]
fn remote_on_another_host_is_unsupported() {
    assert_eq!(
        parse_remote_url(&clone_url("example.com", "a/b")),
        Err(GdError::UnsupportedRemote)
    );
    assert_eq!(parse_remote_url("https://gitcode.com/onlyowner.git"), Err(GdError::RepoForm));
    assert_eq!(parse_remote_url(&clone_url("gitcode.com", "a/b")).unwrap(), "a/b");
}

#[test]
fn gitcode_clone_urls_parse_back_to_the_name() {
    for name in ["octo/hello", "a/b", " space/project", "x.y/z_w"] {
        assert_eq!(parse_remote_url(&clone_url("gitcode.com", name)).unwrap(), name);
        assert_eq!(parse_remote_url(&format!("git@gitcode.com:{name}.git")).unwrap(), name);
        assert_eq!(parse_remote_url(&format!("ssh://git@gitcode.com/{name}.git")).unwrap(), name);
        for host in ["example.com", "gitcode.co", "gitcode.comm", "github.com"] {
            assert_eq!(
                parse_remote_url(&clone_url(host, name)),
                Err(GdError::UnsupportedRemote)
            );
        }
    }
}
