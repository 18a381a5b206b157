use relay_gitcode_cli::update::{
    check_for_updates, comparable_version, crates_candidate, github_candidate, parse_sources,
    render_version_check_text, response_from_candidates, stable_version, CratesPackage,
    CratesPackageResponse, GithubLatestRelease, ReleaseCandidate, UpdateConfig, UpdateSource,
};

#[test]
fn parses_stable_versions_for_comparison() {
    assert!(stable_version("v1.2.3").unwrap() > stable_version("1.2.2").unwrap());
    assert!(stable_version("1.10.0").unwrap() > stable_version("1.9.9").unwrap());
}

#[test]
fn rejects_prerelease_candidates() {
    let error = stable_version("v1.2.3-rc.1").unwrap_err();
    assert!(error.message().contains("prerelease"));
}

#[test]
fn current_prerelease_compares_lower_than_stable() {
    assert!(comparable_version("1.2.3").unwrap() > comparable_version("1.2.3-rc.1").unwrap());
}

#[test]
fn picks_highest_candidate_source() {
    let response = response_from_candidates(
        stable_version("1.0.0").unwrap(),
        vec![
            ReleaseCandidate {
                source: UpdateSource::Github,
                version: stable_version("1.1.0").unwrap(),
                release_url: "https://github.com/example/repo/releases/tag/v1.1.0".to_string(),
            },
            ReleaseCandidate {
                source: UpdateSource::CratesIo,
                version: stable_version("1.2.0").unwrap(),
                release_url: "https://crates.io/crates/example".to_string(),
            },
        ],
        Vec::new(),
        10,
    );

    assert_eq!(response.latest_version.as_deref(), Some("1.2.0"));
    assert_eq!(response.source.as_deref(), Some("crates.io"));
    assert!(response.update_available);
}

#[test]
fn validates_source_list() {
    assert_eq!(
        parse_sources(Some("github,crates.io")).unwrap(),
        vec![UpdateSource::Github, UpdateSource::CratesIo]
    );
    assert!(parse_sources(Some("")).is_err());
    assert!(parse_sources(Some("npm")).is_err());
}

#[test]
fn renders_text_with_install_hint() {
    let response =
        response_from_candidates(stable_version("0.1.0").unwrap(), Vec::new(), Vec::new(), 10);
    let text = render_version_check_text(&response);
    assert!(text.contains("Install: cargo install relay-gitcode-cli --force"));
}

#[test]
fn version_text_drops_v_prefix_and_build_part() {
    let v = comparable_version(" v2.0.1+build.5 ").unwrap();
    assert_eq!((v.major, v.minor, v.patch, v.prerelease), (2, 0, 1, false));
    assert!(comparable_version("1.2").is_err());
    assert!(comparable_version("1.2.3.4").is_err());
    assert!(comparable_version("a.b.c").is_err());
    assert_eq!(
        comparable_version("1.2").unwrap_err().message(),
        "release version '1.2' is not semver"
    );
}

#[test]
fn equal_versions_keep_the_later_candidate() {
    let v = stable_version("2.0.0").unwrap();
    let response = response_from_candidates(
        stable_version("2.0.0").unwrap(),
        vec![
            ReleaseCandidate {
                source: UpdateSource::Github,
                version: v,
                release_url: "g".to_string(),
            },
            ReleaseCandidate {
                source: UpdateSource::CratesIo,
                version: v,
                release_url: "c".to_string(),
            },
        ],
        Vec::new(),
        0,
    );
    assert_eq!(response.source.as_deref(), Some("crates.io"));
    assert!(!response.update_available);
    let text = render_version_check_text(&response);
    assert!(text.starts_with("gd is current: current="));
    assert!(text.contains("Release: c\n"));
}

#[test]
fn no_candidate_reports_diagnostics_count() {
    let response =
        response_from_candidates(stable_version("0.1.0").unwrap(), Vec::new(), Vec::new(), 10);
    assert!(response.latest_version.is_none());
    assert!(!response.update_available);
    let text = render_version_check_text(&response);
    assert!(text.starts_with("gd latest version unavailable: current="));
    assert!(text.contains("diagnostics=0\n"));
}

#[test]
fn github_prerelease_is_ignored() {
    let d = github_candidate(GithubLatestRelease {
        tag_name: "v2.0.0".to_string(),
        html_url: "u".to_string(),
        prerelease: true,
    })
    .unwrap_err();
    assert_eq!(d.code, "prerelease_ignored");
    assert_eq!(d.source.as_deref(), Some("github"));
    let c = github_candidate(GithubLatestRelease {
        tag_name: "v2.0.0".to_string(),
        html_url: "u".to_string(),
        prerelease: false,
    })
    .unwrap();
    assert_eq!(c.release_url, "u");
    assert_eq!(c.version, stable_version("2.0.0").unwrap());
}

#[test]
fn crates_without_stable_version_is_a_diagnostic() {
    let d = crates_candidate(CratesPackageResponse {
        package: CratesPackage { max_stable_version: None },
    })
    .unwrap_err();
    assert_eq!(d.code, "stable_version_unavailable");
    let c = crates_candidate(CratesPackageResponse {
        package: CratesPackage { max_stable_version: Some("0.3.0".to_string()) },
    })
    .unwrap();
    assert_eq!(c.release_url, "https://crates.io/crates/relay-gitcode-cli");
}

#[test]
fn update_config_reads_environment_values() {
    let config = UpdateConfig::from_environment(Some("off"), Some("crates"), None).unwrap();
    assert!(!config.enabled);
    assert_eq!(config.sources, vec![UpdateSource::CratesIo]);
    assert!(UpdateConfig::from_environment(Some("maybe"), None, None).is_err());
    assert!(UpdateConfig::from_environment(None, Some("npm"), None).is_err());
}

#[test]
fn disabled_check_reports_one_diagnostic() {
    let config = UpdateConfig {
        enabled: false,
        sources: vec![UpdateSource::Github],
        github_repo: "a/b".to_string(),
    };
    let response = check_for_updates(&config, stable_version("0.1.0").unwrap(), Vec::new(), 5);
    assert_eq!(response.diagnostics.len(), 1);
    assert_eq!(response.diagnostics[0].code, "update_check_disabled");
    assert_eq!(response.checked_at_unix_ms, 5);
    assert_eq!(response.latest_version, None);
    assert_eq!(response.source, None);
    assert_eq!(response.release_url, None);
    assert!(!response.update_available);
    assert_eq!(response.diagnostics[0].source, None);
    assert!(!response.diagnostics[0].retryable);
}

#[test]
fn enabled_check_separates_candidates_and_diagnostics() {
    let config = UpdateConfig {
        enabled: true,
        sources: vec![UpdateSource::Github, UpdateSource::CratesIo],
        github_repo: "a/b".to_string(),
    };
    let failed = crates_candidate(CratesPackageResponse {
        package: CratesPackage { max_stable_version: None },
    });
    let found = github_candidate(GithubLatestRelease {
        tag_name: "v9.0.0".to_string(),
        html_url: "u".to_string(),
        prerelease: false,
    });
    let response =
        check_for_updates(&config, stable_version("0.1.0").unwrap(), vec![found, failed], 1);
    assert_eq!(response.latest_version.as_deref(), Some("9.0.0"));
    assert!(response.update_available);
    assert_eq!(response.diagnostics.len(), 1);
}
