use relay_gitcode_cli::release_migration::{release_lookup, upload_url_reply};
use relay_gitcode_cli::client::HttpMethod;
use relay_gitcode_cli::json::Json;
use relay_gitcode_cli::release_migration::{
    accumulate, asset_names, encode_path_segment, extract_upload_url, github_release_url,
    github_releases_page_url, gitcode_release_endpoint, gitcode_upload_url_endpoint,
    is_missing_release, migrate_release, release_step, validate_options, AssetMigrationRecord,
    GithubAsset, GithubRelease, ReleaseMigrationOptions, ReleaseMigrationRecord,
    ReleaseMigrationSummary, ReleaseMigrationTotals, ReleaseStep,
};

fn s(v: &str) -> Json {
    Json::Str(v.to_string())
}

fn obj(entries: Vec<(&str, Json)>) -> Json {
    Json::Object(entries.into_iter().map(|(k, v)| (k.to_string(), v)).collect())
}

fn options(tag: Option<&str>, all: bool) -> ReleaseMigrationOptions {
    ReleaseMigrationOptions {
        gitcode_repo: "owner/repo".to_string(),
        github_repo: "source/repo".to_string(),
        tag: tag.map(str::to_string),
        all,
        skip_existing_assets: true,
        update_release: true,
        dry_run: false,
        github_token: None,
    }
}

fn release(tag: &str, draft: bool, assets: &[&str]) -> GithubRelease {
    GithubRelease {
        tag_name: tag.to_string(),
        target_commitish: "main".to_string(),
        name: Some("Name".to_string()),
        body: None,
        draft,
        prerelease: false,
        assets: assets
            .iter()
            .map(|n| GithubAsset {
                name: n.to_string(),
                browser_download_url: format!("https://example.com/{n}"),
                content_type: None,
                size: 3,
            })
            .collect(),
    }
}

#[test]
fn validates_tag_or_all_is_exclusive() {
    assert!(validate_options(&options(None, false)).is_err());
}

#[test]
fn tag_and_all_together_are_refused() {
    assert!(validate_options(&options(Some("v1"), true)).is_err());
    assert!(validate_options(&options(Some("v1"), false)).is_ok());
    assert!(validate_options(&options(None, true)).is_ok());
}

#[test]
fn extracts_nested_upload_url() {
    let body = obj(vec![("data", obj(vec![("upload_url", s("https://api.gitcode.com/upload"))]))]);
    assert_eq!(
        extract_upload_url(&body, None).as_deref(),
        Some("https://api.gitcode.com/upload")
    );
}

#[test]
fn upload_url_falls_back_to_location_header() {
    assert_eq!(
        extract_upload_url(&Json::Null, Some("https://up.example/x")).as_deref(),
        Some("https://up.example/x")
    );
    assert_eq!(extract_upload_url(&Json::Null, Some("not a url")), None);
}

#[test]
fn collects_release_asset_names() {
    let value = obj(vec![
        ("assets", Json::Array(vec![obj(vec![("name", s("a.tar.gz"))])])),
        (
            "data",
            obj(vec![("assets", Json::Array(vec![obj(vec![("name", s("b.zip"))])]))]),
        ),
    ]);
    let names = asset_names(&value);
    assert!(names.iter().any(|n| n == "a.tar.gz"));
    assert!(names.iter().any(|n| n == "b.zip"));
}

#[test]
fn release_migration_encodes_path_segments() {
    assert_eq!(encode_path_segment("v1.0.0"), "v1.0.0");
    assert_eq!(encode_path_segment("release/one"), "release%2Fone");
}

#[test]
fn release_urls_and_endpoints() {
    assert_eq!(
        github_release_url("a/b", "v1/x"),
        "https://api.github.com/repos/a/b/releases/tags/v1%2Fx"
    );
    assert_eq!(
        github_releases_page_url("a/b", 2),
        "https://api.github.com/repos/a/b/releases?per_page=100&page=2"
    );
    assert_eq!(gitcode_release_endpoint("a/b", "v1"), "repos/a/b/releases/tags/v1");
    assert_eq!(
        gitcode_upload_url_endpoint("a/b", "v1"),
        "repos/a/b/releases/v1/upload_url"
    );
}

#[test]
fn missing_release_is_recognized_by_status_or_message() {
    assert!(is_missing_release(404, &Json::Null));
    assert!(!is_missing_release(500, &Json::Null));
    assert!(is_missing_release(400, &obj(vec![("message", s("Release Not Found"))])));
    assert!(!is_missing_release(404, &obj(vec![("message", s("repo not found"))])));
}

#[test]
fn release_step_creates_updates_or_keeps() {
    let mut o = options(Some("v1"), false);
    let r = release("v1", false, &[]);
    match release_step(&o, &r, false) {
        ReleaseStep::Create(q) => {
            assert_eq!(q.method, HttpMethod::Post);
            assert_eq!(q.endpoint, "repos/owner/repo/releases");
        }
        other => panic!("{other:?}"),
    }
    match release_step(&o, &r, true) {
        ReleaseStep::Update(q) => {
            assert_eq!(q.method, HttpMethod::Patch);
            assert_eq!(q.endpoint, "repos/owner/repo/releases/v1");
        }
        other => panic!("{other:?}"),
    }
    o.dry_run = true;
    assert_eq!(release_step(&o, &r, false), ReleaseStep::Keep);
    let d = release("v1", true, &[]);
    o.dry_run = false;
    assert_eq!(release_step(&o, &d, false), ReleaseStep::Keep);
}

#[test]
fn migrate_release_skips_existing_assets_and_uploads_others() {
    let o = options(Some("v1"), false);
    let r = release("v1", false, &["a.zip", "b.zip"]);
    let existing = obj(vec![(
        "assets",
        Json::Array(vec![obj(vec![("name", s("a.zip"))])]),
    )]);
    let written = obj(vec![(
        "assets",
        Json::Array(vec![obj(vec![("name", s("a.zip"))])]),
    )]);
    let plan = migrate_release(&o, &r, Some(existing), Some(written));
    assert_eq!(plan.record.action, "updated");
    assert_eq!(plan.uploads, vec![1]);
    assert_eq!(plan.record.assets.len(), 2);
    assert_eq!(plan.record.assets[0].action, "skipped_existing");
    assert_eq!(plan.record.assets[1].action, "uploaded");
    assert!(plan.failure.is_none());
}

#[test]
fn migrate_release_fails_on_existing_asset_without_skip() {
    let mut o = options(Some("v1"), false);
    o.skip_existing_assets = false;
    let r = release("v1", false, &["a.zip", "b.zip"]);
    let written = obj(vec![(
        "assets",
        Json::Array(vec![obj(vec![("name", s("a.zip"))])]),
    )]);
    let plan = migrate_release(&o, &r, None, Some(written));
    assert_eq!(plan.record.action, "created");
    assert!(plan.uploads.is_empty());
    assert!(plan.failure.is_some());
}

#[test]
fn draft_release_is_skipped() {
    let o = options(Some("v1"), false);
    let plan = migrate_release(&o, &release("v1", true, &["a"]), None, None);
    assert_eq!(plan.record.action, "skipped_draft");
    assert!(plan.record.assets.is_empty());
}

#[test]
fn totals_count_each_release_and_asset() {
    let mut totals = ReleaseMigrationTotals::default();
    let record = ReleaseMigrationRecord {
        tag: "v1".to_string(),
        action: "created".to_string(),
        assets: vec![
            AssetMigrationRecord { name: "a".to_string(), action: "uploaded".to_string(), size: 1 },
            AssetMigrationRecord {
                name: "b".to_string(),
                action: "skipped_existing".to_string(),
                size: 1,
            },
        ],
    };
    accumulate(&mut totals, &record);
    assert_eq!(totals.releases_created, 1);
    assert_eq!(totals.assets_uploaded, 1);
    assert_eq!(totals.assets_skipped, 1);
    let mut summary = ReleaseMigrationSummary::start("a/b".to_string(), "c/d".to_string(), false);
    summary.add_record(record);
    assert_eq!(summary.releases.len(), 1);
    assert_eq!(
        summary.text_summary(),
        "releases: created=1 updated=0 skipped=0 assets: uploaded=1 skipped=1 failed=0"
    );
}

#[test]
fn release_lookup_distinguishes_missing_from_failed() {
    assert_eq!(
        release_lookup(true, 200, "200 OK", s("r"), "\"r\"").unwrap(),
        Some(s("r"))
    );
    assert_eq!(release_lookup(false, 404, "404", Json::Null, "null").unwrap(), None);
    assert_eq!(
        release_lookup(false, 500, "500", obj(vec![("message", s("boom"))]), "{}").unwrap_err(),
        "GitCode API returned 500: boom"
    );
    assert_eq!(
        upload_url_reply(true, "200", &s("https://u.example/x"), "", None).unwrap(),
        "https://u.example/x"
    );
    assert_eq!(
        upload_url_reply(true, "200", &Json::Null, "null", Some("ftp://x")).unwrap_err(),
        "GitCode upload_url response did not include a URL"
    );
    assert_eq!(
        upload_url_reply(false, "403", &Json::Null, "null", None).unwrap_err(),
        "GitCode API returned 403: null"
    );
}

#[test]
fn record_fits_guards_the_totals() {
    let summary = ReleaseMigrationSummary::start("a/b".to_string(), "c/d".to_string(), true);
    let record = ReleaseMigrationRecord {
        tag: "v".to_string(),
        action: "would_create".to_string(),
        assets: Vec::new(),
    };
    assert!(summary.record_fits(&record));
}

#[test]
fn dry_run_plans_uploads_without_sending_them() {
    let mut o = options(Some("v1"), false);
    o.dry_run = true;
    let r = release("v1", false, &["a.zip", "b.zip"]);
    assert_eq!(release_step(&o, &r, false), ReleaseStep::Keep);
    let plan = migrate_release(&o, &r, None, None);
    assert_eq!(plan.record.action, "would_create");
    assert!(plan.uploads.is_empty());
    assert_eq!(plan.record.assets.len(), 2);
    assert!(plan.record.assets.iter().all(|a| a.action == "would_upload"));
}

#[test]
fn record_fits_looks_only_at_the_counters_it_moves() {
    let mut summary = ReleaseMigrationSummary::start("a/b".to_string(), "c/d".to_string(), false);
    summary.totals.assets_failed = u32::MAX;
    summary.totals.releases_skipped = u32::MAX;
    let record = ReleaseMigrationRecord {
        tag: "v".to_string(),
        action: "created".to_string(),
        assets: vec![AssetMigrationRecord {
            name: "a".to_string(),
            action: "uploaded".to_string(),
            size: 1,
        }],
    };
    assert!(summary.record_fits(&record));
    summary.add_record(record);
    assert_eq!(summary.totals.releases_created, 1);
    assert_eq!(summary.totals.assets_uploaded, 1);
    assert_eq!(summary.totals.assets_failed, u32::MAX);
    let failing = ReleaseMigrationRecord {
        tag: "w".to_string(),
        action: "updated".to_string(),
        assets: vec![AssetMigrationRecord {
            name: "b".to_string(),
            action: "failed".to_string(),
            size: 1,
        }],
    };
    assert!(!summary.record_fits(&failing));
}
