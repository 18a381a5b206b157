//! Migrating GitHub Releases and their assets into GitCode: what to ask
//! GitHub and GitCode, what to do with each release and asset, and the
//! summary of a migration.
use vstd::prelude::*;
use crate::client::{HttpMethod, Request, body_view, sview_opt, text_field, text_field_of};
use crate::error::GdError;
use crate::json::{Json, JsonV, entries_view, get_key, jv, jvs, key_index};
use crate::num::decimal;
use crate::text::{append_str, from_chars, has_sub, lower, to_chars};
use crate::weburl::{url_parses, url_scheme};
use vstd::string::StringSliceAdditionalSpecFns;

pub use crate::encoding::encode_path_segment;

verus! {

/// What to migrate, from where to where.
#[derive(Debug, Clone, PartialEq, Eq)]
pub struct ReleaseMigrationOptions {
    pub gitcode_repo: String,
    pub github_repo: String,
    pub tag: Option<String>,
    pub all: bool,
    pub skip_existing_assets: bool,
    pub update_release: bool,
    pub dry_run: bool,
    pub github_token: Option<String>,
}

/// How many releases and assets went which way.
#[derive(Debug, Clone, Copy, PartialEq, Eq, Structural)]
pub struct ReleaseMigrationTotals {
    pub releases_created: u32,
    pub releases_updated: u32,
    pub releases_skipped: u32,
    pub assets_uploaded: u32,
    pub assets_skipped: u32,
    pub assets_failed: u32,
}

/// What happened to one asset.
#[derive(Debug, Clone, PartialEq, Eq)]
pub struct AssetMigrationRecord {
    pub name: String,
    pub action: String,
    pub size: u64,
}

/// What happened to one release and its assets.
#[derive(Debug, Clone, PartialEq, Eq)]
pub struct ReleaseMigrationRecord {
    pub tag: String,
    pub action: String,
    pub assets: Vec<AssetMigrationRecord>,
}

/// The outcome of a migration.
#[derive(Debug, Clone, PartialEq, Eq)]
pub struct ReleaseMigrationSummary {
    pub gitcode_repo: String,
    pub github_repo: String,
    pub dry_run: bool,
    pub totals: ReleaseMigrationTotals,
    pub releases: Vec<ReleaseMigrationRecord>,
}

/// A GitHub release, as the GitHub api describes it.
#[derive(Debug, Clone, PartialEq, Eq)]
pub struct GithubRelease {
    pub tag_name: String,
    pub target_commitish: String,
    pub name: Option<String>,
    pub body: Option<String>,
    pub draft: bool,
    pub prerelease: bool,
    pub assets: Vec<GithubAsset>,
}

/// An asset of a GitHub release.
#[derive(Debug, Clone, PartialEq, Eq)]
pub struct GithubAsset {
    pub name: String,
    pub browser_download_url: String,
    pub content_type: Option<String>,
    pub size: u64,
}

impl Default for ReleaseMigrationTotals {
    /// All counts zero.
    fn default() -> (r: ReleaseMigrationTotals)
        ensures
            r == zero_totals(),
    {
        ReleaseMigrationTotals {
            releases_created: 0,
            releases_updated: 0,
            releases_skipped: 0,
            assets_uploaded: 0,
            assets_skipped: 0,
            assets_failed: 0,
        }
    }
}

/// All counts zero.
pub open spec fn zero_totals() -> ReleaseMigrationTotals {
    ReleaseMigrationTotals {
        releases_created: 0,
        releases_updated: 0,
        releases_skipped: 0,
        assets_uploaded: 0,
        assets_skipped: 0,
        assets_failed: 0,
    }
}

/// The one-line text of a summary.
pub open spec fn summary_text(t: ReleaseMigrationTotals) -> Seq<char> {
    "releases: created="@ + decimal(t.releases_created as nat) + " updated="@ + decimal(
        t.releases_updated as nat,
    ) + " skipped="@ + decimal(t.releases_skipped as nat) + " assets: uploaded="@ + decimal(
        t.assets_uploaded as nat,
    ) + " skipped="@ + decimal(t.assets_skipped as nat) + " failed="@ + decimal(
        t.assets_failed as nat,
    )
}

/// Appends the decimal text of `n`.
fn push_number(out: &mut Vec<char>, n: u32)
    ensures
        final(out)@ == old(out)@ + decimal(n as nat),
{
    let t = crate::num::u64_to_text(n as u64);
    append_str(out, t.as_str());
}

impl ReleaseMigrationSummary {
    /// The counts as one line of text.
    pub fn text_summary(&self) -> (r: String)
        ensures
            r@ == summary_text(self.totals),
    {
        let t = self.totals;
        let mut out = to_chars("releases: created=");
        push_number(&mut out, t.releases_created);
        append_str(&mut out, " updated=");
        push_number(&mut out, t.releases_updated);
        append_str(&mut out, " skipped=");
        push_number(&mut out, t.releases_skipped);
        append_str(&mut out, " assets: uploaded=");
        push_number(&mut out, t.assets_uploaded);
        append_str(&mut out, " skipped=");
        push_number(&mut out, t.assets_skipped);
        append_str(&mut out, " failed=");
        push_number(&mut out, t.assets_failed);
        from_chars(&out)
    }

    /// A summary with no release yet.
    pub fn start(gitcode_repo: String, github_repo: String, dry_run: bool) -> (r:
        ReleaseMigrationSummary)
        ensures
            r.gitcode_repo == gitcode_repo,
            r.github_repo == github_repo,
            r.dry_run == dry_run,
            r.totals == zero_totals(),
            r.releases@.len() == 0,
    {
        ReleaseMigrationSummary {
            gitcode_repo,
            github_repo,
            dry_run,
            totals: ReleaseMigrationTotals::default(),
            releases: Vec::new(),
        }
    }

    /// Whether the totals can count `record` without overflowing.
    pub fn record_fits(&self, record: &ReleaseMigrationRecord) -> (r: bool)
        ensures
            r == totals_fit(self.totals, *record),
    {
        let t = self.totals;
        let k = release_kind_exec(record.action.as_str());
        let (up, skip, fail) = count_kinds(&record.assets);
        (k != 0 || t.releases_created < u32::MAX) && (k != 1 || t.releases_updated < u32::MAX) && (k
            != 2 || t.releases_skipped < u32::MAX) && up <= 4294967295 - (t.assets_uploaded as u64)
            && skip <= 4294967295 - (t.assets_skipped as u64) && fail <= 4294967295 - (
        t.assets_failed as u64)
    }

    /// Counts a release's record and keeps it.
    pub fn add_record(&mut self, record: ReleaseMigrationRecord)
        requires
            totals_fit(old(self).totals, record),
        ensures
            final(self).totals == accumulated(old(self).totals, record),
            final(self).releases@ == old(self).releases@.push(record),
            final(self).gitcode_repo == old(self).gitcode_repo,
            final(self).github_repo == old(self).github_repo,
            final(self).dry_run == old(self).dry_run,
    {
        accumulate(&mut self.totals, &record);
        self.releases.push(record);
    }
}

/// The options are usable: the GitCode repository is `owner/repo`, the
/// GitHub repository names a repository, and exactly one of a tag and
/// `--all` is given; else the first of these that fails.
pub open spec fn options_fault(o: ReleaseMigrationOptions) -> Option<GdError> {
    if !crate::repo::is_repo(o.gitcode_repo@) {
        Some(GdError::RepoForm)
    } else if crate::repo::github_repo_spec(o.github_repo@) is None {
        Some(GdError::RepoForm)
    } else if o.all == (o.tag is Some) {
        Some(GdError::TagOrAll)
    } else {
        None
    }
}

/// Checks the options of a migration.
pub fn validate_options(options: &ReleaseMigrationOptions) -> (r: Result<(), GdError>)
    ensures
        match (r, options_fault(*options)) {
            (Ok(()), None) => true,
            (Err(e), Some(f)) => e == f,
            _ => false,
        },
{
    crate::repo::split_repo(options.gitcode_repo.as_str())?;
    crate::repo::parse_github_repo(options.github_repo.as_str())?;
    if options.all == options.tag.is_some() {
        return Err(GdError::TagOrAll);
    }
    Ok(())
}

/// The GitHub api URL of the release with tag `tag`.
pub fn github_release_url(repository: &str, tag: &str) -> (r: String)
    ensures
        r@ == "https://api.github.com/repos/"@ + repository@ + "/releases/tags/"@
            + crate::encoding::encode_segment_spec(tag.spec_bytes()),
{
    let mut out = to_chars("https://api.github.com/repos/");
    append_str(&mut out, repository);
    append_str(&mut out, "/releases/tags/");
    let enc = encode_path_segment(tag);
    append_str(&mut out, enc.as_str());
    from_chars(&out)
}

/// The GitHub api URL of page `page` of the releases, a hundred a page.
pub fn github_releases_page_url(repository: &str, page: u64) -> (r: String)
    ensures
        r@ == "https://api.github.com/repos/"@ + repository@ + "/releases?per_page=100&page="@
            + decimal(page as nat),
{
    let mut out = to_chars("https://api.github.com/repos/");
    append_str(&mut out, repository);
    append_str(&mut out, "/releases?per_page=100&page=");
    let p = crate::num::u64_to_text(page);
    append_str(&mut out, p.as_str());
    from_chars(&out)
}

/// A page of releases with fewer than a hundred is the last.
pub fn is_last_page(count: usize) -> (r: bool)
    ensures
        r == (count < 100),
{
    count < 100
}

/// The endpoint of the GitCode release with tag `tag`.
pub fn gitcode_release_endpoint(repository: &str, tag: &str) -> (r: String)
    ensures
        r@ == "repos/"@ + repository@ + "/releases/tags/"@ + crate::encoding::encode_segment_spec(
            tag.spec_bytes(),
        ),
{
    let mut out = to_chars("repos/");
    append_str(&mut out, repository);
    append_str(&mut out, "/releases/tags/");
    let enc = encode_path_segment(tag);
    append_str(&mut out, enc.as_str());
    from_chars(&out)
}

/// The endpoint that names where to upload assets of the release `tag`.
pub fn gitcode_upload_url_endpoint(repository: &str, tag: &str) -> (r: String)
    ensures
        r@ == "repos/"@ + repository@ + "/releases/"@ + crate::encoding::encode_segment_spec(
            tag.spec_bytes(),
        ) + "/upload_url"@,
{
    let mut out = to_chars("repos/");
    append_str(&mut out, repository);
    append_str(&mut out, "/releases/");
    let enc = encode_path_segment(tag);
    append_str(&mut out, enc.as_str());
    append_str(&mut out, "/upload_url");
    from_chars(&out)
}

/// The GitCode release that mirrors a GitHub release: its body, name (the
/// tag when it has none), prerelease flag, tag and target, keys in order.
pub open spec fn release_body(r: GithubRelease) -> JsonV {
    JsonV::Object(
        seq![
            ("body"@, JsonV::Str(
                match r.body {
                    Some(b) => b@,
                    None => seq![],
                },
            )),
            ("name"@, JsonV::Str(
                match r.name {
                    Some(n) => n@,
                    None => r.tag_name@,
                },
            )),
            ("prerelease"@, JsonV::Bool(r.prerelease)),
            ("tag_name"@, JsonV::Str(r.tag_name@)),
            ("target_commitish"@, JsonV::Str(r.target_commitish@)),
        ],
    )
}

/// A copy of a string.
fn copy(s: &str) -> (r: String)
    ensures
        r@ == s@,
{
    from_chars(&to_chars(s))
}

/// The body that creates or updates the GitCode release of `release`.
pub fn gitcode_release_body(release: &GithubRelease) -> (r: Json)
    ensures
        r@ == release_body(*release),
{
    let body = match &release.body {
        Some(b) => copy(b.as_str()),
        None => String::new(),
    };
    let name = match &release.name {
        Some(n) => copy(n.as_str()),
        None => copy(release.tag_name.as_str()),
    };
    let mut entries: Vec<(String, Json)> = Vec::new();
    entries.push((copy("body"), Json::Str(body)));
    entries.push((copy("name"), Json::Str(name)));
    entries.push((copy("prerelease"), Json::Bool(release.prerelease)));
    entries.push((copy("tag_name"), Json::Str(copy(release.tag_name.as_str()))));
    entries.push((copy("target_commitish"), Json::Str(copy(release.target_commitish.as_str()))));
    proof {
        crate::json::lemma_object_view(entries);
        assert(entries_view(entries@) =~= release_body(*release)->Object_0);
    }
    Json::Object(entries)
}

/// The `assets` array of `v`, empty when there is none.
pub open spec fn assets_of(v: JsonV) -> Seq<JsonV> {
    match get_key(v, "assets"@) {
        Some(JsonV::Array(items)) => items,
        _ => seq![],
    }
}

/// The string `name` members of `items`, in order.
pub open spec fn names_of(items: Seq<JsonV>) -> Seq<Seq<char>>
    decreases items.len(),
{
    if items.len() == 0 {
        seq![]
    } else {
        match text_field(items.last(), "name"@) {
            Some(n) => names_of(items.drop_last()).push(n),
            None => names_of(items.drop_last()),
        }
    }
}

/// The asset names of a GitCode release value: those of its `assets`,
/// then those of the `assets` of its `data` member.
pub open spec fn asset_name_list(v: JsonV) -> Seq<Seq<char>> {
    names_of(assets_of(v)) + match get_key(v, "data"@) {
        Some(d) => names_of(assets_of(d)),
        None => seq![],
    }
}

/// Whether `v` holds `s`.
fn contains_string(v: &Vec<String>, s: &str) -> (r: bool)
    ensures
        r == v.deep_view().contains(s@),
{
    let sc = to_chars(s);
    let mut i: usize = 0;
    while i < v.len()
        invariant
            i <= v@.len(),
            sc@ == s@,
            forall|j: int| 0 <= j < i ==> v.deep_view()[j] != s@,
        decreases v@.len() - i,
    {
        if crate::text::chars_eq_str(&sc, v[i].as_str()) {
            assert(v.deep_view()[i as int] == s@);
            return true;
        }
        i = i + 1;
    }
    false
}

/// Adds the names of the assets of `value` to `names`, each once.
fn collect_asset_names(value: &Json, names: &mut Vec<String>)
    requires
        old(names).deep_view().no_duplicates(),
    ensures
        final(names).deep_view().no_duplicates(),
        forall|n: Seq<char>|
            final(names).deep_view().contains(n) <==> (old(names).deep_view().contains(n)
                || names_of(assets_of(value@)).contains(n)),
{
    let ghost start = names.deep_view();
    let items = match crate::json::get(value, "assets") {
        Some(Json::Array(items)) => items,
        _ => {
            assert(assets_of(value@) =~= Seq::<JsonV>::empty());
            assert(names_of(Seq::<JsonV>::empty()) =~= Seq::<Seq<char>>::empty());
            return;
        },
    };
    proof {
        crate::json::lemma_array_view(*items);
    }
    let ghost all = jvs(items@);
    assert(assets_of(value@) == all);
    let mut i: usize = 0;
    assert(all.take(0) =~= Seq::<JsonV>::empty());
    while i < items.len()
        invariant
            i <= items@.len(),
            all == jvs(items@),
            names.deep_view().no_duplicates(),
            forall|n: Seq<char>|
                names.deep_view().contains(n) <==> (start.contains(n) || names_of(
                    all.take(i as int),
                ).contains(n)),
        decreases items@.len() - i,
    {
        assert(all.take(i + 1).drop_last() =~= all.take(i as int));
        assert(all.take(i + 1).last() == jv(items@[i as int]));
        let ghost pre = names_of(all.take(i as int));
        let ghost names0 = names.deep_view();
        assert(forall|m: Seq<char>| names0.contains(m) <==> (start.contains(m) || pre.contains(m)));
        match text_field_of(&items[i], "name") {
            Some(n) => {
                let ghost nv = n@;
                let ghost post = names_of(all.take(i + 1));
                assert(post == pre.push(nv));
                assert forall|m: Seq<char>| post.contains(m) <==> (pre.contains(m) || m == nv) by {
                    if post.contains(m) && m != nv {
                        let k = choose|k: int| 0 <= k < post.len() && post[k] == m;
                        assert(pre[k] == m);
                    }
                    if pre.contains(m) {
                        let k = choose|k: int| 0 <= k < pre.len() && pre[k] == m;
                        assert(post[k] == m);
                    }
                    assert(post[pre.len() as int] == nv);
                }
                if !contains_string(names, n.as_str()) {
                    let ghost before = names.deep_view();
                    names.push(n);
                    assert(names.deep_view() =~= before.push(nv));
                    let ghost after = names.deep_view();
                    assert forall|m: Seq<char>| after.contains(m) <==> (before.contains(m) || m
                        == nv) by {
                        if after.contains(m) && m != nv {
                            let k = choose|k: int| 0 <= k < after.len() && after[k] == m;
                            assert(before[k] == m);
                        }
                        if before.contains(m) {
                            let k = choose|k: int| 0 <= k < before.len() && before[k] == m;
                            assert(after[k] == m);
                        }
                        assert(after[before.len() as int] == nv);
                    }
                    assert forall|a: int, b: int|
                        0 <= a < after.len() && 0 <= b < after.len() && a != b implies after[a]
                        != after[b] by {
                        if a < before.len() && b < before.len() {
                            assert(after[a] == before[a]);
                            assert(after[b] == before[b]);
                        } else if a == before.len() {
                            assert(after[b] == before[b]);
                        } else {
                            assert(after[a] == before[a]);
                        }
                    }
                    assert forall|m: Seq<char>|
                        after.contains(m) <==> (start.contains(m) || post.contains(m)) by {
                        assert(before.contains(m) <==> (start.contains(m) || pre.contains(m)));
                    }
                } else {
                    assert forall|m: Seq<char>|
                        names0.contains(m) <==> (start.contains(m) || post.contains(m)) by {
                        assert(names0.contains(m) <==> (start.contains(m) || pre.contains(m)));
                        if m == nv {
                            assert(names0.contains(nv));
                        }
                    }
                }
            },
            None => {
                assert(names_of(all.take(i + 1)) == pre);
            },
        }
        i = i + 1;
    }
    assert(all.take(all.len() as int) =~= all);
}

/// The names of the assets of a GitCode release value, each once.
pub fn asset_names(value: &Json) -> (r: Vec<String>)
    ensures
        r.deep_view().no_duplicates(),
        forall|n: Seq<char>| r.deep_view().contains(n) <==> asset_name_list(value@).contains(n),
{
    let mut names: Vec<String> = Vec::new();
    assert(names.deep_view() =~= Seq::<Seq<char>>::empty());
    collect_asset_names(value, &mut names);
    let ghost first = names_of(assets_of(value@));
    match crate::json::get(value, "data") {
        Some(data) => {
            collect_asset_names(data, &mut names);
            assert forall|n: Seq<char>|
                names.deep_view().contains(n) <==> asset_name_list(value@).contains(n) by {
                let second = names_of(assets_of(data@));
                assert(asset_name_list(value@) == first + second);
                if first.contains(n) {
                    let k = choose|k: int| 0 <= k < first.len() && first[k] == n;
                    assert((first + second)[k] == n);
                }
                if second.contains(n) {
                    let k = choose|k: int| 0 <= k < second.len() && second[k] == n;
                    assert((first + second)[first.len() + k] == n);
                }
                if (first + second).contains(n) {
                    let k = choose|k: int|
                        0 <= k < (first + second).len() && (first + second)[k] == n;
                    if k < first.len() {
                        assert(first[k] == n);
                    } else {
                        assert(second[k - first.len()] == n);
                    }
                }
            }
        },
        None => {
            assert(asset_name_list(value@) =~= first);
        },
    }
    names
}

/// `s` is an http or https URL.
pub open spec fn is_url(s: Seq<char>) -> bool {
    url_parses(s) && (url_scheme(s) == "http"@ || url_scheme(s) == "https"@)
}

/// Whether `s` is an http or https URL.
pub fn is_url_exec(s: &str) -> (r: bool)
    ensures
        r == is_url(s@),
{
    match crate::weburl::parse_url(s) {
        Some(p) => {
            let c = to_chars(p.scheme.as_str());
            crate::text::chars_eq_str(&c, "http") || crate::text::chars_eq_str(&c, "https")
        },
        None => false,
    }
}

/// The string member `key` of `v`, when it is a URL.
pub open spec fn url_member(v: JsonV, key: Seq<char>) -> Option<Seq<char>> {
    match text_field(v, key) {
        Some(s) => if is_url(s) {
            Some(s)
        } else {
            None
        },
        None => None,
    }
}

/// Where a GitCode upload_url response names the upload URL: the value
/// itself when it is a URL string; else its `upload_url`, `url` or `href`
/// member that is a URL; else the same inside its `data` member.
pub open spec fn upload_url_in(v: JsonV) -> Option<Seq<char>>
    decreases v,
{
    match v {
        JsonV::Str(s) => if is_url(s) {
            Some(s)
        } else {
            None
        },
        JsonV::Object(es) => match url_member(v, "upload_url"@) {
            Some(u) => Some(u),
            None => match url_member(v, "url"@) {
                Some(u) => Some(u),
                None => match url_member(v, "href"@) {
                    Some(u) => Some(u),
                    None => match key_index(es, "data"@) {
                        Some(i) => if 0 <= i < es.len() {
                            upload_url_in(es[i].1)
                        } else {
                            None
                        },
                        None => None,
                    },
                },
            },
        },
        _ => None,
    }
}

/// The upload URL named in the body of an upload_url response.
pub fn extract_upload_url_from_body(value: &Json) -> (r: Option<String>)
    ensures
        sview_opt(r) == upload_url_in(value@),
    decreases value,
{
    match value {
        Json::Str(s) => {
            if is_url_exec(s.as_str()) {
                Some(copy(s.as_str()))
            } else {
                None
            }
        },
        Json::Object(entries) => {
            proof {
                crate::json::lemma_object_view(*entries);
            }
            if let Some(u) = text_field_of(value, "upload_url") {
                if is_url_exec(u.as_str()) {
                    return Some(u);
                }
            }
            if let Some(u) = text_field_of(value, "url") {
                if is_url_exec(u.as_str()) {
                    return Some(u);
                }
            }
            if let Some(u) = text_field_of(value, "href") {
                if is_url_exec(u.as_str()) {
                    return Some(u);
                }
            }
            let ghost es = entries_view(entries@);
            let mut i: usize = 0;
            while i < entries.len()
                invariant
                    i <= entries@.len(),
                    *value == Json::Object(*entries),
                    es == entries_view(entries@),
                    value@ == JsonV::Object(es),
                    url_member(value@, "upload_url"@) is None,
                    url_member(value@, "url"@) is None,
                    url_member(value@, "href"@) is None,
                    forall|j: int| 0 <= j < i ==> es[j].0 != "data"@,
                decreases entries@.len() - i,
            {
                if crate::text::chars_eq_str(&to_chars(entries[i].0.as_str()), "data") {
                    proof {
                        crate::json::lemma_key_index_is(es, "data"@, i as int);
                        assert(es[i as int].1 == jv(entries@[i as int].1));
                        assert(decreases_to!(*value => (*value)->Object_0));
                        assert(decreases_to!(*entries => entries@));
                        assert(decreases_to!(entries@ => entries@[i as int]));
                        assert(decreases_to!(entries@[i as int] => entries@[i as int].1));
                    }
                    return extract_upload_url_from_body(&entries[i].1);
                }
                i = i + 1;
            }
            proof {
                crate::json::lemma_key_index_is(es, "data"@, es.len() as int);
            }
            None
        },
        _ => None,
    }
}

/// The upload URL of an upload_url response: from its body, else from its
/// `Location` header when that is a URL.
pub fn extract_upload_url(body: &Json, location: Option<&str>) -> (r: Option<String>)
    ensures
        sview_opt(r) == match upload_url_in(body@) {
            Some(u) => Some(u),
            None => match location {
                Some(l) => if is_url(l@) {
                    Some(l@)
                } else {
                    None
                },
                None => None,
            },
        },
{
    match extract_upload_url_from_body(body) {
        Some(u) => Some(u),
        None => match location {
            Some(l) => if is_url_exec(l) {
                Some(copy(l))
            } else {
                None
            },
            None => None,
        },
    }
}

/// The message of a GitCode error body: its `message`, `error` or
/// `error_message` member that is a string.
pub open spec fn body_message_spec(v: JsonV) -> Option<Seq<char>> {
    match text_field(v, "message"@) {
        Some(m) => Some(m),
        None => match text_field(v, "error"@) {
            Some(m) => Some(m),
            None => text_field(v, "error_message"@),
        },
    }
}

/// The message of a GitCode error body.
pub fn body_message(value: &Json) -> (r: Option<String>)
    ensures
        sview_opt(r) == body_message_spec(value@),
{
    match text_field_of(value, "message") {
        Some(m) => Some(m),
        None => match text_field_of(value, "error") {
            Some(m) => Some(m),
            None => text_field_of(value, "error_message"),
        },
    }
}

/// A release lookup that failed because the release does not exist: 404 or
/// 400, with no message or a message that mentions a release.
pub open spec fn missing_release(status: u16, body: JsonV) -> bool {
    (status == 404 || status == 400) && match body_message_spec(body) {
        Some(m) => has_sub(lower(m), "release"@),
        None => true,
    }
}

/// Whether a failed release lookup means that the release does not exist.
pub fn is_missing_release(status: u16, body: &Json) -> (r: bool)
    ensures
        r == missing_release(status, body@),
{
    if status != 404 && status != 400 {
        return false;
    }
    match body_message(body) {
        Some(m) => {
            let l = crate::text::lower_chars(&to_chars(m.as_str()));
            crate::text::contains_chars(&l, &to_chars("release"))
        },
        None => true,
    }
}

/// The error of a failed GitCode call: the body's message, else the body
/// written as JSON (`body_text`).
pub fn api_response_error(status: &str, body: &Json, body_text: &str) -> (r: String)
    ensures
        r@ == "GitCode API returned "@ + status@ + ": "@ + match body_message_spec(body@) {
            Some(m) => m,
            None => body_text@,
        },
{
    let message = match body_message(body) {
        Some(m) => m,
        None => copy(body_text),
    };
    let mut out = to_chars("GitCode API returned ");
    append_str(&mut out, status);
    append_str(&mut out, ": ");
    append_str(&mut out, message.as_str());
    from_chars(&out)
}

/// Which count a release action adds to: 0 created, 1 updated, 2 skipped.
pub open spec fn release_kind(action: Seq<char>) -> int {
    if action == "created"@ || action == "would_create"@ {
        0
    } else if action == "updated"@ || action == "would_update"@ {
        1
    } else {
        2
    }
}

/// Which count an asset action adds to: 0 uploaded, 1 skipped, 2 failed.
pub open spec fn asset_kind(action: Seq<char>) -> int {
    if action == "uploaded"@ || action == "would_upload"@ {
        0
    } else if action == "skipped_existing"@ {
        1
    } else {
        2
    }
}

/// How many of `assets` have an action of kind `k`.
pub open spec fn count_kind(assets: Seq<AssetMigrationRecord>, k: int) -> nat
    decreases assets.len(),
{
    if assets.len() == 0 {
        0
    } else {
        count_kind(assets.drop_last(), k) + if asset_kind(assets.last().action@) == k {
            1nat
        } else {
            0nat
        }
    }
}

/// The totals counted up by one release record.
pub open spec fn accumulated(t: ReleaseMigrationTotals, r: ReleaseMigrationRecord) -> ReleaseMigrationTotals {
    let k = release_kind(r.action@);
    ReleaseMigrationTotals {
        releases_created: (t.releases_created + if k == 0 {
            1int
        } else {
            0
        }) as u32,
        releases_updated: (t.releases_updated + if k == 1 {
            1int
        } else {
            0
        }) as u32,
        releases_skipped: (t.releases_skipped + if k == 2 {
            1int
        } else {
            0
        }) as u32,
        assets_uploaded: (t.assets_uploaded + count_kind(r.assets@, 0)) as u32,
        assets_skipped: (t.assets_skipped + count_kind(r.assets@, 1)) as u32,
        assets_failed: (t.assets_failed + count_kind(r.assets@, 2)) as u32,
    }
}

/// The counts stay within `u32` when `r` is counted: the release count of
/// its kind can grow by one, and each asset count by the assets of its kind.
pub open spec fn totals_fit(t: ReleaseMigrationTotals, r: ReleaseMigrationRecord) -> bool {
    let k = release_kind(r.action@);
    &&& k == 0 ==> t.releases_created < u32::MAX
    &&& k == 1 ==> t.releases_updated < u32::MAX
    &&& k == 2 ==> t.releases_skipped < u32::MAX
    &&& t.assets_uploaded + count_kind(r.assets@, 0) <= u32::MAX
    &&& t.assets_skipped + count_kind(r.assets@, 1) <= u32::MAX
    &&& t.assets_failed + count_kind(r.assets@, 2) <= u32::MAX
}

/// The kind of a release action.
fn release_kind_exec(action: &str) -> (r: u8)
    ensures
        r as int == release_kind(action@),
{
    let a = to_chars(action);
    if crate::text::chars_eq_str(&a, "created") || crate::text::chars_eq_str(&a, "would_create") {
        0
    } else if crate::text::chars_eq_str(&a, "updated") || crate::text::chars_eq_str(
        &a,
        "would_update",
    ) {
        1
    } else {
        2
    }
}

/// The kind of an asset action.
fn asset_kind_exec(action: &str) -> (r: u8)
    ensures
        r as int == asset_kind(action@),
{
    let b = to_chars(action);
    if crate::text::chars_eq_str(&b, "uploaded") || crate::text::chars_eq_str(&b, "would_upload") {
        0
    } else if crate::text::chars_eq_str(&b, "skipped_existing") {
        1
    } else {
        2
    }
}

/// How many assets there are of each kind.
fn count_kinds(assets: &Vec<AssetMigrationRecord>) -> (r: (u64, u64, u64))
    ensures
        r.0 == count_kind(assets@, 0),
        r.1 == count_kind(assets@, 1),
        r.2 == count_kind(assets@, 2),
{
    let ghost all = assets@;
    let mut c: (u64, u64, u64) = (0, 0, 0);
    let mut i: usize = 0;
    assert(all.take(0) =~= Seq::<AssetMigrationRecord>::empty());
    while i < assets.len()
        invariant
            i <= all.len(),
            all == assets@,
            c.0 == count_kind(all.take(i as int), 0),
            c.1 == count_kind(all.take(i as int), 1),
            c.2 == count_kind(all.take(i as int), 2),
        decreases all.len() - i,
    {
        assert(all.take(i + 1).drop_last() =~= all.take(i as int));
        assert(all.take(i + 1).last() == all[i as int]);
        proof {
            lemma_count_bound(all.take(i as int), 0);
            lemma_count_bound(all.take(i as int), 1);
            lemma_count_bound(all.take(i as int), 2);
        }
        let k = asset_kind_exec(assets[i].action.as_str());
        if k == 0 {
            c.0 = c.0 + 1;
        } else if k == 1 {
            c.1 = c.1 + 1;
        } else {
            c.2 = c.2 + 1;
        }
        i = i + 1;
    }
    assert(all.take(all.len() as int) =~= all);
    c
}

/// Counting the assets of a prefix gives no more than counting them all.
proof fn lemma_count_prefix(assets: Seq<AssetMigrationRecord>, i: int, k: int)
    requires
        0 <= i <= assets.len(),
    ensures
        count_kind(assets.take(i), k) <= count_kind(assets, k),
    decreases assets.len(),
{
    if i < assets.len() {
        lemma_count_prefix(assets.drop_last(), i, k);
        assert(assets.drop_last().take(i) =~= assets.take(i));
    } else {
        assert(assets.take(i) =~= assets);
    }
}

proof fn lemma_count_bound(assets: Seq<AssetMigrationRecord>, k: int)
    ensures
        count_kind(assets, k) <= assets.len(),
    decreases assets.len(),
{
    if assets.len() > 0 {
        lemma_count_bound(assets.drop_last(), k);
    }
}

/// Counts a release record into the totals.
pub fn accumulate(totals: &mut ReleaseMigrationTotals, record: &ReleaseMigrationRecord)
    requires
        totals_fit(*old(totals), *record),
    ensures
        *final(totals) == accumulated(*old(totals), *record),
{
    let k = release_kind_exec(record.action.as_str());
    if k == 0 {
        totals.releases_created = totals.releases_created + 1;
    } else if k == 1 {
        totals.releases_updated = totals.releases_updated + 1;
    } else {
        totals.releases_skipped = totals.releases_skipped + 1;
    }
    let ghost t1 = *totals;
    let ghost assets = record.assets@;
    let mut i: usize = 0;
    assert(assets.take(0) =~= Seq::<AssetMigrationRecord>::empty());
    while i < record.assets.len()
        invariant
            i <= assets.len(),
            assets == record.assets@,
            totals.releases_created == t1.releases_created,
            totals.releases_updated == t1.releases_updated,
            totals.releases_skipped == t1.releases_skipped,
            totals.assets_uploaded == t1.assets_uploaded + count_kind(assets.take(i as int), 0),
            totals.assets_skipped == t1.assets_skipped + count_kind(assets.take(i as int), 1),
            totals.assets_failed == t1.assets_failed + count_kind(assets.take(i as int), 2),
            t1.assets_uploaded + count_kind(assets, 0) <= u32::MAX,
            t1.assets_skipped + count_kind(assets, 1) <= u32::MAX,
            t1.assets_failed + count_kind(assets, 2) <= u32::MAX,
        decreases assets.len() - i,
    {
        assert(assets.take(i + 1).drop_last() =~= assets.take(i as int));
        assert(assets.take(i + 1).last() == assets[i as int]);
        proof {
            lemma_count_prefix(assets, i + 1, 0);
            lemma_count_prefix(assets, i + 1, 1);
            lemma_count_prefix(assets, i + 1, 2);
        }
        let k = asset_kind_exec(record.assets[i].action.as_str());
        if k == 0 {
            totals.assets_uploaded = totals.assets_uploaded + 1;
        } else if k == 1 {
            totals.assets_skipped = totals.assets_skipped + 1;
        } else {
            totals.assets_failed = totals.assets_failed + 1;
        }
        i = i + 1;
    }
    assert(assets.take(assets.len() as int) =~= assets);
}

/// Counting a release record adds one release and as many assets as the
/// record holds.
pub proof fn law_accumulate_counts(t: ReleaseMigrationTotals, r: ReleaseMigrationRecord)
    requires
        totals_fit(t, r),
    ensures
        ({
            let n = accumulated(t, r);
            &&& n.releases_created + n.releases_updated + n.releases_skipped == t.releases_created
                + t.releases_updated + t.releases_skipped + 1
            &&& n.assets_uploaded + n.assets_skipped + n.assets_failed == t.assets_uploaded
                + t.assets_skipped + t.assets_failed + r.assets@.len()
        }),
{
    lemma_count_bound(r.assets@, 0);
    lemma_count_bound(r.assets@, 1);
    lemma_count_bound(r.assets@, 2);
    lemma_count_total(r.assets@);
}

proof fn lemma_count_total(assets: Seq<AssetMigrationRecord>)
    ensures
        count_kind(assets, 0) + count_kind(assets, 1) + count_kind(assets, 2) == assets.len(),
    decreases assets.len(),
{
    if assets.len() > 0 {
        lemma_count_total(assets.drop_last());
    }
}


/// The action recorded for a release: drafts are skipped; an existing
/// release is updated when asked, else skipped; a missing one is created;
/// in a dry run each of these is only announced.
pub open spec fn release_action(draft: bool, exists: bool, dry_run: bool, update: bool) -> Seq<char> {
    if draft {
        "skipped_draft"@
    } else if exists {
        if dry_run && update {
            "would_update"@
        } else if dry_run {
            "would_skip"@
        } else if update {
            "updated"@
        } else {
            "skipped"@
        }
    } else if dry_run {
        "would_create"@
    } else {
        "created"@
    }
}

/// What to do about a release on GitCode before its assets.
#[derive(Debug, PartialEq, Eq)]
pub enum ReleaseStep {
    /// Nothing to send.
    Keep,
    /// Update the existing release.
    Update(Request),
    /// Create the release.
    Create(Request),
}

/// The endpoint of a release by tag, for updates.
pub open spec fn release_patch_endpoint(repo: Seq<char>, tag: String) -> Seq<char> {
    "repos/"@ + repo + "/releases/"@ + crate::encoding::encode_segment_spec(vstd::utf8::encode_utf8(tag@))
}

/// The request, if any, that brings the GitCode release in line with the
/// GitHub release: a PATCH of the existing release when updating outside a
/// dry run, a POST of a new one when it is missing outside a dry run.
pub fn release_step(options: &ReleaseMigrationOptions, release: &GithubRelease, exists: bool) -> (r:
    ReleaseStep)
    ensures
        !release.draft && exists && !options.dry_run && options.update_release ==> (r matches ReleaseStep::Update(q)
            && q.method == HttpMethod::Patch && q.endpoint@ == release_patch_endpoint(
            options.gitcode_repo@,
            release.tag_name,
        ) && q.query@.len() == 0 && body_view(q.body) == Some(release_body(*release))),
        !release.draft && !exists && !options.dry_run ==> (r matches ReleaseStep::Create(q)
            && q.method == HttpMethod::Post && q.endpoint@ == "repos/"@ + options.gitcode_repo@
            + "/releases"@ && q.query@.len() == 0 && body_view(q.body) == Some(
            release_body(*release),
        )),
        (release.draft || options.dry_run || (exists && !options.update_release)) ==> r
            == ReleaseStep::Keep,
{
    if release.draft || options.dry_run || (exists && !options.update_release) {
        return ReleaseStep::Keep;
    }
    let body = gitcode_release_body(release);
    let q: Vec<(String, String)> = Vec::new();
    if exists {
        let mut out = to_chars("repos/");
        append_str(&mut out, options.gitcode_repo.as_str());
        append_str(&mut out, "/releases/");
        let enc = encode_path_segment(release.tag_name.as_str());
        append_str(&mut out, enc.as_str());
        let req = Request::new(HttpMethod::Patch, from_chars(&out), q, Some(body));
        assert(q.deep_view() =~= Seq::<(Seq<char>, Seq<char>)>::empty());
        assert(req.query.deep_view().len() == 0);
        assert(req.endpoint@ == release_patch_endpoint(options.gitcode_repo@, release.tag_name));
        ReleaseStep::Update(req)
    } else {
        let mut out = to_chars("repos/");
        append_str(&mut out, options.gitcode_repo.as_str());
        append_str(&mut out, "/releases");
        let req = Request::new(HttpMethod::Post, from_chars(&out), q, Some(body));
        assert(q.deep_view() =~= Seq::<(Seq<char>, Seq<char>)>::empty());
        assert(req.query.deep_view().len() == 0);
        ReleaseStep::Create(req)
    }
}

/// The value whose assets count as existing: the existing release, or what
/// the update or creation returned (`written`), or nothing for a release
/// that a dry run would create.
pub open spec fn release_value(existing: Option<JsonV>, written: Option<JsonV>, dry_run: bool, update: bool) -> JsonV {
    match existing {
        Some(e) => if !dry_run && update {
            match written {
                Some(w) => w,
                None => JsonV::Null,
            }
        } else {
            e
        },
        None => if dry_run {
            JsonV::Null
        } else {
            match written {
                Some(w) => w,
                None => JsonV::Null,
            }
        },
    }
}

/// The records and uploads planned for the first `k` assets, and the asset
/// that stopped the plan: an asset that already exists is skipped when
/// asked, else it stops the migration; in a dry run the rest would be
/// uploaded; otherwise they are uploaded.
pub struct AssetPlanV {
    pub records: Seq<(Seq<char>, Seq<char>, u64)>,
    pub uploads: Seq<int>,
    pub failed: Option<Seq<char>>,
}

/// The plan for the first `k` assets.
pub open spec fn plan_upto(
    assets: Seq<GithubAsset>,
    names: Seq<Seq<char>>,
    skip: bool,
    dry_run: bool,
    k: int,
) -> AssetPlanV
    decreases k,
{
    if k <= 0 {
        AssetPlanV { records: seq![], uploads: seq![], failed: None }
    } else {
        let p = plan_upto(assets, names, skip, dry_run, k - 1);
        let a = assets[k - 1];
        if p.failed is Some {
            p
        } else if names.contains(a.name@) {
            if skip {
                AssetPlanV {
                    records: p.records.push((a.name@, "skipped_existing"@, a.size)),
                    ..p
                }
            } else {
                AssetPlanV { failed: Some(a.name@), ..p }
            }
        } else if dry_run {
            AssetPlanV { records: p.records.push((a.name@, "would_upload"@, a.size)), ..p }
        } else {
            AssetPlanV {
                records: p.records.push((a.name@, "uploaded"@, a.size)),
                uploads: p.uploads.push(k - 1),
                failed: None,
            }
        }
    }
}

/// Asset records as values.
pub open spec fn records_view(rs: Seq<AssetMigrationRecord>) -> Seq<(Seq<char>, Seq<char>, u64)> {
    Seq::new(rs.len(), |i: int| (rs[i].name@, rs[i].action@, rs[i].size))
}

/// What becomes of a release: its record, the indices of the assets to
/// upload (in order, before the record counts), and the error that ends the
/// migration after those uploads, when an asset already exists.
#[derive(Debug, PartialEq, Eq)]
pub struct ReleasePlan {
    pub record: ReleaseMigrationRecord,
    pub uploads: Vec<usize>,
    pub failure: Option<GdError>,
}

/// The record of a release, from the release, the existing GitCode release
/// (`existing`) and what the update or creation returned (`written`).
pub fn migrate_release(
    options: &ReleaseMigrationOptions,
    release: &GithubRelease,
    existing: Option<Json>,
    written: Option<Json>,
) -> (r: ReleasePlan)
    ensures
        r.record.tag@ == release.tag_name@,
        r.record.action@ == release_action(
            release.draft,
            existing is Some,
            options.dry_run,
            options.update_release,
        ),
        release.draft ==> r.record.assets@.len() == 0 && r.uploads@.len() == 0 && r.failure is None,
        !release.draft ==> ({
            let names = asset_name_list(
                release_value(
                    crate::client::json_opt(existing),
                    crate::client::json_opt(written),
                    options.dry_run,
                    options.update_release,
                ),
            );
            let p = plan_upto(
                release.assets@,
                names,
                options.skip_existing_assets,
                options.dry_run,
                release.assets@.len() as int,
            );
            &&& records_view(r.record.assets@) == p.records
            &&& r.uploads@.map_values(|u: usize| u as int) == p.uploads
            &&& match (r.failure, p.failed) {
                (Some(GdError::AssetExists { name }), Some(n)) => name@ == n,
                (None, None) => true,
                _ => false,
            }
        }),
{
    let exists = existing.is_some();
    let action = if release.draft {
        copy("skipped_draft")
    } else if exists {
        if options.dry_run && options.update_release {
            copy("would_update")
        } else if options.dry_run {
            copy("would_skip")
        } else if options.update_release {
            copy("updated")
        } else {
            copy("skipped")
        }
    } else if options.dry_run {
        copy("would_create")
    } else {
        copy("created")
    };
    let tag = copy(release.tag_name.as_str());
    if release.draft {
        return ReleasePlan {
            record: ReleaseMigrationRecord { tag, action, assets: Vec::new() },
            uploads: Vec::new(),
            failure: None,
        };
    }
    let ghost ev = crate::client::json_opt(existing);
    let ghost wv = crate::client::json_opt(written);
    let value = match existing {
        Some(e) => if !options.dry_run && options.update_release {
            match written {
                Some(w) => w,
                None => Json::Null,
            }
        } else {
            e
        },
        None => if options.dry_run {
            Json::Null
        } else {
            match written {
                Some(w) => w,
                None => Json::Null,
            }
        },
    };
    assert(value@ == release_value(ev, wv, options.dry_run, options.update_release));
    let names = asset_names(&value);
    let ghost nl = asset_name_list(value@);
    let mut records: Vec<AssetMigrationRecord> = Vec::new();
    let mut uploads: Vec<usize> = Vec::new();
    let mut failure: Option<GdError> = None;
    let mut i: usize = 0;
    assert(records_view(records@) =~= Seq::<(Seq<char>, Seq<char>, u64)>::empty());
    assert(uploads@.map_values(|u: usize| u as int) =~= Seq::<int>::empty());
    while i < release.assets.len()
        invariant
            i <= release.assets@.len(),
            forall|n: Seq<char>| names.deep_view().contains(n) <==> nl.contains(n),
            ({
                let p = plan_upto(
                    release.assets@,
                    nl,
                    options.skip_existing_assets,
                    options.dry_run,
                    i as int,
                );
                &&& records_view(records@) == p.records
                &&& uploads@.map_values(|u: usize| u as int) == p.uploads
                &&& match (failure, p.failed) {
                    (Some(GdError::AssetExists { name }), Some(n)) => name@ == n,
                    (None, None) => true,
                    _ => false,
                }
            }),
        decreases release.assets@.len() - i,
    {
        if failure.is_some() {
            let ghost p = plan_upto(
                release.assets@,
                nl,
                options.skip_existing_assets,
                options.dry_run,
                i as int,
            );
            assert(plan_upto(
                release.assets@,
                nl,
                options.skip_existing_assets,
                options.dry_run,
                i + 1,
            ) == p);
            i = i + 1;
            continue;
        }
        let a = &release.assets[i];
        let ghost rb = records_view(records@);
        let ghost ub = uploads@.map_values(|u: usize| u as int);
        if contains_string(&names, a.name.as_str()) {
            if options.skip_existing_assets {
                let rec = AssetMigrationRecord {
                    name: copy(a.name.as_str()),
                    action: copy("skipped_existing"),
                    size: a.size,
                };
                records.push(rec);
                assert(records_view(records@) =~= rb.push((a.name@, "skipped_existing"@, a.size)));
            } else {
                failure = Some(GdError::AssetExists { name: copy(a.name.as_str()) });
            }
        } else if options.dry_run {
            let rec = AssetMigrationRecord {
                name: copy(a.name.as_str()),
                action: copy("would_upload"),
                size: a.size,
            };
            records.push(rec);
            assert(records_view(records@) =~= rb.push((a.name@, "would_upload"@, a.size)));
        } else {
            let rec = AssetMigrationRecord {
                name: copy(a.name.as_str()),
                action: copy("uploaded"),
                size: a.size,
            };
            records.push(rec);
            assert(records_view(records@) =~= rb.push((a.name@, "uploaded"@, a.size)));
            uploads.push(i);
            assert(uploads@.map_values(|u: usize| u as int) =~= ub.push(i as int));
        }
        i = i + 1;
    }
    ReleasePlan { record: ReleaseMigrationRecord { tag, action, assets: records }, uploads, failure }
}

/// The message of a failed GitCode call, as `api_response_error` writes it.
pub open spec fn response_error_text(status: Seq<char>, body: JsonV, body_text: Seq<char>) -> Seq<
    char,
> {
    "GitCode API returned "@ + status + ": "@ + match body_message_spec(body) {
        Some(m) => m,
        None => body_text,
    }
}

/// What a lookup of a GitCode release by tag answered: the release when the
/// call succeeded, nothing when the release does not exist, else the error
/// message (`body_text` is the body written as JSON).
pub fn release_lookup(success: bool, status: u16, status_text: &str, body: Json, body_text: &str) -> (r:
    Result<Option<Json>, String>)
    ensures
        success ==> (r matches Ok(Some(j)) && j@ == body@),
        !success && missing_release(status, body@) ==> r matches Ok(None),
        !success && !missing_release(status, body@) ==> (r matches Err(e) && e@
            == response_error_text(status_text@, body@, body_text@)),
{
    if success {
        return Ok(Some(body));
    }
    if is_missing_release(status, &body) {
        return Ok(None);
    }
    Err(api_response_error(status_text, &body, body_text))
}

/// The upload URL that an upload_url call answered: the URL in its body or
/// its `Location` header; a failed call, or one that names no URL, is an
/// error with its message.
pub fn upload_url_reply(
    success: bool,
    status_text: &str,
    body: &Json,
    body_text: &str,
    location: Option<&str>,
) -> (r: Result<String, String>)
    ensures
        !success ==> (r matches Err(e) && e@ == response_error_text(status_text@, body@, body_text@)),
        success ==> match upload_url_in(body@) {
            Some(u) => r matches Ok(t) && t@ == u,
            None => match location {
                Some(l) => if is_url(l@) {
                    r matches Ok(t) && t@ == l@
                } else {
                    r matches Err(e) && e@ == crate::error::error_text(GdError::MissingUploadUrl)
                },
                None => r matches Err(e) && e@ == crate::error::error_text(GdError::MissingUploadUrl),
            },
        },
{
    if !success {
        return Err(api_response_error(status_text, body, body_text));
    }
    match extract_upload_url(body, location) {
        Some(u) => Ok(u),
        None => Err(GdError::MissingUploadUrl.message()),
    }
}

/// A dry run uploads nothing, and a plan that nothing stopped has one
/// record per asset.
pub proof fn law_dry_run_uploads_nothing(
    assets: Seq<GithubAsset>,
    names: Seq<Seq<char>>,
    skip: bool,
    dry_run: bool,
    k: int,
)
    requires
        0 <= k <= assets.len(),
    ensures
        dry_run ==> plan_upto(assets, names, skip, dry_run, k).uploads.len() == 0,
        plan_upto(assets, names, skip, dry_run, k).failed is None ==> plan_upto(
            assets,
            names,
            skip,
            dry_run,
            k,
        ).records.len() == k,
    decreases k,
{
    if k > 0 {
        law_dry_run_uploads_nothing(assets, names, skip, dry_run, k - 1);
    }
}

/// The counts of a list of release records: releases created, updated and
/// skipped, then assets uploaded, skipped and failed.
pub open spec fn tally(rs: Seq<ReleaseMigrationRecord>) -> (int, int, int, int, int, int)
    decreases rs.len(),
{
    if rs.len() == 0 {
        (0, 0, 0, 0, 0, 0)
    } else {
        let t = tally(rs.drop_last());
        let r = rs.last();
        let k = release_kind(r.action@);
        (
            t.0 + if k == 0 { 1int } else { 0 },
            t.1 + if k == 1 { 1int } else { 0 },
            t.2 + if k == 2 { 1int } else { 0 },
            t.3 + count_kind(r.assets@, 0),
            t.4 + count_kind(r.assets@, 1),
            t.5 + count_kind(r.assets@, 2),
        )
    }
}

/// The totals as exact counts.
pub open spec fn totals_counts(t: ReleaseMigrationTotals) -> (int, int, int, int, int, int) {
    (
        t.releases_created as int,
        t.releases_updated as int,
        t.releases_skipped as int,
        t.assets_uploaded as int,
        t.assets_skipped as int,
        t.assets_failed as int,
    )
}

/// A summary's totals are the counts of its records: they are for a new
/// summary, and counting one more record that fits keeps them so.
pub proof fn law_totals_count_records(
    t: ReleaseMigrationTotals,
    rs: Seq<ReleaseMigrationRecord>,
    r: ReleaseMigrationRecord,
)
    ensures
        totals_counts(zero_totals()) == tally(Seq::<ReleaseMigrationRecord>::empty()),
        totals_counts(t) == tally(rs) && totals_fit(t, r) ==> totals_counts(accumulated(t, r))
            == tally(rs.push(r)),
{
    lemma_count_bound(r.assets@, 0);
    lemma_count_bound(r.assets@, 1);
    lemma_count_bound(r.assets@, 2);
    assert(rs.push(r).drop_last() =~= rs);
}

} // verus!

verus! {

/// The GitCode release mirrors the GitHub release member by member: its
/// `name` is the GitHub release's name, and the tag only for a release
/// without a name; `tag_name`, `target_commitish` and `prerelease` are
/// copied, and `body` is the release notes, empty when there are none.
pub proof fn law_release_body_mirrors_release(r: GithubRelease)
    ensures
        release_body(r) is Object,
        r.name matches Some(n) ==> crate::json::lookup(release_body(r)->Object_0, "name"@)
            == Some(JsonV::Str(n@)),
        r.name is None ==> crate::json::lookup(release_body(r)->Object_0, "name"@) == Some(
            JsonV::Str(r.tag_name@),
        ),
        crate::json::lookup(release_body(r)->Object_0, "tag_name"@) == Some(
            JsonV::Str(r.tag_name@),
        ),
        crate::json::lookup(release_body(r)->Object_0, "target_commitish"@) == Some(
            JsonV::Str(r.target_commitish@),
        ),
        crate::json::lookup(release_body(r)->Object_0, "prerelease"@) == Some(
            JsonV::Bool(r.prerelease),
        ),
        r.body matches Some(b) ==> crate::json::lookup(release_body(r)->Object_0, "body"@)
            == Some(JsonV::Str(b@)),
{
    reveal_strlit("body");
    reveal_strlit("name");
    reveal_strlit("prerelease");
    reveal_strlit("tag_name");
    reveal_strlit("target_commitish");
    let e = release_body(r)->Object_0;
    reveal_with_fuel(crate::json::lookup, 6);
    assert(e[0].0 != "name"@) by {
        assert(e[0].0[0] != "name"@[0]);
    }
    assert(crate::json::lookup(e, "name"@) == crate::json::lookup(e.drop_first(), "name"@));
    assert(e.drop_first()[0].0 == "name"@);
    assert(e.drop_first().drop_first()[0].0 == "prerelease"@);
    assert(e.drop_first().drop_first().drop_first()[0].0 == "tag_name"@);
    assert(e.drop_first().drop_first().drop_first().drop_first()[0].0 == "target_commitish"@);
}

} // verus!
