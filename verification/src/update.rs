//! `gd version check`: parsing release versions, choosing the newest release
//! among the sources, and the report printed for it.
use vstd::prelude::*;
use crate::env::{bool_word, env_bool_spec};
use crate::error::GdError;
use crate::num::{all_digits, decimal, digits_value, parse_u64_digits, u64_to_text};
use crate::text::{
    concat, contains_char, from_chars, has_char, lower, lower_chars, split_once, split_once_chars,
    to_chars, trim, trim_chars, trim_start_char, trim_start_char_chars,
};
use crate::version::{ComparableVersion, version_lt};

verus! {

/// Name of the package whose releases are checked.
pub const PACKAGE_NAME: &'static str = "relay-gitcode-cli";

/// Version of this build of the package.
pub const PACKAGE_VERSION: &'static str = "0.1.0";

/// Repository whose GitHub releases are checked by default.
pub const DEFAULT_GITHUB_REPO: &'static str = "coolplayagent/relay-gitcode-cli";

/// Largest release metadata response accepted, in bytes.
pub const MAX_RESPONSE_BYTES: usize = 1048576;

/// Where release metadata comes from.
#[derive(Debug, Clone, Copy, PartialEq, Eq, Structural)]
pub enum UpdateSource {
    Github,
    CratesIo,
}

/// The name shown for a source.
pub open spec fn source_name(s: UpdateSource) -> Seq<char> {
    match s {
        UpdateSource::Github => "github"@,
        UpdateSource::CratesIo => "crates.io"@,
    }
}

/// The source named by `value`, trimmed and lower-cased.
pub open spec fn source_spec(value: Seq<char>) -> Option<UpdateSource> {
    let w = lower(trim(value));
    if w == "github"@ || w == "github-releases"@ {
        Some(UpdateSource::Github)
    } else if w == "crates"@ || w == "crates.io"@ || w == "crates-io"@ {
        Some(UpdateSource::CratesIo)
    } else {
        None
    }
}

impl UpdateSource {
    /// The name shown for this source.
    pub fn as_str(self) -> (r: &'static str)
        ensures
            r@ == source_name(self),
    {
        match self {
            UpdateSource::Github => "github",
            UpdateSource::CratesIo => "crates.io",
        }
    }

    /// The source named by `value`; an unknown name is an error quoting it
    /// trimmed and lower-cased.
    pub fn parse(value: &str) -> (r: Result<UpdateSource, GdError>)
        ensures
            match source_spec(value@) {
                Some(s) => r == Ok::<UpdateSource, GdError>(s),
                None => r matches Err(GdError::InvalidUpdateSource { value: v }) && v@ == lower(
                    trim(value@),
                ),
            },
    {
        let v = to_chars(value);
        let t = trim_chars(&v);
        let w = lower_chars(&t);
        if crate::text::chars_eq_str(&w, "github") || crate::text::chars_eq_str(
            &w,
            "github-releases",
        ) {
            Ok(UpdateSource::Github)
        } else if crate::text::chars_eq_str(&w, "crates") || crate::text::chars_eq_str(
            &w,
            "crates.io",
        ) || crate::text::chars_eq_str(&w, "crates-io") {
            Ok(UpdateSource::CratesIo)
        } else {
            Err(GdError::InvalidUpdateSource { value: from_chars(&w) })
        }
    }
}

/// Why a text is not an accepted release version.
#[derive(Debug, Clone, PartialEq, Eq)]
pub enum VersionError {
    NotSemver { value: String },
    Prerelease { value: String },
}

/// The text printed for a version error.
pub open spec fn version_error_text(e: VersionError) -> Seq<char> {
    match e {
        VersionError::NotSemver { value } => "release version '"@ + value@ + "' is not semver"@,
        VersionError::Prerelease { value } => "release version '"@ + value@ + "' is a prerelease"@,
    }
}

impl VersionError {
    /// The text printed for this error.
    pub fn message(&self) -> (r: String)
        ensures
            r@ == version_error_text(*self),
    {
        let (v, tail) = match self {
            VersionError::NotSemver { value } => (value, "' is not semver"),
            VersionError::Prerelease { value } => (value, "' is a prerelease"),
        };
        let a = concat(&to_chars("release version '"), &to_chars(v.as_str()));
        let b = concat(&a, &to_chars(tail));
        from_chars(&b)
    }
}

/// The part of `s` before the first `c`, or all of `s`.
pub open spec fn before_char(s: Seq<char>, c: char) -> Seq<char> {
    match split_once(s, c) {
        Some((a, _)) => a,
        None => s,
    }
}

/// `value` with whitespace and leading `v`s removed and any build part (after `+`) dropped.
pub open spec fn version_body(value: Seq<char>) -> Seq<char> {
    before_char(trim_start_char(trim(value), 'v'), '+')
}

/// A version component: non-empty ASCII digits whose value fits a `u64`.
pub open spec fn component_ok(c: Seq<char>) -> bool {
    c.len() > 0 && all_digits(c) && digits_value(c) <= u64::MAX
}

/// The version written by `value`: after the leading `v`s and before any
/// `+build`, exactly three dot-separated numeric components, optionally
/// followed by `-pre`, which marks a pre-release.
pub open spec fn version_spec(value: Seq<char>) -> Option<ComparableVersion> {
    let body = version_body(value);
    let core = before_char(body, '-');
    match split_once(core, '.') {
        None => None,
        Some((ma, r1)) => match split_once(r1, '.') {
            None => None,
            Some((mi, pa)) => if !has_char(pa, '.') && component_ok(ma) && component_ok(mi)
                && component_ok(pa) {
                Some(
                    ComparableVersion {
                        major: digits_value(ma) as u64,
                        minor: digits_value(mi) as u64,
                        patch: digits_value(pa) as u64,
                        prerelease: has_char(body, '-'),
                    },
                )
            } else {
                None
            },
        },
    }
}

/// The part of `v` before the first `c`, or all of `v`.
fn before_char_chars(v: &Vec<char>, c: char) -> (r: Vec<char>)
    ensures
        r@ == before_char(v@, c),
{
    match split_once_chars(v, c) {
        Some((a, _)) => a,
        None => crate::text::slice_chars(v, 0, v.len()),
    }
}

/// The value of a version component, if it is one.
pub fn parse_version_component(component: &[char]) -> (r: Option<u64>)
    ensures
        match r {
            Some(n) => component_ok(component@) && n as nat == digits_value(component@),
            None => !component_ok(component@),
        },
{
    parse_u64_digits(component)
}

/// The version written by `value`.
pub fn comparable_version(value: &str) -> (r: Result<ComparableVersion, VersionError>)
    ensures
        match version_spec(value@) {
            Some(v) => r == Ok::<ComparableVersion, VersionError>(v),
            None => r matches Err(VersionError::NotSemver { value: t }) && t@ == value@,
        },
{
    let v = to_chars(value);
    let t = trim_chars(&v);
    let t2 = trim_start_char_chars(&t, 'v');
    let body = before_char_chars(&t2, '+');
    let prerelease = contains_char(&body, '-');
    let core = before_char_chars(&body, '-');
    let not_semver = VersionError::NotSemver { value: from_chars(&v) };
    match split_once_chars(&core, '.') {
        None => Err(not_semver),
        Some((ma, r1)) => match split_once_chars(&r1, '.') {
            None => Err(not_semver),
            Some((mi, pa)) => {
                if contains_char(&pa, '.') {
                    return Err(not_semver);
                }
                let major = parse_version_component(&ma);
                let minor = parse_version_component(&mi);
                let patch = parse_version_component(&pa);
                match (major, minor, patch) {
                    (Some(major), Some(minor), Some(patch)) => Ok(
                        ComparableVersion { major, minor, patch, prerelease },
                    ),
                    _ => Err(not_semver),
                }
            },
        },
    }
}

/// The release version written by `value`; pre-releases are refused.
pub fn stable_version(value: &str) -> (r: Result<ComparableVersion, VersionError>)
    ensures
        match version_spec(value@) {
            Some(v) => if v.prerelease {
                r matches Err(VersionError::Prerelease { value: t }) && t@ == value@
            } else {
                r == Ok::<ComparableVersion, VersionError>(v)
            },
            None => r matches Err(VersionError::NotSemver { value: t }) && t@ == value@,
        },
{
    let version = comparable_version(value)?;
    if version.prerelease {
        return Err(VersionError::Prerelease { value: from_chars(&to_chars(value)) });
    }
    Ok(version)
}

/// The version text of a version: `major.minor.patch`.
pub open spec fn version_text(v: ComparableVersion) -> Seq<char> {
    decimal(v.major as nat) + "."@ + decimal(v.minor as nat) + "."@ + decimal(v.patch as nat)
}

/// `major.minor.patch` of a version.
pub fn version_to_text(v: &ComparableVersion) -> (r: String)
    ensures
        r@ == version_text(*v),
{
    let a = u64_to_text(v.major);
    let b = u64_to_text(v.minor);
    let c = u64_to_text(v.patch);
    let dot = to_chars(".");
    let x = concat(&to_chars(a.as_str()), &dot);
    let y = concat(&x, &to_chars(b.as_str()));
    let z = concat(&y, &dot);
    let w = concat(&z, &to_chars(c.as_str()));
    from_chars(&w)
}

/// The version of this build.
pub fn current_version() -> (r: Result<ComparableVersion, VersionError>)
    ensures
        match version_spec(PACKAGE_VERSION@) {
            Some(v) => r == Ok::<ComparableVersion, VersionError>(v),
            None => r is Err,
        },
{
    comparable_version(PACKAGE_VERSION)
}

/// A problem met while checking one source, as reported to the user.
#[derive(Debug, Clone, PartialEq, Eq)]
pub struct VersionCheckDiagnostic {
    pub source: Option<String>,
    pub code: String,
    pub message: String,
    pub retryable: bool,
}

/// The outcome of `gd version check`.
#[derive(Debug, Clone, PartialEq, Eq)]
pub struct VersionCheckResponse {
    pub project_name: String,
    pub binary_name: String,
    pub current_version: String,
    pub latest_version: Option<String>,
    pub update_available: bool,
    pub source: Option<String>,
    pub release_url: Option<String>,
    pub checked_at_unix_ms: u64,
    pub install_hint: String,
    pub diagnostics: Vec<VersionCheckDiagnostic>,
}

/// A release found at one source.
#[derive(Debug, Clone, PartialEq, Eq)]
pub struct ReleaseCandidate {
    pub source: UpdateSource,
    pub version: ComparableVersion,
    pub release_url: String,
}

/// The fields of the latest GitHub release that the check reads.
#[derive(Debug, Clone, PartialEq, Eq)]
pub struct GithubLatestRelease {
    pub tag_name: String,
    pub html_url: String,
    pub prerelease: bool,
}

/// The crate metadata field that the check reads.
#[derive(Debug, Clone, PartialEq, Eq)]
pub struct CratesPackage {
    pub max_stable_version: Option<String>,
}

/// The crates.io response that the check reads.
#[derive(Debug, Clone, PartialEq, Eq)]
pub struct CratesPackageResponse {
    pub package: CratesPackage,
}

/// The optional text of a source's name.
pub open spec fn source_text(source: Option<UpdateSource>) -> Option<Seq<char>> {
    match source {
        Some(s) => Some(source_name(s)),
        None => None,
    }
}

/// The view of an optional string.
pub open spec fn opt_str(o: Option<String>) -> Option<Seq<char>> {
    match o {
        Some(s) => Some(s@),
        None => None,
    }
}

/// A diagnostic with the given fields, the source given by name.
pub open spec fn diagnostic_is(
    d: VersionCheckDiagnostic,
    source: Option<UpdateSource>,
    code: Seq<char>,
    message: Seq<char>,
    retryable: bool,
) -> bool {
    opt_str(d.source) == source_text(source) && d.code@ == code && d.message@ == message
        && d.retryable == retryable
}

/// A diagnostic for `source` with the given code, message and retry hint.
pub fn diagnostic(source: Option<UpdateSource>, code: &str, message: &str, retryable: bool) -> (r:
    VersionCheckDiagnostic)
    ensures
        diagnostic_is(r, source, code@, message@, retryable),
{
    let source = match source {
        Some(s) => Some(from_chars(&to_chars(s.as_str()))),
        None => None,
    };
    VersionCheckDiagnostic {
        source,
        code: from_chars(&to_chars(code)),
        message: from_chars(&to_chars(message)),
        retryable,
    }
}

/// A transport failure, which may go away on retry.
pub fn transport_diagnostic(source: UpdateSource, error: &str) -> (r: VersionCheckDiagnostic)
    ensures
        diagnostic_is(r, Some(source), "transport_failed"@, error@, true),
{
    diagnostic(Some(source), "transport_failed", error, true)
}

/// Whether an HTTP status is worth retrying: server errors, 408 and 429.
pub open spec fn status_retryable(status: u16) -> bool {
    (500 <= status && status <= 599) || status == 408 || status == 429
}

/// A refused metadata request with its HTTP status.
pub fn status_diagnostic(source: UpdateSource, status: u16) -> (r: VersionCheckDiagnostic)
    ensures
        diagnostic_is(
            r,
            Some(source),
            "http_status"@,
            "release metadata request returned HTTP "@ + decimal(status as nat),
            status_retryable(status),
        ),
{
    let mut m: Vec<char> = Vec::new();
    crate::text::append_str(&mut m, "release metadata request returned HTTP ");
    let n = u64_to_text(status as u64);
    crate::text::append_str(&mut m, n.as_str());
    let text = from_chars(&m);
    let retryable = (500 <= status && status <= 599) || status == 408 || status == 429;
    diagnostic(Some(source), "http_status", text.as_str(), retryable)
}

/// A metadata response larger than `MAX_RESPONSE_BYTES`.
pub fn response_body_too_large_diagnostic(source: UpdateSource) -> (r: VersionCheckDiagnostic)
    ensures
        diagnostic_is(
            r,
            Some(source),
            "response_body_too_large"@,
            "release metadata response exceeded 1048576 bytes"@,
            false,
        ),
{
    diagnostic(
        Some(source),
        "response_body_too_large",
        "release metadata response exceeded 1048576 bytes",
        false,
    )
}

/// The candidate offered by the latest GitHub release: refused when it is a
/// pre-release or its tag is not a release version.
pub fn github_candidate(release: GithubLatestRelease) -> (r: Result<
    ReleaseCandidate,
    VersionCheckDiagnostic,
>)
    ensures
        release.prerelease ==> (r matches Err(d) && diagnostic_is(
            d,
            Some(UpdateSource::Github),
            "prerelease_ignored"@,
            "GitHub release '"@ + release.tag_name@ + "' is a prerelease"@,
            false,
        )),
        !release.prerelease ==> match version_spec(release.tag_name@) {
            Some(v) => if v.prerelease {
                r matches Err(d) && diagnostic_is(
                    d,
                    Some(UpdateSource::Github),
                    "invalid_version"@,
                    version_error_text(VersionError::Prerelease { value: release.tag_name }),
                    false,
                )
            } else {
                r matches Ok(c) && c.source == UpdateSource::Github && c.version == v
                    && c.release_url@ == release.html_url@
            },
            None => r matches Err(d) && diagnostic_is(
                d,
                Some(UpdateSource::Github),
                "invalid_version"@,
                version_error_text(VersionError::NotSemver { value: release.tag_name }),
                false,
            ),
        },
{
    if release.prerelease {
        let mut m: Vec<char> = Vec::new();
        crate::text::append_str(&mut m, "GitHub release '");
        crate::text::append_str(&mut m, release.tag_name.as_str());
        crate::text::append_str(&mut m, "' is a prerelease");
        let text = from_chars(&m);
        return Err(
            diagnostic(Some(UpdateSource::Github), "prerelease_ignored", text.as_str(), false),
        );
    }
    match stable_version(release.tag_name.as_str()) {
        Ok(version) => Ok(
            ReleaseCandidate {
                source: UpdateSource::Github,
                version,
                release_url: release.html_url,
            },
        ),
        Err(e) => {
            let text = e.message();
            proof {
                match version_spec(release.tag_name@) {
                    Some(v) => {
                        assert(version_error_text(e) == version_error_text(
                            VersionError::Prerelease { value: release.tag_name },
                        ));
                    },
                    None => {
                        assert(version_error_text(e) == version_error_text(
                            VersionError::NotSemver { value: release.tag_name },
                        ));
                    },
                }
            }
            Err(diagnostic(Some(UpdateSource::Github), "invalid_version", text.as_str(), false))
        },
    }
}

/// The crates.io page of the package.
pub open spec fn crates_page() -> Seq<char> {
    "https://crates.io/crates/"@ + PACKAGE_NAME@
}

/// The candidate offered by crates.io: its newest stable version, which must
/// be present and be a release version.
pub fn crates_candidate(response: CratesPackageResponse) -> (r: Result<
    ReleaseCandidate,
    VersionCheckDiagnostic,
>)
    ensures
        match response.package.max_stable_version {
            None => r matches Err(d) && diagnostic_is(
                d,
                Some(UpdateSource::CratesIo),
                "stable_version_unavailable"@,
                "crates.io response did not include a stable release version"@,
                false,
            ),
            Some(text) => match version_spec(text@) {
                Some(v) => if v.prerelease {
                    r matches Err(d) && diagnostic_is(
                        d,
                        Some(UpdateSource::CratesIo),
                        "invalid_version"@,
                        version_error_text(VersionError::Prerelease { value: text }),
                        false,
                    )
                } else {
                    r matches Ok(c) && c.source == UpdateSource::CratesIo && c.version == v
                        && c.release_url@ == crates_page()
                },
                None => r matches Err(d) && diagnostic_is(
                    d,
                    Some(UpdateSource::CratesIo),
                    "invalid_version"@,
                    version_error_text(VersionError::NotSemver { value: text }),
                    false,
                ),
            },
        },
{
    let text = match response.package.max_stable_version {
        Some(t) => t,
        None => {
            return Err(
                diagnostic(
                    Some(UpdateSource::CratesIo),
                    "stable_version_unavailable",
                    "crates.io response did not include a stable release version",
                    false,
                ),
            );
        },
    };
    match stable_version(text.as_str()) {
        Ok(version) => {
            let mut u: Vec<char> = Vec::new();
            crate::text::append_str(&mut u, "https://crates.io/crates/");
            crate::text::append_str(&mut u, PACKAGE_NAME);
            Ok(ReleaseCandidate { source: UpdateSource::CratesIo, version, release_url: from_chars(&u) })
        },
        Err(e) => {
            let m = e.message();
            proof {
                match version_spec(text@) {
                    Some(v) => {
                        assert(version_error_text(e) == version_error_text(
                            VersionError::Prerelease { value: text },
                        ));
                    },
                    None => {
                        assert(version_error_text(e) == version_error_text(
                            VersionError::NotSemver { value: text },
                        ));
                    },
                }
            }
            Err(diagnostic(Some(UpdateSource::CratesIo), "invalid_version", m.as_str(), false))
        },
    }
}

/// The index of the newest candidate; among equally new ones, the last.
pub open spec fn best_index(c: Seq<ReleaseCandidate>) -> Option<int>
    decreases c.len(),
{
    if c.len() == 0 {
        None
    } else {
        match best_index(c.drop_last()) {
            None => Some(c.len() - 1),
            Some(b) => if version_lt(c.last().version, c[b].version) {
                Some(b)
            } else {
                Some(c.len() - 1)
            },
        }
    }
}

/// The install hint printed with every report.
pub open spec fn install_hint() -> Seq<char> {
    "cargo install "@ + PACKAGE_NAME@ + " --force, or download a platform archive from GitHub Releases"@
}

/// The report for the given candidates: the newest one (the last of equally
/// new ones) is the latest version, and an update is available when it is
/// newer than `current`.
pub fn response_from_candidates(
    current: ComparableVersion,
    candidates: Vec<ReleaseCandidate>,
    diagnostics: Vec<VersionCheckDiagnostic>,
    checked_at_unix_ms: u64,
) -> (r: VersionCheckResponse)
    ensures
        r.project_name@ == PACKAGE_NAME@,
        r.binary_name@ == "gd"@,
        r.current_version@ == PACKAGE_VERSION@,
        r.checked_at_unix_ms == checked_at_unix_ms,
        r.install_hint@ == install_hint(),
        r.diagnostics@ == diagnostics@,
        match best_index(candidates@) {
            None => r.latest_version is None && r.source is None && r.release_url is None
                && !r.update_available,
            Some(b) => 0 <= b < candidates@.len() && opt_str(r.latest_version) == Some(
                version_text(candidates@[b].version),
            ) && opt_str(r.source) == Some(source_name(candidates@[b].source)) && opt_str(
                r.release_url,
            ) == Some(candidates@[b].release_url@) && r.update_available == version_lt(
                current,
                candidates@[b].version,
            ),
        },
{
    let mut best: Option<usize> = None;
    let mut i: usize = 0;
    while i < candidates.len()
        invariant
            i <= candidates@.len(),
            best_index(candidates@.subrange(0, i as int)) == match best {
                Some(b) => Some(b as int),
                None => None::<int>,
            },
            match best {
                Some(b) => b < i,
                None => i == 0,
            },
        decreases candidates@.len() - i,
    {
        proof {
            let pre = candidates@.subrange(0, i + 1);
            assert(pre.drop_last() =~= candidates@.subrange(0, i as int));
            assert(pre.last() == candidates@[i as int]);
            if let Some(b) = best {
                assert(pre[b as int] == candidates@[b as int]);
            }
        }
        match best {
            None => {
                best = Some(i);
            },
            Some(b) => {
                if !candidates[i].version.is_less_than(&candidates[b].version) {
                    best = Some(i);
                }
            },
        }
        i = i + 1;
    }
    assert(candidates@.subrange(0, candidates@.len() as int) =~= candidates@);
    let mut hint: Vec<char> = Vec::new();
    crate::text::append_str(&mut hint, "cargo install ");
    crate::text::append_str(&mut hint, PACKAGE_NAME);
    crate::text::append_str(
        &mut hint,
        " --force, or download a platform archive from GitHub Releases",
    );
    let (latest_version, source, release_url, update_available) = match best {
        None => (None, None, None, false),
        Some(b) => {
            let c = &candidates[b];
            (
                Some(version_to_text(&c.version)),
                Some(from_chars(&to_chars(c.source.as_str()))),
                Some(from_chars(&to_chars(c.release_url.as_str()))),
                current.is_less_than(&c.version),
            )
        },
    };
    VersionCheckResponse {
        project_name: from_chars(&to_chars(PACKAGE_NAME)),
        binary_name: from_chars(&to_chars("gd")),
        current_version: from_chars(&to_chars(PACKAGE_VERSION)),
        latest_version,
        update_available,
        source,
        release_url,
        checked_at_unix_ms,
        install_hint: from_chars(&hint),
        diagnostics,
    }
}

/// The chosen candidate is at least as new as every candidate, and strictly
/// newer than every later one.
pub proof fn law_best_candidate_is_newest(c: Seq<ReleaseCandidate>)
    ensures
        match best_index(c) {
            None => c.len() == 0,
            Some(b) => 0 <= b < c.len() && (forall|i: int| 0 <= i < c.len() ==> !version_lt(
                c[b].version,
                c[i].version,
            )) && (forall|i: int| b < i < c.len() ==> version_lt(c[i].version, c[b].version)),
        },
    decreases c.len(),
{
    if c.len() > 0 {
        let d = c.drop_last();
        law_best_candidate_is_newest(d);
        match best_index(d) {
            None => {},
            Some(b) => {
                assert forall|i: int| 0 <= i < d.len() implies c[i] == d[i] by {}
                if version_lt(c.last().version, c[b].version) {
                    assert forall|i: int| 0 <= i < c.len() implies !version_lt(
                        c[b].version,
                        c[i].version,
                    ) by {
                        if i < d.len() {
                            assert(c[i] == d[i]);
                        } else {
                            crate::version::law_version_order_is_total(
                                c[b].version,
                                c.last().version,
                                c.last().version,
                            );
                        }
                    }
                    assert forall|i: int| b < i < c.len() implies version_lt(
                        c[i].version,
                        c[b].version,
                    ) by {
                        if i < d.len() {
                            assert(c[i] == d[i]);
                        }
                    }
                } else {
                    let n = c.len() - 1;
                    assert forall|i: int| 0 <= i < c.len() implies !version_lt(
                        c[n].version,
                        c[i].version,
                    ) by {
                        if i < d.len() {
                            assert(c[i] == d[i]);
                            crate::version::law_version_order_is_total(
                                c[n].version,
                                c[b].version,
                                c[i].version,
                            );
                            crate::version::law_version_order_is_total(
                                c[n].version,
                                c[i].version,
                                c[b].version,
                            );
                            crate::version::law_version_order_is_total(
                                c[b].version,
                                c[n].version,
                                c[i].version,
                            );
                        }
                    }
                }
            },
        }
    }
}

/// The sources named by the comma-separated pieces `parts`: blank pieces are
/// skipped, and the first unknown name is the error (trimmed and lower-cased).
pub open spec fn sources_spec(parts: Seq<Seq<char>>) -> Result<Seq<UpdateSource>, Seq<char>>
    decreases parts.len(),
{
    if parts.len() == 0 {
        Ok(seq![])
    } else {
        let p = trim(parts[0]);
        if p.len() == 0 {
            sources_spec(parts.drop_first())
        } else {
            match source_spec(p) {
                None => Err(lower(trim(p))),
                Some(src) => match sources_spec(parts.drop_first()) {
                    Ok(rest) => Ok(seq![src] + rest),
                    Err(e) => Err(e),
                },
            }
        }
    }
}

/// The source list that `GD_UPDATE_SOURCES` names, `github,crates.io` when unset.
pub open spec fn sources_setting(value: Option<Seq<char>>) -> Result<Seq<UpdateSource>, Seq<char>> {
    let text = match value {
        Some(v) => v,
        None => "github,crates.io"@,
    };
    sources_spec(crate::text::split_all(text, ','))
}

/// The sources to check, from the comma-separated `value` (default
/// `github,crates.io`); an empty list is refused.
pub fn parse_sources(value: Option<&str>) -> (r: Result<Vec<UpdateSource>, GdError>)
    ensures
        match sources_setting(match value { Some(v) => Some(v@), None => None }) {
            Ok(list) => if list.len() == 0 {
                r == Err::<Vec<UpdateSource>, GdError>(GdError::NoUpdateSources)
            } else {
                r matches Ok(v) && v@ == list
            },
            Err(bad) => r matches Err(GdError::InvalidUpdateSource { value: b }) && b@ == bad,
        },
{
    let text = match value {
        Some(v) => to_chars(v),
        None => to_chars("github,crates.io"),
    };
    let parts = crate::text::split_all_chars(&text, ',');
    let ghost all = crate::text::views(parts@);
    let mut out: Vec<UpdateSource> = Vec::new();
    let mut i: usize = 0;
    assert(all.skip(0) =~= all);
    assert(sources_setting(match value { Some(v) => Some(v@), None => None }) == sources_spec(all));
    while i < parts.len()
        invariant
            sources_setting(match value { Some(v) => Some(v@), None => None }) == sources_spec(all),
            i <= parts@.len(),
            all == crate::text::views(parts@),
            all.len() == parts@.len(),
            sources_spec(all) == match sources_spec(all.skip(i as int)) {
                Ok(rest) => Ok(out@ + rest),
                Err(e) => Err::<Seq<UpdateSource>, Seq<char>>(e),
            },
        decreases parts@.len() - i,
    {
        proof {
            assert(all.skip(i as int)[0] == parts@[i as int]@);
            assert(all.skip(i as int).drop_first() =~= all.skip(i + 1));
        }
        let p = trim_chars(&parts[i]);
        if p.len() > 0 {
            let ps = from_chars(&p);
            proof {
                crate::text::lemma_trim_idempotent(parts@[i as int]@);
            }
            match UpdateSource::parse(ps.as_str()) {
                Ok(src) => {
                    let ghost prev = out@;
                    out.push(src);
                    proof {
                        match sources_spec(all.skip(i + 1)) {
                            Ok(rest) => {
                                assert(prev + (seq![src] + rest) =~= out@ + rest);
                            },
                            Err(e) => {},
                        }
                    }
                },
                Err(e) => {
                    proof {
                        let sk = all.skip(i as int);
                        assert(sk.len() > 0);
                        assert(trim(sk[0]) == ps@);
                        assert(sources_spec(sk) == Err::<Seq<UpdateSource>, Seq<char>>(
                            lower(trim(ps@)),
                        ));
                        assert(sources_spec(all) == Err::<Seq<UpdateSource>, Seq<char>>(
                            lower(trim(ps@)),
                        ));
                    }
                    return Err(e);
                },
            }
        }
        i = i + 1;
    }
    proof {
        assert(all.skip(i as int) =~= Seq::<Seq<char>>::empty());
        assert(out@ + Seq::<UpdateSource>::empty() =~= out@);
    }
    if out.len() == 0 {
        return Err(GdError::NoUpdateSources);
    }
    Ok(out)
}

/// The update repository `value`, trimmed: `owner/name` with a non-empty
/// owner and a non-empty name holding no `/`.
pub open spec fn update_repo_spec(value: Seq<char>) -> Option<Seq<char>> {
    let t = trim(value);
    match split_once(t, '/') {
        Some((o, r)) => if o.len() > 0 && r.len() > 0 && !has_char(r, '/') {
            Some(t)
        } else {
            None
        },
        None => None,
    }
}

/// The repository whose releases are checked; the error quotes the trimmed value.
pub fn parse_github_repo(value: &str) -> (r: Result<String, GdError>)
    ensures
        match update_repo_spec(value@) {
            Some(t) => r matches Ok(s) && s@ == t,
            None => r matches Err(GdError::UpdateRepoForm { value: v }) && v@ == trim(value@),
        },
{
    let v = to_chars(value);
    let t = trim_chars(&v);
    let ok = match split_once_chars(&t, '/') {
        Some((o, rest)) => o.len() > 0 && rest.len() > 0 && !contains_char(&rest, '/'),
        None => false,
    };
    if ok {
        Ok(from_chars(&t))
    } else {
        Err(GdError::UpdateRepoForm { value: from_chars(&t) })
    }
}

/// A boolean word (`1 true yes on` / `0 false no off`, any case, trimmed).
pub fn parse_bool(value: &str) -> (r: Result<bool, GdError>)
    ensures
        match env_bool_spec(value@) {
            Some(b) => r == Ok::<bool, GdError>(b),
            None => r == Err::<bool, GdError>(GdError::ExpectedBool),
        },
{
    match bool_word(value) {
        Some(b) => Ok(b),
        None => Err(GdError::ExpectedBool),
    }
}

/// How the update check runs.
#[derive(Debug, Clone, PartialEq, Eq)]
pub struct UpdateConfig {
    pub enabled: bool,
    pub sources: Vec<UpdateSource>,
    pub github_repo: String,
}

impl UpdateConfig {
    /// The configuration given by the values of `GD_UPDATE_CHECK_ENABLED`
    /// (default on), `GD_UPDATE_SOURCES` and `GD_UPDATE_GITHUB_REPO` (default
    /// the project's own repository), checked in that order.
    pub fn from_environment(
        enabled: Option<&str>,
        sources: Option<&str>,
        github_repo: Option<&str>,
    ) -> (r: Result<UpdateConfig, GdError>)
        ensures
            match enabled {
                Some(e) if env_bool_spec(e@) is None => r matches Err(
                    GdError::InvalidUpdateCheckEnabled { value: v },
                ) && v@ == e@,
                _ => match sources_setting(match sources { Some(v) => Some(v@), None => None }) {
                    Err(bad) => r matches Err(GdError::InvalidUpdateSource { value: b }) && b@
                        == bad,
                    Ok(list) => if list.len() == 0 {
                        r == Err::<UpdateConfig, GdError>(GdError::NoUpdateSources)
                    } else {
                        let repo = match github_repo {
                            Some(g) => g@,
                            None => DEFAULT_GITHUB_REPO@,
                        };
                        match update_repo_spec(repo) {
                            None => r matches Err(GdError::UpdateRepoForm { value: v }) && v@
                                == trim(repo),
                            Some(t) => r matches Ok(c) && c.enabled == (match enabled {
                                Some(e) => env_bool_spec(e@) == Some(true),
                                None => true,
                            }) && c.sources@ == list && c.github_repo@ == t,
                        }
                    },
                },
            },
    {
        let on = match enabled {
            Some(e) => match parse_bool(e) {
                Ok(b) => b,
                Err(_) => {
                    return Err(
                        GdError::InvalidUpdateCheckEnabled { value: from_chars(&to_chars(e)) },
                    );
                },
            },
            None => true,
        };
        let list = parse_sources(sources)?;
        let repo = match github_repo {
            Some(g) => parse_github_repo(g)?,
            None => parse_github_repo(DEFAULT_GITHUB_REPO)?,
        };
        Ok(UpdateConfig { enabled: on, sources: list, github_repo: repo })
    }
}

/// The sources' candidates, in order, from the fetch outcomes.
pub open spec fn candidates_of(outcomes: Seq<Result<ReleaseCandidate, VersionCheckDiagnostic>>) -> Seq<
    ReleaseCandidate,
>
    decreases outcomes.len(),
{
    if outcomes.len() == 0 {
        seq![]
    } else {
        match outcomes.last() {
            Ok(c) => candidates_of(outcomes.drop_last()).push(c),
            Err(_) => candidates_of(outcomes.drop_last()),
        }
    }
}

/// The sources' diagnostics, in order, from the fetch outcomes.
pub open spec fn diagnostics_of(outcomes: Seq<Result<ReleaseCandidate, VersionCheckDiagnostic>>) -> Seq<
    VersionCheckDiagnostic,
>
    decreases outcomes.len(),
{
    if outcomes.len() == 0 {
        seq![]
    } else {
        match outcomes.last() {
            Ok(_) => diagnostics_of(outcomes.drop_last()),
            Err(d) => diagnostics_of(outcomes.drop_last()).push(d),
        }
    }
}

/// The report of a check: when checks are disabled, no candidate and a
/// single `update_check_disabled` diagnostic; otherwise the candidates and
/// diagnostics that the fetches of the configured sources gave, in order.
pub fn check_for_updates(
    config: &UpdateConfig,
    current: ComparableVersion,
    outcomes: Vec<Result<ReleaseCandidate, VersionCheckDiagnostic>>,
    checked_at_unix_ms: u64,
) -> (r: VersionCheckResponse)
    ensures
        r.project_name@ == PACKAGE_NAME@,
        r.binary_name@ == "gd"@,
        r.current_version@ == PACKAGE_VERSION@,
        r.checked_at_unix_ms == checked_at_unix_ms,
        r.install_hint@ == install_hint(),
        !config.enabled ==> r.latest_version is None && r.source is None && r.release_url is None
            && !r.update_available && r.diagnostics@.len() == 1 && diagnostic_is(
            r.diagnostics@[0],
            None,
            "update_check_disabled"@,
            "update checks are disabled by GD_UPDATE_CHECK_ENABLED"@,
            false,
        ),
        config.enabled ==> r.diagnostics@ == diagnostics_of(outcomes@) && match best_index(
            candidates_of(outcomes@),
        ) {
            None => r.latest_version is None && r.source is None && r.release_url is None
                && !r.update_available,
            Some(b) => opt_str(r.latest_version) == Some(
                version_text(candidates_of(outcomes@)[b].version),
            ) && opt_str(r.source) == Some(source_name(candidates_of(outcomes@)[b].source))
                && opt_str(r.release_url) == Some(candidates_of(outcomes@)[b].release_url@)
                && r.update_available == version_lt(current, candidates_of(outcomes@)[b].version),
        },
{
    if !config.enabled {
        let mut d: Vec<VersionCheckDiagnostic> = Vec::new();
        d.push(
            diagnostic(
                None,
                "update_check_disabled",
                "update checks are disabled by GD_UPDATE_CHECK_ENABLED",
                false,
            ),
        );
        proof {
            reveal_with_fuel(best_index, 1);
        }
        return response_from_candidates(current, Vec::new(), d, checked_at_unix_ms);
    }
    let mut candidates: Vec<ReleaseCandidate> = Vec::new();
    let mut diagnostics: Vec<VersionCheckDiagnostic> = Vec::new();
    let mut rest = outcomes;
    let ghost all = rest@;
    let mut i: usize = 0;
    let n = rest.len();
    while i < n
        invariant
            n == all.len(),
            i <= n,
            rest@ == all.subrange(i as int, n as int),
            candidates@ == candidates_of(all.subrange(0, i as int)),
            diagnostics@ == diagnostics_of(all.subrange(0, i as int)),
        decreases n - i,
    {
        let o = rest.remove(0);
        proof {
            assert(rest@ =~= all.subrange(i + 1, n as int));
            assert(o == all[i as int]);
            assert(all.subrange(0, i + 1).drop_last() =~= all.subrange(0, i as int));
            assert(all.subrange(0, i + 1).last() == all[i as int]);
        }
        match o {
            Ok(c) => candidates.push(c),
            Err(d) => diagnostics.push(d),
        }
        i = i + 1;
    }
    assert(all.subrange(0, n as int) =~= all);
    response_from_candidates(current, candidates, diagnostics, checked_at_unix_ms)
}

/// The text report of a check: one status line, the release URL line when
/// there is one, and the install hint line.
pub open spec fn render_spec(r: VersionCheckResponse) -> Seq<char> {
    let head = match (r.update_available, r.latest_version, r.source) {
        (true, Some(latest), Some(source)) => r.binary_name@ + " update available: current="@
            + r.current_version@ + " latest="@ + latest@ + " source="@ + source@ + "\n"@,
        (true, Some(latest), None) => r.binary_name@ + " update available: current="@
            + r.current_version@ + " latest="@ + latest@ + "\n"@,
        (false, Some(latest), Some(source)) => r.binary_name@ + " is current: current="@
            + r.current_version@ + " latest="@ + latest@ + " source="@ + source@ + "\n"@,
        _ => r.binary_name@ + " latest version unavailable: current="@ + r.current_version@
            + " diagnostics="@ + decimal(r.diagnostics@.len()) + "\n"@,
    };
    let release = match r.release_url {
        Some(u) => "Release: "@ + u@ + "\n"@,
        None => seq![],
    };
    head + release + "Install: "@ + r.install_hint@ + "\n"@
}

/// The text report of a check.
pub fn render_version_check_text(response: &VersionCheckResponse) -> (r: String)
    ensures
        r@ == render_spec(*response),
{
    let mut out: Vec<char> = Vec::new();
    let ghost r0 = out@;
    match (response.update_available, &response.latest_version, &response.source) {
        (true, Some(latest), Some(source)) => {
            crate::text::append_str(&mut out, response.binary_name.as_str());
            crate::text::append_str(&mut out, " update available: current=");
            crate::text::append_str(&mut out, response.current_version.as_str());
            crate::text::append_str(&mut out, " latest=");
            crate::text::append_str(&mut out, latest.as_str());
            crate::text::append_str(&mut out, " source=");
            crate::text::append_str(&mut out, source.as_str());
            crate::text::append_str(&mut out, "\n");
        },
        (true, Some(latest), None) => {
            crate::text::append_str(&mut out, response.binary_name.as_str());
            crate::text::append_str(&mut out, " update available: current=");
            crate::text::append_str(&mut out, response.current_version.as_str());
            crate::text::append_str(&mut out, " latest=");
            crate::text::append_str(&mut out, latest.as_str());
            crate::text::append_str(&mut out, "\n");
        },
        (false, Some(latest), Some(source)) => {
            crate::text::append_str(&mut out, response.binary_name.as_str());
            crate::text::append_str(&mut out, " is current: current=");
            crate::text::append_str(&mut out, response.current_version.as_str());
            crate::text::append_str(&mut out, " latest=");
            crate::text::append_str(&mut out, latest.as_str());
            crate::text::append_str(&mut out, " source=");
            crate::text::append_str(&mut out, source.as_str());
            crate::text::append_str(&mut out, "\n");
        },
        _ => {
            crate::text::append_str(&mut out, response.binary_name.as_str());
            crate::text::append_str(&mut out, " latest version unavailable: current=");
            crate::text::append_str(&mut out, response.current_version.as_str());
            crate::text::append_str(&mut out, " diagnostics=");
            let n = u64_to_text(response.diagnostics.len() as u64);
            crate::text::append_str(&mut out, n.as_str());
            crate::text::append_str(&mut out, "\n");
        },
    }
    let ghost head = out@;
    if let Some(url) = &response.release_url {
        crate::text::append_str(&mut out, "Release: ");
        crate::text::append_str(&mut out, url.as_str());
        crate::text::append_str(&mut out, "\n");
    }
    crate::text::append_str(&mut out, "Install: ");
    crate::text::append_str(&mut out, response.install_hint.as_str());
    crate::text::append_str(&mut out, "\n");
    proof {
        assert(out@ =~= render_spec(*response));
    }
    from_chars(&out)
}

} // verus!

verus! {

/// The status line of the report names the current version after
/// `current=` and the latest version after `latest=`, in that order: for an
/// available update and for an up-to-date check alike; without a latest
/// version it names the current one and the number of diagnostics. The
/// report always ends with the install hint line.
pub proof fn law_report_names_current_then_latest(r: VersionCheckResponse)
    ensures
        r.update_available && r.latest_version is Some ==> crate::text::has_prefix(
            render_spec(r),
            r.binary_name@ + " update available: current="@ + r.current_version@ + " latest="@
                + r.latest_version->0@,
        ),
        !r.update_available && r.latest_version is Some && r.source is Some ==> crate::text::has_prefix(
            render_spec(r),
            r.binary_name@ + " is current: current="@ + r.current_version@ + " latest="@
                + r.latest_version->0@ + " source="@ + r.source->0@,
        ),
        r.latest_version is None ==> crate::text::has_prefix(
            render_spec(r),
            r.binary_name@ + " latest version unavailable: current="@ + r.current_version@
                + " diagnostics="@ + decimal(r.diagnostics@.len()),
        ),
        crate::text::has_suffix(render_spec(r), "Install: "@ + r.install_hint@ + "\n"@),
{
    let t = render_spec(r);
    let install = "Install: "@ + r.install_hint@ + "\n"@;
    assert(t.subrange(t.len() - install.len(), t.len() as int) =~= install);
    if r.latest_version is None {
        let u = r.binary_name@ + " latest version unavailable: current="@ + r.current_version@
            + " diagnostics="@ + decimal(r.diagnostics@.len());
        assert(t.subrange(0, u.len() as int) =~= u);
    }
    if r.latest_version is Some {
        let l = r.latest_version->0@;
        let p = r.binary_name@ + " update available: current="@ + r.current_version@ + " latest="@ + l;
        let q = r.binary_name@ + " is current: current="@ + r.current_version@ + " latest="@ + l;
        if r.update_available {
            match r.source {
                Some(_) => {
                    assert(t.subrange(0, p.len() as int) =~= p);
                },
                None => {
                    assert(t.subrange(0, p.len() as int) =~= p);
                },
            }
        } else if r.source is Some {
            let q2 = q + " source="@ + r.source->0@;
            assert(t.subrange(0, q2.len() as int) =~= q2);
        }
    }
}

} // verus!
