//! Release versions and their order.
use vstd::prelude::*;
use core::cmp::Ordering;
use vstd::std_specs::cmp::PartialOrdSpecImpl;

verus! {

/// A `major.minor.patch` version, flagged when it carries a pre-release part.
#[derive(Debug, Clone, Copy, PartialEq, Eq, Structural)]
pub struct ComparableVersion {
    pub major: u64,
    pub minor: u64,
    pub patch: u64,
    pub prerelease: bool,
}

/// Rank of the pre-release flag: a pre-release sorts below its release.
pub open spec fn release_rank(prerelease: bool) -> int {
    if prerelease {
        0
    } else {
        1
    }
}

/// `a` sorts strictly below `b`: lexicographically by major, minor, patch,
/// then pre-release before release.
pub open spec fn version_lt(a: ComparableVersion, b: ComparableVersion) -> bool {
    a.major < b.major || (a.major == b.major && (a.minor < b.minor || (a.minor == b.minor && (
    a.patch < b.patch || (a.patch == b.patch && release_rank(a.prerelease) < release_rank(
        b.prerelease,
    ))))))
}

/// The three-way comparison of `a` with `b`.
pub open spec fn version_order(a: ComparableVersion, b: ComparableVersion) -> Ordering {
    if version_lt(a, b) {
        Ordering::Less
    } else if a == b {
        Ordering::Equal
    } else {
        Ordering::Greater
    }
}

/// The precedence of the pre-release flag: `0` for a pre-release, `1` for a release.
pub fn release_precedence(prerelease: bool) -> (r: u8)
    ensures
        r as int == release_rank(prerelease),
{
    if prerelease {
        0
    } else {
        1
    }
}

impl ComparableVersion {
    /// Whether `self` sorts strictly below `other`.
    pub fn is_less_than(&self, other: &ComparableVersion) -> (r: bool)
        ensures
            r == version_lt(*self, *other),
    {
        let a = release_precedence(self.prerelease);
        let b = release_precedence(other.prerelease);
        self.major < other.major || (self.major == other.major && (self.minor < other.minor || (
        self.minor == other.minor && (self.patch < other.patch || (self.patch == other.patch && a
            < b)))))
    }

    /// The three-way comparison of `self` with `other`.
    pub fn compare(&self, other: &ComparableVersion) -> (r: Ordering)
        ensures
            r == version_order(*self, *other),
    {
        if self.is_less_than(other) {
            Ordering::Less
        } else if self.major == other.major && self.minor == other.minor && self.patch
            == other.patch && self.prerelease == other.prerelease {
            Ordering::Equal
        } else {
            Ordering::Greater
        }
    }
}

impl PartialOrd for ComparableVersion {
    fn partial_cmp(&self, other: &ComparableVersion) -> (r: Option<Ordering>) {
        Some(self.compare(other))
    }
}

impl PartialOrdSpecImpl for ComparableVersion {
    open spec fn obeys_partial_cmp_spec() -> bool {
        true
    }

    open spec fn partial_cmp_spec(&self, other: &ComparableVersion) -> Option<Ordering> {
        Some(version_order(*self, *other))
    }
}

/// The version order is a strict total order: irreflexive, transitive, and
/// any two different versions are ordered one way or the other.
pub proof fn law_version_order_is_total(a: ComparableVersion, b: ComparableVersion, c: ComparableVersion)
    ensures
        !version_lt(a, a),
        version_lt(a, b) && version_lt(b, c) ==> version_lt(a, c),
        a != b ==> (version_lt(a, b) || version_lt(b, a)),
        version_lt(a, b) ==> !version_lt(b, a),
{
}

/// A pre-release sorts below the release with the same numbers.
pub proof fn law_prerelease_sorts_below_release(major: u64, minor: u64, patch: u64)
    ensures
        version_lt(
            ComparableVersion { major, minor, patch, prerelease: true },
            ComparableVersion { major, minor, patch, prerelease: false },
        ),
{
}

} // verus!
