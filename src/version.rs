//! Selection of the one backend whose declared version range holds the
//! detected datastore version.
use vstd::prelude::*;

use crate::error::ErrorKind;

verus! {

/// What `semver::Version::parse` gives for a text: major, minor, patch, and
/// whether the version has no pre-release tag; `None` where it fails.
pub uninterp spec fn semver_parse(text: Seq<char>) -> Option<(u64, u64, u64, bool)>;

/// Relies on semver::Version::parse, to read a semantic version; its
/// major, minor and patch numbers are passed on, and whether its pre-release
/// tag is empty. Build metadata plays no part in version precedence.
#[verifier::external_body]
fn parse_semver(text: &str) -> (r: Option<(u64, u64, u64, bool)>)
    ensures
        r == semver_parse(text@),
{
    match semver::Version::parse(text) {
        Ok(v) => Some((v.major, v.minor, v.patch, v.pre.is_empty())),
        Err(_) => None,
    }
}

/// A release version: major, minor and patch numbers.
#[derive(Clone, Copy, Debug, PartialEq, Eq, Hash, Structural)]
pub struct SemVer {
    pub major: u64,
    pub minor: u64,
    pub patch: u64,
}

/// Version precedence: `a` comes before `b`.
pub open spec fn before(a: SemVer, b: SemVer) -> bool {
    a.major < b.major || (a.major == b.major && (a.minor < b.minor || (a.minor == b.minor
        && a.patch < b.patch)))
}

impl SemVer {
    /// A version from its three numbers.
    pub fn new(major: u64, minor: u64, patch: u64) -> (r: SemVer)
        ensures
            r == (SemVer { major, minor, patch }),
    {
        SemVer { major, minor, patch }
    }

    /// True if this version comes before `other`.
    pub fn precedes(&self, other: &SemVer) -> (r: bool)
        ensures
            r == before(*self, *other),
    {
        self.major < other.major || (self.major == other.major && (self.minor < other.minor || (
        self.minor == other.minor && self.patch < other.patch)))
    }
}

/// A version range: from `lower` (included) up to `upper` (excluded).
#[derive(Clone, Copy, Debug, PartialEq, Eq, Hash, Structural)]
pub struct VersionRange {
    pub lower: SemVer,
    pub upper: SemVer,
}

/// The range holds the version.
pub open spec fn in_range(r: VersionRange, v: SemVer) -> bool {
    !before(v, r.lower) && before(v, r.upper)
}

/// The range holds at least one version.
pub open spec fn non_empty(r: VersionRange) -> bool {
    before(r.lower, r.upper)
}

/// Two ranges share at least one version.
pub open spec fn overlap(a: VersionRange, b: VersionRange) -> bool {
    exists|v: SemVer| in_range(a, v) && in_range(b, v)
}

/// Precedence is a strict total order.
proof fn lemma_before_total(a: SemVer, b: SemVer, c: SemVer)
    ensures
        before(a, b) && before(b, c) ==> before(a, c),
        !before(a, a),
        a != b ==> before(a, b) || before(b, a),
        before(a, b) ==> !before(b, a),
{
}

/// Two non-empty ranges overlap exactly when each starts before the other ends.
pub proof fn lemma_overlap_bounds(a: VersionRange, b: VersionRange)
    requires
        non_empty(a),
        non_empty(b),
    ensures
        overlap(a, b) <==> before(a.lower, b.upper) && before(b.lower, a.upper),
{
    if before(a.lower, b.upper) && before(b.lower, a.upper) {
        let v = if before(a.lower, b.lower) { b.lower } else { a.lower };
        lemma_before_total(a.lower, b.lower, v);
        assert(in_range(a, v) && in_range(b, v));
    }
    if overlap(a, b) {
        let v = choose|v: SemVer| in_range(a, v) && in_range(b, v);
        lemma_before_total(a.lower, v, b.upper);
        lemma_before_total(b.lower, v, a.upper);
        lemma_before_total(a.lower, v, a.upper);
        lemma_before_total(b.lower, v, b.upper);
        if !before(a.lower, b.upper) {
            lemma_before_total(b.upper, a.lower, v);
            lemma_before_total(v, b.upper, a.lower);
            if a.lower == b.upper {
            } else {
                lemma_before_total(b.upper, v, a.lower);
            }
        }
        if !before(b.lower, a.upper) {
            lemma_before_total(a.upper, b.lower, v);
            if b.lower == a.upper {
            } else {
                lemma_before_total(a.upper, v, b.lower);
            }
        }
    }
}

impl VersionRange {
    /// The range from `lower` (included) up to `upper` (excluded).
    pub fn new(lower: SemVer, upper: SemVer) -> (r: VersionRange)
        ensures
            r == (VersionRange { lower, upper }),
    {
        VersionRange { lower, upper }
    }

    /// True if the range holds `v`.
    pub fn contains(&self, v: &SemVer) -> (r: bool)
        ensures
            r == in_range(*self, *v),
    {
        !v.precedes(&self.lower) && v.precedes(&self.upper)
    }

    /// True if this non-empty range shares a version with the non-empty range `other`.
    pub fn overlaps(&self, other: &VersionRange) -> (r: bool)
        requires
            non_empty(*self),
            non_empty(*other),
        ensures
            r == overlap(*self, *other),
    {
        proof {
            lemma_overlap_bounds(*self, *other);
        }
        self.lower.precedes(&other.upper) && other.lower.precedes(&self.upper)
    }
}

/// Registered backends, at most one for any version.
pub struct BackendRegistry<B> {
    ranges: Vec<VersionRange>,
    backends: Vec<B>,
}

/// Ranges are non-empty and no two of them overlap.
pub open spec fn disjoint_ranges(rs: Seq<VersionRange>) -> bool {
    &&& forall|i: int| 0 <= i < rs.len() ==> non_empty(#[trigger] rs[i])
    &&& forall|i: int, j: int| 0 <= i < j < rs.len() ==> !overlap(rs[i], rs[j])
}

/// Among pairwise disjoint ranges, at most one holds any version.
pub proof fn lemma_at_most_one_match(rs: Seq<VersionRange>, v: SemVer, i: int, j: int)
    requires
        disjoint_ranges(rs),
        0 <= i < rs.len(),
        0 <= j < rs.len(),
        in_range(rs[i], v),
        in_range(rs[j], v),
    ensures
        i == j,
{
    if i < j {
        assert(!overlap(rs[i], rs[j]));
    } else if j < i {
        assert(!overlap(rs[j], rs[i]));
    }
}

impl<B> BackendRegistry<B> {
    /// The registered ranges, in registration order.
    pub closed spec fn ranges(&self) -> Seq<VersionRange> {
        self.ranges@
    }

    /// The registered backends, index for index with the ranges.
    pub closed spec fn backends(&self) -> Seq<B> {
        self.backends@
    }

    /// The registry's invariant.
    pub closed spec fn wf(&self) -> bool {
        &&& self.ranges@.len() == self.backends@.len()
        &&& disjoint_ranges(self.ranges@)
    }

    /// An empty registry.
    pub fn new() -> (r: Self)
        ensures
            r.wf(),
            r.ranges() == Seq::<VersionRange>::empty(),
    {
        BackendRegistry { ranges: Vec::new(), backends: Vec::new() }
    }

    /// Registers `backend` for the versions of `range`.
    ///
    /// An empty range is refused with `ConfigOption`, and a range that shares
    /// a version with one registered before is refused with `ConfigClash`:
    /// which backend runs never depends on the order of registration.
    pub fn register(&mut self, range: VersionRange, backend: B) -> (r: Result<(), ErrorKind>)
        requires
            old(self).wf(),
        ensures
            final(self).wf(),
            !non_empty(range) ==> r is Err && r->Err_0 is ConfigOption,
            non_empty(range) && (exists|i: int|
                0 <= i < old(self).ranges().len() && overlap(old(self).ranges()[i], range)) ==> r
                is Err && r->Err_0 is ConfigClash,
            r is Ok <==> non_empty(range) && forall|i: int|
                0 <= i < old(self).ranges().len() ==> !overlap(old(self).ranges()[i], range),
            r is Ok ==> final(self).ranges() == old(self).ranges().push(range)
                && final(self).backends() == old(self).backends().push(backend),
            r is Err ==> final(self).ranges() == old(self).ranges() && final(self).backends()
                == old(self).backends(),
    {
        if !range.lower.precedes(&range.upper) {
            return Err(ErrorKind::ConfigOption("backend version range".to_owned()));
        }
        let mut i: usize = 0;
        while i < self.ranges.len()
            invariant
                self.wf(),
                non_empty(range),
                i <= self.ranges@.len(),
                forall|k: int| 0 <= k < i ==> !overlap(self.ranges@[k], range),
            decreases self.ranges@.len() - i,
        {
            if self.ranges[i].overlaps(&range) {
                assert(overlap(self.ranges()[i as int], range));
                return Err(
                    ErrorKind::ConfigClash("overlapping backend version ranges".to_owned()),
                );
            }
            i = i + 1;
        }
        self.ranges.push(range);
        self.backends.push(backend);
        Ok(())
    }

    /// Index of the backend whose range holds `v`; there is at most one.
    pub fn resolve(&self, v: &SemVer) -> (r: Option<usize>)
        requires
            self.wf(),
        ensures
            r is None <==> forall|i: int|
                0 <= i < self.ranges().len() ==> !in_range(self.ranges()[i], *v),
            r is Some ==> r->Some_0 < self.ranges().len() && in_range(
                self.ranges()[r->Some_0 as int],
                *v,
            ),
            r is Some ==> forall|i: int|
                0 <= i < self.ranges().len() && in_range(self.ranges()[i], *v) ==> i
                    == r->Some_0,
    {
        let mut i: usize = 0;
        while i < self.ranges.len()
            invariant
                self.wf(),
                i <= self.ranges@.len(),
                forall|k: int| 0 <= k < i ==> !in_range(self.ranges@[k], *v),
            decreases self.ranges@.len() - i,
        {
            if self.ranges[i].contains(v) {
                proof {
                    assert(in_range(self.ranges()[i as int], *v));
                    assert forall|k: int|
                        0 <= k < self.ranges().len() && in_range(
                            self.ranges()[k],
                            *v,
                        ) implies k == i by {
                        lemma_at_most_one_match(self.ranges@, *v, k, i as int);
                    }
                }
                return Some(i);
            }
            i = i + 1;
        }
        None
    }

    /// The backend at index `i`.
    pub fn backend(&self, i: usize) -> (r: &B)
        requires
            self.wf(),
            i < self.ranges().len(),
        ensures
            *r == self.backends()[i as int],
    {
        &self.backends[i]
    }

    /// Index of the backend for the version text the datastore reported.
    ///
    /// A text that is no semantic version, a pre-release, or a version that no
    /// registered range holds is refused with `UnsupportedVersion`, naming the
    /// detected text: the agent does not start on a guess.
    pub fn resolve_detected(&self, detected: &String) -> (r: Result<usize, ErrorKind>)
        requires
            self.wf(),
        ensures
            ({
                let p = semver_parse(detected@);
                match p {
                    Some(t) => if t.3 {
                        let v = SemVer { major: t.0, minor: t.1, patch: t.2 };
                        &&& r is Ok ==> r->Ok_0 < self.ranges().len() && in_range(
                            self.ranges()[r->Ok_0 as int],
                            v,
                        )
                        &&& r is Err <==> forall|i: int|
                            0 <= i < self.ranges().len() ==> !in_range(self.ranges()[i], v)
                    } else {
                        r is Err
                    },
                    None => r is Err,
                }
            }),
            r is Err ==> r == Err::<usize, ErrorKind>(
                ErrorKind::UnsupportedVersion(*detected),
            ),
    {
        match parse_semver(detected.as_str()) {
            Some((major, minor, patch, stable)) => {
                if !stable {
                    return Err(ErrorKind::UnsupportedVersion(detected.clone()));
                }
                let v = SemVer { major, minor, patch };
                match self.resolve(&v) {
                    Some(i) => Ok(i),
                    None => Err(ErrorKind::UnsupportedVersion(detected.clone())),
                }
            },
            None => Err(ErrorKind::UnsupportedVersion(detected.clone())),
        }
    }
}

/// The two version texts are compatible: both parse, with the same major
/// number, and for major number 0 the same minor number too.
pub open spec fn compatible_versions(
    a: Option<(u64, u64, u64, bool)>,
    b: Option<(u64, u64, u64, bool)>,
) -> bool {
    match (a, b) {
        (Some(x), Some(y)) => x.0 == y.0 && (x.0 != 0 || x.1 == y.1),
        _ => false,
    }
}

/// True if an action validated by agent version `recorded` can be run by
/// agent version `current`.
pub fn versions_compatible(recorded: &str, current: &str) -> (r: bool)
    ensures
        r == compatible_versions(semver_parse(recorded@), semver_parse(current@)),
{
    match (parse_semver(recorded), parse_semver(current)) {
        (Some(x), Some(y)) => x.0 == y.0 && (x.0 != 0 || x.1 == y.1),
        _ => false,
    }
}

} // verus!
