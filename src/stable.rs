//! Stable semantic versions and version ranges, read and ordered by `semver`.

use crate::text::{decimal, push_decimal, push_str};
use core::cmp::Ordering;
use vstd::prelude::*;

verus! {

#[verifier::external_type_specification]
#[verifier::external_body]
pub struct ExSemverError(semver::Error);

#[verifier::external_type_specification]
#[verifier::external_body]
pub struct ExSemverVersionReq(semver::VersionReq);

/// Relies on `Clone for semver::VersionReq` (derived): the copy equals its source.
pub assume_specification[ <semver::VersionReq as Clone>::clone ](r: &semver::VersionReq) -> (c: semver::VersionReq)
    ensures
        c == *r,
;

/// The parts of a stable semantic version.
pub struct SemverParts {
    pub major: u64,
    pub minor: u64,
    pub patch: u64,
    pub pre: Seq<char>,
    pub build: Seq<char>,
}

/// Canonical text of a stable version: `major.minor.patch`, then `-pre` and `+build`
/// where those are present.
pub open spec fn version_text(v: SemverParts) -> Seq<char> {
    decimal(v.major as nat) + seq!['.'] + decimal(v.minor as nat) + seq!['.'] + decimal(
        v.patch as nat,
    ) + (if v.pre.len() == 0 {
        Seq::<char>::empty()
    } else {
        seq!['-'] + v.pre
    }) + (if v.build.len() == 0 {
        Seq::<char>::empty()
    } else {
        seq!['+'] + v.build
    })
}

/// Lexicographic order of the numeric triples of two versions.
pub open spec fn triple_order(a: SemverParts, b: SemverParts) -> Ordering {
    if a.major != b.major {
        if a.major < b.major {
            Ordering::Less
        } else {
            Ordering::Greater
        }
    } else if a.minor != b.minor {
        if a.minor < b.minor {
            Ordering::Less
        } else {
            Ordering::Greater
        }
    } else if a.patch != b.patch {
        if a.patch < b.patch {
            Ordering::Less
        } else {
            Ordering::Greater
        }
    } else {
        Ordering::Equal
    }
}

pub open spec fn same_triple(a: SemverParts, b: SemverParts) -> bool {
    a.major == b.major && a.minor == b.minor && a.patch == b.patch
}

/// What `semver::Version::parse` reads from a text: the parts, or `None` where it fails.
pub uninterp spec fn semver_parse(s: Seq<char>) -> Option<SemverParts>;

/// The order that `semver::Version::cmp_precedence` puts two versions in: by major,
/// minor, patch and pre-release, build metadata aside.
pub uninterp spec fn semver_order(a: SemverParts, b: SemverParts) -> Ordering;

/// Two versions of equal precedence: the same numbers and the same pre-release.
pub open spec fn same_precedence(a: SemverParts, b: SemverParts) -> bool {
    same_triple(a, b) && a.pre == b.pre
}

pub open spec fn reverse(o: Ordering) -> Ordering {
    match o {
        Ordering::Less => Ordering::Greater,
        Ordering::Equal => Ordering::Equal,
        Ordering::Greater => Ordering::Less,
    }
}

/// What a total order needs of `semver_order` at `a` and `b`, given the order `r` of
/// `a` against `b`: `b` against `a` is the reverse, and chains through `a` carry over to `b`.
pub open spec fn order_laws_at(a: SemverParts, b: SemverParts, r: Ordering) -> bool {
    &&& semver_order(b, a) == reverse(r)
    &&& forall|x: SemverParts|
        semver_valid(x) && #[trigger] semver_order(x, a) != Ordering::Less && r
            != Ordering::Less ==> semver_order(x, b) != Ordering::Less
    &&& forall|x: SemverParts|
        semver_valid(x) && #[trigger] semver_order(x, a) == Ordering::Greater && r
            != Ordering::Less ==> semver_order(x, b) == Ordering::Greater
    &&& forall|x: SemverParts|
        semver_valid(x) && #[trigger] semver_order(x, a) != Ordering::Less && r
            == Ordering::Greater ==> semver_order(x, b) == Ordering::Greater
}

/// The text that `Display for semver::Error` writes for the error that
/// `semver::Version::parse` returns on `s`.
pub uninterp spec fn semver_parse_message(s: Seq<char>) -> Seq<char>;

/// The text that `Display for semver::Error` writes for the error that
/// `semver::VersionReq::parse` returns on `s`.
pub uninterp spec fn semver_req_message(s: Seq<char>) -> Seq<char>;

/// A text that `semver` could not read: its error, and the description it gives of it.
#[derive(Debug)]
pub struct SemverFailure {
    pub error: semver::Error,
    pub message: String,
}

/// Whether `semver::VersionReq::parse` accepts a text.
pub uninterp spec fn semver_req_accepts(s: Seq<char>) -> bool;

/// Whether the requirement that `semver::VersionReq::parse` reads from `req` admits
/// `v` (`semver::VersionReq::matches`).
pub uninterp spec fn semver_admits(req: Seq<char>, v: SemverParts) -> bool;

/// A version that `semver` produces: parsing its canonical text gives it back.
pub open spec fn semver_valid(v: SemverParts) -> bool {
    semver_parse(version_text(v)) == Some(v)
}

/// Relies on `semver::Version::parse`. It accepts a version only in canonical form
/// (no leading zeros, no blanks, nothing after the build metadata) and keeps the
/// pre-release and build texts as written, so an accepted text is the canonical text
/// of its parts. `Version::cmp_precedence` puts a version level with itself. On failure
/// the error is kept with its text, from `Display for semver::Error`.
#[verifier::external_body]
fn semver_read(s: &str) -> (r: Result<(u64, u64, u64, String, String), SemverFailure>)
    ensures
        match r {
            Ok(p) => {
                let parts = (SemverParts {
                    major: p.0,
                    minor: p.1,
                    patch: p.2,
                    pre: p.3@,
                    build: p.4@,
                });
                &&& semver_parse(s@) == Some(parts)
                &&& version_text(parts) == s@
                &&& semver_order(parts, parts) == Ordering::Equal
            },
            Err(f) => semver_parse(s@) is None && f.message@ == semver_parse_message(s@),
        },
{
    match semver::Version::parse(s) {
        Ok(v) => Ok((v.major, v.minor, v.patch, v.pre.as_str().to_string(), v.build.as_str().to_string())),
        Err(e) => {
            let message = e.to_string();
            Err(SemverFailure { error: e, message })
        },
    }
}

/// The parts held in plain values.
pub open spec fn parts_of(p: (u64, u64, u64, String, String)) -> SemverParts {
    SemverParts { major: p.0, minor: p.1, patch: p.2, pre: p.3@, build: p.4@ }
}

/// Relies on `semver::Version::new`: the version of three numbers, with no pre-release
/// and no build metadata. It is what `Version::parse` gives for its text (the parser
/// returns `Version::new` there), and `cmp_precedence` puts it level with itself.
#[verifier::external_body]
fn semver_new(major: u64, minor: u64, patch: u64) -> (r: (u64, u64, u64, String, String))
    ensures
        r.0 == major && r.1 == minor && r.2 == patch,
        r.3@ == Seq::<char>::empty() && r.4@ == Seq::<char>::empty(),
        semver_parse(version_text(parts_of(r))) == Some(parts_of(r)),
        semver_order(parts_of(r), parts_of(r)) == Ordering::Equal,
{
    let v = semver::Version::new(major, minor, patch);
    (v.major, v.minor, v.patch, v.pre.as_str().to_string(), v.build.as_str().to_string())
}

/// The release after `v` in patch number: same major and minor, patch one higher, with
/// no pre-release and no build metadata.
pub open spec fn next_patch_parts(v: SemverParts) -> SemverParts {
    SemverParts {
        major: v.major,
        minor: v.minor,
        patch: (v.patch + 1) as u64,
        pre: Seq::<char>::empty(),
        build: Seq::<char>::empty(),
    }
}

/// A stable semantic version.
#[derive(Debug)]
pub struct StableVersion {
    major: u64,
    minor: u64,
    patch: u64,
    pre: String,
    build: String,
}

impl View for StableVersion {
    type V = SemverParts;

    closed spec fn view(&self) -> SemverParts {
        SemverParts {
            major: self.major,
            minor: self.minor,
            patch: self.patch,
            pre: self.pre@,
            build: self.build@,
        }
    }
}

/// Relies on `semver::Version::cmp_precedence`: the derived `Ord` of the tuple (major,
/// minor, patch, pre-release), so the numbers decide first, pre-releases compare equal
/// only when their texts are equal, and the order is total. The version is rebuilt from
/// its parts; those came from `Version::parse`, so `Prerelease::new` and
/// `BuildMetadata::new` accept them again.
#[verifier::external_body]
fn semver_cmp(a: &StableVersion, b: &StableVersion) -> (r: Ordering)
    requires
        semver_valid(a@),
        semver_valid(b@),
    ensures
        r == semver_order(a@, b@),
        !same_triple(a@, b@) ==> r == triple_order(a@, b@),
        (r == Ordering::Equal) == same_precedence(a@, b@),
        order_laws_at(a@, b@, r),
{
    let x = semver::Version { major: a.major, minor: a.minor, patch: a.patch,
        pre: semver::Prerelease::new(&a.pre).unwrap(), build: semver::BuildMetadata::new(&a.build).unwrap() };
    let y = semver::Version { major: b.major, minor: b.minor, patch: b.patch,
        pre: semver::Prerelease::new(&b.pre).unwrap(), build: semver::BuildMetadata::new(&b.build).unwrap() };
    x.cmp_precedence(&y)
}

impl StableVersion {
    #[verifier::type_invariant]
    closed spec fn inv(&self) -> bool {
        semver_valid(self@) && semver_order(self@, self@) == Ordering::Equal
    }

    /// Reads a stable version with `semver`.
    pub fn parse(s: &str) -> (r: Result<StableVersion, SemverFailure>)
        ensures
            match r {
                Ok(v) => semver_parse(s@) == Some(v@) && version_text(v@) == s@,
                Err(f) => semver_parse(s@) is None && f.message@ == semver_parse_message(s@),
            },
    {
        match semver_read(s) {
            Ok(p) => {
                let v = StableVersion { major: p.0, minor: p.1, patch: p.2, pre: p.3, build: p.4 };
                Ok(v)
            },
            Err(e) => Err(e),
        }
    }

    pub fn major(&self) -> (r: u64)
        ensures
            r == self@.major,
    {
        self.major
    }

    pub fn minor(&self) -> (r: u64)
        ensures
            r == self@.minor,
    {
        self.minor
    }

    pub fn patch(&self) -> (r: u64)
        ensures
            r == self@.patch,
    {
        self.patch
    }

    /// States that this version is one that `semver` produced, level with itself.
    pub fn show_valid(&self)
        ensures
            semver_valid(self@),
            semver_order(self@, self@) == Ordering::Equal,
    {
        proof {
            use_type_invariant(self);
        }
    }

    /// The next patch release after this version; `None` where the patch number is
    /// already the largest.
    pub fn next_patch(&self) -> (r: Option<StableVersion>)
        ensures
            r is Some == (self@.patch < u64::MAX),
            r is Some ==> r->Some_0@ == next_patch_parts(self@),
    {
        if self.patch == u64::MAX {
            return None;
        }
        let p = semver_new(self.major, self.minor, self.patch + 1);
        Some(StableVersion { major: p.0, minor: p.1, patch: p.2, pre: p.3, build: p.4 })
    }

    /// A copy of this version.
    pub fn duplicate(&self) -> (r: StableVersion)
        ensures
            r@ == self@,
    {
        proof {
            use_type_invariant(self);
        }
        StableVersion {
            major: self.major,
            minor: self.minor,
            patch: self.patch,
            pre: self.pre.clone(),
            build: self.build.clone(),
        }
    }

    /// Canonical text, as `Display for semver::Version` writes it.
    pub fn display(&self) -> (r: String)
        ensures
            r@ == version_text(self@),
    {
        let mut out = String::new();
        push_decimal(&mut out, self.major);
        out.push('.');
        push_decimal(&mut out, self.minor);
        out.push('.');
        push_decimal(&mut out, self.patch);
        if self.pre.as_str().unicode_len() > 0 {
            out.push('-');
            push_str(&mut out, self.pre.as_str());
        }
        if self.build.as_str().unicode_len() > 0 {
            out.push('+');
            push_str(&mut out, self.build.as_str());
        }
        out
    }

    /// Where this version stands against `other` in `semver`'s precedence, build
    /// metadata aside.
    pub fn compare(&self, other: &StableVersion) -> (r: Ordering)
        ensures
            r == semver_order(self@, other@),
            !same_triple(self@, other@) ==> r == triple_order(self@, other@),
            (r == Ordering::Equal) == same_precedence(self@, other@),
            order_laws_at(self@, other@, r),
    {
        proof {
            use_type_invariant(self);
            use_type_invariant(other);
        }
        semver_cmp(self, other)
    }

    /// Whether both versions have the same precedence: the same numbers and
    /// pre-release, whatever their build metadata.
    pub fn same(&self, other: &StableVersion) -> (r: bool)
        ensures
            r == same_precedence(self@, other@),
    {
        proof {
            use_type_invariant(self);
            use_type_invariant(other);
        }
        match semver_cmp(self, other) {
            Ordering::Equal => true,
            _ => false,
        }
    }
}


/// A range of stable versions, as `semver` reads one (`>=1.0.0, <2.0.0`).
#[derive(Debug)]
pub struct VersionRange {
    text: String,
    req: semver::VersionReq,
}

impl View for VersionRange {
    type V = Seq<char>;

    /// The text that the range was read from.
    closed spec fn view(&self) -> Seq<char> {
        self.text@
    }
}

/// Relies on `semver::VersionReq::parse`; the text is kept beside what it was read into,
/// and an error beside its text from `Display for semver::Error`.
#[verifier::external_body]
fn semver_read_range(s: &str) -> (r: Result<VersionRange, SemverFailure>)
    ensures
        r is Ok == semver_req_accepts(s@),
        r is Ok ==> r->Ok_0@ == s@,
        r is Err ==> r->Err_0.message@ == semver_req_message(s@),
{
    match semver::VersionReq::parse(s) {
        Ok(req) => Ok(VersionRange { text: s.to_string(), req }),
        Err(e) => {
            let message = e.to_string();
            Err(SemverFailure { error: e, message })
        },
    }
}

/// Relies on `semver::VersionReq::matches`, on the requirement read from the range's
/// text. The version is rebuilt from its parts as for the comparison.
#[verifier::external_body]
fn semver_range_matches(range: &VersionRange, v: &StableVersion) -> (r: bool)
    requires
        semver_valid(v@),
    ensures
        r == semver_admits(range@, v@),
{
    let x = semver::Version { major: v.major, minor: v.minor, patch: v.patch,
        pre: semver::Prerelease::new(&v.pre).unwrap(), build: semver::BuildMetadata::new(&v.build).unwrap() };
    range.req.matches(&x)
}

impl VersionRange {
    /// Reads a range with `semver`.
    pub fn parse(s: &str) -> (r: Result<VersionRange, SemverFailure>)
        ensures
            r is Ok == semver_req_accepts(s@),
            r is Ok ==> r->Ok_0@ == s@,
            r is Err ==> r->Err_0.message@ == semver_req_message(s@),
    {
        semver_read_range(s)
    }

    /// Whether `v` lies in the range.
    pub fn matches(&self, v: &StableVersion) -> (r: bool)
        ensures
            r == semver_admits(self@, v@),
    {
        proof {
            use_type_invariant(v);
        }
        semver_range_matches(self, v)
    }

    /// The text that the range was read from.
    pub fn text(&self) -> (r: String)
        ensures
            r@ == self@,
    {
        self.text.clone()
    }

    /// A copy of this range.
    pub fn duplicate(&self) -> (r: VersionRange)
        ensures
            r@ == self@,
    {
        VersionRange { text: self.text.clone(), req: self.req.clone() }
    }
}

} // verus!
