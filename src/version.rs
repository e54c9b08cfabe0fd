//! Versions of the node binary and requirements on them.

use crate::calendar::{
    calendar_date, date_order, date_stamp, lemma_two_digits, lemma_year_digits, two_digits,
    year_digits, BuildDate,
};
use crate::stable::{
    reverse, same_precedence, semver_parse_message, semver_req_message, SemverFailure, same_triple, semver_admits, semver_order, semver_parse,
    semver_req_accepts, semver_valid, triple_order, version_text, SemverParts, StableVersion, VersionRange,
};
use crate::text::{
    decimal, is_digit, lemma_u32_of_digits, parse_u32, push_str, same_text, starts_with, starts_with_seq, u32_of,
};
use core::cmp::Ordering;
use vstd::prelude::*;

verus! {

/// A dated nightly build: the day it was built on, and the stable version it leads up
/// to, where that is known. A build found in the registry knows it; the name of an
/// installed build records only the day.
#[derive(Debug)]
pub struct NightlyBuild {
    pub date: BuildDate,
    pub anchor: Option<StableVersion>,
}

/// A version of the node binary.
#[derive(Debug)]
pub enum Version {
    /// A nightly build; `None` until it is tied to the day it was built on.
    Nightly(Option<NightlyBuild>),
    Stable(StableVersion),
}

/// A requirement that candidate versions are checked against.
#[derive(Debug)]
pub enum VersionRequirement {
    /// No constraint: it drives a lookup of the newest release and matches nothing itself.
    Latest,
    Nightly,
    Stable(VersionRange),
    ExactStable(StableVersion),
}

#[derive(Debug)]
pub enum VersionError {
    Semver(SemverFailure),
    /// The text starts like a nightly version but holds no valid build date.
    Nightly,
    /// The nightly version already carries a build date.
    AlreadyConfigured,
}

#[derive(Debug)]
pub enum RequirementError {
    /// The range could not be read.
    ReqError(SemverFailure),
    /// The exact version could not be read.
    VersionError(SemverFailure),
}

pub enum VersionModel {
    Nightly(Option<(u32, u32, u32)>),
    Stable(SemverParts),
}

pub enum ReqModel {
    Latest,
    Nightly,
    Stable(Seq<char>),
    ExactStable(SemverParts),
}

impl View for Version {
    type V = VersionModel;

    open spec fn view(&self) -> VersionModel {
        match self {
            Version::Nightly(None) => VersionModel::Nightly(None),
            Version::Nightly(Some(b)) => VersionModel::Nightly(Some(b.date@)),
            Version::Stable(v) => VersionModel::Stable(v@),
        }
    }
}

/// The stable version that a dated nightly leads up to, where it is known.
pub open spec fn nightly_anchor(v: &Version) -> Option<SemverParts> {
    match v {
        Version::Nightly(Some(b)) => match b.anchor {
            Some(a) => Some(a@),
            None => None,
        },
        _ => None,
    }
}

impl View for VersionRequirement {
    type V = ReqModel;

    open spec fn view(&self) -> ReqModel {
        match self {
            VersionRequirement::Latest => ReqModel::Latest,
            VersionRequirement::Nightly => ReqModel::Nightly,
            VersionRequirement::Stable(r) => ReqModel::Stable(r@),
            VersionRequirement::ExactStable(v) => ReqModel::ExactStable(v@),
        }
    }
}

pub open spec fn nightly_word() -> Seq<char> {
    seq!['n', 'i', 'g', 'h', 't', 'l', 'y']
}

/// The word `nightly` as a string.
pub fn nightly_str() -> (r: &'static str)
    ensures
        r@ == nightly_word(),
{
    proof {
        reveal_strlit("nightly");
    }
    "nightly"
}

/// The numbers of a nightly stamp `nightly.yyyymmdd`, read from a text of that length.
pub open spec fn stamp_parts(s: Seq<char>) -> Option<(u32, u32, u32)> {
    match (u32_of(s.subrange(8, 12)), u32_of(s.subrange(12, 14)), u32_of(s.subrange(14, 16))) {
        (Some(y), Some(m), Some(d)) => Some((y, m, d)),
        _ => None,
    }
}

/// What reading a version from a text gives.
pub enum VersionReading {
    Read(VersionModel),
    BadNightly,
    BadSemver,
}

/// How a text reads as a version: `nightly` alone; a dated nightly only as
/// `nightly.yyyymmdd`, the text of a calendar day; otherwise a semantic version. Every
/// text read is the display text of what it is read as, so no two texts read the same.
pub open spec fn version_reading(s: Seq<char>) -> VersionReading {
    if s == nightly_word() {
        VersionReading::Read(VersionModel::Nightly(None))
    } else if starts_with_seq(s, nightly_word()) {
        if s.len() == 16 && s[7] == '.' {
            match stamp_parts(s) {
                Some(d) => if calendar_date(d.0 as int, d.1 as int, d.2 as int)
                    && version_display(VersionModel::Nightly(Some(d))) == s {
                    VersionReading::Read(VersionModel::Nightly(Some(d)))
                } else {
                    VersionReading::BadNightly
                },
                None => VersionReading::BadNightly,
            }
        } else {
            VersionReading::BadNightly
        }
    } else {
        match semver_parse(s) {
            Some(p) => VersionReading::Read(VersionModel::Stable(p)),
            None => VersionReading::BadSemver,
        }
    }
}

/// Text of a version: `nightly`, `nightly.yyyymmdd`, or the canonical semantic version.
pub open spec fn version_display(v: VersionModel) -> Seq<char> {
    match v {
        VersionModel::Nightly(None) => nightly_word(),
        VersionModel::Nightly(Some(d)) => nightly_word() + seq!['.'] + date_stamp(d),
        VersionModel::Stable(p) => version_text(p),
    }
}

/// The total order used to pick the newest version: nightlies by build date (an
/// undated one first), stable versions by `semver` precedence, and every nightly below
/// every stable version.
pub open spec fn version_order(a: VersionModel, b: VersionModel) -> Ordering {
    match (a, b) {
        (VersionModel::Nightly(x), VersionModel::Nightly(y)) => match (x, y) {
            (None, None) => Ordering::Equal,
            (None, Some(_)) => Ordering::Less,
            (Some(_), None) => Ordering::Greater,
            (Some(p), Some(q)) => date_order(p, q),
        },
        (VersionModel::Nightly(_), VersionModel::Stable(_)) => Ordering::Less,
        (VersionModel::Stable(_), VersionModel::Nightly(_)) => Ordering::Greater,
        (VersionModel::Stable(p), VersionModel::Stable(q)) => semver_order(p, q),
    }
}

/// Whether a requirement admits a version. Nightly and stable never match each other,
/// and `Latest` matches nothing.
pub open spec fn req_matches(r: ReqModel, v: VersionModel) -> bool {
    match r {
        ReqModel::Latest => false,
        ReqModel::Nightly => v is Nightly,
        ReqModel::Stable(range) => match v {
            VersionModel::Stable(p) => semver_admits(range, p),
            VersionModel::Nightly(_) => false,
        },
        ReqModel::ExactStable(e) => match v {
            VersionModel::Stable(p) => same_precedence(p, e),
            VersionModel::Nightly(_) => false,
        },
    }
}

/// A well-formed version: a stable one that `semver` produced, or a nightly whose
/// date is a calendar day.
pub open spec fn version_valid(v: VersionModel) -> bool {
    match v {
        VersionModel::Nightly(Some(d)) => calendar_date(d.0 as int, d.1 as int, d.2 as int),
        VersionModel::Nightly(None) => true,
        VersionModel::Stable(p) => semver_valid(p) && semver_order(p, p) == Ordering::Equal,
    }
}

/// Two versions that the order puts level: the same nightly date, or stable versions of
/// the same precedence.
pub open spec fn version_equiv(a: VersionModel, b: VersionModel) -> bool {
    match (a, b) {
        (VersionModel::Nightly(x), VersionModel::Nightly(y)) => x == y,
        (VersionModel::Stable(p), VersionModel::Stable(q)) => same_precedence(p, q),
        _ => false,
    }
}

/// What a total order needs of `version_order` at `a` and `b`, given the order `r` of
/// `a` against `b`: `b` against `a` is the reverse, and chains through `a` carry over to `b`.
pub open spec fn version_laws_at(a: VersionModel, b: VersionModel, r: Ordering) -> bool {
    &&& version_order(b, a) == reverse(r)
    &&& forall|x: VersionModel|
        version_valid(x) && #[trigger] version_order(x, a) != Ordering::Less && r
            != Ordering::Less ==> version_order(x, b) != Ordering::Less
    &&& forall|x: VersionModel|
        version_valid(x) && #[trigger] version_order(x, a) == Ordering::Greater && r
            != Ordering::Less ==> version_order(x, b) == Ordering::Greater
    &&& forall|x: VersionModel|
        version_valid(x) && #[trigger] version_order(x, a) != Ordering::Less && r
            == Ordering::Greater ==> version_order(x, b) == Ordering::Greater
}

/// Reading back the text of a dated nightly whose year has four digits gives that
/// nightly again.
pub proof fn lemma_nightly_round_trip(d: (u32, u32, u32))
    requires
        calendar_date(d.0 as int, d.1 as int, d.2 as int),
        d.0 <= 9999,
    ensures
        version_reading(version_display(VersionModel::Nightly(Some(d)))) == VersionReading::Read(
            VersionModel::Nightly(Some(d)),
        ),
{
    let v = VersionModel::Nightly(Some(d));
    let s = version_display(v);
    let y = year_digits(d.0 as nat);
    let m = two_digits(d.1 as nat);
    let day = two_digits(d.2 as nat);
    lemma_year_digits(d.0 as nat);
    lemma_two_digits(d.1 as nat);
    lemma_two_digits(d.2 as nat);
    assert(s == nightly_word() + seq!['.'] + y + m + day);
    assert(s.len() == 16);
    assert(s.subrange(0, 7) == nightly_word());
    assert(s != nightly_word());
    assert(starts_with_seq(s, nightly_word()));
    assert(s[7] == '.');
    assert(s.subrange(8, 12) == y);
    assert(s.subrange(12, 14) == m);
    assert(s.subrange(14, 16) == day);
    lemma_u32_of_digits(y);
    lemma_u32_of_digits(m);
    lemma_u32_of_digits(day);
    assert(stamp_parts(s) == Some(d));
}

/// Every nightly version sorts below every stable one, and two dated nightlies sort
/// by their build dates.
pub proof fn lemma_nightly_order(
    n: Option<(u32, u32, u32)>,
    p: SemverParts,
    a: (u32, u32, u32),
    b: (u32, u32, u32),
)
    ensures
        version_order(VersionModel::Nightly(n), VersionModel::Stable(p)) == Ordering::Less,
        version_order(VersionModel::Stable(p), VersionModel::Nightly(n)) == Ordering::Greater,
        version_order(VersionModel::Nightly(Some(a)), VersionModel::Nightly(Some(b))) == date_order(
            a,
            b,
        ),
{
}

impl Version {
    /// Reads a version. What is read displays as the text it was read from.
    pub fn parse(s: &str) -> (r: Result<Version, VersionError>)
        ensures
            match r {
                Ok(v) => {
                    &&& version_reading(s@) == VersionReading::Read(v@)
                    &&& version_valid(v@)
                    &&& version_display(v@) == s@
                },
                Err(VersionError::Nightly) => version_reading(s@) == VersionReading::BadNightly,
                Err(VersionError::Semver(f)) => version_reading(s@) == VersionReading::BadSemver
                    && f.message@ == semver_parse_message(s@),
                Err(VersionError::AlreadyConfigured) => false,
            },
    {
        let word = nightly_str();
        let n = s.unicode_len();
        let starts = starts_with(s, word);
        if starts && n == 7 {
            assert(s@ == s@.subrange(0, 7));
            return Ok(Version::Nightly(None));
        }
        assert(s@ != nightly_word()) by {
            if s@ == nightly_word() {
                assert(s@.subrange(0, 7) == s@);
            }
        }
        if starts {
            if n != 16 || s.get_char(7) != '.' {
                return Err(VersionError::Nightly);
            }
            let y = parse_u32(s.substring_char(8, 12));
            let m = parse_u32(s.substring_char(12, 14));
            let d = parse_u32(s.substring_char(14, 16));
            match (y, m, d) {
                (Some(y), Some(m), Some(d)) => match BuildDate::new(y, m, d) {
                    Some(date) => {
                        date.show_valid();
                        let v = Version::Nightly(Some(NightlyBuild { date, anchor: None }));
                        let text = v.display();
                        if same_text(text.as_str(), s) {
                            Ok(v)
                        } else {
                            Err(VersionError::Nightly)
                        }
                    },
                    None => Err(VersionError::Nightly),
                },
                _ => Err(VersionError::Nightly),
            }
        } else {
            match StableVersion::parse(s) {
                Ok(v) => {
                    v.show_valid();
                    Ok(Version::Stable(v))
                },
                Err(e) => Err(VersionError::Semver(e)),
            }
        }
    }

    /// States that the version is well formed, and level with itself.
    pub fn show_valid(&self)
        ensures
            version_valid(self@),
            version_order(self@, self@) == Ordering::Equal,
    {
        match self {
            Version::Nightly(Some(b)) => b.date.show_valid(),
            Version::Nightly(None) => {},
            Version::Stable(v) => v.show_valid(),
        }
    }

    /// A copy of this version.
    pub fn duplicate(&self) -> (r: Version)
        ensures
            r@ == self@,
            nightly_anchor(&r) == nightly_anchor(self),
    {
        match self {
            Version::Nightly(None) => Version::Nightly(None),
            Version::Nightly(Some(b)) => {
                let anchor = match &b.anchor {
                    Some(a) => Some(a.duplicate()),
                    None => None,
                };
                Version::Nightly(Some(NightlyBuild { date: b.date, anchor }))
            },
            Version::Stable(v) => Version::Stable(v.duplicate()),
        }
    }

    /// The text of the version; reading it back gives the version again.
    pub fn display(&self) -> (r: String)
        ensures
            r@ == version_display(self@),
    {
        match self {
            Version::Nightly(None) => {
                let mut out = String::new();
                push_str(&mut out, nightly_str());
                out
            },
            Version::Nightly(Some(b)) => {
                let mut out = String::new();
                push_str(&mut out, nightly_str());
                out.push('.');
                b.date.push_stamp(&mut out);
                out
            },
            Version::Stable(v) => v.display(),
        }
    }

    /// Where this version stands against `other` in the order used to pick the newest:
    /// a total order, which puts two versions level exactly when they are equivalent.
    pub fn compare(&self, other: &Version) -> (r: Ordering)
        ensures
            r == version_order(self@, other@),
            version_valid(self@),
            version_valid(other@),
            match (self@, other@) {
                (VersionModel::Stable(p), VersionModel::Stable(q)) => !same_triple(p, q) ==> r
                    == triple_order(p, q),
                _ => true,
            },
            (r == Ordering::Equal) == version_equiv(self@, other@),
            version_laws_at(self@, other@, r),
    {
        self.show_valid();
        other.show_valid();
        match (self, other) {
            (Version::Nightly(x), Version::Nightly(y)) => match (x, y) {
                (None, None) => Ordering::Equal,
                (None, Some(_)) => Ordering::Less,
                (Some(_), None) => Ordering::Greater,
                (Some(p), Some(q)) => p.date.compare(&q.date),
            },
            (Version::Nightly(_), Version::Stable(_)) => Ordering::Less,
            (Version::Stable(_), Version::Nightly(_)) => Ordering::Greater,
            (Version::Stable(p), Version::Stable(q)) => {
                let r = p.compare(q);
                proof {
                    let (a, b) = (p@, q@);
                    assert forall|x: VersionModel|
                        version_valid(x) && #[trigger] version_order(x, self@) != Ordering::Less
                            && r != Ordering::Less implies version_order(x, other@)
                        != Ordering::Less by {
                        if let VersionModel::Stable(xp) = x {
                            assert(semver_order(xp, a) != Ordering::Less);
                        }
                    }
                    assert forall|x: VersionModel|
                        version_valid(x) && #[trigger] version_order(x, self@) == Ordering::Greater
                            && r != Ordering::Less implies version_order(x, other@)
                        == Ordering::Greater by {
                        if let VersionModel::Stable(xp) = x {
                            assert(semver_order(xp, a) == Ordering::Greater);
                        }
                    }
                    assert forall|x: VersionModel|
                        version_valid(x) && #[trigger] version_order(x, self@) != Ordering::Less
                            && r == Ordering::Greater implies version_order(x, other@)
                        == Ordering::Greater by {
                        if let VersionModel::Stable(xp) = x {
                            assert(semver_order(xp, a) != Ordering::Less);
                        }
                    }
                }
                r
            },
        }
    }

    /// The tag that the remote registry gives this version: `nightly`, or `v` and the
    /// semantic version.
    pub fn to_registry_tag(&self) -> (r: String)
        ensures
            r@ == registry_tag(self@),
    {
        let mut out = String::new();
        match self {
            Version::Nightly(_) => push_str(&mut out, nightly_str()),
            Version::Stable(v) => {
                out.push('v');
                let text = v.display();
                push_str(&mut out, text.as_str());
            },
        }
        out
    }

    /// Reads a version from a registry tag, dropping the leading `v`s.
    pub fn from_registry_tag(s: &str) -> (r: Result<Version, VersionError>)
        ensures
            match r {
                Ok(v) => version_reading(strip_leading_v(s@)) == VersionReading::Read(v@)
                    && version_valid(v@),
                Err(VersionError::Nightly) => version_reading(strip_leading_v(s@))
                    == VersionReading::BadNightly,
                Err(VersionError::Semver(f)) => version_reading(strip_leading_v(s@))
                    == VersionReading::BadSemver && f.message@ == semver_parse_message(
                    strip_leading_v(s@),
                ),
                Err(VersionError::AlreadyConfigured) => false,
            },
    {
        let n = s.unicode_len();
        let mut i: usize = 0;
        while i < n && s.get_char(i) == 'v'
            invariant
                n == s@.len(),
                i <= n,
                forall|j: int| 0 <= j < i ==> s@[j] == 'v',
            decreases n - i,
        {
            i = i + 1;
        }
        proof {
            lemma_strip_leading_v(s@, i as int);
        }
        let rest = s.substring_char(i, n);
        Version::parse(rest)
    }

    /// Ties an undated nightly to the day it was built on and to the stable version it
    /// leads up to. A stable version stays as it is; a nightly that already has a date is
    /// refused.
    pub fn configure_nightly(self, anchor: StableVersion, date: BuildDate) -> (r: Result<
        Version,
        VersionError,
    >)
        ensures
            match self@ {
                VersionModel::Nightly(None) => r is Ok && r->Ok_0@ == VersionModel::Nightly(
                    Some(date@),
                ) && nightly_anchor(&r->Ok_0) == Some(anchor@),
                VersionModel::Nightly(Some(_)) => r is Err && r->Err_0 is AlreadyConfigured,
                VersionModel::Stable(_) => r is Ok && r->Ok_0@ == self@,
            },
    {
        match self {
            Version::Nightly(None) => Ok(
                Version::Nightly(Some(NightlyBuild { date, anchor: Some(anchor) })),
            ),
            Version::Nightly(Some(_)) => Err(VersionError::AlreadyConfigured),
            Version::Stable(v) => Ok(Version::Stable(v)),
        }
    }

    /// The build date of a dated nightly.
    pub fn get_nightly_date(&self) -> (r: Option<BuildDate>)
        ensures
            match self@ {
                VersionModel::Nightly(Some(d)) => r is Some && r->Some_0@ == d,
                _ => r is None,
            },
    {
        match self {
            Version::Nightly(Some(b)) => Some(b.date),
            _ => None,
        }
    }

    /// The stable version that a dated nightly leads up to, where it is known.
    pub fn nightly_anchor(&self) -> (r: Option<StableVersion>)
        ensures
            match r {
                Some(a) => nightly_anchor(self) == Some(a@),
                None => nightly_anchor(self) is None,
            },
    {
        match self {
            Version::Nightly(Some(b)) => match &b.anchor {
                Some(a) => Some(a.duplicate()),
                None => None,
            },
            _ => None,
        }
    }
}

/// The registry tag of a version.
pub open spec fn registry_tag(v: VersionModel) -> Seq<char> {
    match v {
        VersionModel::Nightly(_) => nightly_word(),
        VersionModel::Stable(p) => seq!['v'] + version_text(p),
    }
}

/// `s` without its leading `v`s.
pub open spec fn strip_leading_v(s: Seq<char>) -> Seq<char>
    decreases s.len(),
{
    if s.len() > 0 && s[0] == 'v' {
        strip_leading_v(s.drop_first())
    } else {
        s
    }
}

proof fn lemma_strip_leading_v(s: Seq<char>, i: int)
    requires
        0 <= i <= s.len(),
        forall|j: int| 0 <= j < i ==> s[j] == 'v',
        i == s.len() || s[i] != 'v',
    ensures
        strip_leading_v(s) == s.subrange(i, s.len() as int),
    decreases i,
{
    if i == 0 {
        assert(s.subrange(0, s.len() as int) == s);
    } else {
        let t = s.drop_first();
        assert forall|j: int| 0 <= j < i - 1 implies t[j] == 'v' by {
            assert(t[j] == s[j + 1]);
        }
        if i - 1 < t.len() {
            assert(t[i - 1] == s[i]);
        }
        lemma_strip_leading_v(t, i - 1);
        assert(t.subrange(i - 1, t.len() as int) == s.subrange(i, s.len() as int));
    }
}


/// What reading a requirement from a text gives.
pub enum ReqReading {
    Read(ReqModel),
    BadRange,
    BadVersion,
}

/// How a text reads as a requirement: `nightly`; a text that starts with a digit is one
/// exact stable version; anything else is a `semver` range.
pub open spec fn req_reading(s: Seq<char>) -> ReqReading {
    if s == nightly_word() {
        ReqReading::Read(ReqModel::Nightly)
    } else if s.len() > 0 && is_digit(s[0]) {
        match semver_parse(s) {
            Some(p) => ReqReading::Read(ReqModel::ExactStable(p)),
            None => ReqReading::BadVersion,
        }
    } else if semver_req_accepts(s) {
        ReqReading::Read(ReqModel::Stable(s))
    } else {
        ReqReading::BadRange
    }
}

/// Text of a requirement.
pub open spec fn req_display(r: ReqModel) -> Seq<char> {
    match r {
        ReqModel::Latest => seq!['l', 'a', 't', 'e', 's', 't'],
        ReqModel::Nightly => nightly_word(),
        ReqModel::Stable(range) => range,
        ReqModel::ExactStable(p) => version_text(p),
    }
}

impl VersionRequirement {
    /// Reads a requirement.
    pub fn parse(s: &str) -> (r: Result<VersionRequirement, RequirementError>)
        ensures
            match r {
                Ok(q) => req_reading(s@) == ReqReading::Read(q@),
                Err(RequirementError::ReqError(f)) => req_reading(s@) == ReqReading::BadRange
                    && f.message@ == semver_req_message(s@),
                Err(RequirementError::VersionError(f)) => req_reading(s@)
                    == ReqReading::BadVersion && f.message@ == semver_parse_message(s@),
            },
    {
        let n = s.unicode_len();
        if n == 7 && starts_with(s, nightly_str()) {
            assert(s@ == s@.subrange(0, 7));
            return Ok(VersionRequirement::Nightly);
        }
        assert(s@ != nightly_word()) by {
            if s@ == nightly_word() {
                assert(s@.subrange(0, 7) == s@);
            }
        }
        if n > 0 {
            let c = s.get_char(0);
            if '0' <= c && c <= '9' {
                return match StableVersion::parse(s) {
                    Ok(v) => Ok(VersionRequirement::ExactStable(v)),
                    Err(e) => Err(RequirementError::VersionError(e)),
                };
            }
        }
        match VersionRange::parse(s) {
            Ok(range) => Ok(VersionRequirement::Stable(range)),
            Err(e) => Err(RequirementError::ReqError(e)),
        }
    }

    /// The requirement that only `version` meets.
    pub fn exact(version: Version) -> (r: VersionRequirement)
        ensures
            r@ == match version@ {
                VersionModel::Nightly(_) => ReqModel::Nightly,
                VersionModel::Stable(p) => ReqModel::ExactStable(p),
            },
    {
        match version {
            Version::Nightly(_) => VersionRequirement::Nightly,
            Version::Stable(v) => VersionRequirement::ExactStable(v),
        }
    }

    /// Whether `version` meets the requirement. A stable range agrees with `semver`'s
    /// matching; nightly and stable never meet each other; `Latest` is met by nothing.
    pub fn matches(&self, version: &Version) -> (r: bool)
        ensures
            r == req_matches(self@, version@),
    {
        match self {
            VersionRequirement::Latest => false,
            VersionRequirement::Nightly => match version {
                Version::Nightly(_) => true,
                Version::Stable(_) => false,
            },
            VersionRequirement::Stable(range) => match version {
                Version::Nightly(_) => false,
                Version::Stable(v) => range.matches(v),
            },
            VersionRequirement::ExactStable(e) => match version {
                Version::Nightly(_) => false,
                Version::Stable(v) => e.same(v),
            },
        }
    }

    /// The one version that an exact requirement names.
    pub fn into_version(self) -> (r: Option<Version>)
        ensures
            match self@ {
                ReqModel::ExactStable(p) => r is Some && r->Some_0@ == VersionModel::Stable(p),
                _ => r is None,
            },
    {
        match self {
            VersionRequirement::ExactStable(v) => Some(Version::Stable(v)),
            _ => None,
        }
    }

    /// A copy of this requirement.
    pub fn duplicate(&self) -> (r: VersionRequirement)
        ensures
            r@ == self@,
    {
        match self {
            VersionRequirement::Latest => VersionRequirement::Latest,
            VersionRequirement::Nightly => VersionRequirement::Nightly,
            VersionRequirement::Stable(range) => VersionRequirement::Stable(range.duplicate()),
            VersionRequirement::ExactStable(v) => VersionRequirement::ExactStable(v.duplicate()),
        }
    }

    /// Text of the requirement.
    pub fn display(&self) -> (r: String)
        ensures
            r@ == req_display(self@),
    {
        match self {
            VersionRequirement::Latest => {
                let mut out = String::new();
                out.push('l');
                out.push('a');
                out.push('t');
                out.push('e');
                out.push('s');
                out.push('t');
                out
            },
            VersionRequirement::Nightly => {
                let mut out = String::new();
                push_str(&mut out, nightly_str());
                out
            },
            VersionRequirement::Stable(range) => range.text(),
            VersionRequirement::ExactStable(v) => v.display(),
        }
    }
}

proof fn lemma_decimal_starts_with_digit(n: nat)
    ensures
        decimal(n).len() > 0,
        is_digit(decimal(n)[0]),
    decreases n,
{
    if n >= 10 {
        lemma_decimal_starts_with_digit(n / 10);
        assert(decimal(n)[0] == decimal(n / 10)[0]);
    }
}

/// Reading back the text of a stable version gives that version again, so for every
/// text `s` that reads as a semantic version, reading the text of what `s` reads as
/// gives what `s` reads as.
pub proof fn lemma_stable_round_trip(v: SemverParts)
    requires
        semver_valid(v),
    ensures
        version_reading(version_display(VersionModel::Stable(v))) == VersionReading::Read(
            VersionModel::Stable(v),
        ),
{
    let t = version_text(v);
    lemma_decimal_starts_with_digit(v.major as nat);
    assert(t[0] == decimal(v.major as nat)[0]);
    assert(t != nightly_word());
    assert(!starts_with_seq(t, nightly_word())) by {
        if starts_with_seq(t, nightly_word()) {
            assert(t.subrange(0, 7)[0] == t[0]);
        }
    }
}

} // verus!
