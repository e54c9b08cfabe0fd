//! Releases as the remote registry describes them, and the choice among them.

use crate::calendar::BuildDate;
use crate::stable::{next_patch_parts, SemverParts};
use crate::text::{contains, contains_seq, push_str};
use crate::version::{
    nightly_anchor, nightly_word, registry_tag, req_matches, strip_leading_v, version_reading, ReqModel, Version,
    VersionModel, VersionReading, VersionRequirement,
};
use vstd::prelude::*;

verus! {

/// One downloadable file of a release.
#[derive(Debug, Clone)]
pub struct ReleaseAsset {
    pub name: String,
    pub url: String,
}

/// A release entry of the registry, as it was fetched.
#[derive(Debug, Clone)]
pub struct ReleaseDef {
    pub tag_name: String,
    /// The day the release was published.
    pub published: BuildDate,
    pub assets: Vec<ReleaseAsset>,
}

/// What the registry answered.
#[derive(Debug)]
pub enum RegistryReply {
    /// A single release entry.
    Release(ReleaseDef),
    /// The whole listing of releases.
    Releases(Vec<ReleaseDef>),
    /// The nightly release, with the newest release that gives it its anchor.
    Nightly { nightly: ReleaseDef, latest: ReleaseDef },
}

/// The registry entry that a requirement is looked up in.
#[derive(Debug)]
pub enum RegistryQuery {
    /// The newest release.
    Latest,
    /// The release under one tag.
    Tag(String),
    /// The listing of all releases.
    All,
}

/// A release found in the registry.
#[derive(Debug)]
pub struct RemoteRelease {
    version: Version,
    assets: Vec<ReleaseAsset>,
}

#[derive(Debug)]
pub enum RegistryError {
    /// The registry answered with data that does not describe the release asked for.
    MalformedReleaseData,
    /// No release meets the requirement.
    ReleaseNotFound(VersionRequirement),
}

pub open spec fn asset_names(assets: Seq<ReleaseAsset>) -> Seq<(Seq<char>, Seq<char>)> {
    assets.map_values(|a: ReleaseAsset| (a.name@, a.url@))
}

/// The version a registry tag names.
pub open spec fn tag_version(tag: Seq<char>) -> Option<VersionModel> {
    match version_reading(strip_leading_v(tag)) {
        VersionReading::Read(v) => Some(v),
        _ => None,
    }
}

pub open spec fn def_matches(req: ReqModel, d: ReleaseDef) -> bool {
    match tag_version(d.tag_name@) {
        Some(v) => req_matches(req, v),
        None => false,
    }
}

/// `i` is the first entry whose tag names a version that meets `req`.
pub open spec fn first_match_at(req: ReqModel, ds: Seq<ReleaseDef>, i: int) -> bool {
    &&& 0 <= i < ds.len()
    &&& def_matches(req, ds[i])
    &&& forall|j: int| 0 <= j < i ==> !def_matches(req, #[trigger] ds[j])
}

/// The part of an asset name that marks the build for a target triple.
pub open spec fn platform_marker(platform: Seq<char>) -> Seq<char> {
    platform + seq!['-', 'g', 'e', 'n', 'e', 'r', 'i', 'c']
}

pub open spec fn asset_fits(a: ReleaseAsset, platform: Seq<char>) -> bool {
    contains_seq(a.name@, platform_marker(platform))
}

impl RemoteRelease {
    pub closed spec fn spec_version(&self) -> VersionModel {
        self.version@
    }

    pub closed spec fn spec_assets(&self) -> Seq<(Seq<char>, Seq<char>)> {
        asset_names(self.assets@)
    }

    /// The stable version that a nightly release leads up to.
    pub closed spec fn spec_anchor(&self) -> Option<SemverParts> {
        nightly_anchor(&self.version)
    }

    pub fn version(&self) -> (r: &Version)
        ensures
            r@ == self.spec_version(),
    {
        &self.version
    }

    /// The download address of the first asset built for `platform`: one whose name
    /// holds `<platform>-generic`.
    pub fn get_asset_url(&self, platform: &str) -> (r: Option<String>)
        ensures
            match r {
                Some(url) => exists|i: int|
                    0 <= i < self.spec_assets().len() && contains_seq(
                        #[trigger] self.spec_assets()[i].0,
                        platform_marker(platform@),
                    ) && self.spec_assets()[i].1 == url@ && forall|j: int|
                        0 <= j < i ==> !contains_seq(
                            #[trigger] self.spec_assets()[j].0,
                            platform_marker(platform@),
                        ),
                None => forall|j: int|
                    0 <= j < self.spec_assets().len() ==> !contains_seq(
                        #[trigger] self.spec_assets()[j].0,
                        platform_marker(platform@),
                    ),
            },
    {
        let mut marker = String::new();
        push_str(&mut marker, platform);
        proof {
            reveal_strlit("-generic");
        }
        push_str(&mut marker, "-generic");
        let ghost names = self.spec_assets();
        let mut i: usize = 0;
        while i < self.assets.len()
            invariant
                i <= self.assets@.len(),
                names == asset_names(self.assets@),
                names.len() == self.assets@.len(),
                marker@ == platform_marker(platform@),
                forall|j: int| 0 <= j < i ==> !contains_seq(#[trigger] names[j].0, marker@),
            decreases self.assets@.len() - i,
        {
            let a = &self.assets[i];
            assert(names[i as int] == (a.name@, a.url@));
            if contains(a.name.as_str(), marker.as_str()) {
                let url = a.url.clone();
                assert(contains_seq(self.spec_assets()[i as int].0, platform_marker(platform@)));
                assert(self.spec_assets()[i as int].1 == url@);
                return Some(url);
            }
            i = i + 1;
        }
        None
    }
}

/// The registry entry that `req` is looked up in: the newest release for `Latest`, the
/// `nightly` tag for nightlies, the version's tag for an exact version, and the whole
/// listing for a range.
pub fn query_for(req: &VersionRequirement) -> (r: RegistryQuery)
    ensures
        match req@ {
            ReqModel::Latest => r is Latest,
            ReqModel::Nightly => r is Tag && r->Tag_0@ == nightly_word(),
            ReqModel::ExactStable(p) => r is Tag && r->Tag_0@ == registry_tag(
                VersionModel::Stable(p),
            ),
            ReqModel::Stable(_) => r is All,
        },
{
    match req {
        VersionRequirement::Latest => RegistryQuery::Latest,
        VersionRequirement::Nightly => RegistryQuery::Tag(Version::Nightly(None).to_registry_tag()),
        VersionRequirement::ExactStable(v) => RegistryQuery::Tag(
            Version::Stable(v.duplicate()).to_registry_tag(),
        ),
        VersionRequirement::Stable(_) => RegistryQuery::All,
    }
}

/// The second registry entry that `req` needs: for a nightly, the newest release,
/// whose version, one patch on, anchors the nightly.
pub fn anchor_query(req: &VersionRequirement) -> (r: Option<RegistryQuery>)
    ensures
        match req@ {
            ReqModel::Nightly => r is Some && r->Some_0 is Latest,
            _ => r is None,
        },
{
    match req {
        VersionRequirement::Nightly => Some(RegistryQuery::Latest),
        _ => None,
    }
}

/// The address of a registry entry.
pub fn query_url(q: &RegistryQuery) -> (r: String)
    ensures
        r@ == query_url_spec(q),
{
    proof {
        reveal_strlit("https://api.github.com/repos/input-output-hk/jormungandr/releases");
        reveal_strlit("/latest");
        reveal_strlit("/tags/");
    }
    let mut out = String::new();
    push_str(&mut out, "https://api.github.com/repos/input-output-hk/jormungandr/releases");
    match q {
        RegistryQuery::Latest => push_str(&mut out, "/latest"),
        RegistryQuery::Tag(tag) => {
            push_str(&mut out, "/tags/");
            push_str(&mut out, tag.as_str());
        },
        RegistryQuery::All => {},
    }
    out
}

pub open spec fn query_url_spec(q: &RegistryQuery) -> Seq<char> {
    let root = "https://api.github.com/repos/input-output-hk/jormungandr/releases"@;
    match q {
        RegistryQuery::Latest => root + "/latest"@,
        RegistryQuery::Tag(tag) => root + "/tags/"@ + tag@,
        RegistryQuery::All => root,
    }
}

/// The first release of the listing whose tag names a version that meets `req`.
/// Entries whose tags do not read as versions are skipped.
pub fn find_release_by_req(req: &VersionRequirement, defs: Vec<ReleaseDef>) -> (r: Result<
    RemoteRelease,
    RegistryError,
>)
    ensures
        match r {
            Ok(rel) => exists|i: int|
                first_match_at(req@, defs@, i) && tag_version(#[trigger] defs@[i].tag_name@)
                    == Some(rel.spec_version()) && rel.spec_assets() == asset_names(
                    defs@[i].assets@,
                ),
            Err(RegistryError::ReleaseNotFound(q)) => q@ == req@ && forall|j: int|
                0 <= j < defs@.len() ==> !def_matches(req@, #[trigger] defs@[j]),
            Err(RegistryError::MalformedReleaseData) => false,
        },
{
    let ghost given = defs@;
    let mut list = defs;
    let mut i: usize = 0;
    while i < list.len()
        invariant
            list@ == given,
            given == defs@,
            i <= list@.len(),
            forall|j: int| 0 <= j < i ==> !def_matches(req@, #[trigger] list@[j]),
        decreases defs@.len() - i,
    {
        let d = &list[i];
        match Version::from_registry_tag(d.tag_name.as_str()) {
            Ok(v) => {
                if req.matches(&v) {
                    assert(first_match_at(req@, list@, i as int));
                    let ghost before = list@;
                    let found = list.remove(i);
                    assert(found == before[i as int]);
                    let rel = RemoteRelease { version: v, assets: found.assets };
                    assert(tag_version(given[i as int].tag_name@) == Some(rel.spec_version()));
                    assert(rel.spec_assets() == asset_names(given[i as int].assets@));
                    assert(first_match_at(req@, given, i as int));
                    return Ok(rel);
                }
            },
            Err(_) => {},
        }
        i = i + 1;
    }
    Err(RegistryError::ReleaseNotFound(req.duplicate()))
}

/// The release that the registry's answer describes for `req`. For `Latest` the tag
/// names the version, which must name a build (an undated nightly does not); a nightly
/// is dated with the day it was published and anchored one patch after the newest
/// release, which must be stable; an exact
/// version keeps the version asked for; a range takes the first release of the listing
/// that it admits.
pub fn find_matching_release(req: &VersionRequirement, reply: RegistryReply) -> (r: Result<
    RemoteRelease,
    RegistryError,
>)
    ensures
        match (req@, reply) {
            (ReqModel::Latest, RegistryReply::Release(d)) => match tag_version(d.tag_name@) {
                Some(VersionModel::Nightly(None)) => r is Err && r->Err_0 is MalformedReleaseData,
                Some(v) => r is Ok && r->Ok_0.spec_version() == v && r->Ok_0.spec_assets()
                    == asset_names(d.assets@),
                None => r is Err && r->Err_0 is MalformedReleaseData,
            },
            (ReqModel::Nightly, RegistryReply::Nightly { nightly, latest }) => match (
                tag_version(nightly.tag_name@),
                tag_version(latest.tag_name@),
            ) {
                (Some(VersionModel::Nightly(None)), Some(VersionModel::Stable(p))) => if p.patch
                    < u64::MAX {
                    r is Ok && r->Ok_0.spec_version() == VersionModel::Nightly(
                        Some(nightly.published@),
                    ) && r->Ok_0.spec_anchor() == Some(next_patch_parts(p))
                        && r->Ok_0.spec_assets() == asset_names(nightly.assets@)
                } else {
                    r is Err && r->Err_0 is MalformedReleaseData
                },
                _ => r is Err && r->Err_0 is MalformedReleaseData,
            },
            (ReqModel::ExactStable(p), RegistryReply::Release(d)) => r is Ok
                && r->Ok_0.spec_version() == VersionModel::Stable(p) && r->Ok_0.spec_assets()
                == asset_names(d.assets@),
            (ReqModel::Stable(_), RegistryReply::Releases(ds)) => match r {
                Ok(rel) => exists|i: int|
                    first_match_at(req@, ds@, i) && tag_version(#[trigger] ds@[i].tag_name@)
                        == Some(rel.spec_version()) && rel.spec_assets() == asset_names(
                        ds@[i].assets@,
                    ),
                Err(RegistryError::ReleaseNotFound(q)) => q@ == req@ && forall|j: int|
                    0 <= j < ds@.len() ==> !def_matches(req@, #[trigger] ds@[j]),
                Err(RegistryError::MalformedReleaseData) => false,
            },
            _ => r is Err && r->Err_0 is MalformedReleaseData,
        },
{
    match (req, reply) {
        (VersionRequirement::Latest, RegistryReply::Release(d)) => {
            match Version::from_registry_tag(d.tag_name.as_str()) {
                Ok(Version::Nightly(None)) => Err(RegistryError::MalformedReleaseData),
                Ok(v) => Ok(RemoteRelease { version: v, assets: d.assets }),
                Err(_) => Err(RegistryError::MalformedReleaseData),
            }
        },
        (VersionRequirement::Nightly, RegistryReply::Nightly { nightly, latest }) => {
            let tagged = Version::from_registry_tag(nightly.tag_name.as_str());
            let newest = Version::from_registry_tag(latest.tag_name.as_str());
            match (tagged, newest) {
                (Ok(Version::Nightly(None)), Ok(Version::Stable(l))) => match l.next_patch() {
                    Some(anchor) => match Version::Nightly(None).configure_nightly(
                        anchor,
                        nightly.published,
                    ) {
                        Ok(version) => Ok(RemoteRelease { version, assets: nightly.assets }),
                        Err(_) => Err(RegistryError::MalformedReleaseData),
                    },
                    None => Err(RegistryError::MalformedReleaseData),
                },
                _ => Err(RegistryError::MalformedReleaseData),
            }
        },
        (VersionRequirement::ExactStable(v), RegistryReply::Release(d)) => Ok(RemoteRelease {
            version: Version::Stable(v.duplicate()),
            assets: d.assets,
        }),
        (VersionRequirement::Stable(_), RegistryReply::Releases(ds)) => find_release_by_req(req, ds),
        _ => Err(RegistryError::MalformedReleaseData),
    }
}

} // verus!
