//! Releases installed on disk: which versions are there, which one a requirement
//! picks, and what installing one still needs.

use crate::text::push_str;
use crate::version::{
    req_matches, version_display, version_order, version_reading, version_valid, ReqModel,
    Version, VersionModel, VersionReading, VersionRequirement,
};
use core::cmp::Ordering;
use vstd::prelude::*;

verus! {

/// One entry of the release directory, as the file system shows it.
#[derive(Debug, Clone)]
pub struct ReleaseDirEntry {
    pub name: String,
    pub is_dir: bool,
    /// The node binary is present in it.
    pub has_node: bool,
    /// The companion command-line binary is present in it.
    pub has_cli: bool,
}

/// The version that an entry holds, where it is a directory named after a version with
/// both binaries extracted in it. An undated nightly names no build, so no installed one.
pub open spec fn entry_version(e: ReleaseDirEntry) -> Option<VersionModel> {
    if e.is_dir && e.has_node && e.has_cli {
        match version_reading(e.name@) {
            VersionReading::Read(v) => if v == VersionModel::Nightly(None) {
                None
            } else {
                Some(v)
            },
            _ => None,
        }
    } else {
        None
    }
}

/// The installed versions, in the order of the entries.
pub open spec fn installed_versions(es: Seq<ReleaseDirEntry>) -> Seq<VersionModel>
    decreases es.len(),
{
    if es.len() == 0 {
        Seq::empty()
    } else {
        let rest = installed_versions(es.drop_last());
        match entry_version(es.last()) {
            Some(v) => rest.push(v),
            None => rest,
        }
    }
}

pub open spec fn models(vs: Seq<Version>) -> Seq<VersionModel> {
    vs.map_values(|v: Version| v@)
}

/// `i` holds a version that meets `req` and no version in `vs` that meets it is newer.
pub open spec fn newest_match_at(req: ReqModel, vs: Seq<VersionModel>, i: int) -> bool {
    &&& 0 <= i < vs.len()
    &&& req_matches(req, vs[i])
    &&& forall|j: int|
        0 <= j < vs.len() && req_matches(req, #[trigger] vs[j]) ==> version_order(vs[j], vs[i])
            != Ordering::Greater
}

pub open spec fn any_match(req: ReqModel, vs: Seq<VersionModel>) -> bool {
    exists|j: int| 0 <= j < vs.len() && req_matches(req, #[trigger] vs[j])
}

/// The versions installed in the release directory: entries that are directories,
/// whose names read as versions and that hold both binaries. Other entries are skipped.
pub fn list_installed(entries: &Vec<ReleaseDirEntry>) -> (r: Vec<Version>)
    ensures
        models(r@) == installed_versions(entries@),
        forall|i: int| 0 <= i < r@.len() ==> version_valid(#[trigger] r@[i]@),
{
    let mut out: Vec<Version> = Vec::new();
    let mut i: usize = 0;
    while i < entries.len()
        invariant
            i <= entries@.len(),
            models(out@) == installed_versions(entries@.subrange(0, i as int)),
            forall|k: int| 0 <= k < out@.len() ==> version_valid(#[trigger] out@[k]@),
        decreases entries@.len() - i,
    {
        let e = &entries[i];
        let ghost before = out@;
        proof {
            let es = entries@.subrange(0, i + 1);
            assert(es.drop_last() == entries@.subrange(0, i as int));
            assert(es.last() == *e);
        }
        if e.is_dir && e.has_node && e.has_cli {
            match Version::parse(e.name.as_str()) {
                Ok(Version::Nightly(None)) => {},
                Ok(v) => {
                    out.push(v);
                    assert(models(out@) == models(before).push(v@));
                },
                Err(_) => {},
            }
        }
        i = i + 1;
    }
    assert(entries@.subrange(0, entries@.len() as int) == entries@);
    out
}

/// The position of the newest version in `installed` that meets `req`, or `None`
/// where none meets it.
pub fn select_newest(req: &VersionRequirement, installed: &Vec<Version>) -> (r: Option<usize>)
    ensures
        match r {
            Some(i) => newest_match_at(req@, models(installed@), i as int),
            None => !any_match(req@, models(installed@)),
        },
{
    let ghost ms = models(installed@);
    let mut best: Option<usize> = None;
    let mut i: usize = 0;
    while i < installed.len()
        invariant
            i <= installed@.len(),
            ms == models(installed@),
            ms.len() == installed@.len(),
            forall|j: int| 0 <= j < i ==> version_valid(#[trigger] ms[j]),
            match best {
                None => forall|j: int| 0 <= j < i ==> !req_matches(req@, #[trigger] ms[j]),
                Some(b) => {
                    &&& b < i
                    &&& req_matches(req@, ms[b as int])
                    &&& forall|j: int|
                        0 <= j < i && req_matches(req@, #[trigger] ms[j]) ==> version_order(
                            ms[j],
                            ms[b as int],
                        ) != Ordering::Greater
                },
            },
        decreases installed@.len() - i,
    {
        let c = &installed[i];
        assert(ms[i as int] == c@);
        c.show_valid();
        if req.matches(c) {
            match best {
                None => {
                    best = Some(i);
                },
                Some(b) => {
                    let o = c.compare(&installed[b]);
                    assert(ms[b as int] == installed@[b as int]@);
                    match o {
                        Ordering::Greater => {
                            best = Some(i);
                        },
                        _ => {},
                    }
                },
            }
        }
        i = i + 1;
    }
    match best {
        None => {
            assert(!any_match(req@, ms));
        },
        Some(b) => {},
    }
    best
}

/// A release: a version and the directory that holds, or will hold, its files.
#[derive(Debug)]
pub struct Release {
    version: Version,
    dir: String,
}

/// The two archive formats that releases come in.
#[derive(Debug, Clone, Copy, PartialEq, Eq, Structural)]
pub enum ArchiveKind {
    /// A gzip-compressed tar archive, for Unix-like systems.
    TarGz,
    /// A zip archive, for Windows.
    Zip,
}

#[derive(Debug)]
pub enum ReleaseError {
    /// No installed release meets the requirement.
    NoCompatibleReleaseInstalled(VersionRequirement),
}

pub open spec fn join(dir: Seq<char>, name: Seq<char>) -> Seq<char> {
    dir + seq!['/'] + name
}

pub open spec fn node_name() -> Seq<char> {
    seq!['j', 'o', 'r', 'm', 'u', 'n', 'g', 'a', 'n', 'd', 'r']
}

pub open spec fn cli_name() -> Seq<char> {
    seq!['j', 'c', 'l', 'i']
}

pub open spec fn archive_name(kind: ArchiveKind) -> Seq<char> {
    match kind {
        ArchiveKind::TarGz => seq!['a', 'r', 'c', 'h', 'i', 'v', 'e', '.', 't', 'a', 'r', '.', 'g', 'z'],
        ArchiveKind::Zip => seq!['a', 'r', 'c', 'h', 'i', 'v', 'e', '.', 'z', 'i', 'p'],
    }
}

/// `dir`, a `/`, then `name`.
pub fn join_path(dir: &str, name: &str) -> (r: String)
    ensures
        r@ == join(dir@, name@),
{
    let mut out = String::new();
    push_str(&mut out, dir);
    out.push('/');
    push_str(&mut out, name);
    out
}

/// The file name of the node binary.
pub fn node_file() -> (r: &'static str)
    ensures
        r@ == node_name(),
{
    proof {
        reveal_strlit("jormungandr");
    }
    "jormungandr"
}

/// The file name of the companion command-line binary.
pub fn cli_file() -> (r: &'static str)
    ensures
        r@ == cli_name(),
{
    proof {
        reveal_strlit("jcli");
    }
    "jcli"
}

impl Release {
    /// The release of `version` under `release_dir`, whether or not it is installed.
    pub fn new_unchecked(release_dir: &str, version: Version) -> (r: Release)
        ensures
            r.spec_version()@ == version@,
            r.spec_dir()@ == join(release_dir@, version_display(version@)),
    {
        let name = version.display();
        let dir = join_path(release_dir, name.as_str());
        Release { version, dir }
    }

    /// The newest installed release that meets `req`, from the entries of `release_dir`.
    /// It fails exactly where no installed version meets `req`, an empty directory
    /// included.
    pub fn load(release_dir: &str, entries: &Vec<ReleaseDirEntry>, req: &VersionRequirement) -> (r:
        Result<Release, ReleaseError>)
        ensures
            match r {
                Ok(rel) => exists|i: int|
                    newest_match_at(req@, installed_versions(entries@), i)
                        && #[trigger] installed_versions(entries@)[i] == rel.spec_version()@
                        && rel.spec_dir()@ == join(release_dir@, version_display(rel.spec_version()@)),
                Err(ReleaseError::NoCompatibleReleaseInstalled(q)) => q@ == req@
                    && !any_match(req@, installed_versions(entries@)),
            },
    {
        let installed = list_installed(entries);
        match select_newest(req, &installed) {
            Some(i) => {
                let v = installed[i].duplicate();
                let rel = Release::new_unchecked(release_dir, v);
                assert(installed_versions(entries@)[i as int] == rel.spec_version()@);
                Ok(rel)
            },
            None => Err(ReleaseError::NoCompatibleReleaseInstalled(req.duplicate())),
        }
    }

    pub closed spec fn spec_version(&self) -> Version {
        self.version
    }

    pub fn version(&self) -> (r: &Version)
        ensures
            r == self.spec_version(),
    {
        &self.version
    }

    pub closed spec fn spec_dir(&self) -> String {
        self.dir
    }

    /// The directory of the release.
    pub fn dir(&self) -> (r: &String)
        ensures
            r == self.spec_dir(),
    {
        &self.dir
    }

    /// Path of the node binary.
    pub fn get_jormungandr(&self) -> (r: String)
        ensures
            r@ == join(self.spec_dir()@, node_name()),
    {
        join_path(self.dir.as_str(), node_file())
    }

    /// Path of the companion command-line binary.
    pub fn get_jcli(&self) -> (r: String)
        ensures
            r@ == join(self.spec_dir()@, cli_name()),
    {
        join_path(self.dir.as_str(), cli_file())
    }

    /// Path of the downloaded archive.
    pub fn get_asset(&self, kind: ArchiveKind) -> (r: String)
        ensures
            r@ == join(self.spec_dir()@, archive_name(kind)),
    {
        let name = match kind {
            ArchiveKind::TarGz => {
                proof {
                    reveal_strlit("archive.tar.gz");
                }
                "archive.tar.gz"
            },
            ArchiveKind::Zip => {
                proof {
                    reveal_strlit("archive.zip");
                }
                "archive.zip"
            },
        };
        join_path(self.dir.as_str(), name)
    }
}


/// What the directory of a release holds.
#[derive(Debug, Clone, Copy, PartialEq, Eq, Structural)]
pub struct InstallState {
    pub archive_present: bool,
    pub node_present: bool,
    pub cli_present: bool,
}

/// What installing a release still needs.
#[derive(Debug, Clone, Copy, PartialEq, Eq, Structural)]
pub struct InstallPlan {
    /// Fetch the archive over the network.
    pub download: bool,
    /// Unpack the archive into the release directory.
    pub extract: bool,
}

/// An archive already present is not fetched again; it is unpacked while either
/// binary is missing.
pub open spec fn install_plan_spec(s: InstallState) -> InstallPlan {
    InstallPlan { download: !s.archive_present, extract: !(s.node_present && s.cli_present) }
}

/// The directory once a plan has been carried out.
pub open spec fn after_install(s: InstallState, p: InstallPlan) -> InstallState {
    InstallState {
        archive_present: s.archive_present || p.download,
        node_present: s.node_present || p.extract,
        cli_present: s.cli_present || p.extract,
    }
}

/// What installing a release in state `s` still needs.
pub fn install_plan(s: &InstallState) -> (p: InstallPlan)
    ensures
        p == install_plan_spec(*s),
{
    InstallPlan { download: !s.archive_present, extract: !(s.node_present && s.cli_present) }
}

/// Installing twice: once the first plan has been carried out, the second one fetches
/// nothing and unpacks nothing, so the binaries stay as they are.
pub proof fn lemma_install_idempotent(s: InstallState)
    ensures
        install_plan_spec(after_install(s, install_plan_spec(s))) == (InstallPlan {
            download: false,
            extract: false,
        }),
{
}

} // verus!
