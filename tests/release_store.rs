use jorup::store::{
    install_plan, list_installed, ArchiveKind, InstallPlan, InstallState, Release,
    ReleaseDirEntry, ReleaseError,
};
use jorup::version::VersionRequirement;

fn entry(name: &str) -> ReleaseDirEntry {
    ReleaseDirEntry { name: name.to_string(), is_dir: true, has_node: true, has_cli: true }
}

fn req(s: &str) -> VersionRequirement {
    VersionRequirement::parse(s).unwrap()
}

#[test]
fn exact_requirement_does_not_take_a_neighbour() {
    let entries = vec![entry("1.2.2"), entry("1.2.4")];
    let r = Release::load("/releases", &entries, &req("1.2.3"));
    assert!(matches!(r, Err(ReleaseError::NoCompatibleReleaseInstalled(_))));
}

#[test]
fn range_requirement_takes_the_newest_match() {
    let entries = vec![entry("0.9.0"), entry("1.9.9"), entry("1.5.0")];
    let r = Release::load("/releases", &entries, &req(">=1.0.0, <2.0.0")).unwrap();
    assert_eq!(r.version().display(), "1.9.9");
    assert_eq!(r.dir(), "/releases/1.9.9");
    assert_eq!(r.get_jormungandr(), "/releases/1.9.9/jormungandr");
    assert_eq!(r.get_jcli(), "/releases/1.9.9/jcli");
    assert_eq!(r.get_asset(ArchiveKind::TarGz), "/releases/1.9.9/archive.tar.gz");
    assert_eq!(r.get_asset(ArchiveKind::Zip), "/releases/1.9.9/archive.zip");
}

#[test]
fn empty_release_directory_is_not_found() {
    let r = Release::load("/releases", &Vec::new(), &req(">=0.1.0"));
    assert!(matches!(r, Err(ReleaseError::NoCompatibleReleaseInstalled(_))));
}

#[test]
fn incomplete_or_unreadable_entries_are_skipped() {
    let mut half = entry("1.3.0");
    half.has_cli = false;
    let mut file = entry("1.4.0");
    file.is_dir = false;
    let entries = vec![half, file, entry("garbage"), entry("1.1.0"), entry("nightly"), entry("nightly.20200101")];
    let listed: Vec<String> = list_installed(&entries).iter().map(|v| v.display()).collect();
    assert_eq!(listed, vec!["1.1.0".to_string(), "nightly.20200101".to_string()]);
    let r = Release::load("/r", &entries, &req(">=1.0.0")).unwrap();
    assert_eq!(r.version().display(), "1.1.0");
}

#[test]
fn nightly_requirement_takes_the_latest_build() {
    let entries = vec![entry("nightly.20200105"), entry("nightly.20200301"), entry("2.0.0")];
    let r = Release::load("/r", &entries, &req("nightly")).unwrap();
    assert_eq!(r.version().display(), "nightly.20200301");
}

#[test]
fn install_plan_fetches_and_unpacks_what_is_missing() {
    let fresh = InstallState { archive_present: false, node_present: false, cli_present: false };
    assert_eq!(install_plan(&fresh), InstallPlan { download: true, extract: true });
    let fetched = InstallState { archive_present: true, node_present: true, cli_present: false };
    assert_eq!(install_plan(&fetched), InstallPlan { download: false, extract: true });
}

#[test]
fn second_install_does_nothing() {
    let fresh = InstallState { archive_present: false, node_present: false, cli_present: true };
    let plan = install_plan(&fresh);
    let after = InstallState {
        archive_present: fresh.archive_present || plan.download,
        node_present: fresh.node_present || plan.extract,
        cli_present: fresh.cli_present || plan.extract,
    };
    assert_eq!(install_plan(&after), InstallPlan { download: false, extract: false });
}
