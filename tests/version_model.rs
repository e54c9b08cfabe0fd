use jorup::calendar::BuildDate;
use jorup::stable::StableVersion;
use jorup::channel::{release, version_req, Channel, ChannelVersion, Genesis};
use jorup::version::{RequirementError, Version, VersionError, VersionRequirement};
use std::cmp::Ordering;

fn v(s: &str) -> Version {
    Version::parse(s).unwrap()
}

fn req(s: &str) -> VersionRequirement {
    VersionRequirement::parse(s).unwrap()
}

#[test]
fn stable_version_round_trips_through_its_text() {
    for s in ["0.8.0", "1.2.3", "10.20.30-rc1+build.5", "0.0.0-alpha.1", "1.0.0+001"] {
        let first = v(s);
        let text = first.display();
        assert_eq!(text, s);
        let second = v(&text);
        assert_eq!(second.display(), first.display());
        assert_eq!(first.compare(&second), Ordering::Equal);
    }
}

#[test]
fn nightly_versions_read_and_display() {
    assert_eq!(v("nightly").display(), "nightly");
    let n = v("nightly.20200115");
    assert_eq!(n.display(), "nightly.20200115");
    let d = n.get_nightly_date().unwrap();
    assert_eq!((d.year(), d.month(), d.day()), (2020, 1, 15));
    assert_eq!(v("nightly.00010203").display(), "nightly.00010203");
}

#[test]
fn malformed_nightly_is_a_nightly_error() {
    assert!(matches!(Version::parse("nightly.2020"), Err(VersionError::Nightly)));
    assert!(matches!(Version::parse("nightly.20200230"), Err(VersionError::Nightly)));
    assert!(matches!(Version::parse("nightlyx"), Err(VersionError::Nightly)));
    assert!(matches!(Version::parse("nightly.abc"), Err(VersionError::Nightly)));
}

#[test]
fn a_dated_nightly_has_one_text() {
    assert!(matches!(Version::parse("nightly.020200101"), Err(VersionError::Nightly)));
    assert!(matches!(Version::parse("nightly.+20200101"), Err(VersionError::Nightly)));
    assert!(matches!(Version::parse("nightlyx.20200101"), Err(VersionError::Nightly)));
    assert!(matches!(Version::parse("nightly.+0200101"), Err(VersionError::Nightly)));
    assert!(matches!(Version::parse("nightly-20200101"), Err(VersionError::Nightly)));
    assert_eq!(v("nightly.20200101").display(), "nightly.20200101");
}

#[test]
fn build_metadata_does_not_order_or_distinguish() {
    assert_eq!(v("1.0.0+a").compare(&v("1.0.0+b")), Ordering::Equal);
    assert_eq!(v("1.0.0+b").compare(&v("1.0.0")), Ordering::Equal);
    assert_eq!(v("1.0.0-rc1+b").compare(&v("1.0.0-rc2+a")), Ordering::Less);
    assert!(req("1.2.3").matches(&v("1.2.3+build.7")));
    assert!(!req("1.2.3").matches(&v("1.2.3-rc1+build.7")));
}

#[test]
fn malformed_semver_is_a_semver_error() {
    assert!(matches!(Version::parse("1.2"), Err(VersionError::Semver(_))));
    assert!(matches!(Version::parse("01.2.3"), Err(VersionError::Semver(_))));
    assert!(matches!(Version::parse(""), Err(VersionError::Semver(_))));
}

#[test]
fn stable_order_follows_numbers() {
    assert_eq!(v("1.2.3").compare(&v("1.2.4")), Ordering::Less);
    assert_eq!(v("1.10.0").compare(&v("1.9.9")), Ordering::Greater);
    assert_eq!(v("2.0.0").compare(&v("10.0.0")), Ordering::Less);
    assert_eq!(v("1.0.0-rc1").compare(&v("1.0.0")), Ordering::Less);
    assert_eq!(v("1.5.0").compare(&v("1.5.0")), Ordering::Equal);
}

#[test]
fn nightly_order_follows_dates_and_stays_below_stable() {
    assert_eq!(v("nightly.20200101").compare(&v("nightly.20200102")), Ordering::Less);
    assert_eq!(v("nightly.20201231").compare(&v("nightly.20200102")), Ordering::Greater);
    assert_eq!(v("nightly").compare(&v("nightly.20200102")), Ordering::Less);
    assert_eq!(v("nightly.29991231").compare(&v("0.0.1")), Ordering::Less);
    assert_eq!(v("0.0.1").compare(&v("nightly")), Ordering::Greater);
}

#[test]
fn range_requirement_matches_like_semver() {
    let r = req(">=1.0.0, <2.0.0");
    assert!(r.matches(&v("1.5.0")));
    assert!(r.matches(&v("1.0.0")));
    assert!(!r.matches(&v("2.0.0")));
    assert!(!r.matches(&v("0.9.0")));
    assert!(!r.matches(&v("nightly.20200101")));
    assert!(!req("nightly").matches(&v("1.5.0")));
    assert!(req("nightly").matches(&v("nightly")));
    assert!(!VersionRequirement::Latest.matches(&v("1.5.0")));
    assert_eq!(VersionRequirement::Latest.display(), "latest");
    assert_eq!(r.display(), ">=1.0.0, <2.0.0");
}

#[test]
fn exact_requirement_matches_one_version() {
    let r = req("1.2.3");
    assert!(matches!(r, VersionRequirement::ExactStable(_)));
    assert!(r.matches(&v("1.2.3")));
    assert!(!r.matches(&v("1.2.4")));
    assert!(!r.matches(&v("1.2.3-rc1")));
    assert_eq!(r.display(), "1.2.3");
    assert_eq!(r.into_version().unwrap().display(), "1.2.3");
}

#[test]
fn requirement_errors_name_the_part_that_failed() {
    assert!(matches!(VersionRequirement::parse("1.2"), Err(RequirementError::VersionError(_))));
    assert!(matches!(VersionRequirement::parse(">=x.y"), Err(RequirementError::ReqError(_))));
    assert!(matches!(VersionRequirement::parse("nightly"), Ok(VersionRequirement::Nightly)));
}

#[test]
fn registry_tags() {
    assert_eq!(v("1.2.3").to_registry_tag(), "v1.2.3");
    assert_eq!(v("nightly.20200101").to_registry_tag(), "nightly");
    assert_eq!(Version::from_registry_tag("v0.8.5").unwrap().display(), "0.8.5");
    assert_eq!(Version::from_registry_tag("vv0.8.5").unwrap().display(), "0.8.5");
    assert_eq!(Version::from_registry_tag("nightly").unwrap().display(), "nightly");
}

#[test]
fn configuring_a_nightly_dates_it_once() {
    let date = BuildDate::new(2021, 8, 31).unwrap();
    let anchor = || StableVersion::parse("0.9.2").unwrap();
    let dated = v("nightly").configure_nightly(anchor(), date).unwrap();
    assert_eq!(dated.display(), "nightly.20210831");
    assert_eq!(dated.nightly_anchor().unwrap().display(), "0.9.2");
    assert!(matches!(dated.configure_nightly(anchor(), date), Err(VersionError::AlreadyConfigured)));
    assert_eq!(v("1.0.0").configure_nightly(anchor(), date).unwrap().display(), "1.0.0");
    assert!(v("nightly.20210831").nightly_anchor().is_none());
    assert_eq!(StableVersion::parse("1.4.9-rc1+b").unwrap().next_patch().unwrap().display(), "1.4.10");
    assert!(StableVersion::parse("1.4.18446744073709551615").unwrap().next_patch().is_none());
}

#[test]
fn build_dates_follow_the_calendar() {
    assert!(BuildDate::new(2020, 2, 29).is_some());
    assert!(BuildDate::new(2019, 2, 29).is_none());
    assert!(BuildDate::new(2020, 13, 1).is_none());
    assert!(BuildDate::new(2020, 4, 31).is_none());
    assert!(BuildDate::new(400000, 1, 1).is_none());
}

#[test]
fn exact_requirement_of_a_version() {
    assert!(matches!(VersionRequirement::exact(v("nightly.20200101")), VersionRequirement::Nightly));
    assert_eq!(VersionRequirement::exact(v("0.9.1")).display(), "0.9.1");
}

#[test]
fn validators_accept_versions_and_requirements() {
    assert!(release("0.8.0".to_string()).is_ok());
    assert!(release("nightly".to_string()).is_ok());
    assert!(release("0.8".to_string()).is_err());
    assert!(version_req(">= 0.8.0".to_string()).is_ok());
    assert!(version_req("0.8".to_string()).is_err());
}

#[test]
fn channel_kinds() {
    assert!(ChannelVersion::Nightly.is_nightly());
    assert!(!ChannelVersion::Stable.is_nightly());
    assert!(ChannelVersion::Specific { channel: Channel::Nightly }.is_nightly());
    assert!(!ChannelVersion::Specific { channel: Channel::Beta }.is_nightly());
    let g = Genesis { block0_hash: "adda".to_string() };
    assert_eq!(g.block0_hash(), "adda");
}

#[test]
fn errors_describe_themselves() {
    let e = Version::parse("1.x").unwrap_err();
    assert!(!e.message().is_empty());
    assert_eq!(Version::parse("nightly.1").unwrap_err().message(), "invalid nightly version");
    assert_eq!(release("nightly.2020".to_string()), Err("invalid nightly version".to_string()));
    let r = VersionRequirement::parse("1.2").unwrap_err();
    assert!(!r.message().is_empty());
}
