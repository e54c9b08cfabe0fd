use jorup::calendar::BuildDate;
use jorup::registry::{
    anchor_query, find_matching_release, find_release_by_req, query_for, query_url, RegistryError,
    RegistryQuery, RegistryReply, ReleaseAsset, ReleaseDef,
};
use jorup::supervisor::{
    accepted_requirement, check_reported_version, request_outcome, ControlRequest, GateError, NodeSetup, RestListen,
    RunnerControl, RunnerError, RunnerInfo, SessionAction,
};
use jorup::version::VersionRequirement;

fn req(s: &str) -> VersionRequirement {
    VersionRequirement::parse(s).unwrap()
}

fn asset(name: &str, url: &str) -> ReleaseAsset {
    ReleaseAsset { name: name.to_string(), url: url.to_string() }
}

fn def(tag: &str, assets: Vec<ReleaseAsset>) -> ReleaseDef {
    ReleaseDef { tag_name: tag.to_string(), published: BuildDate::new(2020, 5, 4).unwrap(), assets }
}

fn info(pid: u32, port: Option<u16>) -> RunnerInfo {
    RunnerInfo { pid, rest_port: port, jcli: "/bin/jcli".to_string(), jormungandr: "/bin/jormungandr".to_string() }
}

#[test]
fn queries_follow_the_requirement() {
    assert_eq!(query_url(&query_for(&VersionRequirement::Latest)),
        "https://api.github.com/repos/input-output-hk/jormungandr/releases/latest");
    assert_eq!(query_url(&query_for(&req("nightly"))),
        "https://api.github.com/repos/input-output-hk/jormungandr/releases/tags/nightly");
    assert_eq!(query_url(&query_for(&req("0.8.9"))),
        "https://api.github.com/repos/input-output-hk/jormungandr/releases/tags/v0.8.9");
    assert!(matches!(query_for(&req("^0.8")), RegistryQuery::All));
    assert!(matches!(anchor_query(&req("nightly")), Some(RegistryQuery::Latest)));
    assert!(anchor_query(&req("0.8.9")).is_none());
}

#[test]
fn listing_gives_the_first_matching_release() {
    let defs = vec![
        def("nightly", vec![]),
        def("v0.9.0", vec![asset("a", "u1")]),
        def("not-a-version", vec![]),
        def("v0.8.19", vec![asset("jormungandr-v0.8.19-x86_64-unknown-linux-gnu-generic.tar.gz", "u2")]),
        def("v0.8.18", vec![]),
    ];
    let r = find_release_by_req(&req(">=0.8.0, <0.9.0"), defs).unwrap();
    assert_eq!(r.version().display(), "0.8.19");
    assert_eq!(r.get_asset_url("x86_64-unknown-linux-gnu").unwrap(), "u2");
    assert!(r.get_asset_url("aarch64-apple-darwin").is_none());
}

#[test]
fn listing_without_match_is_not_found() {
    let r = find_release_by_req(&req(">=5.0.0"), vec![def("v0.9.0", vec![])]);
    assert!(matches!(r, Err(RegistryError::ReleaseNotFound(_))));
}

#[test]
fn nightly_release_is_dated_with_its_publication() {
    let reply = RegistryReply::Nightly { nightly: def("nightly", vec![]), latest: def("v0.8.19", vec![]) };
    let r = find_matching_release(&req("nightly"), reply).unwrap();
    assert_eq!(r.version().display(), "nightly.20200504");
    assert_eq!(r.version().nightly_anchor().unwrap().display(), "0.8.20");
    let no_stable = RegistryReply::Nightly { nightly: def("nightly", vec![]), latest: def("nightly", vec![]) };
    assert!(matches!(find_matching_release(&req("nightly"), no_stable), Err(RegistryError::MalformedReleaseData)));
    let single = RegistryReply::Release(def("nightly", vec![]));
    assert!(matches!(find_matching_release(&req("nightly"), single), Err(RegistryError::MalformedReleaseData)));
}

#[test]
fn latest_and_exact_releases() {
    let r = find_matching_release(&VersionRequirement::Latest, RegistryReply::Release(def("v0.9.1", vec![]))).unwrap();
    assert_eq!(r.version().display(), "0.9.1");
    let bad = find_matching_release(&VersionRequirement::Latest, RegistryReply::Release(def("latest!", vec![])));
    assert!(matches!(bad, Err(RegistryError::MalformedReleaseData)));
    let undated = find_matching_release(&VersionRequirement::Latest, RegistryReply::Release(def("nightly", vec![])));
    assert!(matches!(undated, Err(RegistryError::MalformedReleaseData)));
    let e = find_matching_release(&req("0.7.0"), RegistryReply::Release(def("v0.7.0", vec![]))).unwrap();
    assert_eq!(e.version().display(), "0.7.0");
}

#[test]
fn stale_session_is_removed_and_start_is_allowed() {
    let (ctl, action) = RunnerControl::new(Some(info(4242, Some(8443))), false, "jc".to_string(), "jo".to_string());
    assert_eq!(action, SessionAction::Remove);
    assert!(ctl.info().is_none());
    let setup = NodeSetup { storage: "s".to_string(), genesis_block_hash: "h".to_string(), trusted_peers: vec![], secret: None };
    assert!(ctl.launch_args(true, &None, &setup, &vec![]).is_ok());
}

#[test]
fn live_session_refuses_a_second_start() {
    let (mut ctl, action) = RunnerControl::new(Some(info(4242, Some(8443))), true, "jc".to_string(), "jo".to_string());
    assert_eq!(action, SessionAction::Keep);
    assert_eq!(ctl.jcli(), "/bin/jcli");
    let setup = NodeSetup { storage: "s".to_string(), genesis_block_hash: "h".to_string(), trusted_peers: vec![], secret: None };
    assert_eq!(ctl.launch_args(true, &None, &setup, &vec![]).unwrap_err(), RunnerError::NodeRunning(4242));
    assert_eq!(ctl.record_spawn(7, &None).unwrap_err(), RunnerError::NodeRunning(4242));
    assert_eq!(ctl.info().unwrap().pid, 4242);
}

#[test]
fn launch_arguments_put_extra_parameters_last() {
    let (mut ctl, _) = RunnerControl::new(None, false, "jc".to_string(), "jo".to_string());
    let setup = NodeSetup {
        storage: "/chan/storage".to_string(),
        genesis_block_hash: "abcd".to_string(),
        trusted_peers: vec!["/ip4/1.2.3.4/tcp/3000@id1".to_string(), "/ip4/5.6.7.8/tcp/3000".to_string()],
        secret: Some("/chan/secret.yaml".to_string()),
    };
    let rest = Some(RestListen { address: "127.0.0.1:8443".to_string(), port: 8443 });
    let args = ctl.launch_args(true, &rest, &setup, &vec!["--log-level".to_string(), "debug".to_string()]).unwrap();
    assert_eq!(args, vec![
        "--rest-listen", "127.0.0.1:8443", "--storage", "/chan/storage", "--genesis-block-hash", "abcd",
        "--trusted-peer", "/ip4/1.2.3.4/tcp/3000@id1", "--trusted-peer", "/ip4/5.6.7.8/tcp/3000",
        "--secret", "/chan/secret.yaml", "--log-level", "debug",
    ]);
    let plain = ctl.launch_args(false, &None, &setup, &vec!["--config".to_string(), "c.yaml".to_string()]).unwrap();
    assert_eq!(plain, vec!["--config", "c.yaml"]);
    let recorded = ctl.record_spawn(99, &rest).unwrap();
    assert_eq!((recorded.pid, recorded.rest_port), (99, Some(8443)));
    assert_eq!(recorded.jormungandr, "jo");
    assert_eq!(ctl.info().unwrap().pid, 99);
}

#[test]
fn control_requests_use_the_recorded_port() {
    let ctl = RunnerControl::load(Some(info(1, Some(8080))), true).0.unwrap();
    assert_eq!(ctl.control_args(ControlRequest::NodeStats).unwrap(),
        vec!["rest", "v0", "node", "stats", "get", "--host", "http://localhost:8080/api"]);
    assert_eq!(ctl.control_args(ControlRequest::Shutdown).unwrap(),
        vec!["rest", "v0", "shutdown", "get", "--host", "http://localhost:8080/api"]);
    let no_port = RunnerControl::load(Some(info(1, None)), true).0.unwrap();
    assert_eq!(no_port.control_args(ControlRequest::Settings).unwrap_err(), RunnerError::RestNotRunning);
    let (stale, action) = RunnerControl::load(Some(info(1, Some(8080))), false);
    assert_eq!(stale.unwrap_err(), RunnerError::NoRunningNode);
    assert_eq!(action, SessionAction::Remove);
    let (none, action) = RunnerControl::load(None, true);
    assert_eq!(none.unwrap_err(), RunnerError::NoRunningNode);
    assert_eq!(action, SessionAction::Keep);
}

#[test]
fn failed_shutdown_keeps_the_session() {
    let mut ctl = RunnerControl::load(Some(info(5, Some(8080))), true).0.unwrap();
    assert_eq!(ctl.finish_shutdown(false), Err(RunnerError::CannotPerformRequest));
    assert_eq!(ctl.info().unwrap().pid, 5);
    assert_eq!(ctl.finish_shutdown(true), Ok(SessionAction::Remove));
    assert!(ctl.info().is_none());
    assert_eq!(request_outcome(false), Err(RunnerError::CannotPerformRequest));
}

#[test]
fn latest_accepts_exactly_the_resolved_version() {
    let resolved = jorup::version::Version::parse("0.9.3").unwrap();
    let accepted = accepted_requirement(&VersionRequirement::Latest, &resolved);
    assert_eq!(accepted.display(), "0.9.3");
    assert!(check_reported_version("jcli ", "jcli 0.9.3", &accepted).is_ok());
    assert!(check_reported_version("jcli ", "jcli 0.9.4", &accepted).is_err());
    assert_eq!(accepted_requirement(&req(">=0.9"), &resolved).display(), ">=0.9");
}

#[test]
fn reported_versions_are_checked_against_the_requirement() {
    let r = req(">=0.8.0, <0.9.0");
    assert_eq!(check_reported_version("jcli ", "jcli 0.8.5\n", &r).unwrap().display(), "0.8.5");
    assert!(matches!(check_reported_version("jcli ", "jcli 0.9.5\n", &r), Err(GateError::Incompatible(_))));
    assert!(matches!(check_reported_version("jcli ", "something else", &r), Err(GateError::UnreadableVersion)));
}

#[test]
fn reply_of_the_wrong_shape_is_malformed() {
    let listing = RegistryReply::Releases(vec![def("v0.9.0", vec![])]);
    assert!(matches!(find_matching_release(&VersionRequirement::Latest, listing), Err(RegistryError::MalformedReleaseData)));
    let single = RegistryReply::Release(def("v0.9.0", vec![]));
    assert!(matches!(find_matching_release(&req(">=0.1.0"), single), Err(RegistryError::MalformedReleaseData)));
    let dated = RegistryReply::Release(def("nightly.20200101", vec![]));
    assert!(matches!(find_matching_release(&req("nightly"), dated), Err(RegistryError::MalformedReleaseData)));
}

#[test]
fn first_fitting_asset_is_taken() {
    let defs = vec![def("v1.0.0", vec![
        asset("jormungandr-v1.0.0-x86_64-pc-windows-msvc-generic.zip", "w"),
        asset("jormungandr-v1.0.0-x86_64-unknown-linux-gnu-generic.tar.gz", "l1"),
        asset("jormungandr-v1.0.0-x86_64-unknown-linux-gnu-generic.tar.gz.sha256", "l2"),
    ])];
    let r = find_release_by_req(&req(">=1.0.0"), defs).unwrap();
    assert_eq!(r.get_asset_url("x86_64-unknown-linux-gnu").unwrap(), "l1");
    assert_eq!(r.get_asset_url("x86_64-pc-windows-msvc").unwrap(), "w");
    assert!(r.get_asset_url("x86_64-unknown-linux-musl").is_none());
}

#[test]
fn reported_version_tolerates_repeated_names_and_blanks() {
    let r = req("0.8.5");
    assert_eq!(check_reported_version("jcli ", "jcli jcli  0.8.5 \r\n", &r).unwrap().display(), "0.8.5");
    assert!(matches!(check_reported_version("jcli ", "", &r), Err(GateError::UnreadableVersion)));
    assert_eq!(check_reported_version("jcli ", "jcli \u{a0}0.8.5\u{3000}\n", &r).unwrap().display(), "0.8.5");
}
