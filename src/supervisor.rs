//! Supervision of the node process: the session descriptor, the decisions taken on
//! it, the command lines for launching the node and for controlling it, and the check
//! of a binary's reported version.

use crate::text::{
    decimal, push_decimal, push_str, strip_prefix_all, strip_prefix_repeated, trim, trim_blanks,
};
use crate::version::{
    req_matches, version_reading, ReqModel, Version, VersionModel, VersionReading,
    VersionRequirement,
};
use vstd::prelude::*;

verus! {

/// The session descriptor: what is recorded about a node started for a channel.
#[derive(Debug, Clone)]
pub struct RunnerInfo {
    pub pid: u32,
    /// Port of the node's control endpoint, where one was opened.
    pub rest_port: Option<u16>,
    /// Companion command-line binary that the node was started with.
    pub jcli: String,
    /// Node binary that was started.
    pub jormungandr: String,
}

pub struct InfoModel {
    pub pid: u32,
    pub rest_port: Option<u16>,
    pub jcli: Seq<char>,
    pub jormungandr: Seq<char>,
}

impl View for RunnerInfo {
    type V = InfoModel;

    open spec fn view(&self) -> InfoModel {
        InfoModel {
            pid: self.pid,
            rest_port: self.rest_port,
            jcli: self.jcli@,
            jormungandr: self.jormungandr@,
        }
    }
}

/// What is to be done with the session file.
#[derive(Debug, Clone, Copy, PartialEq, Eq, Structural)]
pub enum SessionAction {
    Keep,
    /// Delete it: its node has stopped.
    Remove,
}

#[derive(Debug, Clone, Copy, PartialEq, Eq, Structural)]
pub enum RunnerError {
    NoRunningNode,
    /// A node is already running for the channel, with this process id.
    NodeRunning(u32),
    /// The session records no control port.
    RestNotRunning,
    /// The control request reached the companion tool, which reported a failure.
    CannotPerformRequest,
}

/// A request sent to a running node through the companion tool.
#[derive(Debug, Clone, Copy, PartialEq, Eq, Structural)]
pub enum ControlRequest {
    Shutdown,
    Settings,
    NodeStats,
}

/// The address the node's control endpoint listens on.
#[derive(Debug, Clone)]
pub struct RestListen {
    /// The address as it is passed to the node, such as `127.0.0.1:8443`.
    pub address: String,
    pub port: u16,
}

/// What the default configuration of a channel passes to the node.
#[derive(Debug, Clone)]
pub struct NodeSetup {
    pub storage: String,
    pub genesis_block_hash: String,
    pub trusted_peers: Vec<String>,
    /// The node's secret file, where one exists on disk.
    pub secret: Option<String>,
}

/// The supervisor of one channel's node.
#[derive(Debug)]
pub struct RunnerControl {
    info: Option<RunnerInfo>,
    jcli: String,
    jormungandr: String,
}

pub open spec fn info_model(i: Option<RunnerInfo>) -> Option<InfoModel> {
    match i {
        Some(x) => Some(x@),
        None => None,
    }
}

/// The session that acquiring binds: a recorded session whose process is alive.
pub open spec fn acquired_session(found: Option<InfoModel>, alive: bool) -> Option<InfoModel> {
    match found {
        Some(i) => if alive {
            Some(i)
        } else {
            None
        },
        None => None,
    }
}

/// What acquiring does with the session file: a session whose process is dead is removed.
pub open spec fn acquire_action(found: Option<InfoModel>, alive: bool) -> SessionAction {
    if found is Some && !alive {
        SessionAction::Remove
    } else {
        SessionAction::Keep
    }
}

/// Starting is refused while a session is bound, with the process id it records.
pub open spec fn start_refusal(session: Option<InfoModel>) -> Option<RunnerError> {
    match session {
        Some(i) => Some(RunnerError::NodeRunning(i.pid)),
        None => None,
    }
}

pub open spec fn strings(v: Seq<String>) -> Seq<Seq<char>> {
    v.map_values(|s: String| s@)
}

/// `--trusted-peer` and the peer, for each peer.
pub open spec fn peer_args(peers: Seq<Seq<char>>) -> Seq<Seq<char>>
    decreases peers.len(),
{
    if peers.len() == 0 {
        Seq::empty()
    } else {
        peer_args(peers.drop_last()) + seq!["--trusted-peer"@, peers.last()]
    }
}

/// The command line of the node, after the binary: the control address where one is
/// given; with the default configuration the storage, the genesis block hash, each
/// trusted peer and the secret file where there is one; then the caller's own
/// parameters, last so that they can override the others.
pub open spec fn launch_args_spec(
    default_config: bool,
    rest: Option<Seq<char>>,
    storage: Seq<char>,
    genesis: Seq<char>,
    peers: Seq<Seq<char>>,
    secret: Option<Seq<char>>,
    params: Seq<Seq<char>>,
) -> Seq<Seq<char>> {
    let rest_part = match rest {
        Some(a) => seq!["--rest-listen"@, a],
        None => Seq::empty(),
    };
    let default_part = if default_config {
        seq!["--storage"@, storage, "--genesis-block-hash"@, genesis] + peer_args(peers) + match secret {
            Some(s) => seq!["--secret"@, s],
            None => Seq::empty(),
        }
    } else {
        Seq::empty()
    };
    rest_part + default_part + params
}

/// The loopback address of a node's control endpoint.
pub open spec fn host_url(port: u16) -> Seq<char> {
    "http://localhost:"@ + decimal(port as nat) + "/api"@
}

pub open spec fn request_words(request: ControlRequest) -> Seq<Seq<char>> {
    match request {
        ControlRequest::Shutdown => seq!["shutdown"@],
        ControlRequest::Settings => seq!["settings"@],
        ControlRequest::NodeStats => seq!["node"@, "stats"@],
    }
}

/// The companion tool's arguments for a control request against `port`.
pub open spec fn control_args_spec(request: ControlRequest, port: u16) -> Seq<Seq<char>> {
    seq!["rest"@, "v0"@] + request_words(request) + seq!["get"@, "--host"@, host_url(port)]
}

/// The control address that a launch is given, if any.
pub open spec fn rest_address(rest: Option<RestListen>) -> Option<Seq<char>> {
    match rest {
        Some(l) => Some(l.address@),
        None => None,
    }
}

pub open spec fn rest_port(rest: Option<RestListen>) -> Option<u16> {
    match rest {
        Some(l) => Some(l.port),
        None => None,
    }
}

pub open spec fn secret_path(secret: Option<String>) -> Option<Seq<char>> {
    match secret {
        Some(s) => Some(s@),
        None => None,
    }
}

/// The outcome of a settings or statistics request, from whether the companion tool
/// reported success.
pub fn request_outcome(success: bool) -> (r: Result<(), RunnerError>)
    ensures
        success ==> r is Ok,
        !success ==> r == Err::<(), RunnerError>(RunnerError::CannotPerformRequest),
{
    if success {
        Ok(())
    } else {
        Err(RunnerError::CannotPerformRequest)
    }
}

/// Acquiring a channel whose session file records a process that is no longer alive
/// removes the file and leaves no session, so that starting the node is allowed again.
pub proof fn lemma_stale_session_cleared(found: InfoModel)
    ensures
        acquire_action(Some(found), false) == SessionAction::Remove,
        acquired_session(Some(found), false) is None,
        start_refusal(acquired_session(Some(found), false)) is None,
{
}

/// Acquiring a channel whose session file records a live process binds that session,
/// keeps its file, and refuses to start a second node, naming the running process.
pub proof fn lemma_live_session_blocks_start(found: InfoModel)
    ensures
        acquire_action(Some(found), true) == SessionAction::Keep,
        acquired_session(Some(found), true) == Some(found),
        start_refusal(acquired_session(Some(found), true)) == Some(RunnerError::NodeRunning(found.pid)),
{
}

fn string_of(s: &str) -> (r: String)
    ensures
        r@ == s@,
{
    let mut out = String::new();
    push_str(&mut out, s);
    out
}

fn push_word(args: &mut Vec<String>, s: &str)
    ensures
        strings(final(args)@) == strings(old(args)@).push(s@),
{
    let w = string_of(s);
    args.push(w);
    assert(strings(final(args)@) == strings(old(args)@).push(s@));
}

impl RunnerControl {
    pub closed spec fn session(&self) -> Option<InfoModel> {
        info_model(self.info)
    }

    pub closed spec fn spec_jcli(&self) -> Seq<char> {
        self.jcli@
    }

    pub closed spec fn spec_jormungandr(&self) -> Seq<char> {
        self.jormungandr@
    }

    /// Acquires the supervisor of a channel from the session found on disk, if any, and
    /// whether its process is alive. A live session is bound, with the binaries it
    /// records; a dead one is to be removed, after a warning, and leaves no session;
    /// otherwise the binaries given are used.
    pub fn new(found: Option<RunnerInfo>, alive: bool, jcli: String, jormungandr: String) -> (r: (
        RunnerControl,
        SessionAction,
    ))
        ensures
            r.0.session() == acquired_session(info_model(found), alive),
            r.1 == acquire_action(info_model(found), alive),
            match r.0.session() {
                Some(i) => r.0.spec_jcli() == i.jcli && r.0.spec_jormungandr() == i.jormungandr,
                None => r.0.spec_jcli() == jcli@ && r.0.spec_jormungandr() == jormungandr@,
            },
    {
        match found {
            Some(info) => {
                if alive {
                    let c = info.jcli.clone();
                    let n = info.jormungandr.clone();
                    (RunnerControl { info: Some(info), jcli: c, jormungandr: n }, SessionAction::Keep)
                } else {
                    (RunnerControl { info: None, jcli, jormungandr }, SessionAction::Remove)
                }
            },
            None => (RunnerControl { info: None, jcli, jormungandr }, SessionAction::Keep),
        }
    }

    /// The supervisor of a running node, for control requests. It fails where no session
    /// is recorded or its process is no longer alive; a dead session is to be removed,
    /// after a warning, as when acquiring.
    pub fn load(found: Option<RunnerInfo>, alive: bool) -> (r: (
        Result<RunnerControl, RunnerError>,
        SessionAction,
    ))
        ensures
            r.1 == acquire_action(info_model(found), alive),
            match r.0 {
                Ok(c) => found is Some && alive && c.session() == info_model(found)
                    && c.spec_jcli() == found->Some_0.jcli@ && c.spec_jormungandr()
                    == found->Some_0.jormungandr@,
                Err(e) => e == RunnerError::NoRunningNode && !(found is Some && alive),
            },
    {
        match found {
            Some(info) => {
                if alive {
                    let c = info.jcli.clone();
                    let n = info.jormungandr.clone();
                    (Ok(RunnerControl { info: Some(info), jcli: c, jormungandr: n }), SessionAction::Keep)
                } else {
                    (Err(RunnerError::NoRunningNode), SessionAction::Remove)
                }
            },
            None => (Err(RunnerError::NoRunningNode), SessionAction::Keep),
        }
    }

    /// The companion command-line binary.
    pub fn jcli(&self) -> (r: &String)
        ensures
            r@ == self.spec_jcli(),
    {
        &self.jcli
    }

    /// The node binary.
    pub fn jormungandr(&self) -> (r: &String)
        ensures
            r@ == self.spec_jormungandr(),
    {
        &self.jormungandr
    }

    /// The command line that starts the node, after the binary. Refused while a node is
    /// running for the channel.
    pub fn launch_args(
        &self,
        default_config: bool,
        rest: &Option<RestListen>,
        setup: &NodeSetup,
        parameters: &Vec<String>,
    ) -> (r: Result<Vec<String>, RunnerError>)
        ensures
            match start_refusal(self.session()) {
                Some(e) => r == Err::<Vec<String>, RunnerError>(e),
                None => r is Ok && strings(r->Ok_0@) == launch_args_spec(
                    default_config,
                    rest_address(*rest),
                    setup.storage@,
                    setup.genesis_block_hash@,
                    strings(setup.trusted_peers@),
                    secret_path(setup.secret),
                    strings(parameters@),
                ),
            },
    {
        if let Some(info) = &self.info {
            return Err(RunnerError::NodeRunning(info.pid));
        }
        let mut args: Vec<String> = Vec::new();
        if let Some(listen) = rest {
            push_word(&mut args, "--rest-listen");
            push_word(&mut args, listen.address.as_str());
        }
        let ghost head = strings(args@);
        assert(head == match rest_address(*rest) {
            Some(a) => seq!["--rest-listen"@, a],
            None => Seq::<Seq<char>>::empty(),
        });
        if default_config {
            push_word(&mut args, "--storage");
            push_word(&mut args, setup.storage.as_str());
            push_word(&mut args, "--genesis-block-hash");
            push_word(&mut args, setup.genesis_block_hash.as_str());
            let ghost base = strings(args@);
            let ghost peers = strings(setup.trusted_peers@);
            let mut i: usize = 0;
            while i < setup.trusted_peers.len()
                invariant
                    i <= setup.trusted_peers@.len(),
                    peers == strings(setup.trusted_peers@),
                    strings(args@) == base + peer_args(peers.subrange(0, i as int)),
                decreases setup.trusted_peers@.len() - i,
            {
                let ghost before = strings(args@);
                push_word(&mut args, "--trusted-peer");
                push_word(&mut args, setup.trusted_peers[i].as_str());
                proof {
                    let taken = peers.subrange(0, i + 1);
                    assert(taken.drop_last() == peers.subrange(0, i as int));
                    assert(taken.last() == setup.trusted_peers@[i as int]@);
                    assert(strings(args@) == base + peer_args(taken));
                }
                i = i + 1;
            }
            assert(peers.subrange(0, peers.len() as int) == peers);
            if let Some(secret) = &setup.secret {
                push_word(&mut args, "--secret");
                push_word(&mut args, secret.as_str());
            }
        }
        let ghost middle = strings(args@);
        let mut k: usize = 0;
        while k < parameters.len()
            invariant
                k <= parameters@.len(),
                strings(args@) == middle + strings(parameters@).subrange(0, k as int),
            decreases parameters@.len() - k,
        {
            let ghost before = args@;
            let p = string_of(parameters[k].as_str());
            args.push(p);
            assert(strings(args@) == strings(before).push(parameters@[k as int]@));
            assert(strings(parameters@).subrange(0, k + 1) == strings(parameters@).subrange(
                0,
                k as int,
            ).push(parameters@[k as int]@));
            k = k + 1;
        }
        assert(strings(parameters@).subrange(0, parameters@.len() as int) == strings(parameters@));
        Ok(args)
    }

    /// Records the node just started with process id `pid`: the session descriptor to
    /// persist, which the supervisor now holds. Refused while a node is running.
    pub fn record_spawn(&mut self, pid: u32, rest: &Option<RestListen>) -> (r: Result<
        RunnerInfo,
        RunnerError,
    >)
        ensures
            final(self).spec_jcli() == old(self).spec_jcli(),
            final(self).spec_jormungandr() == old(self).spec_jormungandr(),
            match start_refusal(old(self).session()) {
                Some(e) => r == Err::<RunnerInfo, RunnerError>(e) && final(self).session()
                    == old(self).session(),
                None => r is Ok && r->Ok_0@ == (InfoModel {
                    pid,
                    rest_port: rest_port(*rest),
                    jcli: old(self).spec_jcli(),
                    jormungandr: old(self).spec_jormungandr(),
                }) && final(self).session() == Some(r->Ok_0@),
            },
    {
        if let Some(info) = &self.info {
            return Err(RunnerError::NodeRunning(info.pid));
        }
        let port = match rest {
            Some(listen) => Some(listen.port),
            None => None,
        };
        let info = RunnerInfo {
            pid,
            rest_port: port,
            jcli: self.jcli.clone(),
            jormungandr: self.jormungandr.clone(),
        };
        let kept = RunnerInfo {
            pid,
            rest_port: port,
            jcli: self.jcli.clone(),
            jormungandr: self.jormungandr.clone(),
        };
        self.info = Some(kept);
        Ok(info)
    }

    /// The companion tool's arguments for a control request to the running node.
    pub fn control_args(&self, request: ControlRequest) -> (r: Result<Vec<String>, RunnerError>)
        ensures
            match self.session() {
                None => r == Err::<Vec<String>, RunnerError>(RunnerError::NoRunningNode),
                Some(i) => match i.rest_port {
                    None => r == Err::<Vec<String>, RunnerError>(RunnerError::RestNotRunning),
                    Some(p) => r is Ok && strings(r->Ok_0@) == control_args_spec(request, p),
                },
            },
    {
        let port = match &self.info {
            None => {
                return Err(RunnerError::NoRunningNode);
            },
            Some(info) => match info.rest_port {
                None => {
                    return Err(RunnerError::RestNotRunning);
                },
                Some(p) => p,
            },
        };
        let mut args: Vec<String> = Vec::new();
        push_word(&mut args, "rest");
        push_word(&mut args, "v0");
        match request {
            ControlRequest::Shutdown => push_word(&mut args, "shutdown"),
            ControlRequest::Settings => push_word(&mut args, "settings"),
            ControlRequest::NodeStats => {
                push_word(&mut args, "node");
                push_word(&mut args, "stats");
            },
        }
        push_word(&mut args, "get");
        push_word(&mut args, "--host");
        let mut host = String::new();
        push_str(&mut host, "http://localhost:");
        push_decimal(&mut host, port as u64);
        push_str(&mut host, "/api");
        let ghost before = args@;
        args.push(host);
        assert(strings(args@) == strings(before).push(host_url(port)));
        Ok(args)
    }

    /// What follows the shutdown request. Where the companion tool reported success the
    /// session ends and its file is removed; otherwise the session stays, for a retry.
    pub fn finish_shutdown(&mut self, success: bool) -> (r: Result<SessionAction, RunnerError>)
        ensures
            final(self).spec_jcli() == old(self).spec_jcli(),
            final(self).spec_jormungandr() == old(self).spec_jormungandr(),
            success ==> r == Ok::<SessionAction, RunnerError>(SessionAction::Remove)
                && final(self).session() is None,
            !success ==> r == Err::<SessionAction, RunnerError>(RunnerError::CannotPerformRequest)
                && final(self).session() == old(self).session(),
    {
        if success {
            self.info = None;
            Ok(SessionAction::Remove)
        } else {
            Err(RunnerError::CannotPerformRequest)
        }
    }

    /// The bound session, if any.
    pub fn info(&self) -> (r: Option<RunnerInfo>)
        ensures
            info_model(r) == self.session(),
    {
        match &self.info {
            Some(i) => Some(RunnerInfo {
                pid: i.pid,
                rest_port: i.rest_port,
                jcli: i.jcli.clone(),
                jormungandr: i.jormungandr.clone(),
            }),
            None => None,
        }
    }
}


#[derive(Debug)]
pub enum GateError {
    /// The binary's answer holds no readable version.
    UnreadableVersion,
    /// The version the binary reports does not meet the channel's requirement.
    Incompatible(Version),
}

/// The requirement that a binary's reported version is held to: the channel's own, or,
/// where the channel asks only for the latest release, exactly the version resolved.
pub fn accepted_requirement(req: &VersionRequirement, resolved: &Version) -> (r: VersionRequirement)
    ensures
        r@ == match req@ {
            ReqModel::Latest => match resolved@ {
                VersionModel::Nightly(_) => ReqModel::Nightly,
                VersionModel::Stable(p) => ReqModel::ExactStable(p),
            },
            other => other,
        },
{
    match req {
        VersionRequirement::Latest => VersionRequirement::exact(resolved.duplicate()),
        other => other.duplicate(),
    }
}

/// The version part of a binary's answer to `--version`: the answer without the
/// binary's name in front, as often as it is repeated, and without blanks at either end.
pub open spec fn reported_text(name: Seq<char>, output: Seq<char>) -> Seq<char> {
    trim_blanks(strip_prefix_all(output, name))
}

/// Checks the answer of a binary to `--version` against the channel's requirement; the
/// binary is used only where its reported version meets it.
pub fn check_reported_version(name: &str, output: &str, req: &VersionRequirement) -> (r: Result<
    Version,
    GateError,
>)
    ensures
        match version_reading(reported_text(name@, output@)) {
            VersionReading::Read(v) => if req_matches(req@, v) {
                r is Ok && r->Ok_0@ == v
            } else {
                r is Err && r->Err_0 is Incompatible && r->Err_0->Incompatible_0@ == v
            },
            _ => r is Err && r->Err_0 is UnreadableVersion,
        },
{
    let text = trim(strip_prefix_repeated(output, name));
    match Version::parse(text) {
        Ok(v) => {
            if req.matches(&v) {
                Ok(v)
            } else {
                Err(GateError::Incompatible(v))
            }
        },
        Err(_) => Err(GateError::UnreadableVersion),
    }
}

} // verus!
