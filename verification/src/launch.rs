//! How an lnd process is launched: what has to be done, in which order, and what follows from
//! each outcome.
use crate::args;
use crate::args::BitcoindParams;
use crate::args::Ports;
use crate::args::ZmqPorts;
use crate::conf::Conf;
use crate::error::Error;
use crate::exe::EnvVar;
use crate::node::DataDir;
use crate::node::Lnd;
use crate::paths;
use crate::rpc;
use crate::text;
use serde_json::Value;
use std::path::PathBuf;
use vstd::prelude::*;

verus! {

/// Where the working directory of an lnd process is to be created.
#[derive(Debug)]
pub enum Place {
    /// A temporary directory in this one, which the configuration names.
    TemporaryIn(PathBuf),
    /// A temporary directory in this one, which the environment names.
    TemporaryInRoot(String),
    /// A temporary directory where the system keeps them.
    TemporaryDefault,
    /// This directory, with every missing parent, to be kept.
    Persistent(PathBuf),
}

/// An lnd process that was spawned.
#[derive(Debug)]
pub struct Spawned {
    /// Its working directory.
    pub work_dir: DataDir,
    /// The ports that it was told to listen on.
    pub ports: Ports,
    /// Its process identifier.
    pub process: u32,
}

/// Why a launch failed.
#[derive(Debug, Clone, Copy, PartialEq, Eq, Structural)]
pub enum Failure {
    /// The library refuses to go on.
    Refused(Error),
    /// Something that had to be done failed; its error is the reason.
    Outside,
    /// The executable could not be spawned; the error is the reason, in the context that
    /// [`spawn_context`] gives.
    NotExecuted,
}

/// What a launch waits for.
#[derive(Debug)]
pub enum Stage {
    /// The answer of bitcoind on the state of its chain.
    ChainInfo,
    /// A new address of bitcoind.
    Address,
    /// A block, generated to `address`.
    Block { address: Value },
    /// The root of temporary directories that the environment names.
    TempRoot,
    /// A working directory.
    Directory { place: Place },
    /// How lnd reaches bitcoind.
    Bitcoind { work_dir: DataDir },
    /// A free port for peers.
    ListenPort { work_dir: DataDir, bitcoind: BitcoindParams },
    /// A free port for gRPC.
    GrpcPort { work_dir: DataDir, bitcoind: BitcoindParams, listen: u16 },
    /// A free port for REST.
    RestPort { work_dir: DataDir, bitcoind: BitcoindParams, listen: u16, grpc: u16 },
    /// The process.
    Process { work_dir: DataDir, bitcoind: BitcoindParams, ports: Ports },
    /// Word on whether the process is still running.
    Status { spawned: Spawned },
    /// A client that is connected to the process.
    Client { spawned: Spawned },
    /// The end of a pause before the next try to connect.
    Pause { spawned: Spawned },
    /// The content of the certificate file.
    Cert { spawned: Spawned },
    /// The content of the macaroon file.
    Macaroon { spawned: Spawned, cert: Vec<u8> },
    /// The servers of the process to warm up.
    WarmUp { spawned: Spawned, cert: Vec<u8>, macaroon: Vec<u8> },
    /// Nothing: the node is up.
    Ready { spawned: Spawned, cert: Vec<u8>, macaroon: Vec<u8> },
    /// Nothing: the launch failed.
    Failed { failure: Failure },
}

/// What has to be done next for a launch.
#[derive(Debug)]
pub enum Action<'s> {
    /// Ask bitcoind for the state of its chain, with a call of this method, without parameters.
    AskChainInfo { method: &'static str },
    /// Ask bitcoind for an address, with a call of this method, without parameters.
    AskAddress { method: &'static str },
    /// Call this method of bitcoind, with these two parameters in this order.
    Generate { method: &'static str, blocks: u64, address: &'s Value },
    /// Read this environment variable.
    ReadVariable { variable: &'static str },
    /// Create a working directory.
    CreateDirectory { place: &'s Place },
    /// Find out how to reach bitcoind.
    DescribeBitcoind,
    /// Ask the system for a free port.
    PickPort,
    /// Spawn the process with these arguments, its output suppressed but for the error output if
    /// `view_stderr` says so.
    Spawn { args: Vec<String>, view_stderr: bool },
    /// See whether the process exited.
    CheckProcess,
    /// Connect a client to this url, with these two files.
    Connect { url: String, cert_file: PathBuf, macaroon_file: PathBuf },
    /// Pause before another try.
    Pause { millis: u64 },
    /// Read this file.
    ReadFile { path: PathBuf },
    /// Let the servers of the process warm up.
    WarmUp { seconds: u64 },
    /// Take the node, see [`Launch::finish`].
    Finish,
    /// Report the failure, with what puts it into context, the closest first.
    Fail { failure: Failure, contexts: Vec<String> },
}

/// What came of an action.
#[derive(Debug)]
pub enum Event {
    /// bitcoind answered on its chain.
    ChainInfo(Value),
    /// bitcoind gave an address.
    Address(Value),
    /// bitcoind generated a block.
    BlockGenerated,
    /// The environment variable.
    TempRoot(EnvVar),
    /// A temporary directory was created at this path.
    TemporaryDirectory(PathBuf),
    /// The persistent directory is there.
    PersistentDirectory,
    /// How to reach bitcoind.
    Bitcoind(BitcoindParams),
    /// A free port.
    Port(u16),
    /// The process was spawned, with this identifier.
    Spawned(u32),
    /// The process is running.
    Running,
    /// The process exited, with this wait status.
    Exited(i32),
    /// A client is connected.
    Connected,
    /// No client could be connected.
    NotConnected,
    /// The time to wait for is over.
    Waited,
    /// The content of the file.
    FileRead(Vec<u8>),
    /// The action failed, in any other way.
    Failed,
}

/// The launch of an lnd process.
#[derive(Debug)]
pub struct Launch<'a> {
    /// What the user wants.
    pub conf: Conf<'a>,
    /// Where bitcoind publishes.
    pub zmq: ZmqPorts,
    /// How many times the process may still be spawned, this time included.
    pub attempts: u8,
    /// What the launch waits for.
    pub stage: Stage,
}

/// The stage in which a working directory is settled on.
pub open spec fn directory_stage(conf: Conf) -> Stage {
    match (conf.tmpdir, conf.staticdir) {
        (Some(_), Some(_)) => Stage::Failed { failure: Failure::Refused(Error::BothDirsSpecified) },
        (Some(tmpdir), None) => Stage::Directory { place: Place::TemporaryIn(tmpdir) },
        (None, Some(workdir)) => Stage::Directory { place: Place::Persistent(workdir) },
        (None, None) => Stage::TempRoot,
    }
}

/// The stage in which a working directory is settled on.
fn choose_directory(conf: &Conf) -> (stage: Stage)
    ensures
        stage == directory_stage(*conf),
{
    match (&conf.tmpdir, &conf.staticdir) {
        (Some(_), Some(_)) => Stage::Failed { failure: Failure::Refused(Error::BothDirsSpecified) },
        (Some(tmpdir), None) => Stage::Directory { place: Place::TemporaryIn(tmpdir.clone()) },
        (None, Some(workdir)) => Stage::Directory { place: Place::Persistent(workdir.clone()) },
        (None, None) => Stage::TempRoot,
    }
}

/// What puts the failure of a launch into context that was begun with `allowed` attempts and
/// has `left` of them: one line for each time that the process was spawned anew.
pub open spec fn retry_contexts(allowed: u8, left: u8) -> Seq<Seq<char>> {
    Seq::new(
        (allowed - left) as nat,
        |i: int| "Remaining attempts "@ + text::decimal_text((left + i) as nat),
    )
}

/// What puts the failure of a launch into context.
fn make_contexts(allowed: u8, left: u8) -> (contexts: Vec<String>)
    requires
        left <= allowed,
    ensures
        args::texts(contexts@) == retry_contexts(allowed, left),
{
    let mut contexts: Vec<String> = Vec::new();
    let mut n: u8 = left;
    while n < allowed
        invariant
            left <= n <= allowed,
            contexts@.len() == n - left,
            forall|i: int|
                0 <= i < contexts@.len() ==> #[trigger] contexts@[i]@ == "Remaining attempts "@
                    + text::decimal_text((left + i) as nat),
        decreases allowed - n,
    {
        contexts.push(text::join("Remaining attempts ", text::decimal(n as u16).as_str()));
        n = n + 1;
    }
    assert(args::texts(contexts@) =~= retry_contexts(allowed, left));
    contexts
}

/// What puts the failure to spawn a process into context, ahead of anything else: `exe` is the
/// executable, quoted.
pub fn spawn_context(exe: &str) -> (context: String)
    ensures
        context@ == "Error while executing "@ + exe@,
{
    text::join("Error while executing ", exe)
}

impl<'a> Launch<'a> {
    /// The launch as it begins.
    pub open spec fn start(conf: Conf<'a>, zmq: ZmqPorts) -> Launch<'a> {
        Launch { conf, zmq, attempts: conf.attempts, stage: Stage::ChainInfo }
    }

    /// No more attempts are left than were allowed, and what was read from files has a text.
    pub open spec fn wf(self) -> bool {
        &&& self.attempts <= self.conf.attempts
        &&& match self.stage {
            Stage::Macaroon { spawned, cert } => text::hex_fits(cert@),
            Stage::WarmUp { spawned, cert, macaroon } => text::hex_fits(cert@) && text::hex_fits(
                macaroon@,
            ),
            Stage::Ready { spawned, cert, macaroon } => text::hex_fits(cert@) && text::hex_fits(
                macaroon@,
            ),
            _ => true,
        }
    }

    /// Whether `event` can come of the action that the launch calls for.
    pub open spec fn accepts(self, event: Event) -> bool {
        match self.stage {
            Stage::ChainInfo => event is ChainInfo || event is Failed,
            Stage::Address => event is Address || event is Failed,
            Stage::Block { address } => event is BlockGenerated,
            Stage::TempRoot => event is TempRoot,
            Stage::Directory { place: Place::Persistent(_) } => event is PersistentDirectory
                || event is Failed,
            Stage::Directory { place } => event is TemporaryDirectory || event is Failed,
            Stage::Bitcoind { work_dir } => event is Bitcoind,
            Stage::ListenPort { work_dir, bitcoind } => event is Port || event is Failed,
            Stage::GrpcPort { work_dir, bitcoind, listen } => event is Port || event is Failed,
            Stage::RestPort { work_dir, bitcoind, listen, grpc } => event is Port
                || event is Failed,
            Stage::Process { work_dir, bitcoind, ports } => event is Spawned || event is Failed,
            Stage::Status { spawned } => event is Running || event is Exited || event is Failed,
            Stage::Client { spawned } => event is Connected || event is NotConnected,
            Stage::Pause { spawned } => event is Waited,
            Stage::Cert { spawned } => match event {
                Event::FileRead(bytes) => text::hex_fits(bytes@),
                _ => event is Failed,
            },
            Stage::Macaroon { spawned, cert } => match event {
                Event::FileRead(bytes) => text::hex_fits(bytes@),
                _ => event is Failed,
            },
            Stage::WarmUp { spawned, cert, macaroon } => event is Waited,
            Stage::Ready { spawned, cert, macaroon } => false,
            Stage::Failed { failure } => false,
        }
    }

    /// The launch, at another stage.
    pub open spec fn at(self, stage: Stage) -> Launch<'a> {
        Launch { stage, ..self }
    }

    /// The launch after the process exited early: begun anew if an attempt is left besides the
    /// one that the process was.
    pub open spec fn after_exit(self, status: i32) -> Launch<'a> {
        if self.attempts > 1 {
            Launch { attempts: (self.attempts - 1) as u8, stage: Stage::ChainInfo, ..self }
        } else {
            self.at(Stage::Failed { failure: Failure::Refused(Error::EarlyExit(status)) })
        }
    }

    /// The launch after an event that it accepts.
    pub open spec fn after(self, event: Event) -> Launch<'a> {
        match (self.stage, event) {
            (Stage::ChainInfo, Event::ChainInfo(info)) => self.at(
                if rpc::downloading(info) {
                    Stage::Address
                } else {
                    directory_stage(self.conf)
                },
            ),
            (Stage::Address, Event::Address(address)) => self.at(Stage::Block { address }),
            (Stage::Block { address }, Event::BlockGenerated) => self.at(
                directory_stage(self.conf),
            ),
            (Stage::TempRoot, Event::TempRoot(EnvVar::Value(root))) => self.at(
                Stage::Directory { place: Place::TemporaryInRoot(root) },
            ),
            (Stage::TempRoot, Event::TempRoot(_)) => self.at(
                Stage::Directory { place: Place::TemporaryDefault },
            ),
            (
                Stage::Directory { place: Place::Persistent(path) },
                Event::PersistentDirectory,
            ) => self.at(Stage::Bitcoind { work_dir: DataDir::Persistent(path) }),
            (Stage::Directory { place }, Event::TemporaryDirectory(path)) => self.at(
                Stage::Bitcoind { work_dir: DataDir::Temporary(path) },
            ),
            (Stage::Bitcoind { work_dir }, Event::Bitcoind(bitcoind)) => self.at(
                Stage::ListenPort { work_dir, bitcoind },
            ),
            (Stage::ListenPort { work_dir, bitcoind }, Event::Port(listen)) => self.at(
                Stage::GrpcPort { work_dir, bitcoind, listen },
            ),
            (Stage::GrpcPort { work_dir, bitcoind, listen }, Event::Port(grpc)) => self.at(
                Stage::RestPort { work_dir, bitcoind, listen, grpc },
            ),
            (Stage::RestPort { work_dir, bitcoind, listen, grpc }, Event::Port(rest)) => self.at(
                Stage::Process { work_dir, bitcoind, ports: Ports { listen, grpc, rest } },
            ),
            (Stage::Process { work_dir, bitcoind, ports }, Event::Spawned(process)) => self.at(
                Stage::Status { spawned: Spawned { work_dir, ports, process } },
            ),
            (Stage::Process { work_dir, bitcoind, ports }, Event::Failed) => self.at(
                Stage::Failed { failure: Failure::NotExecuted },
            ),
            (Stage::Status { spawned }, Event::Exited(status)) => self.after_exit(status),
            (Stage::Status { spawned }, Event::Running) => self.at(Stage::Client { spawned }),
            (Stage::Client { spawned }, Event::NotConnected) => self.at(Stage::Pause { spawned }),
            (Stage::Pause { spawned }, Event::Waited) => self.at(Stage::Status { spawned }),
            (Stage::Client { spawned }, Event::Connected) => self.at(Stage::Cert { spawned }),
            (Stage::Cert { spawned }, Event::FileRead(cert)) => self.at(
                Stage::Macaroon { spawned, cert },
            ),
            (Stage::Macaroon { spawned, cert }, Event::FileRead(macaroon)) => self.at(
                Stage::WarmUp { spawned, cert, macaroon },
            ),
            (Stage::WarmUp { spawned, cert, macaroon }, Event::Waited) => self.at(
                Stage::Ready { spawned, cert, macaroon },
            ),
            _ => self.at(Stage::Failed { failure: Failure::Outside }),
        }
    }

    /// The certificate file of a process.
    pub open spec fn cert_path(self, spawned: Spawned) -> PathBuf {
        paths::joined_path(spawned.work_dir.location(), args::cert_file())
    }

    /// The macaroon file of a process.
    pub open spec fn macaroon_path(self, spawned: Spawned) -> PathBuf {
        paths::joined_path(
            spawned.work_dir.location(),
            args::macaroon_file(self.conf.network@),
        )
    }

    /// The macaroon file of a process.
    fn find_macaroon(&self, spawned: &Spawned) -> (path: PathBuf)
        ensures
            path == self.macaroon_path(*spawned),
    {
        paths::join(
            &spawned.work_dir.path(),
            args::make_macaroon_file(self.conf.network).as_str(),
        )
    }

    /// Whether `action` is what the launch calls for.
    pub open spec fn calls_for(self, action: Action) -> bool {
        match self.stage {
            Stage::ChainInfo => action matches Action::AskChainInfo { method } && method@
                == "getblockchaininfo"@,
            Stage::Address => action matches Action::AskAddress { method } && method@
                == "getnewaddress"@,
            Stage::Block { address } => {
                &&& action matches Action::Generate { method, blocks, address: to }
                &&& method@ == "generatetoaddress"@
                &&& blocks == 1
                &&& *to == address
            },
            Stage::TempRoot => action matches Action::ReadVariable { variable } && variable@
                == "TEMPDIR_ROOT"@,
            Stage::Directory { place } => action matches Action::CreateDirectory { place: wanted }
                && *wanted == place,
            Stage::Bitcoind { work_dir } => action is DescribeBitcoind,
            Stage::ListenPort { work_dir, bitcoind } => action is PickPort,
            Stage::GrpcPort { work_dir, bitcoind, listen } => action is PickPort,
            Stage::RestPort { work_dir, bitcoind, listen, grpc } => action is PickPort,
            Stage::Process { work_dir, bitcoind, ports } => {
                &&& action matches Action::Spawn { args, view_stderr }
                &&& args::texts(args@) == args::lnd_args(
                    self.conf,
                    paths::path_text(work_dir.location()),
                    bitcoind,
                    self.zmq,
                    ports,
                )
                &&& view_stderr == self.conf.view_stderr
            },
            Stage::Status { spawned } => action is CheckProcess,
            Stage::Client { spawned } => {
                &&& action matches Action::Connect { url, cert_file, macaroon_file }
                &&& url@ == args::https_url(spawned.ports.grpc)
                &&& cert_file == self.cert_path(spawned)
                &&& macaroon_file == self.macaroon_path(spawned)
            },
            Stage::Pause { spawned } => action == (Action::Pause { millis: 500 }),
            Stage::Cert { spawned } => action matches Action::ReadFile { path } && path
                == self.cert_path(spawned),
            Stage::Macaroon { spawned, cert } => action matches Action::ReadFile { path } && path
                == self.macaroon_path(spawned),
            Stage::WarmUp { spawned, cert, macaroon } => action == (Action::WarmUp { seconds: 5 }),
            Stage::Ready { spawned, cert, macaroon } => action is Finish,
            Stage::Failed { failure } => {
                &&& action matches Action::Fail { failure: why, contexts }
                &&& why == failure
                &&& args::texts(contexts@) == retry_contexts(self.conf.attempts, self.attempts)
            },
        }
    }

    /// What has to be done next.
    pub fn action(&self) -> (action: Action<'_>)
        requires
            self.wf(),
        ensures
            self.calls_for(action),
    {
        match &self.stage {
            Stage::ChainInfo => Action::AskChainInfo { method: "getblockchaininfo" },
            // bitcoind remains in initial block download if it doesn't see a block for a long
            // time, thus adding a block
            Stage::Address => Action::AskAddress { method: "getnewaddress" },
            Stage::Block { address } => Action::Generate {
                method: "generatetoaddress",
                blocks: 1,
                address,
            },
            Stage::TempRoot => Action::ReadVariable { variable: "TEMPDIR_ROOT" },
            Stage::Directory { place } => Action::CreateDirectory { place },
            Stage::Bitcoind { .. } => Action::DescribeBitcoind,
            Stage::ListenPort { .. } => Action::PickPort,
            Stage::GrpcPort { .. } => Action::PickPort,
            Stage::RestPort { .. } => Action::PickPort,
            Stage::Process { work_dir, bitcoind, ports } => Action::Spawn {
                args: args::make_args(
                    &self.conf,
                    paths::display(&work_dir.path()).as_str(),
                    bitcoind,
                    self.zmq,
                    *ports,
                ),
                view_stderr: self.conf.view_stderr,
            },
            Stage::Status { .. } => Action::CheckProcess,
            Stage::Client { spawned } => Action::Connect {
                url: args::make_https_url(spawned.ports.grpc),
                cert_file: paths::join(&spawned.work_dir.path(), "tls.cert"),
                macaroon_file: self.find_macaroon(spawned),
            },
            Stage::Pause { .. } => Action::Pause { millis: 500 },
            Stage::Cert { spawned } => Action::ReadFile {
                path: paths::join(&spawned.work_dir.path(), "tls.cert"),
            },
            Stage::Macaroon { spawned, .. } => Action::ReadFile {
                path: self.find_macaroon(spawned),
            },
            // The gRPC server needs to warm up.
            Stage::WarmUp { .. } => Action::WarmUp { seconds: 5 },
            Stage::Ready { .. } => Action::Finish,
            Stage::Failed { failure } => Action::Fail {
                failure: *failure,
                contexts: make_contexts(self.conf.attempts, self.attempts),
            },
        }
    }

    /// The launch after an event, which came of the action that it called for.
    pub fn step(self, event: Event) -> (launch: Launch<'a>)
        requires
            self.wf(),
            self.accepts(event),
        ensures
            launch == self.after(event),
            launch.wf(),
    {
        let Launch { conf, zmq, attempts, stage } = self;
        let mut left: u8 = attempts;
        let next = match (stage, event) {
            (Stage::ChainInfo, Event::ChainInfo(info)) => {
                if rpc::in_initial_block_download(&info) {
                    Stage::Address
                } else {
                    choose_directory(&conf)
                }
            },
            (Stage::Address, Event::Address(address)) => Stage::Block { address },
            (Stage::Block { .. }, Event::BlockGenerated) => choose_directory(&conf),
            (Stage::TempRoot, Event::TempRoot(EnvVar::Value(root))) => Stage::Directory {
                place: Place::TemporaryInRoot(root),
            },
            (Stage::TempRoot, Event::TempRoot(_)) => Stage::Directory {
                place: Place::TemporaryDefault,
            },
            (Stage::Directory { place: Place::Persistent(path) }, Event::PersistentDirectory) =>
                Stage::Bitcoind { work_dir: DataDir::Persistent(path) },
            (Stage::Directory { .. }, Event::TemporaryDirectory(path)) => Stage::Bitcoind {
                work_dir: DataDir::Temporary(path),
            },
            (Stage::Bitcoind { work_dir }, Event::Bitcoind(bitcoind)) => Stage::ListenPort {
                work_dir,
                bitcoind,
            },
            (Stage::ListenPort { work_dir, bitcoind }, Event::Port(listen)) => Stage::GrpcPort {
                work_dir,
                bitcoind,
                listen,
            },
            (Stage::GrpcPort { work_dir, bitcoind, listen }, Event::Port(grpc)) =>
                Stage::RestPort { work_dir, bitcoind, listen, grpc },
            (Stage::RestPort { work_dir, bitcoind, listen, grpc }, Event::Port(rest)) =>
                Stage::Process { work_dir, bitcoind, ports: Ports { listen, grpc, rest } },
            (Stage::Process { work_dir, ports, .. }, Event::Spawned(process)) => Stage::Status {
                spawned: Spawned { work_dir, ports, process },
            },
            (Stage::Process { .. }, Event::Failed) => Stage::Failed {
                failure: Failure::NotExecuted,
            },
            (Stage::Status { .. }, Event::Exited(status)) => {
                if attempts > 1 {
                    left = attempts - 1;
                    Stage::ChainInfo
                } else {
                    Stage::Failed { failure: Failure::Refused(Error::EarlyExit(status)) }
                }
            },
            (Stage::Status { spawned }, Event::Running) => Stage::Client { spawned },
            (Stage::Client { spawned }, Event::NotConnected) => Stage::Pause { spawned },
            (Stage::Pause { spawned }, Event::Waited) => Stage::Status { spawned },
            (Stage::Client { spawned }, Event::Connected) => Stage::Cert { spawned },
            (Stage::Cert { spawned }, Event::FileRead(cert)) => Stage::Macaroon { spawned, cert },
            (Stage::Macaroon { spawned, cert }, Event::FileRead(macaroon)) => Stage::WarmUp {
                spawned,
                cert,
                macaroon,
            },
            (Stage::WarmUp { spawned, cert, macaroon }, Event::Waited) => Stage::Ready {
                spawned,
                cert,
                macaroon,
            },
            _ => Stage::Failed { failure: Failure::Outside },
        };
        Launch { conf, zmq, attempts: left, stage: next }
    }

    /// Whether `node` is what a launch comes to that spawned this process and read these files.
    pub open spec fn yields(spawned: Spawned, cert: Seq<u8>, macaroon: Seq<u8>, node: Lnd) -> bool {
        &&& node.process == spawned.process
        &&& node.work_dir == spawned.work_dir
        &&& node.grpc_url@ == args::https_url(spawned.ports.grpc)
        &&& node.rest_url@ == args::https_url(spawned.ports.rest)
        &&& node.listen_url matches Some(url) && url@ == args::peer_url(spawned.ports.listen)
        &&& node.admin_macaroon@ == text::hex_text(macaroon)
        &&& node.tls_cert@ == text::hex_text(cert)
    }

    /// The node, once it is up.
    pub fn finish(self) -> (node: Option<Lnd>)
        requires
            self.wf(),
        ensures
            match self.stage {
                Stage::Ready { spawned, cert, macaroon } => node matches Some(lnd) && Self::yields(
                    spawned,
                    cert@,
                    macaroon@,
                    lnd,
                ),
                _ => node is None,
            },
    {
        match self.stage {
            Stage::Ready { spawned, cert, macaroon } => Some(
                Lnd {
                    process: spawned.process,
                    work_dir: spawned.work_dir,
                    grpc_url: args::make_https_url(spawned.ports.grpc),
                    rest_url: args::make_https_url(spawned.ports.rest),
                    listen_url: Some(args::make_peer_url(spawned.ports.listen)),
                    admin_macaroon: text::hex_encode(macaroon.as_slice()),
                    tls_cert: text::hex_encode(cert.as_slice()),
                },
            ),
            _ => None,
        }
    }
}

} // verus!
