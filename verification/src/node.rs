//! A running lnd process.
use crate::args::ZmqPorts;
use crate::conf::Conf;
use crate::launch::Launch;
use crate::launch::Stage;
use std::path::PathBuf;
use vstd::prelude::*;

verus! {

/// The kind of data directory lnd uses: it can be either persistent, or temporary.
#[derive(Debug, PartialEq, Eq)]
pub enum DataDir {
    /// Persistent data directory.
    Persistent(PathBuf),
    /// Temporary data directory, removed when the node is gone.
    Temporary(PathBuf),
}

impl DataDir {
    /// The path of the data directory.
    pub open spec fn location(self) -> PathBuf {
        match self {
            DataDir::Persistent(path) => path,
            DataDir::Temporary(path) => path,
        }
    }

    /// Return the data directory path
    pub fn path(&self) -> (path: PathBuf)
        ensures
            path == self.location(),
    {
        match self {
            DataDir::Persistent(path) => path.clone(),
            DataDir::Temporary(path) => path.clone(),
        }
    }
}

/// The signals that an lnd process is sent.
#[derive(Debug, Clone, Copy, PartialEq, Eq, Structural)]
pub enum Signal {
    /// `SIGUSR1`
    Usr1,
    /// `SIGINT`
    Int,
}

/// A signal and the process that it is meant for.
#[derive(Debug, Clone, Copy, PartialEq, Eq, Structural)]
pub struct SignalRequest {
    /// Process identifier, as the system call takes it.
    pub pid: i32,
    /// What to send.
    pub signal: Signal,
}

/// The number that the bits of an unsigned process identifier stand for when it is signed.
pub open spec fn signed_pid(process: u32) -> int {
    if process <= i32::MAX {
        process as int
    } else {
        process - 0x1_0000_0000
    }
}

/// `signal` for `process`.
fn signal_request(process: u32, signal: Signal) -> (request: SignalRequest)
    ensures
        request.pid == signed_pid(process),
        request.signal == signal,
{
    assert(process <= 0x7fff_ffff ==> process as i32 == process) by (bit_vector);
    assert(process > 0x7fff_ffff ==> process as i32 == process - 0x1_0000_0000) by (bit_vector);
    SignalRequest { pid: process as i32, signal }
}

/// A step of terminating an lnd process.
#[derive(Debug, Clone, Copy, PartialEq, Eq, Structural)]
pub enum KillStep {
    /// Send this signal, which asks lnd to shut down.
    Interrupt(SignalRequest),
    /// Wait for the process to exit.
    AwaitExit,
    /// Kill the process outright.
    Terminate,
    /// The process is terminated.
    Finished,
    /// The last step failed; its error is the outcome.
    Failed,
}

impl KillStep {
    /// What follows a step that succeeded or not.
    pub open spec fn following(self, succeeded: bool) -> KillStep {
        match self {
            KillStep::Interrupt(_) if succeeded => KillStep::AwaitExit,
            KillStep::AwaitExit if succeeded => KillStep::Finished,
            KillStep::Terminate if succeeded => KillStep::Finished,
            KillStep::Finished => KillStep::Finished,
            _ => KillStep::Failed,
        }
    }

    /// What follows a step that succeeded or not.
    pub fn next(self, succeeded: bool) -> (step: KillStep)
        ensures
            step == self.following(succeeded),
    {
        match self {
            KillStep::Interrupt(_) if succeeded => KillStep::AwaitExit,
            KillStep::AwaitExit if succeeded => KillStep::Finished,
            KillStep::Terminate if succeeded => KillStep::Finished,
            KillStep::Finished => KillStep::Finished,
            _ => KillStep::Failed,
        }
    }
}

/// Struct representing the lnd process with related information
#[derive(Debug, PartialEq, Eq)]
pub struct Lnd {
    /// Identifier of the process, used to terminate it
    pub process: u32,
    /// Work directory, where lnd stores its database and other stuff.
    pub work_dir: DataDir,
    /// Url to connect to the gRPC server
    pub grpc_url: String,
    /// Url to connect to the REST server
    pub rest_url: String,
    /// Url to connect to p2p network
    pub listen_url: Option<String>,
    /// Admin macaroon hex
    pub admin_macaroon: String,
    /// TLS Cert hex
    pub tls_cert: String,
}

impl Lnd {
    /// Start to create a new lnd process connected with the given bitcoind and default args.
    pub fn new<'a>(raw_block_port: u16, raw_tx_port: u16) -> (launch: Launch<'a>)
        ensures
            launch.conf.is_default(),
            launch == Launch::start(
                launch.conf,
                ZmqPorts { raw_block: raw_block_port, raw_tx: raw_tx_port },
            ),
    {
        Lnd::with_conf(Conf::default(), raw_block_port, raw_tx_port)
    }

    /// Start to create a new lnd process using given [Conf] connected with the given bitcoind
    pub fn with_conf<'a>(conf: Conf<'a>, raw_block_port: u16, raw_tx_port: u16) -> (launch: Launch<
        'a,
    >)
        ensures
            launch == Launch::start(
                conf,
                ZmqPorts { raw_block: raw_block_port, raw_tx: raw_tx_port },
            ),
    {
        let attempts: u8 = conf.attempts;
        Launch {
            conf,
            zmq: ZmqPorts { raw_block: raw_block_port, raw_tx: raw_tx_port },
            attempts,
            stage: Stage::ChainInfo,
        }
    }

    /// triggers a sync by sending the `SIGUSR1` signal, useful to call after a block for example
    pub fn trigger(&self) -> (request: SignalRequest)
        ensures
            request.pid == signed_pid(self.process),
            request.signal == Signal::Usr1,
    {
        signal_request(self.process, Signal::Usr1)
    }

    /// Return the current workdir path of the running lnd
    pub fn workdir(&self) -> (path: PathBuf)
        ensures
            path == self.work_dir.location(),
    {
        self.work_dir.path()
    }

    /// terminate the lnd process: a node with a persistent directory is asked to shut down, and
    /// waited for, one with a temporary directory is killed outright
    pub fn kill(&self) -> (step: KillStep)
        ensures
            match self.work_dir {
                DataDir::Persistent(_) => {
                    &&& step matches KillStep::Interrupt(request)
                    &&& request.pid == signed_pid(self.process)
                    &&& request.signal == Signal::Int
                },
                DataDir::Temporary(_) => step == KillStep::Terminate,
            },
    {
        match &self.work_dir {
            DataDir::Persistent(_) => KillStep::Interrupt(
                signal_request(self.process, Signal::Int),
            ),
            DataDir::Temporary(_) => KillStep::Terminate,
        }
    }
}

} // verus!
