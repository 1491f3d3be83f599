//! Configuration of an lnd process.
use std::path::PathBuf;
use vstd::prelude::*;

verus! {

/// Lnd configuration parameters, implements a convenient [Default] for most common use.
///
/// Default values: no arguments, `view_stderr` off, network `regtest`, no `tmpdir`, no
/// `staticdir`, no `minchansize` and no `maxchansize`.
#[derive(Debug, PartialEq, Eq, Clone)]
#[non_exhaustive]
pub struct Conf<'a> {
    /// Lnd command line arguments, handed to the process before those that the library adds.
    pub args: Vec<&'a str>,
    /// If `true` the error output of lnd will not be suppressed.
    pub view_stderr: bool,
    /// Must match the bitcoind network.
    pub network: &'a str,
    /// Temporary directory path.
    ///
    /// - `tmpdir` and `staticdir` both given: an error, they cannot be enabled at the same time.
    /// - only `tmpdir` given: a temporary directory is created at this path.
    /// - only `staticdir` given: a persistent directory is created at that path.
    /// - neither given: a temporary directory is created in the path that the `TEMPDIR_ROOT`
    ///   environment variable holds, if it is set and is Unicode, or else in the default temporary directory of the system.
    pub tmpdir: Option<PathBuf>,
    /// Persistent directory path.
    pub staticdir: Option<PathBuf>,
    /// Try to spawn the process `attempts` times, where it exits early each time; zero is taken
    /// as one.
    ///
    /// The system gives out available ports, however, they aren't booked, so it could rarely
    /// happen they are used at the time the process is spawned. When retrying other available
    /// ports are returned reducing the probability of conflicts to negligible.
    pub attempts: u8,
    /// The customary p2p port of lnd; the port that lnd listens on is asked of the system instead.
    pub listen_port: u16,
    /// Smallest channel size; no argument is made of it.
    pub minchansize: Option<u64>,
    /// Largest channel size; no argument is made of it.
    pub maxchansize: Option<u64>,
}

impl<'a> Conf<'a> {
    /// The user's arguments as text.
    pub open spec fn arg_texts(&self) -> Seq<Seq<char>> {
        self.args@.map_values(|arg: &'a str| arg@)
    }

    /// Whether every parameter has its default value.
    pub open spec fn is_default(&self) -> bool {
        &&& self.args@.len() == 0
        &&& !self.view_stderr
        &&& self.network@ == "regtest"@
        &&& self.tmpdir is None
        &&& self.staticdir is None
        &&& self.attempts == 3
        &&& self.listen_port == 9735
        &&& self.minchansize is None
        &&& self.maxchansize is None
    }
}

impl Default for Conf<'_> {
    fn default() -> (conf: Self)
        ensures
            conf.is_default(),
    {
        Conf {
            args: Vec::new(),
            view_stderr: false,
            network: "regtest",
            tmpdir: None,
            staticdir: None,
            attempts: 3,
            listen_port: 9735,
            minchansize: None,
            maxchansize: None,
        }
    }
}

} // verus!
