//! What can go wrong in the library itself.
use vstd::prelude::*;

verus! {

/// The errors of this library.
#[derive(Debug, Clone, Copy, PartialEq, Eq, Structural)]
pub enum Error {
    /// Both `LND_EXEC` and `LND_EXE` are set.
    BothEnvVars,
    /// Both `tmpdir` and `staticdir` are given in [`crate::Conf`].
    BothDirsSpecified,
    /// The process exited, with this wait status, before a client could connect to it, and no
    /// attempt is left.
    EarlyExit(i32),
    /// No executable is named by the environment, downloaded, or found in the `PATH`.
    NoElectrsExecutableFound,
}

} // verus!
