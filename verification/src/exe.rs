//! Where the lnd executable is.
use crate::error::Error;
use crate::paths;
use std::path::PathBuf;
use vstd::prelude::*;

verus! {

/// An environment variable.
#[derive(Debug, PartialEq, Eq)]
pub enum EnvVar {
    /// It is not set.
    Absent,
    /// It is set, to something that is not Unicode.
    NotUnicode,
    /// It is set to this value.
    Value(String),
}

/// How the executable is to be had.
#[derive(Debug, PartialEq, Eq)]
pub enum ExeLookup {
    /// It is at this path.
    Found(String),
    /// An executable of this name is to be searched in the `PATH`; see [`searched_exe_path`].
    Search(&'static str),
}

/// Provide the lnd executable path if a version feature has been specified; there is no such
/// feature.
pub fn downloaded_exe_path() -> (path: Option<String>)
    ensures
        path is None,
{
    None
}

/// The names of the environment variables that [`exe_path`] goes by, in the order of its
/// arguments.
pub fn exe_variables() -> (names: (&'static str, &'static str))
    ensures
        names.0@ == "LND_EXEC"@,
        names.1@ == "LND_EXE"@,
{
    ("LND_EXEC", "LND_EXE")
}

/// Returns the daemon `lnd` executable with the following precedence:
///
/// 1) If it's specified in the `LND_EXEC` or in the `LND_EXE` env var, which are the arguments
///    in the order of [`exe_variables`] (errors if both env vars are present, Unicode or not)
/// 2) If there is no env var that is Unicode but a downloaded executable, returns the path of that
/// 3) If neither of the precedent are available, the `lnd` executable is searched in the `PATH`
pub fn exe_path(lnd_exec: EnvVar, lnd_exe: EnvVar) -> (lookup: Result<ExeLookup, Error>)
    ensures
        match (lnd_exec, lnd_exe) {
            (EnvVar::Value(path), EnvVar::Absent) => lookup == Ok::<ExeLookup, Error>(
                ExeLookup::Found(path),
            ),
            (EnvVar::Absent, EnvVar::Value(path)) => lookup == Ok::<ExeLookup, Error>(
                ExeLookup::Found(path),
            ),
            (EnvVar::Absent, _) => lookup matches Ok(ExeLookup::Search(name)) && name@ == "lnd"@,
            (_, EnvVar::Absent) => lookup matches Ok(ExeLookup::Search(name)) && name@ == "lnd"@,
            (_, _) => lookup == Err::<ExeLookup, Error>(Error::BothEnvVars),
        },
{
    match (lnd_exec, lnd_exe) {
        (EnvVar::Value(path), EnvVar::Absent) => Ok(ExeLookup::Found(path)),
        (EnvVar::Absent, EnvVar::Value(path)) => Ok(ExeLookup::Found(path)),
        (EnvVar::Absent, _) | (_, EnvVar::Absent) => match downloaded_exe_path() {
            Some(path) => Ok(ExeLookup::Found(path)),
            None => Ok(ExeLookup::Search("lnd")),
        },
        (_, _) => Err(Error::BothEnvVars),
    }
}

/// What a search in the `PATH` comes to, given the path that it found, if any.
pub fn searched_exe_path(found: Option<PathBuf>) -> (path: Result<String, Error>)
    ensures
        match found {
            Some(exe) => path matches Ok(text) && text@ == paths::path_text(exe),
            None => path == Err::<String, Error>(Error::NoElectrsExecutableFound),
        },
{
    match found {
        Some(exe) => Ok(paths::display(&exe)),
        None => Err(Error::NoElectrsExecutableFound),
    }
}

} // verus!
