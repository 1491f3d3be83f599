//! File system paths, which the library carries from the configuration to whoever creates
//! directories, and writes into the arguments of lnd.
use std::path::PathBuf;
use vstd::prelude::*;

verus! {

/// `std::path::PathBuf`: a path, of which the library knows only how it is displayed.
#[verifier::external_type_specification]
#[verifier::external_body]
pub struct ExPathBuf(PathBuf);

/// `PathBuf::clone` returns a duplicate of the path.
pub assume_specification[ <PathBuf as Clone>::clone ](path: &PathBuf) -> (copy: PathBuf)
    ensures
        copy == *path,
;

/// The text that `std::path::Path::display` writes for a path.
pub uninterp spec fn path_text(path: PathBuf) -> Seq<char>;

/// Writes a path with `std::path::Path::display`. Nothing is said of the text but that the path
/// alone decides it: a path that is not Unicode may be displayed lossily.
#[verifier::external_body]
pub(crate) fn display(path: &PathBuf) -> (text: String)
    ensures
        text@ == path_text(*path),
{
    path.display().to_string()
}

/// The path that `std::path::Path::join` makes of a path and a name adjoined to it.
pub uninterp spec fn joined_path(path: PathBuf, name: Seq<char>) -> PathBuf;

/// Adjoins a name to a path with `std::path::Path::join`. Nothing is said of the result but that
/// the path and the name alone decide it: what separates them depends on how the path ends.
#[verifier::external_body]
pub(crate) fn join(path: &PathBuf, name: &str) -> (joined: PathBuf)
    ensures
        joined == joined_path(*path, name@),
{
    path.join(name)
}

} // verus!
