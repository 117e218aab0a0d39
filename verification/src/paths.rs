//! Paths, and the failure of looking for one that is not there.

use std::path::PathBuf;

use vstd::prelude::*;

verus! {

/// `std::path::PathBuf`, an owned path.
#[verifier::external_type_specification]
#[verifier::external_body]
pub struct ExPathBuf(std::path::PathBuf);

/// `std::io::Error`, a failure of input or output.
#[verifier::external_type_specification]
#[verifier::external_body]
pub struct ExIoError(std::io::Error);

/// The path that a text is converted to.
pub uninterp spec fn path_from(text: Seq<char>) -> PathBuf;

/// A path as it is shown to a reader.
pub uninterp spec fn path_shown(path: PathBuf) -> Seq<char>;

/// Whether an input or output failure is that something was not found.
pub uninterp spec fn is_not_found(error: std::io::Error) -> bool;

/// `PathBuf::from` on a `String`: the path depends on the text alone, and is
/// shown as that text.
pub assume_specification[ <PathBuf as From<String>>::from ](text: String) -> (path: PathBuf)
    ensures
        path == path_from(text@),
        path_shown(path) == text@,
;

/// `PathBuf::clone`: the same path.
pub assume_specification[ <PathBuf as Clone>::clone ](path: &PathBuf) -> (copy: PathBuf)
    ensures
        copy == *path,
;

/// `Path::display`, through `to_string`: the path as it is shown to a reader.
/// Parts of it that are not Unicode are replaced, in a way that is left unsaid.
#[verifier::external_body]
pub(crate) fn show_path(path: &PathBuf) -> (text: String)
    ensures
        text@ == path_shown(*path),
{
    path.display().to_string()
}

/// `std::io::Error::from` on `std::io::ErrorKind::NotFound`.
#[verifier::external_body]
pub(crate) fn not_found() -> (error: std::io::Error)
    ensures
        is_not_found(error),
{
    std::io::Error::from(std::io::ErrorKind::NotFound)
}

} // verus!
