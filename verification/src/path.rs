//! File-system paths as the editing core sees them.
//!
//! A path is carried through the model as an opaque value of
//! `std::path::PathBuf`. Nothing here is proved: each item states what the
//! standard library is taken to do.

use std::path::PathBuf;
use vstd::prelude::*;

verus! {

/// `std::path::PathBuf`. Verus sees nothing inside a value of it.
#[verifier::external_type_specification]
#[verifier::external_body]
pub struct ExPathBuf(PathBuf);

/// `PathBuf::clone` returns a path equal to the one it was called on.
pub assume_specification[ <PathBuf as Clone>::clone ](path: &PathBuf) -> (copy: PathBuf)
    ensures
        copy == *path,
;

/// What `Path::file_name` finds in `path`, read as text: `None` where the path
/// has no final component, `Some(None)` where it has one that is not valid
/// Unicode, and otherwise the final component.
pub uninterp spec fn path_file_name(path: PathBuf) -> Option<Option<Seq<char>>>;

/// `Path::file_name`, with the component it returns, an `OsStr`, converted by
/// `OsStr::to_str`. The result is taken to depend on the path alone.
#[verifier::external_body]
pub(crate) fn file_name(path: &PathBuf) -> (name: Option<Option<String>>)
    ensures
        name.deep_view() == path_file_name(*path),
{
    path.file_name().map(|component| component.to_str().map(|text| text.to_string()))
}

/// What `Path::to_str` makes of `path`: its text where the whole path is valid
/// Unicode, and nothing otherwise.
pub uninterp spec fn path_to_str(path: PathBuf) -> Option<Seq<char>>;

/// `Path::to_str`, with the text copied into a `String`. The result is taken to
/// depend on the path alone.
#[verifier::external_body]
pub(crate) fn to_str(path: &PathBuf) -> (text: Option<String>)
    ensures
        text.deep_view() == path_to_str(*path),
{
    path.to_str().map(|text| text.to_string())
}

} // verus!
