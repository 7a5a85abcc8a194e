//! The actions that drive the editor model.

use std::path::PathBuf;
use vstd::prelude::*;

verus! {

/// Why a file operation did not complete.
#[derive(Debug)]
pub enum ErrorKind {
    /// Storage could not be read or written.
    IOError(),
    /// Anything else.
    UnknownError(),
}

impl Clone for ErrorKind {
    fn clone(&self) -> (copy: ErrorKind)
        ensures
            copy == *self,
    {
        match self {
            ErrorKind::IOError() => ErrorKind::IOError(),
            ErrorKind::UnknownError() => ErrorKind::UnknownError(),
        }
    }
}

/// What a finished file operation reports: the path and the text that was
/// read or written, or the reason for the failure.
pub type IOResult = Result<(PathBuf, String), ErrorKind>;

/// An event for the model to process.
pub enum Action {
    /// Open the file at the path, or start a new document.
    OpenFile(Option<PathBuf>),
    /// Save the visible text to the path.
    SaveFile(PathBuf),
    /// The editor's text is now this.
    DocumentChanged(String),
    /// A background read has ended.
    FileOpenFinished(IOResult),
    /// A background write has ended.
    FileSaveFinished(IOResult),
}

} // verus!
