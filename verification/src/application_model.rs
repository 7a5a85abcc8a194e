//! The editor's state and the single function that changes it.
//!
//! Every change to the document goes through `ApplicationModel::update`. It
//! never waits: where an action needs storage, it hands back a `Task` for a
//! background worker, and the worker's report comes back as another action.

use crate::actions::{Action, ErrorKind};
use crate::document::{Document, DocumentView};
use std::path::PathBuf;
use vstd::prelude::*;

verus! {

/// What the status line has to say.
#[derive(Debug)]
pub enum StatusMessage {
    /// Nothing to report.
    Idle,
    /// A read is under way, or a new document was started.
    OpeningFile,
    /// A write is under way.
    SavingFile,
    /// The last write ended, well or not.
    FileSaveFinished(Result<(), ErrorKind>),
    /// The last read ended, well or not.
    FileOpenFinished(Result<(), ErrorKind>),
}

impl Default for StatusMessage {
    fn default() -> (status: StatusMessage)
        ensures
            status == StatusMessage::Idle,
    {
        StatusMessage::Idle
    }
}

impl Clone for StatusMessage {
    fn clone(&self) -> (copy: StatusMessage)
        ensures
            copy == *self,
    {
        match self {
            StatusMessage::Idle => StatusMessage::Idle,
            StatusMessage::OpeningFile => StatusMessage::OpeningFile,
            StatusMessage::SavingFile => StatusMessage::SavingFile,
            StatusMessage::FileSaveFinished(result) => StatusMessage::FileSaveFinished(
                clone_result(result),
            ),
            StatusMessage::FileOpenFinished(result) => StatusMessage::FileOpenFinished(
                clone_result(result),
            ),
        }
    }
}

/// A copy of the outcome of a file operation.
fn clone_result(result: &Result<(), ErrorKind>) -> (copy: Result<(), ErrorKind>)
    ensures
        copy == *result,
{
    match result {
        Ok(done) => Ok(*done),
        Err(e) => Err(e.clone()),
    }
}

/// Which facets of the model an action changed.
#[derive(Debug)]
pub struct Changes {
    pub filename: bool,
    pub text: bool,
    pub status_message: bool,
}

impl Default for Changes {
    fn default() -> (changes: Changes)
        ensures
            changes == (Changes { filename: false, text: false, status_message: false }),
    {
        Changes { filename: false, text: false, status_message: false }
    }
}

impl Clone for Changes {
    fn clone(&self) -> (copy: Changes)
        ensures
            copy == *self,
    {
        Changes { filename: self.filename, text: self.text, status_message: self.status_message }
    }
}

impl Changes {
    /// The changes with the given flags.
    pub fn new(filename: bool, text: bool, status_message: bool) -> (changes: Changes)
        ensures
            changes == (Changes { filename, text, status_message }),
    {
        Self { filename, text, status_message }
    }
}

/// Work on storage that an action asks a background worker to do.
#[derive(Debug)]
pub enum Task {
    /// Read the file at the path.
    Read(PathBuf),
    /// Write the text to the file at the path.
    Write(PathBuf, String),
}

/// A task as a mathematical value.
pub enum TaskView {
    Read(PathBuf),
    Write(PathBuf, Seq<char>),
}

impl View for Task {
    type V = TaskView;

    open spec fn view(&self) -> TaskView {
        match *self {
            Task::Read(path) => TaskView::Read(path),
            Task::Write(path, contents) => TaskView::Write(path, contents@),
        }
    }
}

/// The model as a mathematical value.
pub struct ModelView {
    pub document: DocumentView,
    pub status_message: StatusMessage,
}

impl ModelView {
    /// The document is well formed.
    pub open spec fn wf(self) -> bool {
        self.document.wf()
    }

    /// The model of a freshly started editor.
    pub open spec fn initial() -> ModelView {
        ModelView { document: DocumentView::empty(), status_message: StatusMessage::Idle }
    }

    /// The model after `action`.
    pub open spec fn step(self, action: Action) -> ModelView {
        match action {
            Action::OpenFile(Some(_)) => ModelView {
                status_message: StatusMessage::OpeningFile,
                ..self
            },
            Action::OpenFile(None) => ModelView {
                document: DocumentView::empty(),
                status_message: StatusMessage::OpeningFile,
            },
            Action::SaveFile(_) => ModelView { status_message: StatusMessage::SavingFile, ..self },
            Action::DocumentChanged(value) => ModelView {
                document: self.document.update(value@),
                ..self
            },
            Action::FileOpenFinished(Ok((path, contents))) => ModelView {
                document: self.document.open(path, contents@),
                status_message: StatusMessage::FileOpenFinished(Ok(())),
            },
            Action::FileSaveFinished(Ok((path, contents))) => ModelView {
                document: self.document.save(path, contents@),
                status_message: StatusMessage::FileSaveFinished(Ok(())),
            },
            Action::FileOpenFinished(Err(e)) => ModelView {
                status_message: StatusMessage::FileOpenFinished(Err(e)),
                ..self
            },
            Action::FileSaveFinished(Err(e)) => ModelView {
                status_message: StatusMessage::FileSaveFinished(Err(e)),
                ..self
            },
        }
    }

    /// The work on storage that `action` starts: a read for an open request
    /// with a path, and for a save request a write of the text that is visible
    /// when the request is processed.
    pub open spec fn task(self, action: Action) -> Option<TaskView> {
        match action {
            Action::OpenFile(Some(path)) => Some(TaskView::Read(path)),
            Action::SaveFile(path) => Some(TaskView::Write(path, self.document.text())),
            _ => None,
        }
    }
}

/// The facets that `action` changes.
pub open spec fn changes(action: Action) -> Changes {
    match action {
        Action::DocumentChanged(_) => Changes { filename: false, text: false, status_message: false },
        Action::FileOpenFinished(Ok(_)) => Changes { filename: true, text: true, status_message: true },
        Action::FileSaveFinished(Ok(_)) => Changes { filename: true, text: false, status_message: true },
        _ => Changes { filename: false, text: false, status_message: true },
    }
}

/// The editor's state: the document and the status line.
#[derive(Debug)]
pub struct ApplicationModel {
    document: Document,
    status_message: StatusMessage,
}

impl View for ApplicationModel {
    type V = ModelView;

    closed spec fn view(&self) -> ModelView {
        ModelView { document: self.document@, status_message: self.status_message }
    }
}

impl Default for ApplicationModel {
    fn default() -> (model: ApplicationModel)
        ensures
            model@ == ModelView::initial(),
    {
        ApplicationModel::new()
    }
}

impl Clone for ApplicationModel {
    fn clone(&self) -> (copy: ApplicationModel)
        ensures
            copy@ == self@,
    {
        Self { document: self.document.clone(), status_message: self.status_message.clone() }
    }
}

impl ApplicationModel {
    /// The model of a freshly started editor: an empty document, nothing to
    /// report.
    pub fn new() -> (model: ApplicationModel)
        ensures
            model@ == ModelView::initial(),
    {
        Self { document: Document::default(), status_message: StatusMessage::default() }
    }

    /// What the status line has to say.
    pub fn status_message(&self) -> (status: &StatusMessage)
        ensures
            *status == self@.status_message,
    {
        &self.status_message
    }

    /// The document.
    pub fn document(&self) -> (document: &Document)
        ensures
            document@ == self@.document,
    {
        &self.document
    }

    /// Applies `action` to the model. Returns the facets that changed and the
    /// work on storage, if any, that the caller has to start.
    pub fn update(&mut self, action: Action) -> (outcome: (Changes, Option<Task>))
        ensures
            final(self)@ == old(self)@.step(action),
            final(self)@.wf(),
            outcome.0 == changes(action),
            outcome.1.is_some() == old(self)@.task(action).is_some(),
            outcome.1 matches Some(task) ==> task@ == old(self)@.task(action).unwrap(),
    {
        proof {
            use_type_invariant(&self.document);
        }
        match action {
            Action::OpenFile(Some(path)) => {
                self.status_message = StatusMessage::OpeningFile;
                (Changes::new(false, false, true), Some(Task::Read(path)))
            },
            Action::OpenFile(None) => {
                self.document.reset();
                self.status_message = StatusMessage::OpeningFile;
                (Changes::new(false, false, true), None)
            },
            Action::SaveFile(path) => {
                let contents = self.document.text().clone();
                self.status_message = StatusMessage::SavingFile;
                (Changes::new(false, false, true), Some(Task::Write(path, contents)))
            },
            Action::DocumentChanged(value) => {
                self.document.update(value.as_str());
                (Changes::new(false, false, false), None)
            },
            Action::FileOpenFinished(Ok((path, contents))) => {
                self.document.open(path, contents);
                self.status_message = StatusMessage::FileOpenFinished(Ok(()));
                (Changes::new(true, true, true), None)
            },
            Action::FileSaveFinished(Ok((path, contents))) => {
                self.document.save(path, contents);
                self.status_message = StatusMessage::FileSaveFinished(Ok(()));
                (Changes::new(true, false, true), None)
            },
            Action::FileOpenFinished(Err(e)) => {
                self.status_message = StatusMessage::FileOpenFinished(Err(e));
                (Changes::new(false, false, true), None)
            },
            Action::FileSaveFinished(Err(e)) => {
                self.status_message = StatusMessage::FileSaveFinished(Err(e));
                (Changes::new(false, false, true), None)
            },
        }
    }
}

/// The action by which a worker reports the end of a read of `path`:
/// `contents` is the text it read, or nothing if the read failed.
pub fn open_finished(path: PathBuf, contents: Option<String>) -> (action: Action)
    ensures
        action == match contents {
            Some(text) => Action::FileOpenFinished(Ok((path, text))),
            None => Action::FileOpenFinished(Err(ErrorKind::IOError())),
        },
{
    match contents {
        Some(text) => Action::FileOpenFinished(Ok((path, text))),
        None => Action::FileOpenFinished(Err(ErrorKind::IOError())),
    }
}

/// The action by which a worker reports the end of a write of `contents` to
/// `path`: `written` says whether the write succeeded.
pub fn save_finished(path: PathBuf, contents: String, written: bool) -> (action: Action)
    ensures
        action == if written {
            Action::FileSaveFinished(Ok((path, contents)))
        } else {
            Action::FileSaveFinished(Err(ErrorKind::IOError()))
        },
{
    if written {
        Action::FileSaveFinished(Ok((path, contents)))
    } else {
        Action::FileSaveFinished(Err(ErrorKind::IOError()))
    }
}

} // verus!
