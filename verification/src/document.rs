//! A text document with a bounded linear edit history.
//!
//! The document keeps the text that was last synchronised with storage (the
//! baseline) and, after it, the edits made since. A position says which of
//! these revisions is the visible one. The baseline is never evicted; once the
//! history is full, each new edit pushes the oldest edit out.

use crate::path::{file_name, path_file_name, path_to_str, to_str};
use std::path::PathBuf;
use vstd::prelude::*;

verus! {

/// The greatest number of revisions a document holds, the baseline included.
pub const MAX_UNDO: usize = 100;

/// A document as a mathematical value.
pub struct DocumentView {
    /// The revisions in order: the baseline first, then the edits, oldest first.
    pub snapshots: Seq<Seq<char>>,
    /// The index in `snapshots` of the visible revision.
    pub position: int,
    /// Where the document was last opened from or saved to.
    pub file_path: Option<PathBuf>,
}

impl DocumentView {
    /// The history is not empty, holds at most `MAX_UNDO` revisions, and the
    /// position points into it.
    pub open spec fn wf(self) -> bool {
        &&& 1 <= self.snapshots.len() <= MAX_UNDO
        &&& 0 <= self.position < self.snapshots.len()
    }

    /// The unsaved, never opened document: one empty revision and no path.
    pub open spec fn empty() -> DocumentView {
        DocumentView { snapshots: seq![Seq::<char>::empty()], position: 0, file_path: None }
    }

    /// The visible revision.
    pub open spec fn text(self) -> Seq<char> {
        self.snapshots[self.position]
    }

    /// The baseline: the text as storage last held it.
    pub open spec fn original(self) -> Seq<char> {
        self.snapshots[0]
    }

    /// Whether the visible revision differs from the baseline.
    pub open spec fn modified(self) -> bool {
        self.text() != self.original()
    }

    /// Whether there is a revision before the visible one.
    pub open spec fn can_undo(self) -> bool {
        self.position > 0
    }

    /// Whether there is a revision after the visible one.
    pub open spec fn can_redo(self) -> bool {
        self.position < self.snapshots.len() - 1
    }

    /// The revisions that an edit made now would keep: everything up to the
    /// visible revision.
    pub open spec fn kept(self) -> Seq<Seq<char>> {
        self.snapshots.subrange(0, self.position + 1)
    }

    /// The document after the edit `text`: the revisions after the visible one
    /// are dropped, the oldest edit makes room if the history is full, and
    /// `text` becomes the last and visible revision.
    pub open spec fn update(self, text: Seq<char>) -> DocumentView {
        let room = if self.kept().len() == MAX_UNDO {
            self.kept().remove(1)
        } else {
            self.kept()
        };
        DocumentView { snapshots: room.push(text), position: room.len() as int, ..self }
    }

    /// One step back, or the same document at the baseline.
    pub open spec fn undo(self) -> DocumentView {
        if self.can_undo() {
            DocumentView { position: self.position - 1, ..self }
        } else {
            self
        }
    }

    /// One step forward, or the same document at the last revision.
    pub open spec fn redo(self) -> DocumentView {
        if self.can_redo() {
            DocumentView { position: self.position + 1, ..self }
        } else {
            self
        }
    }

    /// The document that was read from `path` with text `contents`: no earlier
    /// revision survives.
    pub open spec fn open(self, path: PathBuf, contents: Seq<char>) -> DocumentView {
        DocumentView { snapshots: seq![contents], position: 0, file_path: Some(path) }
    }

    /// The document after `contents` was written to `path`: `contents` is the
    /// new baseline, and every edit keeps its place in the history.
    pub open spec fn save(self, path: PathBuf, contents: Seq<char>) -> DocumentView {
        DocumentView {
            snapshots: self.snapshots.update(0, contents),
            position: self.position,
            file_path: Some(path),
        }
    }

    /// The document after the edits `texts`, made in order.
    pub open spec fn update_all(self, texts: Seq<Seq<char>>) -> DocumentView
        decreases texts.len(),
    {
        if texts.len() == 0 {
            self
        } else {
            self.update_all(texts.drop_last()).update(texts.last())
        }
    }

    /// The document after `n` steps back.
    pub open spec fn undo_n(self, n: nat) -> DocumentView
        decreases n,
    {
        if n == 0 {
            self
        } else {
            self.undo().undo_n((n - 1) as nat)
        }
    }

    /// The path as text for display: the whole path where it is valid Unicode,
    /// else its final component where that is, else nothing.
    pub open spec fn filepath_string(self) -> Seq<char> {
        match self.file_path {
            Some(path) => match path_to_str(path) {
                Some(text) => text,
                None => match self.filename() {
                    Some(name) => name,
                    None => Seq::empty(),
                },
            },
            None => Seq::empty(),
        }
    }

    /// The final component of the path, where there is a path, it has a final
    /// component, and that component is valid Unicode.
    pub open spec fn filename(self) -> Option<Seq<char>> {
        match self.file_path {
            Some(path) => match path_file_name(path) {
                Some(name) => name,
                None => None,
            },
            None => None,
        }
    }
}

/// A text document with its edit history and the path of its file.
#[derive(Debug)]
pub struct Document {
    original: String,
    edits: Vec<String>,
    position: usize,
    file_path: Option<PathBuf>,
}

impl View for Document {
    type V = DocumentView;

    closed spec fn view(&self) -> DocumentView {
        DocumentView {
            snapshots: seq![self.original@] + self.edits@.map_values(|edit: String| edit@),
            position: self.position as int,
            file_path: self.file_path,
        }
    }
}

impl Default for Document {
    fn default() -> (document: Document)
        ensures
            document@ == DocumentView::empty(),
    {
        let document =
            Document { original: String::new(), edits: Vec::new(), position: 0, file_path: None };
        assert(document@.snapshots =~= DocumentView::empty().snapshots);
        document
    }
}

impl Clone for Document {
    fn clone(&self) -> (copy: Document)
        ensures
            copy@ == self@,
    {
        proof {
            use_type_invariant(self);
        }
        let mut edits: Vec<String> = Vec::new();
        let mut i: usize = 0;
        while i < self.edits.len()
            invariant
                i <= self.edits.len(),
                edits@ == self.edits@.subrange(0, i as int),
            decreases self.edits.len() - i,
        {
            edits.push(self.edits[i].clone());
            assert(edits@ =~= self.edits@.subrange(0, i + 1));
            i += 1;
        }
        assert(edits@ =~= self.edits@);
        Document {
            original: self.original.clone(),
            edits,
            position: self.position,
            file_path: self.file_path.clone(),
        }
    }
}

impl Document {
    /// Every document is well formed.
    #[verifier::type_invariant]
    pub open spec fn wf(self) -> bool {
        self@.wf()
    }

    /// The path the document was last opened from or saved to.
    pub fn filepath(&self) -> (path: Option<PathBuf>)
        ensures
            path == self@.file_path,
    {
        self.file_path.clone()
    }

    /// The name of the document's file: the final component of its path.
    /// There is none where the document has no path, where the path has no
    /// final component (the root, or a path that ends in two dots), and where
    /// the component is not valid Unicode.
    pub fn filename(&self) -> (name: Option<String>)
        ensures
            name.deep_view() == self@.filename(),
    {
        match &self.file_path {
            None => None,
            Some(path) => match file_name(path) {
                Some(name) => name,
                None => None,
            },
        }
    }

    /// The document's path as text for display: the whole path where it is
    /// valid Unicode, else the file name, else the empty string.
    pub fn filepath_string(&self) -> (text: String)
        ensures
            text@ == self@.filepath_string(),
    {
        match &self.file_path {
            Some(path) => match to_str(path) {
                Some(text) => text,
                None => match self.filename() {
                    Some(name) => name,
                    None => String::new(),
                },
            },
            None => String::new(),
        }
    }

    /// The visible revision.
    pub fn text(&self) -> (text: &String)
        ensures
            text@ == self@.text(),
    {
        proof {
            use_type_invariant(self);
        }
        if self.position == 0 {
            &self.original
        } else {
            &self.edits[self.position - 1]
        }
    }

    /// The baseline.
    pub fn original(&self) -> (text: &String)
        ensures
            text@ == self@.original(),
    {
        &self.original
    }

    /// Whether the visible revision differs from the baseline.
    pub fn modified(&self) -> (dirty: bool)
        ensures
            dirty == self@.modified(),
    {
        !self.text().eq(self.original())
    }

    /// Whether `undo` has a revision to step back to.
    pub fn can_undo(&self) -> (possible: bool)
        ensures
            possible == self@.can_undo(),
    {
        self.position > 0
    }

    /// Whether `redo` has a revision to step forward to.
    pub fn can_redo(&self) -> (possible: bool)
        ensures
            possible == self@.can_redo(),
    {
        self.position < self.edits.len()
    }

    /// Records the edit `value` and makes it the visible revision. Revisions
    /// after the one that was visible are dropped; if the history is full, the
    /// oldest edit goes, never the baseline.
    pub fn update(&mut self, value: &str)
        ensures
            final(self)@ == old(self)@.update(value@),
            final(self)@.wf(),
            final(self)@.text() == value@,
            final(self)@.original() == old(self)@.original(),
            final(self)@.can_undo(),
            !final(self)@.can_redo(),
    {
        proof {
            use_type_invariant(&*self);
        }
        let position = self.position;
        self.position = 0;
        let mut edits: Vec<String> = Vec::new();
        std::mem::swap(&mut edits, &mut self.edits);
        edits.truncate(position);
        if edits.len() == MAX_UNDO - 1 {
            edits.remove(0);
        }
        edits.push(value.to_string());
        let last = edits.len();
        self.edits = edits;
        self.position = last;
        assert(final(self)@.snapshots =~= old(self)@.update(value@).snapshots);
    }

    /// Steps back to the revision before the visible one, if there is one.
    pub fn undo(&mut self)
        ensures
            final(self)@ == old(self)@.undo(),
            final(self)@.wf(),
    {
        proof {
            use_type_invariant(&*self);
        }
        if self.position > 0 {
            self.position = self.position - 1;
        }
    }

    /// Steps forward to the revision after the visible one, if there is one.
    pub fn redo(&mut self)
        ensures
            final(self)@ == old(self)@.redo(),
            final(self)@.wf(),
    {
        proof {
            use_type_invariant(&*self);
        }
        if self.position < self.edits.len() {
            self.position = self.position + 1;
        }
    }

    /// Forgets text, history and path.
    pub fn reset(&mut self)
        ensures
            final(self)@ == DocumentView::empty(),
    {
        proof {
            use_type_invariant(&*self);
        }
        self.position = 0;
        self.edits = Vec::new();
        self.original = String::new();
        self.file_path = None;
        assert(final(self)@.snapshots =~= DocumentView::empty().snapshots);
    }

    /// Makes `contents`, read from `path`, the whole document.
    pub fn open(&mut self, path: PathBuf, contents: String)
        ensures
            final(self)@ == old(self)@.open(path, contents@),
            final(self)@.wf(),
    {
        proof {
            use_type_invariant(&*self);
        }
        self.position = 0;
        self.edits = Vec::new();
        self.original = contents;
        self.file_path = Some(path);
        assert(final(self)@.snapshots =~= old(self)@.open(path, contents@).snapshots);
    }

    /// Makes `contents`, written to `path`, the new baseline. Position and
    /// edits stay as they are; where the baseline is the visible revision, the
    /// visible text is `contents` afterwards.
    pub fn save(&mut self, path: PathBuf, contents: String)
        ensures
            final(self)@ == old(self)@.save(path, contents@),
            final(self)@.wf(),
    {
        proof {
            use_type_invariant(&*self);
        }
        self.file_path = Some(path);
        self.original = contents;
        assert(final(self)@.snapshots =~= old(self)@.save(path, contents@).snapshots);
    }
}

} // verus!
