//! What holds of every document history, proved over the mathematical model.

use crate::actions::Action;
use crate::application_model::{changes, Changes, ModelView, StatusMessage, TaskView};
use crate::document::{DocumentView, MAX_UNDO};
use std::path::PathBuf;
use vstd::prelude::*;

verus! {

/// The last `n` items of `s`, or all of `s` if it has fewer.
pub open spec fn keep_last<T>(s: Seq<T>, n: int) -> Seq<T> {
    if s.len() > n {
        s.subrange(s.len() - n, s.len() as int)
    } else {
        s
    }
}

/// The edits that a further edit would keep: the revisions after the baseline,
/// up to the visible one.
pub open spec fn edits_kept(d: DocumentView) -> Seq<Seq<char>> {
    d.snapshots.subrange(1, d.position + 1)
}

/// An edit leaves a well-formed document at its last revision, which is the
/// new text. It can be undone and not redone, the baseline is untouched, and
/// the document is dirty exactly if the new text differs from the baseline.
pub proof fn lemma_update(d: DocumentView, text: Seq<char>)
    requires
        d.wf(),
    ensures
        d.update(text).wf(),
        d.update(text).text() == text,
        d.update(text).original() == d.original(),
        d.update(text).file_path == d.file_path,
        d.update(text).can_undo(),
        !d.update(text).can_redo(),
        d.update(text).modified() <==> text != d.original(),
{
}

/// After an edit the history is the baseline followed by the newest edits, as
/// many as fit beside it.
pub proof fn lemma_update_shape(d: DocumentView, text: Seq<char>)
    requires
        d.wf(),
    ensures
        d.update(text).snapshots == seq![d.original()] + keep_last(
            edits_kept(d).push(text),
            MAX_UNDO - 1,
        ),
        d.update(text).position == d.update(text).snapshots.len() - 1,
{
    assert(d.update(text).snapshots =~= seq![d.original()] + keep_last(
        edits_kept(d).push(text),
        MAX_UNDO - 1,
    ));
}

/// After any run of edits the history is the baseline followed by the newest
/// of the edits kept and made, as many as fit beside it; the visible revision
/// is the last.
pub proof fn lemma_update_all_shape(d: DocumentView, texts: Seq<Seq<char>>)
    requires
        d.wf(),
        texts.len() > 0,
    ensures
        d.update_all(texts).wf(),
        d.update_all(texts).snapshots == seq![d.original()] + keep_last(
            edits_kept(d) + texts,
            MAX_UNDO - 1,
        ),
        d.update_all(texts).position == d.update_all(texts).snapshots.len() - 1,
        d.update_all(texts).file_path == d.file_path,
    decreases texts.len(),
{
    let before = d.update_all(texts.drop_last());
    let all = edits_kept(d) + texts;
    if texts.len() == 1 {
        assert(texts.drop_last().len() == 0);
        assert(before == d);
        assert(all =~= edits_kept(d).push(texts.last()));
        lemma_update_shape(d, texts.last());
    } else {
        lemma_update_all_shape(d, texts.drop_last());
        lemma_update(before, texts.last());
        lemma_update_shape(before, texts.last());
        let earlier = edits_kept(d) + texts.drop_last();
        assert(edits_kept(before) =~= keep_last(earlier, MAX_UNDO - 1));
        assert(all =~= earlier.push(texts.last()));
        assert(keep_last(edits_kept(before).push(texts.last()), MAX_UNDO - 1) =~= keep_last(
            all,
            MAX_UNDO - 1,
        ));
    }
}

/// After one or more edits the document can be undone, shows the last edit,
/// keeps its baseline, and is dirty exactly if the last edit differs from the
/// baseline.
pub proof fn lemma_updates_track_last_edit(d: DocumentView, texts: Seq<Seq<char>>)
    requires
        d.wf(),
        texts.len() > 0,
    ensures
        d.update_all(texts).wf(),
        d.update_all(texts).can_undo(),
        d.update_all(texts).text() == texts.last(),
        d.update_all(texts).original() == d.original(),
        d.update_all(texts).modified() <==> texts.last() != d.original(),
{
    if texts.len() > 1 {
        lemma_update_all_shape(d, texts.drop_last());
    }
    lemma_update(d.update_all(texts.drop_last()), texts.last());
}

/// A step back and a step forward keep the document well formed and touch
/// only the position.
pub proof fn lemma_undo_redo_wf(d: DocumentView)
    requires
        d.wf(),
    ensures
        d.undo().wf(),
        d.redo().wf(),
        d.undo().snapshots == d.snapshots,
        d.redo().snapshots == d.snapshots,
        d.undo().file_path == d.file_path,
        d.redo().file_path == d.file_path,
{
}

/// Where there is a step back to take, a step back and then forward returns to
/// the same document. At the baseline the step back does nothing, and the
/// step forward then leaves the visible text as it was exactly if there is
/// nothing to redo or the next revision has the same text.
pub proof fn lemma_undo_then_redo(d: DocumentView)
    requires
        d.wf(),
    ensures
        d.can_undo() ==> d.undo().redo() == d,
        !d.can_undo() ==> d.undo().redo() == d.redo(),
        d.undo().redo().text() == d.text() <==> (d.can_undo() || !d.can_redo()
            || d.snapshots[1] == d.snapshots[0]),
{
}

/// Where there is a step forward to take, a step forward and then back returns
/// to the same document.
pub proof fn lemma_redo_then_undo(d: DocumentView)
    requires
        d.wf(),
    ensures
        d.can_redo() ==> d.redo().undo() == d,
        !d.can_redo() ==> d.redo().undo() == d.undo(),
{
}

/// Undoing an edit shows the text that was visible before it, whether or not
/// the edit pushed an older one out.
pub proof fn lemma_update_then_undo(d: DocumentView, text: Seq<char>)
    requires
        d.wf(),
    ensures
        d.update(text).undo().text() == d.text(),
        d.update(text).undo().original() == d.original(),
        d.update(text).undo().redo() == d.update(text),
{
}

/// `n` steps back move the position down by `n`, stopping at the baseline.
pub proof fn lemma_undo_n(d: DocumentView, n: nat)
    requires
        d.wf(),
    ensures
        d.undo_n(n).wf(),
        d.undo_n(n).snapshots == d.snapshots,
        d.undo_n(n).file_path == d.file_path,
        d.undo_n(n).position == if n <= d.position { d.position - n } else { 0 },
    decreases n,
{
    if n > 0 {
        lemma_undo_n(d.undo(), (n - 1) as nat);
    }
}

/// After exactly `MAX_UNDO` edits the baseline is the one from before the
/// first of them, the history holds the baseline and all the edits but the
/// first, and no number of steps back shows anything else: the first edit is
/// out of reach.
pub proof fn lemma_eviction(d: DocumentView, texts: Seq<Seq<char>>, n: nat)
    requires
        d.wf(),
        texts.len() == MAX_UNDO,
    ensures
        d.update_all(texts).original() == d.original(),
        d.update_all(texts).snapshots == seq![d.original()] + texts.subrange(1, MAX_UNDO as int),
        d.update_all(texts).position == MAX_UNDO - 1,
        d.update_all(texts).undo_n(n).text() == if n < MAX_UNDO - 1 {
            texts[MAX_UNDO - 1 - n]
        } else {
            d.original()
        },
{
    lemma_update_all_shape(d, texts);
    let after = d.update_all(texts);
    assert(keep_last(edits_kept(d) + texts, MAX_UNDO - 1) =~= texts.subrange(1, MAX_UNDO as int));
    lemma_undo_n(after, n);
}

/// A save of the visible text leaves the document clean, and it is clean again
/// whenever a later edit is undone.
pub proof fn lemma_save_anchors_baseline(d: DocumentView, path: PathBuf, text: Seq<char>)
    requires
        d.wf(),
    ensures
        d.save(path, d.text()).wf(),
        d.save(path, d.text()).text() == d.text(),
        !d.save(path, d.text()).modified(),
        !d.save(path, d.text()).update(text).undo().modified(),
{
    lemma_update_then_undo(d.save(path, d.text()), text);
}

/// A save keeps the position, every edit and therefore every step back or
/// forward; only the baseline and the path change.
pub proof fn lemma_save_keeps_history(d: DocumentView, path: PathBuf, contents: Seq<char>)
    requires
        d.wf(),
    ensures
        d.save(path, contents).wf(),
        d.save(path, contents).original() == contents,
        d.save(path, contents).position == d.position,
        d.save(path, contents).can_undo() == d.can_undo(),
        d.save(path, contents).can_redo() == d.can_redo(),
        d.can_undo() ==> d.save(path, contents).text() == d.text(),
        forall|i: int|
            1 <= i < d.snapshots.len() ==> d.save(path, contents).snapshots[i] == d.snapshots[i],
{
}

/// Opening a file discards the history: the document shows the file's text,
/// is clean, and has nothing to undo or redo.
pub proof fn lemma_open_discards_history(d: DocumentView, path: PathBuf, contents: Seq<char>)
    ensures
        d.open(path, contents).wf(),
        d.open(path, contents).text() == contents,
        d.open(path, contents).original() == contents,
        d.open(path, contents).file_path == Some(path),
        !d.open(path, contents).modified(),
        !d.open(path, contents).can_undo(),
        !d.open(path, contents).can_redo(),
{
}

/// Every action leaves a well-formed model.
pub proof fn lemma_step_wf(m: ModelView, action: Action)
    requires
        m.wf(),
    ensures
        m.step(action).wf(),
{
    match action {
        Action::DocumentChanged(value) => lemma_update(m.document, value@),
        _ => {},
    }
}

/// An edit reported by the editor changes no facet that has to be redrawn,
/// starts no work on storage and leaves the status line alone, however often
/// the same text is reported.
pub proof fn lemma_document_changed_is_silent(m: ModelView, value: String)
    ensures
        changes(Action::DocumentChanged(value)) == (Changes {
            filename: false,
            text: false,
            status_message: false,
        }),
        m.task(Action::DocumentChanged(value)).is_none(),
        m.step(Action::DocumentChanged(value)).task(Action::DocumentChanged(value)).is_none(),
        m.step(Action::DocumentChanged(value)).status_message == m.status_message,
        m.step(Action::DocumentChanged(value)).step(Action::DocumentChanged(value))
            == (ModelView { document: m.document.update(value@).update(value@), ..m }),
{
}

/// A save request asks for a write of the text that is visible when the
/// request is processed. An edit made while the write is under way changes
/// the document and not what is written; when the write is reported, the
/// text that was written is the baseline and the later edit is still the
/// visible text.
pub proof fn lemma_save_writes_text_at_request(
    m: ModelView,
    path: PathBuf,
    later: String,
    written: String,
)
    requires
        m.wf(),
        written@ == m.document.text(),
    ensures
        m.task(Action::SaveFile(path)) == Some(TaskView::Write(path, m.document.text())),
        m.step(Action::SaveFile(path)).document == m.document,
        m.step(Action::SaveFile(path)).step(Action::DocumentChanged(later)).document.text()
            == later@,
        m.step(Action::SaveFile(path)).step(Action::DocumentChanged(later)).step(
            Action::FileSaveFinished(Ok((path, written))),
        ).document.original() == m.document.text(),
        m.step(Action::SaveFile(path)).step(Action::DocumentChanged(later)).step(
            Action::FileSaveFinished(Ok((path, written))),
        ).document.text() == later@,
{
    lemma_update(m.document, later@);
}

/// A failed read or write changes the status line and nothing of the document.
pub proof fn lemma_failure_keeps_document(m: ModelView, action: Action)
    requires
        action matches Action::FileOpenFinished(Err(_)) || action matches Action::FileSaveFinished(
            Err(_),
        ),
    ensures
        m.step(action).document == m.document,
        m.task(action).is_none(),
        changes(action) == (Changes { filename: false, text: false, status_message: true }),
        action matches Action::FileOpenFinished(Err(e)) ==> m.step(action).status_message
            == StatusMessage::FileOpenFinished(Err(e)),
        action matches Action::FileSaveFinished(Err(e)) ==> m.step(action).status_message
            == StatusMessage::FileSaveFinished(Err(e)),
{
}

} // verus!
