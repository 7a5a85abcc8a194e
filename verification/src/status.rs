//! The text of the status line.
//!
//! A status has a phrase, which is translated for the user, and some statuses
//! show the document's path after it. The caller looks the phrase up in its
//! message catalogue and hands the translation in; everything around it is
//! decided here.

use crate::application_model::{ApplicationModel, StatusMessage};
use vstd::prelude::*;

verus! {

/// A text without the character NUL.
pub open spec fn has_no_nul(text: Seq<char>) -> bool {
    forall|i: int| 0 <= i < text.len() ==> text[i] != '\0'
}

/// The phrase that stands for `status`, untranslated. The idle status and a
/// finished open have none: the status line is empty then.
pub open spec fn phrase(status: StatusMessage) -> Option<Seq<char>> {
    match status {
        StatusMessage::Idle => None,
        StatusMessage::SavingFile => Some("Saving file..."@),
        StatusMessage::OpeningFile => Some("Opening file..."@),
        StatusMessage::FileSaveFinished(Ok(_)) => Some("File saved to"@),
        StatusMessage::FileOpenFinished(Ok(_)) => None,
        StatusMessage::FileSaveFinished(Err(_)) => Some("Could not save file"@),
        StatusMessage::FileOpenFinished(Err(_)) => Some("Could not open file"@),
    }
}

/// The status line for `status`, given its phrase as the user reads it and the
/// document's path as text: nothing, the phrase alone, or the phrase followed
/// by the quoted path, with an exclamation mark after a failure.
pub open spec fn line(status: StatusMessage, translated: Seq<char>, path: Seq<char>) -> Seq<char> {
    match status {
        StatusMessage::Idle => Seq::empty(),
        StatusMessage::SavingFile => translated,
        StatusMessage::OpeningFile => translated,
        StatusMessage::FileSaveFinished(Ok(_)) => translated + ": \""@ + path + "\""@,
        StatusMessage::FileOpenFinished(Ok(_)) => Seq::empty(),
        StatusMessage::FileSaveFinished(Err(_)) => translated + ": \""@ + path + "\"!"@,
        StatusMessage::FileOpenFinished(Err(_)) => translated + ": \""@ + path + "\"!"@,
    }
}

/// The untranslated phrase for `status`, if it has one: the key under which
/// the message catalogue holds its translation. It has no NUL in it, so it can
/// be handed to a catalogue that takes C strings.
pub fn status_phrase(status: &StatusMessage) -> (msgid: Option<&'static str>)
    ensures
        msgid.deep_view() == phrase(*status),
        msgid matches Some(text) ==> has_no_nul(text@),
{
    proof {
        reveal_strlit("Saving file...");
        reveal_strlit("Opening file...");
        reveal_strlit("File saved to");
        reveal_strlit("Could not save file");
        reveal_strlit("Could not open file");
    }
    match status {
        StatusMessage::Idle => None,
        StatusMessage::SavingFile => Some("Saving file..."),
        StatusMessage::OpeningFile => Some("Opening file..."),
        StatusMessage::FileSaveFinished(Ok(_)) => Some("File saved to"),
        StatusMessage::FileOpenFinished(Ok(_)) => None,
        StatusMessage::FileSaveFinished(Err(_)) => Some("Could not save file"),
        StatusMessage::FileOpenFinished(Err(_)) => Some("Could not open file"),
    }
}

/// The status line for `status` from its translated phrase and the path.
pub fn status_line(status: &StatusMessage, translated: &str, path: &str) -> (text: String)
    ensures
        text@ == line(*status, translated@, path@),
{
    match status {
        StatusMessage::Idle => String::new(),
        StatusMessage::SavingFile => translated.to_string(),
        StatusMessage::OpeningFile => translated.to_string(),
        StatusMessage::FileSaveFinished(Ok(_)) => quoted(translated, path, "\""),
        StatusMessage::FileOpenFinished(Ok(_)) => String::new(),
        StatusMessage::FileSaveFinished(Err(_)) => quoted(translated, path, "\"!"),
        StatusMessage::FileOpenFinished(Err(_)) => quoted(translated, path, "\"!"),
    }
}

/// `translated`, a colon, and `path` between an opening quote and `close`.
fn quoted(translated: &str, path: &str, close: &str) -> (text: String)
    ensures
        text@ == translated@ + ": \""@ + path@ + close@,
{
    let mut text = translated.to_string();
    text.append(": \"");
    text.append(path);
    text.append(close);
    text
}

/// The text of the status line for `model`, given the phrase of its status as
/// the user reads it: the line made of that phrase and the document's path.
/// Where the status has no phrase the line is empty, whatever `translated` is.
pub fn status_text(model: &ApplicationModel, translated: &str) -> (text: String)
    ensures
        text@ == line(model@.status_message, translated@, model@.document.filepath_string()),
{
    let path = model.document().filepath_string();
    status_line(model.status_message(), translated, path.as_str())
}

} // verus!
