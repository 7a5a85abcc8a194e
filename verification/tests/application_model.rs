use std::path::PathBuf;
use textedit2::actions::{Action, ErrorKind};
use textedit2::application_model::{
    open_finished, save_finished, ApplicationModel, Changes, StatusMessage, Task,
};

fn flags(changes: &Changes) -> (bool, bool, bool) {
    (changes.filename, changes.text, changes.status_message)
}

#[test]
fn new_model_is_idle_and_empty() {
    let model = ApplicationModel::new();
    assert!(matches!(model.status_message(), StatusMessage::Idle));
    assert_eq!("", model.document().text());
    assert_eq!(None, model.document().filepath());
    let model = ApplicationModel::default();
    assert!(matches!(model.status_message(), StatusMessage::Idle));
}

#[test]
fn changes_new_sets_each_flag() {
    assert_eq!((true, false, false), flags(&Changes::new(true, false, false)));
    assert_eq!((false, true, false), flags(&Changes::new(false, true, false)));
    assert_eq!((false, false, true), flags(&Changes::new(false, false, true)));
    assert_eq!((false, false, false), flags(&Changes::default()));
}

#[test]
fn open_request_with_a_path_asks_for_a_read() {
    let mut model = ApplicationModel::new();
    model.update(Action::DocumentChanged(String::from("draft")));
    let (changes, task) = model.update(Action::OpenFile(Some(PathBuf::from("/tmp/a.txt"))));
    assert_eq!((false, false, true), flags(&changes));
    assert!(matches!(model.status_message(), StatusMessage::OpeningFile));
    match task {
        Some(Task::Read(path)) => assert_eq!(PathBuf::from("/tmp/a.txt"), path),
        other => panic!("expected a read, got {:?}", other),
    }
    assert_eq!("draft", model.document().text(), "nothing changes until the read ends");
}

#[test]
fn open_request_without_a_path_resets_the_document() {
    let mut model = ApplicationModel::new();
    model.update(Action::FileOpenFinished(Ok((PathBuf::from("/tmp/a.txt"), String::from("a")))));
    model.update(Action::DocumentChanged(String::from("ab")));
    let (changes, task) = model.update(Action::OpenFile(None));
    assert_eq!((false, false, true), flags(&changes));
    assert!(task.is_none());
    assert!(matches!(model.status_message(), StatusMessage::OpeningFile));
    assert_eq!("", model.document().text());
    assert_eq!(None, model.document().filepath());
    assert!(!model.document().can_undo());
}

#[test]
fn save_request_asks_for_a_write_of_the_visible_text() {
    let mut model = ApplicationModel::new();
    model.update(Action::DocumentChanged(String::from("x")));
    let (changes, task) = model.update(Action::SaveFile(PathBuf::from("/tmp/p.txt")));
    assert_eq!((false, false, true), flags(&changes));
    assert!(matches!(model.status_message(), StatusMessage::SavingFile));
    match task {
        Some(Task::Write(path, contents)) => {
            assert_eq!(PathBuf::from("/tmp/p.txt"), path);
            assert_eq!("x", contents);
        }
        other => panic!("expected a write, got {:?}", other),
    }
    assert_eq!(None, model.document().filepath(), "the path is set when the write ends");
    assert!(model.document().modified());
}

#[test]
fn background_save_uses_a_frozen_snapshot() {
    let mut model = ApplicationModel::new();
    model.update(Action::DocumentChanged(String::from("x")));
    let (_, task) = model.update(Action::SaveFile(PathBuf::from("/tmp/p.txt")));
    model.update(Action::DocumentChanged(String::from("y")));
    let (path, contents) = match task {
        Some(Task::Write(path, contents)) => (path, contents),
        other => panic!("expected a write, got {:?}", other),
    };
    assert_eq!("x", contents);
    let (changes, task) = model.update(save_finished(path, contents, true));
    assert_eq!((true, false, true), flags(&changes));
    assert!(task.is_none());
    assert_eq!("x", model.document().original());
    assert_eq!("y", model.document().text());
    assert!(model.document().modified());
    assert_eq!(Some(PathBuf::from("/tmp/p.txt")), model.document().filepath());
}

#[test]
fn document_changed_sets_no_flag() {
    let mut model = ApplicationModel::new();
    let (first, task) = model.update(Action::DocumentChanged(String::from("same")));
    assert_eq!((false, false, false), flags(&first));
    assert!(task.is_none());
    let (second, task) = model.update(Action::DocumentChanged(String::from("same")));
    assert_eq!((false, false, false), flags(&second));
    assert!(task.is_none());
    assert!(matches!(model.status_message(), StatusMessage::Idle));
    assert_eq!("same", model.document().text());
    assert!(model.document().can_undo());
}

#[test]
fn finished_open_reseeds_the_document() {
    let mut model = ApplicationModel::new();
    model.update(Action::DocumentChanged(String::from("a")));
    model.update(Action::DocumentChanged(String::from("b")));
    let action = open_finished(PathBuf::from("/tmp/c.txt"), Some(String::from("c")));
    let (changes, task) = model.update(action);
    assert_eq!((true, true, true), flags(&changes));
    assert!(task.is_none());
    assert!(matches!(model.status_message(), StatusMessage::FileOpenFinished(Ok(()))));
    assert_eq!("c", model.document().text());
    assert_eq!("c", model.document().original());
    assert!(!model.document().can_undo());
    assert!(!model.document().can_redo());
    assert_eq!(Some(String::from("c.txt")), model.document().filename());
}

#[test]
fn finished_save_anchors_the_baseline() {
    let mut model = ApplicationModel::new();
    model.update(Action::DocumentChanged(String::from("a")));
    let action = save_finished(PathBuf::from("/tmp/p.txt"), String::from("a"), true);
    let (changes, _) = model.update(action);
    assert_eq!((true, false, true), flags(&changes));
    assert!(matches!(model.status_message(), StatusMessage::FileSaveFinished(Ok(()))));
    assert!(!model.document().modified());
    assert!(model.document().can_undo());
}

#[test]
fn failed_open_leaves_the_document_alone() {
    let mut model = ApplicationModel::new();
    model.update(Action::DocumentChanged(String::from("kept")));
    let action = open_finished(PathBuf::from("/tmp/missing.txt"), None);
    assert!(matches!(action, Action::FileOpenFinished(Err(ErrorKind::IOError()))));
    let (changes, task) = model.update(action);
    assert_eq!((false, false, true), flags(&changes));
    assert!(task.is_none());
    assert!(matches!(
        model.status_message(),
        StatusMessage::FileOpenFinished(Err(ErrorKind::IOError()))
    ));
    assert_eq!("kept", model.document().text());
    assert_eq!(None, model.document().filepath());
    assert!(model.document().can_undo());
}

#[test]
fn failed_save_leaves_the_document_alone() {
    let mut model = ApplicationModel::new();
    model.update(Action::DocumentChanged(String::from("kept")));
    let action = save_finished(PathBuf::from("/tmp/p.txt"), String::from("kept"), false);
    assert!(matches!(action, Action::FileSaveFinished(Err(ErrorKind::IOError()))));
    let (changes, _) = model.update(action);
    assert_eq!((false, false, true), flags(&changes));
    assert!(matches!(
        model.status_message(),
        StatusMessage::FileSaveFinished(Err(ErrorKind::IOError()))
    ));
    assert_eq!("kept", model.document().text());
    assert!(model.document().modified());
    assert_eq!(None, model.document().filepath());
}

#[test]
fn unknown_error_is_carried_into_the_status() {
    let mut model = ApplicationModel::new();
    model.update(Action::FileSaveFinished(Err(ErrorKind::UnknownError())));
    assert!(matches!(
        model.status_message(),
        StatusMessage::FileSaveFinished(Err(ErrorKind::UnknownError()))
    ));
    model.update(Action::FileOpenFinished(Err(ErrorKind::UnknownError())));
    assert!(matches!(
        model.status_message(),
        StatusMessage::FileOpenFinished(Err(ErrorKind::UnknownError()))
    ));
}

#[test]
fn reports_carry_path_and_text() {
    match open_finished(PathBuf::from("/tmp/a.txt"), Some(String::from("read"))) {
        Action::FileOpenFinished(Ok((path, contents))) => {
            assert_eq!(PathBuf::from("/tmp/a.txt"), path);
            assert_eq!("read", contents);
        }
        _ => panic!("expected a finished open"),
    }
    match save_finished(PathBuf::from("/tmp/b.txt"), String::from("written"), true) {
        Action::FileSaveFinished(Ok((path, contents))) => {
            assert_eq!(PathBuf::from("/tmp/b.txt"), path);
            assert_eq!("written", contents);
        }
        _ => panic!("expected a finished save"),
    }
}

#[test]
fn model_clone_is_independent() {
    let mut model = ApplicationModel::new();
    model.update(Action::DocumentChanged(String::from("a")));
    let mut copy = model.clone();
    copy.update(Action::DocumentChanged(String::from("b")));
    assert_eq!("a", model.document().text());
    assert_eq!("b", copy.document().text());
    let status = model.status_message().clone();
    assert!(matches!(status, StatusMessage::Idle));
}
