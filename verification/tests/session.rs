//! End-to-end scenarios over an editing session: open, edit, save, close,
//! and the bus-level fetch/commit behaviour behind them.

use rpfm_ui::app_ui::{EditorSession, NewPackedFile};
use rpfm_ui::communications::{Backend, Command, Response};
use rpfm_ui::decoded::{DecodedFile, PackedFileType};
use rpfm_ui::errors::ErrorKind;
use rpfm_ui::packedfile_views::{FileView, TheOneSlot};

fn path(segs: &[&str]) -> Vec<String> {
    let mut v = Vec::new();
    for s in segs {
        v.push((*s).to_string());
    }
    v
}

fn text_backend(segs: &[&str], contents: &str) -> Backend {
    let mut b = Backend::new();
    let inserted = b.insert_entry(
        path(segs),
        PackedFileType::Text,
        DecodedFile::Text(contents.to_string()),
    );
    assert!(inserted);
    b
}

fn fetch_text(session: &mut EditorSession, segs: &[&str]) -> String {
    match session.bus.send(Command::Fetch(path(segs))) {
        Response::File(DecodedFile::Text(t)) => t,
        _ => panic!("expected a text entry at {:?}", segs),
    }
}

#[test]
fn open_edit_save_fetch_round_trip() {
    let b = text_backend(&["text", "readme.txt"], "hello");
    let mut s = EditorSession::new(b);
    let p = path(&["text", "readme.txt"]);

    assert!(s.open_file(&p).is_ok());
    let v = s.views.take(&p).expect("a view must be open");
    assert!(v.is_preview);
    assert!(!v.is_dirty);
    assert_eq!(v.packed_file_type, PackedFileType::Text);
    match &v.view {
        FileView::Text(t) => assert_eq!(t.contents, "hello"),
        _ => panic!("expected a text view"),
    }
    s.views.install(&p, v);

    assert!(s.edit_file(&p, TheOneSlot::Text("hello world".to_string())).is_ok());
    assert!(s.save_file(&p).is_ok());
    assert_eq!(fetch_text(&mut s, &["text", "readme.txt"]), "hello world");
}

#[test]
fn fetch_missing_returns_not_found() {
    let mut s = EditorSession::new(Backend::new());
    let p = path(&["missing.bin"]);
    match s.open_file(&p) {
        Err(e) => assert_eq!(e, ErrorKind::NotFound),
        Ok(_) => panic!("opening a missing path must fail"),
    }
    assert_eq!(s.views.views.len(), 0);
}

#[test]
fn failed_commit_leaves_archive_unchanged() {
    let b = text_backend(&["a.txt"], "original");
    let mut s = EditorSession::new(b);
    match s.bus.send(Command::Commit(path(&["a.txt"]), DecodedFile::Image(vec![1, 2, 3]))) {
        Response::Error(e) => assert_eq!(e, ErrorKind::EncodeError),
        _ => panic!("a mismatched commit must be refused"),
    }
    assert_eq!(fetch_text(&mut s, &["a.txt"]), "original");
}

#[test]
fn commit_unknown_value_is_unsupported() {
    let b = text_backend(&["a.txt"], "original");
    let mut s = EditorSession::new(b);
    match s.bus.send(Command::Commit(path(&["a.txt"]), DecodedFile::Unknown)) {
        Response::Error(e) => assert_eq!(e, ErrorKind::UnsupportedType),
        _ => panic!("committing an unknown value must be refused"),
    }
    assert_eq!(fetch_text(&mut s, &["a.txt"]), "original");
}

#[test]
fn commit_missing_path_not_found() {
    let mut s = EditorSession::new(Backend::new());
    match s.bus.send(Command::Commit(path(&["nowhere"]), DecodedFile::Text("x".to_string()))) {
        Response::Error(e) => assert_eq!(e, ErrorKind::NotFound),
        _ => panic!("committing to a missing path must be refused"),
    }
}

#[test]
fn commits_applied_in_send_order() {
    let b = text_backend(&["f.txt"], "start");
    let mut s = EditorSession::new(b);
    match s.bus.send(Command::Commit(path(&["f.txt"]), DecodedFile::Text("A".to_string()))) {
        Response::Ack => {}
        _ => panic!("first commit must succeed"),
    }
    match s.bus.send(Command::Commit(path(&["f.txt"]), DecodedFile::Text("B".to_string()))) {
        Response::Ack => {}
        _ => panic!("second commit must succeed"),
    }
    assert_eq!(fetch_text(&mut s, &["f.txt"]), "B");
}

#[test]
fn close_without_save_preserves_archive() {
    let b = text_backend(&["keep.txt"], "hello");
    let mut s = EditorSession::new(b);
    let p = path(&["keep.txt"]);
    assert!(s.open_file(&p).is_ok());
    assert!(s.edit_file(&p, TheOneSlot::Text("changed".to_string())).is_ok());
    assert!(s.close_file(&p));
    assert_eq!(s.views.views.len(), 0);
    assert_eq!(fetch_text(&mut s, &["keep.txt"]), "hello");
}

#[test]
fn open_twice_promote_save_one() {
    let b = text_backend(&["t.txt"], "one");
    let mut s = EditorSession::new(b);
    let p = path(&["t.txt"]);
    assert!(s.open_file(&p).is_ok());
    assert!(s.open_file(&p).is_ok());
    assert_eq!(s.views.views.len(), 1);
    assert!(s.promote_file(&p));
    assert!(s.edit_file(&p, TheOneSlot::Text("two".to_string())).is_ok());
    assert!(s.save_file(&p).is_ok());
    assert_eq!(s.views.views.len(), 1);
    assert_eq!(fetch_text(&mut s, &["t.txt"]), "two");
}

#[test]
fn unknown_entry_opens_as_placeholder() {
    let mut b = Backend::new();
    assert!(b.insert_entry(path(&["u.bin"]), PackedFileType::Unknown, DecodedFile::Unknown));
    let mut s = EditorSession::new(b);
    let p = path(&["u.bin"]);
    assert!(s.open_file(&p).is_ok());
    let v = s.views.take(&p).expect("a placeholder view must be open");
    assert!(v.is_preview);
    assert_eq!(v.packed_file_type, PackedFileType::Unknown);
    assert!(matches!(v.view, FileView::Empty));
    s.views.install(&p, v);
    match s.save_file(&p) {
        Err(e) => assert_eq!(e, ErrorKind::UnsupportedType),
        Ok(_) => panic!("saving a placeholder must fail"),
    }
    match s.bus.send(Command::Fetch(path(&["u.bin"]))) {
        Response::File(DecodedFile::Unknown) => {}
        _ => panic!("the archive entry must be unchanged"),
    }
}

#[test]
fn save_failure_keeps_dirty_flag() {
    let b = text_backend(&["d.txt"], "hello");
    let mut s = EditorSession::new(b);
    let p = path(&["d.txt"]);
    assert!(s.open_file(&p).is_ok());
    assert!(s.edit_file(&p, TheOneSlot::Text("edited".to_string())).is_ok());
    s.shutdown();
    match s.save_file(&p) {
        Err(e) => assert_eq!(e, ErrorKind::BusClosed),
        Ok(_) => panic!("saving over a closed bus must fail"),
    }
    let v = s.views.take(&p).expect("the view must still be open");
    assert!(v.is_dirty);
}

#[test]
fn send_after_shutdown_fails() {
    let b = text_backend(&["x.txt"], "hello");
    let mut s = EditorSession::new(b);
    s.shutdown();
    match s.open_file(&path(&["x.txt"])) {
        Err(e) => assert_eq!(e, ErrorKind::BusClosed),
        Ok(_) => panic!("opening over a closed bus must fail"),
    }
    match s.bus.send(Command::Fetch(path(&["x.txt"]))) {
        Response::Error(e) => assert_eq!(e, ErrorKind::BusClosed),
        _ => panic!("a closed bus must refuse every command"),
    }
}

#[test]
fn edit_wrong_family_refused() {
    let b = text_backend(&["e.txt"], "hello");
    let mut s = EditorSession::new(b);
    let p = path(&["e.txt"]);
    assert!(s.open_file(&p).is_ok());
    match s.edit_file(&p, TheOneSlot::Table(vec![vec!["x".to_string()]])) {
        Err(e) => assert_eq!(e, ErrorKind::UnsupportedType),
        Ok(_) => panic!("a table edit must not reach a text view"),
    }
    assert!(s.save_file(&p).is_ok());
    assert_eq!(fetch_text(&mut s, &["e.txt"]), "hello");
}

#[test]
fn operations_on_unopened_path() {
    let b = text_backend(&["p.txt"], "hello");
    let mut s = EditorSession::new(b);
    let p = path(&["p.txt"]);
    assert!(!s.promote_file(&p));
    assert!(!s.close_file(&p));
    match s.edit_file(&p, TheOneSlot::Text("x".to_string())) {
        Err(e) => assert_eq!(e, ErrorKind::NotFound),
        Ok(_) => panic!("editing an unopened path must fail"),
    }
    match s.save_file(&p) {
        Err(e) => assert_eq!(e, ErrorKind::NotFound),
        Ok(_) => panic!("saving an unopened path must fail"),
    }
}

#[test]
fn insert_entry_refuses_duplicate_and_mismatch() {
    let mut b = Backend::new();
    assert!(b.insert_entry(
        path(&["one"]),
        PackedFileType::Text,
        DecodedFile::Text("a".to_string())
    ));
    assert!(!b.insert_entry(
        path(&["one"]),
        PackedFileType::Text,
        DecodedFile::Text("b".to_string())
    ));
    assert!(!b.insert_entry(
        path(&["two"]),
        PackedFileType::Table,
        DecodedFile::Text("c".to_string())
    ));
}

#[test]
fn new_packed_file_variants() {
    let db = NewPackedFile::DB("file".to_string(), "table".to_string(), 3);
    let loc = NewPackedFile::Loc("names".to_string());
    let txt = NewPackedFile::Text("notes.txt".to_string());
    match db.clone() {
        NewPackedFile::DB(f, t, v) => {
            assert_eq!(f, "file");
            assert_eq!(t, "table");
            assert_eq!(v, 3);
        }
        _ => panic!("expected the DB variant"),
    }
    assert!(matches!(loc, NewPackedFile::Loc(_)));
    assert!(matches!(txt, NewPackedFile::Text(_)));
}
