//! Per-type view behaviour: the dispatcher, populate/extract round trips,
//! fail-fast tag mismatches, and the codec checks behind a commit.

use rpfm_ui::decoded::{decode, encode, DecodedFile, PackedFileType};
use rpfm_ui::errors::ErrorKind;
use rpfm_ui::packedfile_views::{
    build_view, FileView, PackedFileImageView, PackedFileTableView, PackedFileTextView,
    PackedFileView, TheOneSlot,
};

#[test]
fn round_trip_text() {
    let d = DecodedFile::Text("hello".to_string());
    let mut v = build_view(&d).expect("text has a concrete view");
    let r = v.extract().expect("a text view always extracts");
    match &r {
        DecodedFile::Text(t) => assert_eq!(t, "hello"),
        _ => panic!("expected text back"),
    }
    assert!(v.populate(&r).is_ok());
    match v.extract().expect("a text view always extracts") {
        DecodedFile::Text(t) => assert_eq!(t, "hello"),
        _ => panic!("repopulating must preserve the displayed content"),
    }
}

#[test]
fn round_trip_table() {
    let rows = vec![
        vec!["a".to_string(), "b".to_string()],
        vec!["c".to_string()],
    ];
    let d = DecodedFile::Table(rows.clone());
    let mut v = build_view(&d).expect("tables have a concrete view");
    let r = v.extract().expect("a table view always extracts");
    match &r {
        DecodedFile::Table(got) => assert_eq!(got, &rows),
        _ => panic!("expected a table back"),
    }
    assert!(v.populate(&r).is_ok());
    match v.extract().expect("a table view always extracts") {
        DecodedFile::Table(got) => assert_eq!(got, rows),
        _ => panic!("repopulating must preserve the displayed rows"),
    }
}

#[test]
fn round_trip_image() {
    let bytes = vec![0u8, 1, 128, 255];
    let d = DecodedFile::Image(bytes.clone());
    let mut v = build_view(&d).expect("images have a concrete view");
    let r = v.extract().expect("an image view always extracts");
    match &r {
        DecodedFile::Image(got) => assert_eq!(got, &bytes),
        _ => panic!("expected an image back"),
    }
    assert!(v.populate(&r).is_ok());
    match v.extract().expect("an image view always extracts") {
        DecodedFile::Image(got) => assert_eq!(got, bytes),
        _ => panic!("repopulating must preserve the displayed data"),
    }
}

#[test]
fn build_view_unknown_is_unsupported() {
    match build_view(&DecodedFile::Unknown) {
        Err(e) => assert_eq!(e, ErrorKind::UnsupportedType),
        Ok(_) => panic!("an unknown value has no concrete view"),
    }
}

#[test]
fn populate_mismatch_fails_fast() {
    let mut v = build_view(&DecodedFile::Text("hello".to_string())).unwrap();
    match v.populate(&DecodedFile::Image(vec![1])) {
        Err(e) => assert_eq!(e, ErrorKind::DecodeError),
        Ok(_) => panic!("populating a text view with an image must fail"),
    }
    match v.extract().unwrap() {
        DecodedFile::Text(t) => assert_eq!(t, "hello"),
        _ => panic!("a failed populate must leave the surface untouched"),
    }

    let mut tv = PackedFileTextView { contents: "keep".to_string() };
    assert!(tv.populate(&DecodedFile::Table(vec![])).is_err());
    assert_eq!(tv.read_text(), "keep");

    let mut tab = PackedFileTableView { rows: vec![vec!["x".to_string()]] };
    assert!(tab.populate(&DecodedFile::Text("t".to_string())).is_err());
    assert_eq!(tab.read_rows().len(), 1);

    let mut im = PackedFileImageView { bytes: vec![7] };
    assert!(im.populate(&DecodedFile::Unknown).is_err());
    assert_eq!(im.read_bytes(), &vec![7u8]);
}

#[test]
fn concrete_surface_accessors() {
    let mut tv = PackedFileTextView { contents: String::new() };
    tv.write_text("abc".to_string());
    assert_eq!(tv.read_text(), "abc");

    let mut tab = PackedFileTableView { rows: Vec::new() };
    tab.write_rows(vec![vec!["1".to_string(), "2".to_string()]]);
    assert_eq!(tab.read_rows(), &vec![vec!["1".to_string(), "2".to_string()]]);

    let mut im = PackedFileImageView { bytes: Vec::new() };
    im.write_bytes(vec![9, 8]);
    assert_eq!(im.read_bytes(), &vec![9u8, 8]);
}

#[test]
fn default_view_is_placeholder_preview() {
    let v = PackedFileView::default();
    assert!(v.get_is_preview());
    assert!(!v.is_dirty);
    assert!(matches!(v.get_view(), FileView::Empty));
    assert_eq!(v.packed_file_type, PackedFileType::Unknown);
}

#[test]
fn view_accessors_and_promotion() {
    let mut v = PackedFileView::default();
    v.set_is_preview(false);
    assert!(!v.get_is_preview());
    v.set_is_preview(true);
    assert!(v.get_is_preview());
    v.promote();
    assert!(!v.get_is_preview());
    v.promote();
    assert!(!v.get_is_preview());

    v.set_view(FileView::Text(PackedFileTextView { contents: "t".to_string() }));
    assert_eq!(v.packed_file_type, PackedFileType::Text);
    match v.get_view() {
        FileView::Text(t) => assert_eq!(t.contents, "t"),
        _ => panic!("expected the installed text view"),
    }
}

#[test]
fn edit_marks_dirty_and_replaces_surface() {
    let mut v = PackedFileView::default();
    v.set_view(FileView::Text(PackedFileTextView { contents: "a".to_string() }));
    assert!(v.edit(TheOneSlot::Text("b".to_string())).is_ok());
    assert!(v.is_dirty);
    match v.get_view() {
        FileView::Text(t) => assert_eq!(t.contents, "b"),
        _ => panic!("expected the edited text"),
    }
    match v.edit(TheOneSlot::Empty) {
        Err(e) => assert_eq!(e, ErrorKind::UnsupportedType),
        Ok(_) => panic!("the placeholder event set accepts no edits"),
    }
}

#[test]
fn encode_checks_tag_against_registered_type() {
    let text = DecodedFile::Text("x".to_string());
    match encode(&text, PackedFileType::Text) {
        Ok(DecodedFile::Text(t)) => assert_eq!(t, "x"),
        _ => panic!("a matching encode must succeed"),
    }
    match encode(&text, PackedFileType::Table) {
        Err(e) => assert_eq!(e, ErrorKind::EncodeError),
        _ => panic!("a mismatched encode must fail"),
    }
    match encode(&DecodedFile::Unknown, PackedFileType::Unknown) {
        Err(e) => assert_eq!(e, ErrorKind::UnsupportedType),
        _ => panic!("an unknown value has no codec"),
    }
}

#[test]
fn decode_is_deterministic() {
    let stored = DecodedFile::Text("same".to_string());
    match (decode(&stored), decode(&stored)) {
        (DecodedFile::Text(a), DecodedFile::Text(b)) => {
            assert_eq!(a, "same");
            assert_eq!(a, b);
        }
        _ => panic!("decoding the same payload must give the same value"),
    }
}

#[test]
fn tags_of_views_and_slots() {
    assert_eq!(
        FileView::Text(PackedFileTextView { contents: String::new() }).tag(),
        PackedFileType::Text
    );
    assert_eq!(FileView::Table(PackedFileTableView { rows: Vec::new() }).tag(), PackedFileType::Table);
    assert_eq!(FileView::Image(PackedFileImageView { bytes: Vec::new() }).tag(), PackedFileType::Image);
    assert_eq!(FileView::Empty.tag(), PackedFileType::Unknown);
    assert_eq!(TheOneSlot::Text(String::new()).tag(), PackedFileType::Text);
    assert_eq!(TheOneSlot::Table(Vec::new()).tag(), PackedFileType::Table);
    assert_eq!(TheOneSlot::Image(Vec::new()).tag(), PackedFileType::Image);
    assert_eq!(TheOneSlot::Empty.tag(), PackedFileType::Unknown);
    assert_eq!(DecodedFile::Unknown.tag(), PackedFileType::Unknown);
}
