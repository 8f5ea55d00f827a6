//! Presentation-side views of open archive entries.
//!
//! Each open entry is mirrored by a `PackedFileView`: a thread-confined
//! display surface holding the live decoded snapshot, the entry's type tag,
//! and a preview/dirty pair of flags. The view dispatcher routes a fetched
//! `DecodedFile` to the matching concrete view constructor, and routes a
//! save back through the command bus by the view's own stored tag.

use crate::assoc::{
    assoc_lookup, copy_path, keys_unique, lemma_lookup_match, lemma_lookup_none,
    lemma_lookup_push, lemma_lookup_remove, lemma_lookup_update, path_eq, PathModel,
};
use crate::communications::{
    archive_after, commit_error, Command, CommandBus, CommandModel, Response,
};
use crate::decoded::{
    copy_bytes, copy_rows, is_concrete, tag_of, DecodedFile, DecodedModel, PackedFileType,
};
use crate::errors::ErrorKind;
use vstd::prelude::*;

verus! {

/// The live editing surface of an open text entry.
pub struct PackedFileTextView {
    pub contents: String,
}

impl PackedFileTextView {
    /// Reads the current display contents.
    pub fn read_text(&self) -> (r: &String)
        ensures
            r@ == self.contents@,
    {
        &self.contents
    }

    /// Replaces the display contents; the archive is not touched.
    pub fn write_text(&mut self, text: String)
        ensures
            final(self).contents@ == text@,
    {
        self.contents = text;
    }

    /// Reads the current display state back into a decoded value. Total:
    /// a text surface always yields a text payload.
    pub fn extract(&self) -> (r: DecodedFile)
        ensures
            r@ == DecodedModel::Text(self.contents@),
    {
        DecodedFile::Text(self.contents.clone())
    }

    /// Initializes the display state from a fetched value; fails fast,
    /// leaving the surface untouched, when the value is not text.
    pub fn populate(&mut self, d: &DecodedFile) -> (r: Result<(), ErrorKind>)
        ensures
            match r {
                Ok(_) => d@ == DecodedModel::Text(final(self).contents@),
                Err(e) => {
                    &&& e == ErrorKind::DecodeError
                    &&& tag_of(d@) != PackedFileType::Text
                    &&& *final(self) == *old(self)
                },
            },
    {
        match d {
            DecodedFile::Text(text) => {
                self.contents = text.clone();
                Ok(())
            },
            _ => Err(ErrorKind::DecodeError),
        }
    }
}

/// The live editing surface of an open table entry: rows of cells.
pub struct PackedFileTableView {
    pub rows: Vec<Vec<String>>,
}

impl PackedFileTableView {
    /// Reads the current display rows.
    pub fn read_rows(&self) -> (r: &Vec<Vec<String>>)
        ensures
            r.deep_view() == self.rows.deep_view(),
    {
        &self.rows
    }

    /// Replaces the display rows; the archive is not touched.
    pub fn write_rows(&mut self, rows: Vec<Vec<String>>)
        ensures
            final(self).rows.deep_view() == rows.deep_view(),
    {
        self.rows = rows;
    }

    /// Reads the current display state back into a decoded value.
    pub fn extract(&self) -> (r: DecodedFile)
        ensures
            r@ == DecodedModel::Table(self.rows.deep_view()),
    {
        DecodedFile::Table(copy_rows(&self.rows))
    }

    /// Initializes the display state from a fetched value; fails fast,
    /// leaving the surface untouched, when the value is not a table.
    pub fn populate(&mut self, d: &DecodedFile) -> (r: Result<(), ErrorKind>)
        ensures
            match r {
                Ok(_) => d@ == DecodedModel::Table(final(self).rows.deep_view()),
                Err(e) => {
                    &&& e == ErrorKind::DecodeError
                    &&& tag_of(d@) != PackedFileType::Table
                    &&& *final(self) == *old(self)
                },
            },
    {
        match d {
            DecodedFile::Table(rows) => {
                self.rows = copy_rows(rows);
                Ok(())
            },
            _ => Err(ErrorKind::DecodeError),
        }
    }
}

/// The live display surface of an open image entry: its raw data.
pub struct PackedFileImageView {
    pub bytes: Vec<u8>,
}

impl PackedFileImageView {
    /// Reads the displayed image data.
    pub fn read_bytes(&self) -> (r: &Vec<u8>)
        ensures
            r@ == self.bytes@,
    {
        &self.bytes
    }

    /// Replaces the displayed image data; the archive is not touched.
    pub fn write_bytes(&mut self, bytes: Vec<u8>)
        ensures
            final(self).bytes@ == bytes@,
    {
        self.bytes = bytes;
    }

    /// Reads the current display state back into a decoded value.
    pub fn extract(&self) -> (r: DecodedFile)
        ensures
            r@ == DecodedModel::Image(self.bytes@),
    {
        DecodedFile::Image(copy_bytes(&self.bytes))
    }

    /// Initializes the display state from a fetched value; fails fast,
    /// leaving the surface untouched, when the value is not an image.
    pub fn populate(&mut self, d: &DecodedFile) -> (r: Result<(), ErrorKind>)
        ensures
            match r {
                Ok(_) => d@ == DecodedModel::Image(final(self).bytes@),
                Err(e) => {
                    &&& e == ErrorKind::DecodeError
                    &&& tag_of(d@) != PackedFileType::Image
                    &&& *final(self) == *old(self)
                },
            },
    {
        match d {
            DecodedFile::Image(bytes) => {
                self.bytes = copy_bytes(bytes);
                Ok(())
            },
            _ => Err(ErrorKind::DecodeError),
        }
    }
}

/// The per-type view payload of one open entry. `Empty` is the read-only
/// placeholder presented when no concrete view exists for an entry's tag.
pub enum FileView {
    Table(PackedFileTableView),
    Text(PackedFileTextView),
    Image(PackedFileImageView),
    Empty,
}

/// The decoded value currently displayed by a view payload; the placeholder
/// displays nothing.
pub open spec fn content_of(v: FileView) -> DecodedModel {
    match v {
        FileView::Table(t) => DecodedModel::Table(t.rows.deep_view()),
        FileView::Text(t) => DecodedModel::Text(t.contents@),
        FileView::Image(im) => DecodedModel::Image(im.bytes@),
        FileView::Empty => DecodedModel::Unknown,
    }
}

/// The type tag a view payload belongs to.
pub open spec fn view_tag(v: FileView) -> PackedFileType {
    tag_of(content_of(v))
}

/// Routes a fetched decoded value to the matching concrete view
/// constructor. A value whose tag has no concrete view is refused with
/// `UnsupportedType`; the caller presents the placeholder instead.
pub fn build_view(d: &DecodedFile) -> (r: Result<FileView, ErrorKind>)
    ensures
        match r {
            Ok(v) => {
                &&& is_concrete(tag_of(d@))
                &&& content_of(v) == d@
            },
            Err(e) => {
                &&& e == ErrorKind::UnsupportedType
                &&& !is_concrete(tag_of(d@))
            },
        },
{
    match d {
        DecodedFile::Table(rows) => Ok(
            FileView::Table(PackedFileTableView { rows: copy_rows(rows) }),
        ),
        DecodedFile::Text(text) => Ok(
            FileView::Text(PackedFileTextView { contents: text.clone() }),
        ),
        DecodedFile::Image(bytes) => Ok(
            FileView::Image(PackedFileImageView { bytes: copy_bytes(bytes) }),
        ),
        DecodedFile::Unknown => Err(ErrorKind::UnsupportedType),
    }
}

impl FileView {
    /// The type tag of this view payload.
    pub fn tag(&self) -> (t: PackedFileType)
        ensures
            t == view_tag(*self),
    {
        match self {
            FileView::Table(_) => PackedFileType::Table,
            FileView::Text(_) => PackedFileType::Text,
            FileView::Image(_) => PackedFileType::Image,
            FileView::Empty => PackedFileType::Unknown,
        }
    }

    /// Reads the current display state back into a decoded value, choosing
    /// the extraction path by the view's own tag. The placeholder has no
    /// decoded representation and is refused.
    pub fn extract(&self) -> (r: Result<DecodedFile, ErrorKind>)
        ensures
            match r {
                Ok(d) => {
                    &&& is_concrete(view_tag(*self))
                    &&& d@ == content_of(*self)
                },
                Err(e) => {
                    &&& e == ErrorKind::UnsupportedType
                    &&& !is_concrete(view_tag(*self))
                },
            },
    {
        match self {
            FileView::Table(t) => Ok(t.extract()),
            FileView::Text(t) => Ok(t.extract()),
            FileView::Image(im) => Ok(im.extract()),
            FileView::Empty => Err(ErrorKind::UnsupportedType),
        }
    }

    /// Re-initializes the display state from a fetched value of the same
    /// tag. A value of a different tag is refused without touching the
    /// surface, and a value with no concrete view cannot be displayed.
    pub fn populate(&mut self, d: &DecodedFile) -> (r: Result<(), ErrorKind>)
        ensures
            match r {
                Ok(_) => {
                    &&& view_tag(*old(self)) == tag_of(d@)
                    &&& is_concrete(tag_of(d@))
                    &&& content_of(*final(self)) == d@
                },
                Err(e) => {
                    &&& *final(self) == *old(self)
                    &&& !(view_tag(*old(self)) == tag_of(d@) && is_concrete(tag_of(d@)))
                    &&& e == (if view_tag(*old(self)) != tag_of(d@) {
                        ErrorKind::DecodeError
                    } else {
                        ErrorKind::UnsupportedType
                    })
                },
            },
    {
        let vt = self.tag();
        let dt = d.tag();
        if vt != dt {
            return Err(ErrorKind::DecodeError);
        }
        match build_view(d) {
            Ok(v) => {
                *self = v;
                Ok(())
            },
            Err(e) => Err(e),
        }
    }
}

/// The typed edit events of every view family, multiplexed into one value
/// so that a single routing point can dispatch them; each variant carries
/// the new display contents for its family, and `Empty` is the event set of
/// the placeholder, which accepts no edits.
pub enum TheOneSlot {
    Table(Vec<Vec<String>>),
    Image(Vec<u8>),
    Text(String),
    Empty,
}

/// The display contents an edit event carries.
pub open spec fn slot_content(s: TheOneSlot) -> DecodedModel {
    match s {
        TheOneSlot::Table(rows) => DecodedModel::Table(rows.deep_view()),
        TheOneSlot::Image(bytes) => DecodedModel::Image(bytes@),
        TheOneSlot::Text(text) => DecodedModel::Text(text@),
        TheOneSlot::Empty => DecodedModel::Unknown,
    }
}

/// The view family an edit event is addressed to.
pub open spec fn slot_tag(s: TheOneSlot) -> PackedFileType {
    tag_of(slot_content(s))
}

impl TheOneSlot {
    /// The view family this edit event is addressed to.
    pub fn tag(&self) -> (t: PackedFileType)
        ensures
            t == slot_tag(*self),
    {
        match self {
            TheOneSlot::Table(_) => PackedFileType::Table,
            TheOneSlot::Image(_) => PackedFileType::Image,
            TheOneSlot::Text(_) => PackedFileType::Text,
            TheOneSlot::Empty => PackedFileType::Unknown,
        }
    }
}

/// The presentation-side state of one open archive entry: its view payload,
/// its type tag, and its preview/dirty flags.
pub struct PackedFileView {
    pub is_preview: bool,
    pub is_dirty: bool,
    pub view: FileView,
    pub packed_file_type: PackedFileType,
}

impl Default for PackedFileView {
    /// A fresh view: a transient preview of nothing, displaying the
    /// placeholder.
    fn default() -> (v: Self)
        ensures
            v.wf(),
            v.is_preview,
            !v.is_dirty,
            v.view == FileView::Empty,
            v.packed_file_type == PackedFileType::Unknown,
    {
        PackedFileView {
            is_preview: true,
            is_dirty: false,
            view: FileView::Empty,
            packed_file_type: PackedFileType::Unknown,
        }
    }
}

impl PackedFileView {
    /// The stored type tag always matches the live view payload's variant.
    pub open spec fn wf(&self) -> bool {
        self.packed_file_type == view_tag(self.view)
    }

    /// Whether this view is a transient preview.
    pub fn get_is_preview(&self) -> (r: bool)
        ensures
            r == self.is_preview,
    {
        self.is_preview
    }

    /// Marks this view as a preview or as a persistent editing session.
    pub fn set_is_preview(&mut self, is_preview: bool)
        ensures
            *final(self) == (PackedFileView { is_preview, ..*old(self) }),
    {
        self.is_preview = is_preview;
    }

    /// Promotes a preview to a persistent editing session; idempotent.
    pub fn promote(&mut self)
        ensures
            *final(self) == (PackedFileView { is_preview: false, ..*old(self) }),
    {
        self.is_preview = false;
    }

    /// The live view payload.
    pub fn get_view(&self) -> (r: &FileView)
        ensures
            *r == self.view,
    {
        &self.view
    }

    /// Replaces the view payload, re-deriving the stored type tag from the
    /// payload itself so the two can never disagree.
    pub fn set_view(&mut self, view: FileView)
        ensures
            final(self).view == view,
            final(self).packed_file_type == view_tag(view),
            final(self).is_preview == old(self).is_preview,
            final(self).is_dirty == old(self).is_dirty,
            final(self).wf(),
    {
        self.packed_file_type = view.tag();
        self.view = view;
    }

    /// Applies one edit event to the display surface, marking the view
    /// dirty. Only the surface changes — the archive is out of reach here.
    /// An event addressed to a different view family, or to the
    /// placeholder, is refused without any effect.
    pub fn edit(&mut self, slot: TheOneSlot) -> (r: Result<(), ErrorKind>)
        requires
            old(self).wf(),
        ensures
            final(self).wf(),
            match r {
                Ok(_) => {
                    &&& slot_tag(slot) == old(self).packed_file_type
                    &&& is_concrete(slot_tag(slot))
                    &&& content_of(final(self).view) == slot_content(slot)
                    &&& final(self).packed_file_type == old(self).packed_file_type
                    &&& final(self).is_preview == old(self).is_preview
                    &&& final(self).is_dirty
                },
                Err(e) => {
                    &&& e == ErrorKind::UnsupportedType
                    &&& !(slot_tag(slot) == old(self).packed_file_type && is_concrete(slot_tag(slot)))
                    &&& *final(self) == *old(self)
                },
            },
    {
        let st = slot.tag();
        if st != self.packed_file_type {
            return Err(ErrorKind::UnsupportedType);
        }
        match slot {
            TheOneSlot::Table(rows) => {
                self.view = FileView::Table(PackedFileTableView { rows });
                self.is_dirty = true;
                Ok(())
            },
            TheOneSlot::Text(text) => {
                self.view = FileView::Text(PackedFileTextView { contents: text });
                self.is_dirty = true;
                Ok(())
            },
            TheOneSlot::Image(bytes) => {
                self.view = FileView::Image(PackedFileImageView { bytes });
                self.is_dirty = true;
                Ok(())
            },
            TheOneSlot::Empty => Err(ErrorKind::UnsupportedType),
        }
    }

    /// Saves this view to its corresponding archive entry.
    ///
    /// Two steps: the live display state is extracted into a decoded value
    /// by the view's own stored tag, then that value travels as a commit
    /// over the bus to replace the canonical copy. If extraction is
    /// impossible — the placeholder has nothing to extract — no commit is
    /// sent at all. A failed commit changes neither the archive nor the
    /// dirty flag; a successful one marks the view clean.
    pub fn save(&mut self, path: &Vec<String>, bus: &mut CommandBus) -> (r: Result<(), ErrorKind>)
        requires
            old(self).wf(),
            old(bus).wf(),
        ensures
            final(self).wf(),
            final(bus).wf(),
            final(self).view == old(self).view,
            final(self).packed_file_type == old(self).packed_file_type,
            final(self).is_preview == old(self).is_preview,
            final(bus).is_open() == old(bus).is_open(),
            if !is_concrete(old(self).packed_file_type) {
                &&& r == Err::<(), ErrorKind>(ErrorKind::UnsupportedType)
                &&& *final(bus) == *old(bus)
                &&& final(self).is_dirty == old(self).is_dirty
            } else {
                let c = CommandModel::Commit(path.deep_view(), content_of(old(self).view));
                &&& final(bus).history@ == old(bus).history@.push(c)
                &&& if !old(bus).is_open() {
                    &&& r == Err::<(), ErrorKind>(ErrorKind::BusClosed)
                    &&& final(bus).arch() == old(bus).arch()
                    &&& final(self).is_dirty == old(self).is_dirty
                } else {
                    &&& archive_after(old(bus).arch(), c, final(bus).arch())
                    &&& match commit_error(
                        old(bus).arch(),
                        path.deep_view(),
                        content_of(old(self).view),
                    ) {
                        None => r == Ok::<(), ErrorKind>(()) && !final(self).is_dirty,
                        Some(e) => r == Err::<(), ErrorKind>(e) && final(self).is_dirty == old(
                            self,
                        ).is_dirty,
                    }
                }
            },
    {
        match self.view.extract() {
            Ok(data) => {
                let resp = bus.send(Command::Commit(copy_path(path), data));
                match resp {
                    Response::Ack => {
                        self.is_dirty = false;
                        Ok(())
                    },
                    Response::Error(e) => Err(e),
                    // A commit is never answered with a file; the bus
                    // contract rules this arm out.
                    Response::File(_) => Err(ErrorKind::BusClosed),
                }
            },
            Err(e) => Err(e),
        }
    }
}

/// One open entry of the registry: its path and its live view.
pub struct OpenView {
    pub path: Vec<String>,
    pub view: PackedFileView,
}

/// The per-open-file presentation state: exactly one live view per open
/// archive entry, keyed by path.
pub struct ViewRegistry {
    pub views: Vec<OpenView>,
}

impl ViewRegistry {
    /// The registry as a path-keyed association sequence of views.
    pub open spec fn model(&self) -> Seq<(PathModel, PackedFileView)> {
        self.views@.map_values(|ov: OpenView| (ov.path.deep_view(), ov.view))
    }

    /// Well-formedness: open paths are pairwise distinct and every live
    /// view's stored tag matches its payload.
    pub open spec fn wf(&self) -> bool {
        &&& keys_unique(self.model())
        &&& forall|i: int| 0 <= i < self.model().len() ==> (#[trigger] self.model()[i].1).wf()
    }

    /// A registry with nothing open.
    pub fn new() -> (r: ViewRegistry)
        ensures
            r.wf(),
            r.model().len() == 0,
    {
        ViewRegistry { views: Vec::new() }
    }

    /// The index of the live view at `path`, if one is open.
    fn find_view(&self, path: &Vec<String>) -> (r: Option<usize>)
        ensures
            match r {
                Some(i) => {
                    &&& i < self.model().len()
                    &&& self.model()[i as int].0 == path.deep_view()
                    &&& forall|j: int| 0 <= j < i ==> self.model()[j].0 != path.deep_view()
                },
                None => forall|j: int|
                    0 <= j < self.model().len() ==> self.model()[j].0 != path.deep_view(),
            },
    {
        let mut i: usize = 0;
        while i < self.views.len()
            invariant
                i <= self.views.len(),
                forall|j: int| 0 <= j < i ==> self.model()[j].0 != path.deep_view(),
            decreases self.views.len() - i,
        {
            if path_eq(&self.views[i].path, path) {
                return Some(i);
            }
            i = i + 1;
        }
        None
    }

    /// Makes `view` the one live view at `path`, replacing a previous view
    /// of the same entry if one was open.
    pub fn install(&mut self, path: &Vec<String>, view: PackedFileView)
        requires
            old(self).wf(),
            view.wf(),
        ensures
            final(self).wf(),
            assoc_lookup(final(self).model(), path.deep_view()) == Some(view),
            forall|q: PathModel|
                q != path.deep_view() ==> assoc_lookup(final(self).model(), q) == assoc_lookup(
                    old(self).model(),
                    q,
                ),
    {
        let ghost m0 = self.model();
        let ghost p = path.deep_view();
        match self.find_view(path) {
            Some(i) => {
                let ov = OpenView { path: copy_path(path), view };
                let ghost em = (ov.path.deep_view(), ov.view);
                self.views.set(i, ov);
                proof {
                    assert(self.model() =~= m0.update(i as int, em));
                    lemma_lookup_update(m0, i as int, p, em.1);
                }
            },
            None => {
                let ov = OpenView { path: copy_path(path), view };
                let ghost em = (ov.path.deep_view(), ov.view);
                self.views.push(ov);
                proof {
                    assert(self.model() =~= m0.push(em));
                    lemma_lookup_push(m0, p, em.1);
                }
            },
        }
    }

    /// Takes the live view at `path` out of the registry, leaving the entry
    /// closed; the caller owns the view from here on.
    pub fn take(&mut self, path: &Vec<String>) -> (r: Option<PackedFileView>)
        requires
            old(self).wf(),
        ensures
            final(self).wf(),
            match r {
                Some(v) => {
                    &&& assoc_lookup(old(self).model(), path.deep_view()) == Some(v)
                    &&& v.wf()
                    &&& assoc_lookup(final(self).model(), path.deep_view()) == None::<
                        PackedFileView,
                    >
                    &&& forall|q: PathModel|
                        q != path.deep_view() ==> assoc_lookup(final(self).model(), q)
                            == assoc_lookup(old(self).model(), q)
                },
                None => {
                    &&& assoc_lookup(old(self).model(), path.deep_view()) == None::<PackedFileView>
                    &&& *final(self) == *old(self)
                },
            },
    {
        let ghost m0 = self.model();
        let ghost p = path.deep_view();
        match self.find_view(path) {
            Some(i) => {
                proof {
                    lemma_lookup_match(m0, p, i as int);
                    lemma_lookup_remove(m0, i as int);
                }
                let ov = self.views.remove(i);
                proof {
                    assert(self.model() =~= m0.remove(i as int));
                }
                Some(ov.view)
            },
            None => {
                proof {
                    lemma_lookup_none(m0, p);
                }
                None
            },
        }
    }

    /// Discards the view at `path` and its display surface. Edits never
    /// flushed by a save are lost by design; nothing outside the registry
    /// is touched.
    pub fn close(&mut self, path: &Vec<String>) -> (was_open: bool)
        requires
            old(self).wf(),
        ensures
            final(self).wf(),
            was_open == (assoc_lookup(old(self).model(), path.deep_view()) is Some),
            assoc_lookup(final(self).model(), path.deep_view()) == None::<PackedFileView>,
            forall|q: PathModel|
                q != path.deep_view() ==> assoc_lookup(final(self).model(), q) == assoc_lookup(
                    old(self).model(),
                    q,
                ),
    {
        match self.take(path) {
            Some(_) => true,
            None => false,
        }
    }
}

/// Round-trip stability of displayed content: populating a view with a
/// decoded value `d` of any concrete tag, extracting it back out as `r`,
/// and populating a view again with `r` reproduces `d` exactly and leaves
/// the second view displaying precisely what the first displayed. The
/// hypotheses are the contracts of `FileView::populate` and
/// `FileView::extract` for the successive calls.
pub proof fn lemma_populate_extract_round_trip(
    d: DecodedFile,
    v1: FileView,
    r: DecodedFile,
    v2: FileView,
)
    requires
        is_concrete(tag_of(d@)),
        content_of(v1) == d@,
        r@ == content_of(v1),
        content_of(v2) == r@,
    ensures
        r@ == d@,
        content_of(v2) == content_of(v1),
{
}

} // verus!
