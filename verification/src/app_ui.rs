//! The application-level context tying the presentation side together.
//!
//! An `EditorSession` is constructed once at startup and passed by
//! reference wherever the presentation side needs the archive: it owns the
//! command bus (and, behind it, the backend owner) together with the view
//! registry, and carries every open, edit, save and close from one end to
//! the other.

use crate::assoc::{assoc_lookup, copy_path, lemma_lookup_is_entry, PathModel};
use crate::communications::{
    archive_after, commit_error, ArchiveModel, Backend, Command, CommandBus, CommandModel,
    Response,
};
use crate::decoded::{is_concrete, tag_of};
use crate::errors::ErrorKind;
use crate::packedfile_views::{
    build_view, content_of, slot_content, slot_tag, PackedFileView, TheOneSlot, ViewRegistry,
};
use vstd::prelude::*;

verus! {

/// The data needed to create a new entry from scratch.
#[derive(Clone, Debug)]
pub enum NewPackedFile {
    /// Name of the file, name of the table, version of the table.
    DB(String, String, i32),
    /// Name of the table.
    Loc(String),
    /// Name of the table.
    Text(String),
}

/// The explicitly constructed context of one editing session: the command
/// bus in front of the backend owner, and the registry of open views.
pub struct EditorSession {
    pub bus: CommandBus,
    pub views: ViewRegistry,
}

impl EditorSession {
    pub open spec fn wf(&self) -> bool {
        &&& self.bus.wf()
        &&& self.views.wf()
    }

    /// The archive held by the backend owner behind this session's bus.
    pub open spec fn arch(&self) -> ArchiveModel {
        self.bus.arch()
    }

    /// The views currently open, keyed by path.
    pub open spec fn open_views(&self) -> Seq<(PathModel, PackedFileView)> {
        self.views.model()
    }

    /// Starts a session over the given backend, with nothing open yet.
    pub fn new(backend: Backend) -> (s: EditorSession)
        requires
            backend.wf(),
        ensures
            s.wf(),
            s.bus.is_open(),
            s.arch() == backend.arch(),
            s.open_views().len() == 0,
            s.bus.history@ == Seq::<CommandModel>::empty(),
    {
        EditorSession { bus: CommandBus::new(backend), views: ViewRegistry::new() }
    }

    /// Tears the backend owner down; every later fetch or commit fails
    /// with `BusClosed`.
    pub fn shutdown(&mut self)
        ensures
            final(self).wf() == old(self).wf(),
            !final(self).bus.is_open(),
            final(self).arch() == old(self).arch(),
            final(self).views == old(self).views,
            final(self).bus.history@ == old(self).bus.history@,
    {
        self.bus.shutdown();
    }

    /// Opens the entry at `path`: fetches it over the bus and installs the
    /// matching view, as a preview. An entry whose tag has no concrete
    /// view is opened as the read-only placeholder. On a failed fetch no
    /// view is constructed and the registry is left as it was; the archive
    /// is never touched by an open.
    pub fn open_file(&mut self, path: &Vec<String>) -> (r: Result<(), ErrorKind>)
        requires
            old(self).wf(),
        ensures
            final(self).wf(),
            final(self).arch() == old(self).arch(),
            final(self).bus.is_open() == old(self).bus.is_open(),
            final(self).bus.history@ == old(self).bus.history@.push(
                CommandModel::Fetch(path.deep_view()),
            ),
            if !old(self).bus.is_open() {
                &&& r == Err::<(), ErrorKind>(ErrorKind::BusClosed)
                &&& final(self).views == old(self).views
            } else {
                match assoc_lookup(old(self).arch(), path.deep_view()) {
                    None => {
                        &&& r == Err::<(), ErrorKind>(ErrorKind::NotFound)
                        &&& final(self).views == old(self).views
                    },
                    Some(e) => {
                        &&& r == Ok::<(), ErrorKind>(())
                        &&& (match assoc_lookup(final(self).open_views(), path.deep_view()) {
                            Some(w) => {
                                &&& w.is_preview
                                &&& !w.is_dirty
                                &&& w.packed_file_type == e.0
                                &&& content_of(w.view) == e.1
                            },
                            None => false,
                        })
                        &&& forall|q: PathModel|
                            q != path.deep_view() ==> assoc_lookup(final(self).open_views(), q)
                                == assoc_lookup(old(self).open_views(), q)
                    },
                }
            },
    {
        let ghost p = path.deep_view();
        let ghost a0 = self.bus.arch();
        let resp = self.bus.send(Command::Fetch(copy_path(path)));
        match resp {
            Response::File(d) => {
                proof {
                    match assoc_lookup(a0, p) {
                        Some(e) => {
                            lemma_lookup_is_entry(a0, p, e);
                            let i = choose|i: int| 0 <= i < a0.len() && a0[i] == (p, e);
                            assert(a0[i].1.0 == tag_of(a0[i].1.1));
                        },
                        None => {
                            assert(false);
                        },
                    }
                }
                let mut v = PackedFileView::default();
                match build_view(&d) {
                    Ok(fv) => {
                        v.set_view(fv);
                    },
                    Err(_) => {
                        proof {
                            assert(d@ is Unknown);
                        }
                    },
                }
                self.views.install(path, v);
                Ok(())
            },
            Response::Error(err) => Err(err),
            // A fetch is never answered with a bare acknowledgement; the
            // bus contract rules this arm out.
            Response::Ack => Err(ErrorKind::BusClosed),
        }
    }

    /// Promotes the preview at `path` to a persistent editing session;
    /// idempotent, and a no-op when nothing is open there. The archive is
    /// never touched by a promote.
    pub fn promote_file(&mut self, path: &Vec<String>) -> (r: bool)
        requires
            old(self).wf(),
        ensures
            final(self).wf(),
            final(self).bus == old(self).bus,
            r == (assoc_lookup(old(self).open_views(), path.deep_view()) is Some),
            match assoc_lookup(old(self).open_views(), path.deep_view()) {
                Some(w) => {
                    &&& assoc_lookup(final(self).open_views(), path.deep_view()) == Some(
                        (PackedFileView { is_preview: false, ..w }),
                    )
                    &&& forall|q: PathModel|
                        q != path.deep_view() ==> assoc_lookup(final(self).open_views(), q)
                            == assoc_lookup(old(self).open_views(), q)
                },
                None => *final(self) == *old(self),
            },
    {
        match self.views.take(path) {
            Some(mut v) => {
                v.promote();
                self.views.install(path, v);
                true
            },
            None => false,
        }
    }

    /// Routes one edit event to the view open at `path`. Only the view's
    /// display surface changes — the bus, and with it the archive, is out
    /// of reach of an edit.
    pub fn edit_file(&mut self, path: &Vec<String>, slot: TheOneSlot) -> (r: Result<
        (),
        ErrorKind,
    >)
        requires
            old(self).wf(),
        ensures
            final(self).wf(),
            final(self).bus == old(self).bus,
            match assoc_lookup(old(self).open_views(), path.deep_view()) {
                None => {
                    &&& r == Err::<(), ErrorKind>(ErrorKind::NotFound)
                    &&& *final(self) == *old(self)
                },
                Some(w) => {
                    &&& (forall|q: PathModel|
                        q != path.deep_view() ==> assoc_lookup(final(self).open_views(), q)
                            == assoc_lookup(old(self).open_views(), q))
                    &&& if slot_tag(slot) == w.packed_file_type && is_concrete(slot_tag(slot)) {
                        &&& r is Ok
                        &&& (match assoc_lookup(final(self).open_views(), path.deep_view()) {
                            Some(w2) => {
                                &&& w2.is_preview == w.is_preview
                                &&& w2.is_dirty
                                &&& w2.packed_file_type == w.packed_file_type
                                &&& content_of(w2.view) == slot_content(slot)
                            },
                            None => false,
                        })
                    } else {
                        &&& r == Err::<(), ErrorKind>(ErrorKind::UnsupportedType)
                        &&& assoc_lookup(final(self).open_views(), path.deep_view()) == Some(w)
                    }
                },
            },
    {
        match self.views.take(path) {
            Some(mut v) => {
                let res = v.edit(slot);
                self.views.install(path, v);
                res
            },
            None => Err(ErrorKind::NotFound),
        }
    }

    /// Saves the view open at `path` back into the archive: extracts the
    /// live display state and commits it over the bus. A failed save —
    /// nothing to extract, bus closed, or the commit refused — leaves the
    /// archive, the view and its dirty flag unchanged; a successful one
    /// replaces exactly the one committed entry and marks the view clean.
    pub fn save_file(&mut self, path: &Vec<String>) -> (r: Result<(), ErrorKind>)
        requires
            old(self).wf(),
        ensures
            final(self).wf(),
            final(self).bus.is_open() == old(self).bus.is_open(),
            match assoc_lookup(old(self).open_views(), path.deep_view()) {
                None => {
                    &&& r == Err::<(), ErrorKind>(ErrorKind::NotFound)
                    &&& *final(self) == *old(self)
                },
                Some(w) => {
                    &&& (forall|q: PathModel|
                        q != path.deep_view() ==> assoc_lookup(final(self).open_views(), q)
                            == assoc_lookup(old(self).open_views(), q))
                    &&& if !is_concrete(w.packed_file_type) {
                        &&& r == Err::<(), ErrorKind>(ErrorKind::UnsupportedType)
                        &&& final(self).bus == old(self).bus
                        &&& assoc_lookup(final(self).open_views(), path.deep_view()) == Some(w)
                    } else {
                        let c = CommandModel::Commit(path.deep_view(), content_of(w.view));
                        &&& final(self).bus.history@ == old(self).bus.history@.push(c)
                        &&& if !old(self).bus.is_open() {
                            &&& r == Err::<(), ErrorKind>(ErrorKind::BusClosed)
                            &&& final(self).arch() == old(self).arch()
                            &&& assoc_lookup(final(self).open_views(), path.deep_view()) == Some(w)
                        } else {
                            &&& archive_after(old(self).arch(), c, final(self).arch())
                            &&& match commit_error(
                                old(self).arch(),
                                path.deep_view(),
                                content_of(w.view),
                            ) {
                                None => {
                                    &&& r == Ok::<(), ErrorKind>(())
                                    &&& assoc_lookup(final(self).open_views(), path.deep_view())
                                        == Some((PackedFileView { is_dirty: false, ..w }))
                                },
                                Some(e) => {
                                    &&& r == Err::<(), ErrorKind>(e)
                                    &&& final(self).arch() == old(self).arch()
                                    &&& assoc_lookup(final(self).open_views(), path.deep_view())
                                        == Some(w)
                                },
                            }
                        }
                    }
                },
            },
    {
        match self.views.take(path) {
            Some(mut v) => {
                let res = v.save(path, &mut self.bus);
                self.views.install(path, v);
                res
            },
            None => Err(ErrorKind::NotFound),
        }
    }

    /// Closes the view at `path`, discarding its display surface and any
    /// edits never flushed by a save — a documented data-loss boundary.
    /// The bus is not reachable from a close: the archive after a
    /// close-without-save is exactly the archive before it.
    pub fn close_file(&mut self, path: &Vec<String>) -> (was_open: bool)
        requires
            old(self).wf(),
        ensures
            final(self).wf(),
            final(self).bus == old(self).bus,
            was_open == (assoc_lookup(old(self).open_views(), path.deep_view()) is Some),
            assoc_lookup(final(self).open_views(), path.deep_view()) == None::<PackedFileView>,
            forall|q: PathModel|
                q != path.deep_view() ==> assoc_lookup(final(self).open_views(), q)
                    == assoc_lookup(old(self).open_views(), q),
    {
        self.views.close(path)
    }
}

} // verus!
