//! The command bus and the backend owner.
//!
//! The backend owner holds the one authoritative archive. The presentation
//! side reaches it only through typed commands sent over the bus; the owner
//! handles each command fully, mutating or querying the archive and
//! producing exactly one response, before the next command is taken.

use crate::assoc::{
    assoc_lookup, copy_path, keys_unique, lemma_lookup_match, lemma_lookup_none,
    lemma_lookup_push, lemma_lookup_update, path_eq, PathModel,
};
use crate::decoded::{decode, encode, is_concrete, tag_of, DecodedFile, DecodedModel, PackedFileType};
use crate::errors::ErrorKind;
use vstd::prelude::*;

verus! {

/// A request sent from the presentation side to the backend owner.
pub enum Command {
    /// Look up and decode the entry at the given path.
    Fetch(Vec<String>),
    /// Encode the given decoded value and replace the entry at the path.
    Commit(Vec<String>, DecodedFile),
}

/// The mathematical value of a `Command`.
pub enum CommandModel {
    Fetch(PathModel),
    Commit(PathModel, DecodedModel),
}

impl View for Command {
    type V = CommandModel;

    open spec fn view(&self) -> CommandModel {
        match self {
            Command::Fetch(path) => CommandModel::Fetch(path.deep_view()),
            Command::Commit(path, data) => CommandModel::Commit(path.deep_view(), data@),
        }
    }
}

/// The single response produced for a command.
pub enum Response {
    /// A fetch succeeded; carries the decoded entry.
    File(DecodedFile),
    /// A commit succeeded.
    Ack,
    /// The command failed; the archive is unchanged.
    Error(ErrorKind),
}

/// The mathematical value of a `Response`.
pub enum ResponseModel {
    File(DecodedModel),
    Ack,
    Error(ErrorKind),
}

impl View for Response {
    type V = ResponseModel;

    open spec fn view(&self) -> ResponseModel {
        match self {
            Response::File(data) => ResponseModel::File(data@),
            Response::Ack => ResponseModel::Ack,
            Response::Error(e) => ResponseModel::Error(*e),
        }
    }
}

/// One archived entry: its path, its registered type, and its stored payload.
pub struct ArchiveEntry {
    pub path: Vec<String>,
    pub kind: PackedFileType,
    pub data: DecodedFile,
}

/// The registered type and stored value of one entry, as the archive model
/// carries them.
pub type EntryModel = (PackedFileType, DecodedModel);

/// The model of a whole archive: path-keyed entries in storage order.
pub type ArchiveModel = Seq<(PathModel, EntryModel)>;

/// The response the backend owes a fetch of `p` against archive `a`.
pub open spec fn fetch_result(a: ArchiveModel, p: PathModel) -> ResponseModel {
    match assoc_lookup(a, p) {
        Some(e) => ResponseModel::File(e.1),
        None => ResponseModel::Error(ErrorKind::NotFound),
    }
}

/// Why a commit of `d` at `p` against archive `a` fails, if it does.
///
/// A commit fails exactly when the path has no entry, the value has no
/// codec at all, or the value's tag does not match the entry's registered
/// type; success is owed in every other case.
pub open spec fn commit_error(a: ArchiveModel, p: PathModel, d: DecodedModel) -> Option<ErrorKind> {
    match assoc_lookup(a, p) {
        None => Some(ErrorKind::NotFound),
        Some(e) => if !is_concrete(tag_of(d)) {
            Some(ErrorKind::UnsupportedType)
        } else if tag_of(d) != e.0 {
            Some(ErrorKind::EncodeError)
        } else {
            None
        },
    }
}

/// The response the backend owes command `c` against archive `a`.
pub open spec fn step_response(a: ArchiveModel, c: CommandModel) -> ResponseModel {
    match c {
        CommandModel::Fetch(p) => fetch_result(a, p),
        CommandModel::Commit(p, d) => match commit_error(a, p, d) {
            Some(e) => ResponseModel::Error(e),
            None => ResponseModel::Ack,
        },
    }
}

/// How the archive may change when command `c` is handled: a fetch or a
/// failed commit leaves it exactly as it was, and a successful commit
/// replaces the one entry at the commit's path and nothing else.
pub open spec fn archive_after(a: ArchiveModel, c: CommandModel, b: ArchiveModel) -> bool {
    match c {
        CommandModel::Fetch(_) => b == a,
        CommandModel::Commit(p, d) => if commit_error(a, p, d) is None {
            &&& assoc_lookup(b, p) == Some((tag_of(d), d))
            &&& forall|q: PathModel| q != p ==> assoc_lookup(b, q) == assoc_lookup(a, q)
            &&& b.len() == a.len()
        } else {
            b == a
        },
    }
}

/// The backend owner: the single authoritative holder and mutator of the
/// archive.
pub struct Backend {
    pub entries: Vec<ArchiveEntry>,
}

impl Backend {
    /// The archive as a path-keyed association sequence.
    pub open spec fn arch(&self) -> ArchiveModel {
        self.entries@.map_values(|e: ArchiveEntry| (e.path.deep_view(), (e.kind, e.data@)))
    }

    /// Well-formedness: entry paths are pairwise distinct, and every stored
    /// payload's tag matches its entry's registered type.
    pub open spec fn wf(&self) -> bool {
        &&& keys_unique(self.arch())
        &&& forall|i: int| 0 <= i < self.arch().len() ==> #[trigger] self.arch()[i].1.0 == tag_of(
            self.arch()[i].1.1,
        )
    }

    /// An empty archive.
    pub fn new() -> (b: Backend)
        ensures
            b.wf(),
            b.arch().len() == 0,
    {
        Backend { entries: Vec::new() }
    }

    /// The index of the entry at `path`, if any.
    fn find_entry(&self, path: &Vec<String>) -> (r: Option<usize>)
        ensures
            match r {
                Some(i) => {
                    &&& i < self.arch().len()
                    &&& self.arch()[i as int].0 == path.deep_view()
                    &&& forall|j: int| 0 <= j < i ==> self.arch()[j].0 != path.deep_view()
                },
                None => forall|j: int|
                    0 <= j < self.arch().len() ==> self.arch()[j].0 != path.deep_view(),
            },
    {
        let mut i: usize = 0;
        while i < self.entries.len()
            invariant
                i <= self.entries.len(),
                forall|j: int| 0 <= j < i ==> self.arch()[j].0 != path.deep_view(),
            decreases self.entries.len() - i,
        {
            if path_eq(&self.entries[i].path, path) {
                return Some(i);
            }
            i = i + 1;
        }
        None
    }

    /// Registers a fresh entry. Succeeds exactly when no entry occupies the
    /// path yet and the payload's tag matches the registered type; fails
    /// without any effect otherwise.
    pub fn insert_entry(&mut self, path: Vec<String>, kind: PackedFileType, data: DecodedFile) -> (r:
        bool)
        requires
            old(self).wf(),
        ensures
            final(self).wf(),
            if assoc_lookup(old(self).arch(), path.deep_view()) is None && tag_of(data@) == kind {
                &&& r
                &&& assoc_lookup(final(self).arch(), path.deep_view()) == Some((kind, data@))
                &&& forall|q: PathModel|
                    q != path.deep_view() ==> assoc_lookup(final(self).arch(), q) == assoc_lookup(
                        old(self).arch(),
                        q,
                    )
                &&& final(self).arch().len() == old(self).arch().len() + 1
            } else {
                &&& !r
                &&& *final(self) == *old(self)
            },
    {
        let p = Ghost(path.deep_view());
        let found = self.find_entry(&path);
        let tag_ok = data.tag() == kind;
        match found {
            Some(i) => {
                proof {
                    lemma_lookup_match(self.arch(), p@, i as int);
                }
                false
            },
            None => {
                proof {
                    lemma_lookup_none(self.arch(), p@);
                }
                if !tag_ok {
                    false
                } else {
                    let ghost a0 = self.arch();
                    let entry = ArchiveEntry { path, kind, data };
                    let ghost em = (entry.path.deep_view(), (entry.kind, entry.data@));
                    self.entries.push(entry);
                    proof {
                        assert(self.arch() =~= a0.push(em));
                        lemma_lookup_push(a0, p@, em.1);
                    }
                    true
                }
            },
        }
    }

    /// Handles a fetch: looks the entry up and decodes its stored payload.
    /// Pure: the archive is not touched.
    pub fn fetch(&self, path: &Vec<String>) -> (r: Response)
        requires
            self.wf(),
        ensures
            r@ == fetch_result(self.arch(), path.deep_view()),
    {
        let ghost p = path.deep_view();
        match self.find_entry(path) {
            Some(i) => {
                proof {
                    lemma_lookup_match(self.arch(), p, i as int);
                }
                Response::File(decode(&self.entries[i].data))
            },
            None => {
                proof {
                    lemma_lookup_none(self.arch(), p);
                }
                Response::Error(ErrorKind::NotFound)
            },
        }
    }

    /// Handles a commit: encodes the decoded value and replaces the one
    /// entry at the path atomically. On any failure the archive is left
    /// exactly as it was; no partial write is ever visible.
    pub fn commit(&mut self, path: &Vec<String>, data: DecodedFile) -> (r: Response)
        requires
            old(self).wf(),
        ensures
            final(self).wf(),
            r@ == step_response(old(self).arch(), CommandModel::Commit(path.deep_view(), data@)),
            archive_after(
                old(self).arch(),
                CommandModel::Commit(path.deep_view(), data@),
                final(self).arch(),
            ),
    {
        let ghost p = path.deep_view();
        let ghost a0 = self.arch();
        match self.find_entry(path) {
            Some(i) => {
                proof {
                    lemma_lookup_match(a0, p, i as int);
                }
                let kind = self.entries[i].kind;
                match encode(&data, kind) {
                    Ok(stored) => {
                        let entry = ArchiveEntry { path: copy_path(path), kind, data: stored };
                        let ghost em = (entry.path.deep_view(), (entry.kind, entry.data@));
                        self.entries.set(i, entry);
                        proof {
                            assert(self.arch() =~= a0.update(i as int, em));
                            lemma_lookup_update(a0, i as int, p, em.1);
                        }
                        Response::Ack
                    },
                    Err(e) => Response::Error(e),
                }
            },
            None => {
                proof {
                    lemma_lookup_none(a0, p);
                }
                Response::Error(ErrorKind::NotFound)
            },
        }
    }

    /// One turn of the owner's loop: dispatch the command by kind, mutate
    /// or query the archive, and produce the one response owed for it.
    pub fn process(&mut self, cmd: Command) -> (r: Response)
        requires
            old(self).wf(),
        ensures
            final(self).wf(),
            r@ == step_response(old(self).arch(), cmd@),
            archive_after(old(self).arch(), cmd@, final(self).arch()),
    {
        match cmd {
            Command::Fetch(path) => self.fetch(&path),
            Command::Commit(path, data) => self.commit(&path, data),
        }
    }
}

/// The bounded, ordered channel between the presentation side and the
/// backend owner. There is exactly one receiving end, so the owner is the
/// only writer of the archive by construction; a ghost history records the
/// commands in the order they were delivered.
pub struct CommandBus {
    pub backend: Backend,
    pub open: bool,
    pub history: Ghost<Seq<CommandModel>>,
}

impl CommandBus {
    /// The bus still has a live owner behind it.
    pub open spec fn is_open(&self) -> bool {
        self.open
    }

    /// The archive held by the owner behind this bus.
    pub open spec fn arch(&self) -> ArchiveModel {
        self.backend.arch()
    }

    pub open spec fn wf(&self) -> bool {
        self.backend.wf()
    }

    /// Wraps a backend owner as the single receiving end of a new bus.
    pub fn new(backend: Backend) -> (bus: CommandBus)
        requires
            backend.wf(),
        ensures
            bus.wf(),
            bus.is_open(),
            bus.arch() == backend.arch(),
            bus.history@ == Seq::<CommandModel>::empty(),
    {
        CommandBus { backend, open: true, history: Ghost(Seq::empty()) }
    }

    /// Delivers one command to the owner and returns its one response.
    ///
    /// Commands are handled strictly in the order sent: each call appends
    /// its command to the history and fully applies it before returning.
    /// If the owner is gone the command is not delivered, nothing changes
    /// but the history, and the caller gets `BusClosed`.
    pub fn send(&mut self, cmd: Command) -> (r: Response)
        requires
            old(self).wf(),
        ensures
            final(self).wf(),
            final(self).is_open() == old(self).is_open(),
            final(self).history@ == old(self).history@.push(cmd@),
            if old(self).is_open() {
                &&& r@ == step_response(old(self).arch(), cmd@)
                &&& archive_after(old(self).arch(), cmd@, final(self).arch())
            } else {
                &&& r@ == ResponseModel::Error(ErrorKind::BusClosed)
                &&& final(self).arch() == old(self).arch()
            },
    {
        let ghost c = cmd@;
        let r = if self.open {
            self.backend.process(cmd)
        } else {
            Response::Error(ErrorKind::BusClosed)
        };
        proof {
            self.history@ = self.history@.push(c);
        }
        r
    }

    /// Tears the owner down: every later send fails with `BusClosed`.
    pub fn shutdown(&mut self)
        ensures
            !final(self).is_open(),
            final(self).arch() == old(self).arch(),
            final(self).wf() == old(self).wf(),
            final(self).history@ == old(self).history@,
    {
        self.open = false;
    }
}

/// Atomicity of a failed commit: if handling `Commit(p, d)` against archive
/// `a` fails, the archive `b` it leaves behind is `a` itself, so a fetch of
/// `p` after the failed commit returns exactly what it returned before.
pub proof fn lemma_failed_commit_atomic(
    a: ArchiveModel,
    b: ArchiveModel,
    p: PathModel,
    d: DecodedModel,
)
    requires
        commit_error(a, p, d) is Some,
        archive_after(a, CommandModel::Commit(p, d), b),
    ensures
        b == a,
        fetch_result(b, p) == fetch_result(a, p),
{
}

/// A commit is atomic with respect to the fetches that follow it: once a
/// commit of `d` at `p` is acknowledged, a fetch of `p` against the archive
/// it left behind observes exactly the committed value.
pub proof fn lemma_fetch_after_commit(
    a: ArchiveModel,
    b: ArchiveModel,
    p: PathModel,
    d: DecodedModel,
)
    requires
        commit_error(a, p, d) is None,
        archive_after(a, CommandModel::Commit(p, d), b),
    ensures
        fetch_result(b, p) == ResponseModel::File(d),
{
}

/// First-in-first-out delivery: when two commits to the same path are sent
/// in order and both succeed, the later one wins — a fetch of the path
/// against the final archive returns the second value, never the first.
pub proof fn lemma_fifo_two_commits(
    a: ArchiveModel,
    b: ArchiveModel,
    c: ArchiveModel,
    p: PathModel,
    d1: DecodedModel,
    d2: DecodedModel,
)
    requires
        archive_after(a, CommandModel::Commit(p, d1), b),
        archive_after(b, CommandModel::Commit(p, d2), c),
        commit_error(a, p, d1) is None,
        commit_error(b, p, d2) is None,
    ensures
        fetch_result(c, p) == ResponseModel::File(d2),
{
}

} // verus!
