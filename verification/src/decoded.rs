//! The typed decoded representation of one archive entry.
//!
//! A `DecodedFile` is the structured, editable form of an entry's contents,
//! tagged by `PackedFileType`. The backend owner produces one on fetch and
//! consumes one on commit; the presentation side builds a view from it and
//! extracts one back at save time.

use crate::errors::ErrorKind;
use vstd::prelude::*;

verus! {

/// The closed tag deciding which view variant and which codec path applies
/// to an entry.
#[derive(Clone, Copy, Debug, PartialEq, Eq, Structural)]
pub enum PackedFileType {
    Image,
    Text,
    Table,
    Unknown,
}

/// The mathematical value of a `DecodedFile`: the same tagged union over
/// sequences instead of vectors and strings.
pub enum DecodedModel {
    Image(Seq<u8>),
    Text(Seq<char>),
    Table(Seq<Seq<Seq<char>>>),
    Unknown,
}

/// The tag of a decoded value.
pub open spec fn tag_of(d: DecodedModel) -> PackedFileType {
    match d {
        DecodedModel::Image(_) => PackedFileType::Image,
        DecodedModel::Text(_) => PackedFileType::Text,
        DecodedModel::Table(_) => PackedFileType::Table,
        DecodedModel::Unknown => PackedFileType::Unknown,
    }
}

/// A tag with a concrete decoded representation and a concrete view;
/// `Unknown` has neither.
pub open spec fn is_concrete(t: PackedFileType) -> bool {
    t != PackedFileType::Unknown
}

/// The structured contents of one archive entry, tagged by type.
///
/// A text entry carries its contents as one string, a table its rows of
/// cells, an image its raw pixel data. `Unknown` stands for an entry whose
/// type could not be determined; it has no editable representation.
#[derive(Debug)]
pub enum DecodedFile {
    Image(Vec<u8>),
    Text(String),
    Table(Vec<Vec<String>>),
    Unknown,
}

impl View for DecodedFile {
    type V = DecodedModel;

    open spec fn view(&self) -> DecodedModel {
        match self {
            DecodedFile::Image(bytes) => DecodedModel::Image(bytes@),
            DecodedFile::Text(contents) => DecodedModel::Text(contents@),
            DecodedFile::Table(rows) => DecodedModel::Table(rows.deep_view()),
            DecodedFile::Unknown => DecodedModel::Unknown,
        }
    }
}

impl DecodedFile {
    /// The type tag of this decoded value.
    pub fn tag(&self) -> (t: PackedFileType)
        ensures
            t == tag_of(self@),
    {
        match self {
            DecodedFile::Image(_) => PackedFileType::Image,
            DecodedFile::Text(_) => PackedFileType::Text,
            DecodedFile::Table(_) => PackedFileType::Table,
            DecodedFile::Unknown => PackedFileType::Unknown,
        }
    }

    /// An independent copy with the same mathematical value, for handing a
    /// snapshot across the bus while the owner keeps its own.
    pub fn duplicate(&self) -> (r: DecodedFile)
        ensures
            r@ == self@,
    {
        match self {
            DecodedFile::Image(bytes) => DecodedFile::Image(copy_bytes(bytes)),
            DecodedFile::Text(contents) => DecodedFile::Text(contents.clone()),
            DecodedFile::Table(rows) => DecodedFile::Table(copy_rows(rows)),
            DecodedFile::Unknown => DecodedFile::Unknown,
        }
    }
}

/// An element-for-element copy of a byte vector.
pub fn copy_bytes(v: &Vec<u8>) -> (r: Vec<u8>)
    ensures
        r@ == v@,
{
    let mut r: Vec<u8> = Vec::new();
    let mut i: usize = 0;
    while i < v.len()
        invariant
            i <= v.len(),
            r@ == v@.subrange(0, i as int),
        decreases v.len() - i,
    {
        r.push(v[i]);
        i = i + 1;
        assert(r@ =~= v@.subrange(0, i as int));
    }
    assert(r@ =~= v@);
    r
}

/// An element-for-element copy of one table row.
pub fn copy_row(row: &Vec<String>) -> (r: Vec<String>)
    ensures
        r.deep_view() == row.deep_view(),
{
    let mut r: Vec<String> = Vec::new();
    let mut i: usize = 0;
    while i < row.len()
        invariant
            i <= row.len(),
            r.len() == i,
            forall|j: int| 0 <= j < i ==> r.deep_view()[j] == row.deep_view()[j],
        decreases row.len() - i,
    {
        r.push(row[i].clone());
        i = i + 1;
    }
    assert(r.deep_view() =~= row.deep_view());
    r
}

/// A row-for-row copy of a table's cells.
pub fn copy_rows(rows: &Vec<Vec<String>>) -> (r: Vec<Vec<String>>)
    ensures
        r.deep_view() == rows.deep_view(),
{
    let mut r: Vec<Vec<String>> = Vec::new();
    let mut i: usize = 0;
    while i < rows.len()
        invariant
            i <= rows.len(),
            r.len() == i,
            forall|j: int| 0 <= j < i ==> r.deep_view()[j] == rows.deep_view()[j],
        decreases rows.len() - i,
    {
        r.push(copy_row(&rows[i]));
        i = i + 1;
    }
    assert(r.deep_view() =~= rows.deep_view());
    r
}

/// Encodes a decoded value back into the payload stored for an entry
/// registered with type `registered`.
///
/// Encoding is total on concrete values whose tag matches the registered
/// type, and fails without any other effect otherwise: an `Unknown` value
/// has no codec at all (`UnsupportedType`), and a concrete value of the
/// wrong tag cannot be serialized into the entry (`EncodeError`).
pub fn encode(d: &DecodedFile, registered: PackedFileType) -> (r: Result<DecodedFile, ErrorKind>)
    ensures
        match r {
            Ok(stored) => {
                &&& stored@ == d@
                &&& is_concrete(tag_of(d@))
                &&& tag_of(d@) == registered
            },
            Err(e) => {
                &&& !(is_concrete(tag_of(d@)) && tag_of(d@) == registered)
                &&& e == (if !is_concrete(tag_of(d@)) {
                    ErrorKind::UnsupportedType
                } else {
                    ErrorKind::EncodeError
                })
            },
        },
{
    let t = d.tag();
    if matches!(t, PackedFileType::Unknown) {
        Err(ErrorKind::UnsupportedType)
    } else if t != registered {
        Err(ErrorKind::EncodeError)
    } else {
        Ok(d.duplicate())
    }
}

/// Decodes the stored payload of an entry into the decoded value handed to
/// the presentation side. Decoding is pure and deterministic: the same
/// stored payload always yields the same decoded value.
pub fn decode(stored: &DecodedFile) -> (r: DecodedFile)
    ensures
        r@ == stored@,
{
    stored.duplicate()
}

} // verus!
