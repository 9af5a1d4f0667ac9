//! The record of one directory entry, and how it is made from what the
//! system reported of the entry.

use crate::timestamp::{
    accepted_text, clock_text, is_modified_text, is_offset, local_east, modified_text_at,
    modified_with, Timestamp, TIMESTAMP_PATTERN, UNKNOWN_TIME,
};
use vstd::prelude::*;
use vstd::string::*;

verus! {

/// The name shown for an entry whose name is not valid text.
pub const UNKNOWN_NAME: &'static str = "unknown name";

/// What an entry is: a directory, or anything else.
#[derive(Clone, Copy, Debug, PartialEq, Eq, Structural)]
pub enum EntryKind {
    File,
    Directory,
}

impl EntryKind {
    /// The kind of an entry, by the directory bit of its metadata.
    pub open spec fn of_dir_bit(is_dir: bool) -> EntryKind {
        if is_dir {
            EntryKind::Directory
        } else {
            EntryKind::File
        }
    }

    /// The tag shown for the kind, in the table and in the JSON alike.
    pub open spec fn label_text(self) -> Seq<char> {
        match self {
            EntryKind::File => "File"@,
            EntryKind::Directory => "Dir"@,
        }
    }

    /// Classifies an entry by the directory bit of its metadata.
    pub fn of(is_dir: bool) -> (kind: EntryKind)
        ensures
            kind == EntryKind::of_dir_bit(is_dir),
            kind is Directory <==> is_dir,
    {
        if is_dir {
            EntryKind::Directory
        } else {
            EntryKind::File
        }
    }

    /// The tag shown for the kind.
    pub fn label(&self) -> (text: &'static str)
        ensures
            text@ == self.label_text(),
    {
        match self {
            EntryKind::File => "File",
            EntryKind::Directory => "Dir",
        }
    }
}

/// What the system reported of one entry whose metadata could be read.
#[derive(Clone, Debug, PartialEq, Eq)]
pub struct EntryMeta {
    /// The base name, or `None` where it is not valid text.
    pub name: Option<String>,
    /// The directory bit.
    pub is_dir: bool,
    /// The size in bytes.
    pub len: u64,
    /// The modification time, or `None` where the system gave none.
    pub modified: Option<Timestamp>,
}

/// One line of a listing.
#[derive(Clone, Debug, PartialEq, Eq)]
pub struct FileRecord {
    pub name: String,
    pub kind: EntryKind,
    pub size_bytes: u64,
    pub modified: String,
}

/// A record as plain mathematical values.
pub struct RecordModel {
    pub name: Seq<char>,
    pub kind: EntryKind,
    pub size_bytes: nat,
    pub modified: Seq<char>,
}

impl View for FileRecord {
    type V = RecordModel;

    open spec fn view(&self) -> RecordModel {
        RecordModel {
            name: self.name@,
            kind: self.kind,
            size_bytes: self.size_bytes as nat,
            modified: self.modified@,
        }
    }
}

impl FileRecord {
    /// The modification time is a well-formed timestamp or the word for an
    /// unknown one.
    pub open spec fn wf(&self) -> bool {
        is_modified_text(self.modified@)
    }
}

/// The views of a sequence of records, in order.
pub open spec fn models(records: Seq<FileRecord>) -> Seq<RecordModel> {
    Seq::new(records.len(), |i: int| records[i]@)
}

/// The name shown for an entry: its own, or the placeholder.
pub open spec fn shown_name(name: Option<String>) -> Seq<char> {
    match name {
        Some(n) => n@,
        None => UNKNOWN_NAME@,
    }
}

/// The record of an entry on a clock that stands `east` seconds east of UTC
/// at the entry's modification time.
pub open spec fn record_model(meta: EntryMeta, east: i32) -> RecordModel {
    RecordModel {
        name: shown_name(meta.name),
        kind: EntryKind::of_dir_bit(meta.is_dir),
        size_bytes: meta.len as nat,
        modified: modified_with(meta.modified, east),
    }
}

/// `record` is the record of `meta` on some clock.
pub open spec fn describes(record: RecordModel, meta: EntryMeta) -> bool {
    exists|east: i32| is_offset(east) && record == #[trigger] record_model(meta, east)
}

/// A record that describes an entry has the entry's name or the placeholder,
/// its size, and the kind that its directory bit gives. Its modification time
/// is the word for an unknown one where the system gave no time. Where the
/// system gave one it is what chrono writes for it at some offset, if that is
/// a well-formed timestamp, and the word for an unknown time if it is not.
/// Either way it is a well-formed timestamp or that word.
pub proof fn lemma_described(record: RecordModel, meta: EntryMeta)
    requires
        describes(record, meta),
    ensures
        record.name == shown_name(meta.name),
        record.kind is Directory <==> meta.is_dir,
        record.kind is File <==> !meta.is_dir,
        record.size_bytes == meta.len,
        is_modified_text(record.modified),
        meta.modified is None ==> record.modified == UNKNOWN_TIME@,
        meta.modified matches Some(at) ==> exists|east: i32|
            is_offset(east) && record.modified == accepted_text(
                #[trigger] clock_text(at.secs, at.nanos, east, TIMESTAMP_PATTERN@),
            ),
{
    let east = choose|east: i32| is_offset(east) && record == #[trigger] record_model(meta, east);
    if let Some(at) = meta.modified {
        assert(record.modified == accepted_text(
            clock_text(at.secs, at.nanos, east, TIMESTAMP_PATTERN@),
        ));
    }
}

fn show_name(name: &Option<String>) -> (text: String)
    ensures
        text@ == shown_name(*name),
{
    match name {
        Some(n) => n.clone(),
        None => String::from_str(UNKNOWN_NAME),
    }
}

/// Makes the record of an entry on a clock `east` seconds east of UTC.
pub fn map_entry_at(meta: &EntryMeta, east: i32) -> (record: FileRecord)
    ensures
        record@ == record_model(*meta, east),
        record.wf(),
{
    FileRecord {
        name: show_name(&meta.name),
        kind: EntryKind::of(meta.is_dir),
        size_bytes: meta.len,
        modified: modified_text_at(meta.modified, east),
    }
}

/// Makes the record of an entry on this machine's clock.
pub fn map_entry(meta: &EntryMeta) -> (record: FileRecord)
    ensures
        describes(record@, *meta),
        record.wf(),
{
    let east = local_east(meta.modified);
    let record = map_entry_at(meta, east);
    assert(record@ == record_model(*meta, east));
    record
}

} // verus!
