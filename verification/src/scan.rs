//! From the outcome of reading a directory to the records of its entries.

use crate::record::{describes, map_entry, record_model, EntryMeta, FileRecord};
use vstd::prelude::*;

verus! {

/// What came of one step of the enumeration.
#[derive(Clone, Debug, PartialEq, Eq)]
pub enum EntryOutcome {
    /// The entry itself could not be read.
    Unreadable,
    /// The entry was read, its metadata was refused.
    NoMetadata,
    /// The entry and its metadata were read.
    Found(EntryMeta),
}

/// What came of reading a directory.
#[derive(Clone, Debug, PartialEq, Eq)]
pub enum Scan {
    /// The directory could not be opened.
    OpenFailed,
    /// The directory was opened; its entries, in the order the system gave.
    Opened(Vec<EntryOutcome>),
}

impl Scan {
    /// The outcomes of the enumeration: none where the directory did not open.
    pub open spec fn outcomes(self) -> Seq<EntryOutcome> {
        match self {
            Scan::OpenFailed => Seq::empty(),
            Scan::Opened(entries) => entries@,
        }
    }
}

/// The entry of an outcome, if it has one.
pub open spec fn found_entry(outcome: EntryOutcome) -> Option<EntryMeta> {
    match outcome {
        EntryOutcome::Found(meta) => Some(meta),
        _ => None,
    }
}

/// `found_entry` as a function value.
pub open spec fn found_entry_fn() -> spec_fn(EntryOutcome) -> Option<EntryMeta> {
    |outcome: EntryOutcome| found_entry(outcome)
}

/// The entries that a listing shows: those that were found with their
/// metadata, in the order of the enumeration.
pub open spec fn survivors(outcomes: Seq<EntryOutcome>) -> Seq<EntryMeta> {
    outcomes.filter_map(found_entry_fn())
}

/// `records` lists `metas`: one record for each, in order, that describes it.
pub open spec fn lists(records: Seq<FileRecord>, metas: Seq<EntryMeta>) -> bool {
    &&& records.len() == metas.len()
    &&& forall|i: int|
        0 <= i < records.len() ==> describes(#[trigger] records[i]@, metas[i]) && records[i].wf()
}

/// `records` lists `metas` on the clocks `easts`: one record for each entry, in
/// order, which is the record of that entry on a clock that many seconds east
/// of UTC.
pub open spec fn lists_on(
    records: Seq<FileRecord>,
    metas: Seq<EntryMeta>,
    easts: Seq<i32>,
) -> bool {
    &&& records.len() == metas.len()
    &&& easts.len() == metas.len()
    &&& forall|i: int|
        0 <= i < records.len() ==> (#[trigger] records[i])@ == record_model(metas[i], easts[i])
}

/// A listing never has more records than the enumeration had outcomes, and
/// has as many where every entry was found.
pub proof fn lemma_survivors_len(outcomes: Seq<EntryOutcome>)
    ensures
        survivors(outcomes).len() <= outcomes.len(),
        (forall|i: int| 0 <= i < outcomes.len() ==> outcomes[i] is Found) ==> survivors(
            outcomes,
        ).len() == outcomes.len(),
    decreases outcomes.len(),
{
    if outcomes.len() > 0 {
        lemma_survivors_len(outcomes.drop_last());
    }
}

/// Appends the record of `entry` to `data` where the entry was found with its
/// metadata, and leaves `data` as it is where it was not.
pub fn map_data(entry: &EntryOutcome, data: &mut Vec<FileRecord>)
    ensures
        match *entry {
            EntryOutcome::Found(meta) => {
                &&& final(data)@.len() == old(data)@.len() + 1
                &&& final(data)@.drop_last() == old(data)@
                &&& describes(final(data)@.last()@, meta)
                &&& final(data)@.last().wf()
            },
            _ => final(data)@ == old(data)@,
        },
{
    match entry {
        EntryOutcome::Found(meta) => {
            let record = map_entry(meta);
            data.push(record);
            assert(data@.drop_last() =~= old(data)@);
        },
        _ => {},
    }
}

/// The records of a directory: one for each entry that was found with its
/// metadata, in the order of the enumeration, and none where the directory
/// could not be opened.
pub fn get_files(scan: &Scan) -> (records: Vec<FileRecord>)
    ensures
        lists(records@, survivors(scan.outcomes())),
        *scan is OpenFailed ==> records@.len() == 0,
{
    let mut data: Vec<FileRecord> = Vec::new();
    if let Scan::Opened(entries) = scan {
        let mut i: usize = 0;
        while i < entries.len()
            invariant
                i <= entries.len(),
                lists(data@, survivors(entries@.take(i as int))),
            decreases entries.len() - i,
        {
            let ghost before = data@;
            map_data(&entries[i], &mut data);
            proof {
                entries@.lemma_filter_map_take_succ(found_entry_fn(), i as int);
                assert forall|k: int| 0 <= k < data@.len() implies describes(
                    #[trigger] data@[k]@,
                    survivors(entries@.take(i + 1))[k],
                ) && data@[k].wf() by {
                    if entries@[i as int] is Found && k < before.len() {
                        assert(data@[k] == data@.drop_last()[k]);
                    }
                }
            }
            i += 1;
        }
        assert(entries@.take(i as int) =~= entries@);
    }
    data
}

} // verus!
