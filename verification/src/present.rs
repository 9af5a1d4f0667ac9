//! One run of the lister, as decisions on plain values: which path is listed,
//! whether it is scanned at all, and what is printed.

use crate::decimal::decimal_text;
use crate::json::{
    joined, json_elements, lemma_structured_text_on_one_line, on_one_line, quoted_text,
    record_json, structured_output, structured_text, ARRAY_END, ARRAY_START, MEMBER_KIND,
    MEMBER_MODIFIED, MEMBER_NAME, MEMBER_SIZE, OBJECT_END,
};
use crate::record::{describes, models, record_model, EntryMeta, FileRecord, RecordModel};
use crate::scan::{get_files, lists, lists_on, survivors, Scan};
use crate::timestamp::is_offset;
use crate::table::{header_cells, render_table, row_cells, table_cells, table_text};
use crate::tint::{green, green_text, red, red_text};
use vstd::prelude::*;
use vstd::string::*;

verus! {

/// The directory that is listed where none is given.
pub const DEFAULT_PATH: &'static str = "/mnt/d/Rust/Projects/foxdir";

/// What precedes the path in the line that announces it.
pub const SELECTED_PREFIX: &'static str = "selected path: ";

/// The message for a path that does not exist.
pub const MISSING_MESSAGE: &'static str = "The Path does not exist...!";

/// The message for a path whose existence could not be probed.
pub const UNREADABLE_MESSAGE: &'static str = "cannot read directory";

/// How a listing is presented.
#[derive(Clone, Copy, Debug, PartialEq, Eq, Structural)]
pub enum OutputMode {
    /// A bordered table.
    Table,
    /// One line of JSON.
    Structured,
}

/// Why a path is not listed.
#[derive(Clone, Copy, Debug, PartialEq, Eq, Structural)]
pub enum Failure {
    /// The probe answered that the path does not exist.
    Missing,
    /// The probe itself failed.
    Unreadable,
}

/// What a run does once the path has been probed.
#[derive(Clone, Copy, Debug, PartialEq, Eq, Structural)]
pub enum Step {
    /// Scan the directory and present the listing in this mode.
    Scan(OutputMode),
    /// Print the failure's message and end, without scanning.
    Report(Failure),
}

/// The mode that the JSON flag selects.
pub open spec fn mode_of(json: bool) -> OutputMode {
    if json {
        OutputMode::Structured
    } else {
        OutputMode::Table
    }
}

/// The step that follows a probe: `Some(true)` the path exists, `Some(false)`
/// it does not, `None` the probe failed.
pub open spec fn step_after(probe: Option<bool>, json: bool) -> Step {
    match probe {
        Some(true) => Step::Scan(mode_of(json)),
        Some(false) => Step::Report(Failure::Missing),
        None => Step::Report(Failure::Unreadable),
    }
}

/// The path that is listed: the one given, or the default.
pub open spec fn resolved(given: Option<String>) -> Seq<char> {
    match given {
        Some(path) => path@,
        None => DEFAULT_PATH@,
    }
}

impl Failure {
    /// The message of the failure.
    pub open spec fn message_text(self) -> Seq<char> {
        match self {
            Failure::Missing => MISSING_MESSAGE@,
            Failure::Unreadable => UNREADABLE_MESSAGE@,
        }
    }

    /// The message of the failure.
    pub fn message(&self) -> (text: &'static str)
        ensures
            text@ == self.message_text(),
    {
        match self {
            Failure::Missing => MISSING_MESSAGE,
            Failure::Unreadable => UNREADABLE_MESSAGE,
        }
    }

    /// The line printed for the failure: its message, in red.
    pub fn line(&self) -> (text: String)
        ensures
            text@ == red_text(self.message_text()),
    {
        red(self.message())
    }
}

/// The mode that the JSON flag selects: structured where it is set, else a
/// table.
pub fn output_mode(json: bool) -> (mode: OutputMode)
    ensures
        mode == mode_of(json),
{
    if json {
        OutputMode::Structured
    } else {
        OutputMode::Table
    }
}

/// The path that is listed: the one given, or the default where none is.
pub fn resolve_path(given: Option<String>) -> (path: String)
    ensures
        path@ == resolved(given),
{
    match given {
        Some(path) => path,
        None => String::from_str(DEFAULT_PATH),
    }
}

/// The line that announces the path: the prefix, then the path in green.
pub fn selected_path_line(path: &str) -> (line: String)
    ensures
        line@ == SELECTED_PREFIX@ + green_text(path@),
{
    let mut line = String::from_str(SELECTED_PREFIX);
    line.append(green(path).as_str());
    line
}

/// Decides what follows the probe of the path. The directory is scanned only
/// where the probe answered that the path exists; a path that does not exist,
/// and a probe that failed, each end the run with a message of its own.
pub fn plan(probe: Option<bool>, json: bool) -> (step: Step)
    ensures
        step == step_after(probe, json),
        step is Scan <==> probe == Some(true),
{
    match probe {
        Some(true) => Step::Scan(output_mode(json)),
        Some(false) => Step::Report(Failure::Missing),
        None => Step::Report(Failure::Unreadable),
    }
}

/// What is printed for a listing in a mode.
pub open spec fn presented(mode: OutputMode, records: Seq<RecordModel>) -> Seq<char> {
    match mode {
        OutputMode::Table => table_text(table_cells(records)),
        OutputMode::Structured => structured_text(records),
    }
}

/// The text printed for a listing: the table, or the line of JSON.
pub fn present(mode: OutputMode, records: &Vec<FileRecord>) -> (text: String)
    ensures
        text@ == presented(mode, models(records@)),
        mode is Structured ==> on_one_line(text@),
{
    match mode {
        OutputMode::Table => render_table(records),
        OutputMode::Structured => structured_output(records),
    }
}

/// The text printed for a directory that was scanned: the presentation, in
/// the mode, of records that list the entries found, in the order of the
/// enumeration.
pub fn listing(mode: OutputMode, scan: &Scan) -> (text: String)
    ensures
        exists|records: Seq<FileRecord>|
            lists(records, survivors(scan.outcomes())) && text@ == #[trigger] presented(
                mode,
                models(records),
            ),
        mode is Structured ==> on_one_line(text@),
{
    let records = get_files(scan);
    present(mode, &records)
}

/// The JSON object written from the four cells of a table row: the quoted
/// name, the quoted tag, the digits of the size as they stand, the quoted
/// modification time.
pub open spec fn object_of_row(row: Seq<Seq<char>>) -> Seq<char> {
    MEMBER_NAME@ + quoted_text(row[0]) + MEMBER_KIND@ + quoted_text(row[1]) + MEMBER_SIZE@ + row[2]
        + MEMBER_MODIFIED@ + quoted_text(row[3]) + OBJECT_END@
}

/// Both presentations show the entries that were found, each once and in the
/// order of the enumeration: the table has a header row and then one row for
/// each entry, the JSON is the array of one element for each entry, and the
/// row and the element at one place are those of one record, which describes
/// the entry at that place.
pub proof fn lemma_modes_show_the_same_entries(records: Seq<FileRecord>, metas: Seq<EntryMeta>)
    requires
        lists(records, metas),
    ensures
        table_cells(models(records)).len() == metas.len() + 1,
        table_cells(models(records))[0] == header_cells(),
        presented(OutputMode::Table, models(records)) == table_text(table_cells(models(records))),
        json_elements(models(records)).len() == metas.len(),
        presented(OutputMode::Structured, models(records)) == ARRAY_START@ + joined(
            json_elements(models(records)),
        ) + ARRAY_END@,
        on_one_line(presented(OutputMode::Structured, models(records))),
        forall|i: int|
            #![trigger metas[i]]
            0 <= i < metas.len() ==> {
                &&& describes(records[i]@, metas[i])
                &&& table_cells(models(records))[i + 1] == row_cells(records[i]@)
                &&& json_elements(models(records))[i] == record_json(records[i]@)
            },
{
    lemma_structured_text_on_one_line(models(records));
}

/// Every record that the table shows, the JSON shows too, with the same name,
/// the same kind, the same size and the same modification time: the element at
/// a place of the array is written from the cells of the row at that place,
/// and from nothing else.
pub proof fn lemma_json_element_is_written_from_table_row(records: Seq<RecordModel>, i: int)
    requires
        0 <= i < records.len(),
    ensures
        json_elements(records)[i] == object_of_row(table_cells(records)[i + 1]),
        table_cells(records)[i + 1] == seq![
            records[i].name,
            records[i].kind.label_text(),
            decimal_text(records[i].size_bytes),
            records[i].modified,
        ],
{
}

/// Records that list some entries list them on some clocks: one offset for
/// each entry, less than a day, that gives the record of that entry.
pub proof fn lemma_listed_on_some_clocks(records: Seq<FileRecord>, metas: Seq<EntryMeta>) -> (easts:
    Seq<i32>)
    requires
        lists(records, metas),
    ensures
        lists_on(records, metas, easts),
        forall|i: int| 0 <= i < easts.len() ==> is_offset(#[trigger] easts[i]),
{
    let easts = Seq::new(
        records.len(),
        |i: int|
            choose|east: i32|
                is_offset(east) && records[i]@ == #[trigger] record_model(metas[i], east),
    );
    assert forall|i: int| 0 <= i < records.len() implies (#[trigger] records[i])@ == record_model(
        metas[i],
        easts[i],
    ) && is_offset(easts[i]) by {
        assert(describes(records[i]@, metas[i]));
    }
    easts
}

/// One snapshot of a directory has one listing: two scans that found the
/// same entries in the same order, on clocks that stood alike, give records
/// that agree in name, kind, size and modification time, and so the same
/// table and the same JSON.
pub proof fn lemma_one_snapshot_one_listing(
    first: Seq<FileRecord>,
    second: Seq<FileRecord>,
    metas: Seq<EntryMeta>,
    easts: Seq<i32>,
)
    requires
        lists_on(first, metas, easts),
        lists_on(second, metas, easts),
    ensures
        models(first) == models(second),
        forall|i: int| 0 <= i < metas.len() ==> (#[trigger] first[i])@ == second[i]@,
        presented(OutputMode::Table, models(first)) == presented(
            OutputMode::Table,
            models(second),
        ),
        presented(OutputMode::Structured, models(first)) == presented(
            OutputMode::Structured,
            models(second),
        ),
{
    assert(models(first) =~= models(second));
}

/// A directory that could not be opened is presented as an empty one: its
/// listing has no record, its table only the header row, and its JSON is the
/// empty array.
pub proof fn lemma_unopened_directory_is_empty(records: Seq<FileRecord>)
    requires
        lists(records, survivors(Scan::OpenFailed.outcomes())),
    ensures
        records.len() == 0,
        table_cells(models(records)) == seq![header_cells()],
        structured_text(models(records)) == ARRAY_START@ + ARRAY_END@,
        presented(OutputMode::Table, models(records)) == table_text(seq![header_cells()]),
        presented(OutputMode::Structured, models(records)) == ARRAY_START@ + ARRAY_END@,
{
    assert(table_cells(models(records)) =~= seq![header_cells()]);
    assert(joined(json_elements(models(records))) =~= Seq::<char>::empty());
    assert(ARRAY_START@ + Seq::<char>::empty() + ARRAY_END@ =~= ARRAY_START@ + ARRAY_END@);
}

/// A path that does not exist is never scanned: the run ends with the
/// message for a missing path, whatever the mode.
pub proof fn lemma_missing_path_is_reported(json: bool)
    ensures
        step_after(Some(false), json) == Step::Report(Failure::Missing),
        !(step_after(Some(false), json) is Scan),
{
}

} // verus!
