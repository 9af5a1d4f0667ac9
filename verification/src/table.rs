//! The listing as a bordered table.

use crate::decimal::{decimal_string, decimal_text};
use crate::record::{models, FileRecord, RecordModel};
use tabled::settings::object::{Columns, Rows};
use tabled::settings::{Color, Style};
use vstd::prelude::*;
use vstd::string::*;

verus! {

/// The views of a row's cells, in order.
pub open spec fn texts(row: Seq<String>) -> Seq<Seq<char>> {
    Seq::new(row.len(), |j: int| row[j]@)
}

/// The views of a grid's rows, in order.
pub open spec fn cells_of(rows: Seq<Vec<String>>) -> Seq<Seq<Seq<char>>> {
    Seq::new(rows.len(), |i: int| texts(rows[i]@))
}

/// The header row: the titles of the four columns.
pub open spec fn header_cells() -> Seq<Seq<char>> {
    seq!["Name"@, "Type"@, "Bytes"@, "Modified"@]
}

/// The row of one record: its name, the tag of its kind, its size in decimal
/// notation, and its modification time.
pub open spec fn row_cells(record: RecordModel) -> Seq<Seq<char>> {
    seq![
        record.name,
        record.kind.label_text(),
        decimal_text(record.size_bytes),
        record.modified,
    ]
}

/// The grid of a listing: the header row, then one row for each record, in
/// order.
pub open spec fn table_cells(records: Seq<RecordModel>) -> Seq<Seq<Seq<char>>> {
    seq![header_cells()] + Seq::new(records.len(), |i: int| row_cells(records[i]))
}

/// Every row of a listing's grid has four cells.
pub open spec fn four_wide(cells: Seq<Seq<Seq<char>>>) -> bool {
    forall|i: int| 0 <= i < cells.len() ==> (#[trigger] cells[i]).len() == 4
}

/// The text that `tabled` draws for a grid whose first row is the header, in
/// the look of a listing: rounded borders, the header row and each of the four
/// columns tinted in a colour of its own.
pub uninterp spec fn table_text(cells: Seq<Seq<Seq<char>>>) -> Seq<char>;

/// Builds a `tabled::Table` from the rows with `tabled::builder::Builder`,
/// gives it `Style::rounded()` and a foreground `Color` for each column and
/// for the first row, and writes it out through its `Display`. Not proved:
/// that the text depends on the cells alone.
#[verifier::external_body]
fn draw_table(rows: Vec<Vec<String>>) -> (text: String)
    requires
        rows@.len() >= 1,
        four_wide(cells_of(rows@)),
    ensures
        text@ == table_text(cells_of(rows@)),
{
    let mut table = tabled::builder::Builder::from(rows).build();
    table.with(Style::rounded());
    table.modify(Columns::first(), Color::FG_BRIGHT_CYAN);
    table.modify(Columns::one(1), Color::FG_BRIGHT_WHITE);
    table.modify(Columns::one(2), Color::FG_BRIGHT_MAGENTA);
    table.modify(Columns::one(3), Color::FG_BRIGHT_YELLOW);
    table.modify(Rows::first(), Color::FG_BRIGHT_GREEN);
    table.to_string()
}

/// The header row.
pub fn header_row() -> (row: Vec<String>)
    ensures
        texts(row@) == header_cells(),
{
    let mut row: Vec<String> = Vec::new();
    row.push(String::from_str("Name"));
    row.push(String::from_str("Type"));
    row.push(String::from_str("Bytes"));
    row.push(String::from_str("Modified"));
    assert(texts(row@) =~= header_cells());
    row
}

/// The row of one record.
pub fn record_row(record: &FileRecord) -> (row: Vec<String>)
    ensures
        texts(row@) == row_cells(record@),
{
    let mut row: Vec<String> = Vec::new();
    row.push(record.name.clone());
    row.push(String::from_str(record.kind.label()));
    row.push(decimal_string(record.size_bytes));
    row.push(record.modified.clone());
    assert(texts(row@) =~= row_cells(record@));
    row
}

/// The grid of a listing: the header row, then one row for each record, in
/// order.
pub fn table_rows(records: &Vec<FileRecord>) -> (rows: Vec<Vec<String>>)
    ensures
        cells_of(rows@) == table_cells(models(records@)),
{
    let mut rows: Vec<Vec<String>> = Vec::new();
    rows.push(header_row());
    let mut i: usize = 0;
    while i < records.len()
        invariant
            i <= records.len(),
            rows@.len() == i + 1,
            texts(rows@[0]@) == header_cells(),
            forall|k: int| 0 <= k < i ==> texts(#[trigger] rows@[k + 1]@) == row_cells(records@[k]@),
        decreases records.len() - i,
    {
        rows.push(record_row(&records[i]));
        i += 1;
    }
    assert(cells_of(rows@) =~= table_cells(models(records@))) by {
        assert forall|k: int| 0 <= k < rows@.len() implies cells_of(rows@)[k] == table_cells(
            models(records@),
        )[k] by {
            if k > 0 {
                assert(texts(rows@[(k - 1) + 1]@) == row_cells(records@[k - 1]@));
            }
        }
    }
    rows
}

/// The listing as a table: a header row and one row for each record, in
/// order, drawn with rounded borders and tinted columns.
pub fn render_table(records: &Vec<FileRecord>) -> (text: String)
    ensures
        text@ == table_text(table_cells(models(records@))),
{
    let rows = table_rows(records);
    assert(four_wide(cells_of(rows@))) by {
        assert forall|i: int| 0 <= i < cells_of(rows@).len() implies (#[trigger] cells_of(
            rows@,
        )[i]).len() == 4 by {
            assert(cells_of(rows@)[i] == table_cells(models(records@))[i]);
        }
    }
    draw_table(rows)
}

} // verus!
