use dirview::record::{EntryKind, FileRecord};
use dirview::table::{header_row, record_row, render_table, table_rows};
use tabled::settings::object::{Columns, Rows};
use tabled::settings::{Color, Style};

fn record(name: &str, kind: EntryKind, size_bytes: u64, modified: &str) -> FileRecord {
    FileRecord { name: name.to_string(), kind, size_bytes, modified: modified.to_string() }
}

fn sample() -> Vec<FileRecord> {
    vec![
        record("a.txt", EntryKind::File, 5, "unknown"),
        record("b", EntryKind::Directory, 0, "unknown"),
    ]
}

fn without_escapes(text: &str) -> String {
    let mut plain = String::new();
    let mut inside = false;
    for c in text.chars() {
        if inside {
            if c == 'm' {
                inside = false;
            }
        } else if c == '\u{1b}' {
            inside = true;
        } else {
            plain.push(c);
        }
    }
    plain
}

#[test]
fn header_row_names_the_four_columns() {
    assert_eq!(header_row(), vec!["Name", "Type", "Bytes", "Modified"]);
}

#[test]
fn record_row_has_the_four_fields_in_order() {
    let row = record_row(&record("notes.md", EntryKind::File, 1234, "2015-05-15 00:00:00"));
    assert_eq!(row, vec!["notes.md", "File", "1234", "2015-05-15 00:00:00"]);
}

#[test]
fn record_row_of_a_directory() {
    let row = record_row(&record("src", EntryKind::Directory, 4096, "unknown"));
    assert_eq!(row, vec!["src", "Dir", "4096", "unknown"]);
}

#[test]
fn table_rows_of_nothing_is_the_header() {
    let rows = table_rows(&Vec::new());
    assert_eq!(rows, vec![vec!["Name", "Type", "Bytes", "Modified"]]);
}

#[test]
fn table_rows_has_a_header_and_a_row_for_each_record() {
    let rows = table_rows(&sample());
    assert_eq!(
        rows,
        vec![
            vec!["Name", "Type", "Bytes", "Modified"],
            vec!["a.txt", "File", "5", "unknown"],
            vec!["b", "Dir", "0", "unknown"],
        ]
    );
}

#[test]
fn table_rows_keeps_the_order_of_the_listing() {
    let records = vec![
        record("z", EntryKind::File, 1, "unknown"),
        record("a", EntryKind::File, 2, "unknown"),
        record("m", EntryKind::File, 3, "unknown"),
    ];
    let rows = table_rows(&records);
    assert_eq!(rows.len(), 4);
    assert_eq!(rows[1][0], "z");
    assert_eq!(rows[2][0], "a");
    assert_eq!(rows[3][0], "m");
}

#[test]
fn the_table_is_drawn_with_rounded_borders() {
    let plain = without_escapes(&render_table(&sample()));
    let expected = "\
╭───────┬──────┬───────┬──────────╮
│ Name  │ Type │ Bytes │ Modified │
├───────┼──────┼───────┼──────────┤
│ a.txt │ File │ 5     │ unknown  │
│ b     │ Dir  │ 0     │ unknown  │
╰───────┴──────┴───────┴──────────╯";
    assert_eq!(plain, expected);
}

#[test]
fn the_table_of_one_record_with_its_tints() {
    let text = render_table(&vec![record("a.txt", EntryKind::File, 5, "unknown")]);
    let expected = "\
╭───────┬──────┬───────┬──────────╮
│ \u{1b}[92mName\u{1b}[39m  │ \u{1b}[92mType\u{1b}[39m │ \u{1b}[92mBytes\u{1b}[39m │ \u{1b}[92mModified\u{1b}[39m │
├───────┼──────┼───────┼──────────┤
│ \u{1b}[96ma.txt\u{1b}[39m │ \u{1b}[97mFile\u{1b}[39m │ \u{1b}[95m5\u{1b}[39m     │ \u{1b}[93munknown\u{1b}[39m  │
╰───────┴──────┴───────┴──────────╯";
    assert_eq!(text, expected);
}

#[test]
fn the_table_of_no_record_with_its_tints() {
    let text = render_table(&Vec::new());
    let expected = "\
╭──────┬──────┬───────┬──────────╮
│ \u{1b}[92mName\u{1b}[39m │ \u{1b}[92mType\u{1b}[39m │ \u{1b}[92mBytes\u{1b}[39m │ \u{1b}[92mModified\u{1b}[39m │
├──────┼──────┼───────┼──────────┤";
    assert_eq!(text, expected);
}

#[test]
fn the_table_is_what_tabled_draws_for_the_rows() {
    let records = sample();
    let mut table = tabled::builder::Builder::from(table_rows(&records)).build();
    table.with(Style::rounded());
    table.modify(Columns::first(), Color::FG_BRIGHT_CYAN);
    table.modify(Columns::one(1), Color::FG_BRIGHT_WHITE);
    table.modify(Columns::one(2), Color::FG_BRIGHT_MAGENTA);
    table.modify(Columns::one(3), Color::FG_BRIGHT_YELLOW);
    table.modify(Rows::first(), Color::FG_BRIGHT_GREEN);
    assert_eq!(render_table(&records), table.to_string());
}

#[test]
fn the_table_is_tinted() {
    let text = render_table(&sample());
    assert!(text.contains("\u{1b}[92m"));
    assert!(text.contains("\u{1b}[96m"));
    assert!(text.contains("\u{1b}[97m"));
    assert!(text.contains("\u{1b}[95m"));
    assert!(text.contains("\u{1b}[93m"));
    assert!(text.contains("\u{1b}[39m"));
    assert_ne!(text, without_escapes(&text));
}

#[test]
fn the_table_has_a_line_for_each_record() {
    let mut records = Vec::new();
    for i in 0..7u64 {
        records.push(record(&format!("file{}", i), EntryKind::File, i, "unknown"));
    }
    let text = render_table(&records);
    assert_eq!(text.lines().count(), 7 + 4);
    for i in 0..7u64 {
        assert!(text.contains(&format!("file{}", i)));
    }
}

#[test]
fn the_empty_table_shows_only_the_header() {
    let plain = without_escapes(&render_table(&Vec::new()));
    assert!(plain.contains("Name"));
    assert!(plain.contains("Type"));
    assert!(plain.contains("Bytes"));
    assert!(plain.contains("Modified"));
    let with_text: Vec<&str> =
        plain.lines().filter(|line| line.chars().any(|c| c.is_alphanumeric())).collect();
    assert_eq!(with_text.len(), 1);
}

#[test]
fn drawing_does_not_change_with_a_second_call() {
    assert_eq!(render_table(&sample()), render_table(&sample()));
}
