use dirview::json::structured_output;
use dirview::present::{
    listing, output_mode, plan, present, resolve_path, selected_path_line, Failure, OutputMode,
    Step, DEFAULT_PATH, MISSING_MESSAGE, SELECTED_PREFIX, UNREADABLE_MESSAGE,
};
use dirview::record::{EntryKind, EntryMeta, FileRecord};
use dirview::scan::{get_files, EntryOutcome, Scan};
use dirview::table::{render_table, table_rows};
use dirview::timestamp::{is_timestamp, Timestamp};
use serde_json::Value;

fn found(name: &str, is_dir: bool, len: u64, modified: Option<Timestamp>) -> EntryOutcome {
    EntryOutcome::Found(EntryMeta { name: Some(name.to_string()), is_dir, len, modified })
}

fn mixed_scan() -> Scan {
    Scan::Opened(vec![
        found("a.txt", false, 5, Some(Timestamp { secs: 1_431_648_000, nanos: 0 })),
        EntryOutcome::Unreadable,
        found("b", true, 0, None),
        EntryOutcome::NoMetadata,
        found("c \"quoted\"", false, 77, Some(Timestamp { secs: 0, nanos: 0 })),
    ])
}

#[test]
fn texts_have_their_values() {
    assert_eq!(DEFAULT_PATH, "/mnt/d/Rust/Projects/foxdir");
    assert_eq!(SELECTED_PREFIX, "selected path: ");
    assert_eq!(MISSING_MESSAGE, "The Path does not exist...!");
    assert_eq!(UNREADABLE_MESSAGE, "cannot read directory");
}

#[test]
fn the_flag_selects_the_mode() {
    assert_eq!(output_mode(false), OutputMode::Table);
    assert_eq!(output_mode(true), OutputMode::Structured);
}

#[test]
fn a_given_path_is_kept() {
    assert_eq!(resolve_path(Some("/tmp/x".to_string())), "/tmp/x");
    assert_eq!(resolve_path(Some(String::new())), "");
}

#[test]
fn a_missing_argument_gives_the_default_path() {
    assert_eq!(resolve_path(None), "/mnt/d/Rust/Projects/foxdir");
}

#[test]
fn the_selected_path_is_announced_in_green() {
    assert_eq!(selected_path_line("/tmp"), "selected path: \u{1b}[32m/tmp\u{1b}[39m");
    assert_eq!(selected_path_line(""), "selected path: \u{1b}[32m\u{1b}[39m");
}

#[test]
fn an_existing_path_is_scanned() {
    assert_eq!(plan(Some(true), false), Step::Scan(OutputMode::Table));
    assert_eq!(plan(Some(true), true), Step::Scan(OutputMode::Structured));
}

#[test]
fn a_missing_path_is_reported_and_not_scanned() {
    assert_eq!(plan(Some(false), false), Step::Report(Failure::Missing));
    assert_eq!(plan(Some(false), true), Step::Report(Failure::Missing));
}

#[test]
fn a_failed_probe_is_reported_and_not_scanned() {
    assert_eq!(plan(None, false), Step::Report(Failure::Unreadable));
    assert_eq!(plan(None, true), Step::Report(Failure::Unreadable));
}

#[test]
fn the_two_failures_have_messages_of_their_own() {
    assert_eq!(Failure::Missing.message(), "The Path does not exist...!");
    assert_eq!(Failure::Unreadable.message(), "cannot read directory");
    assert_ne!(Failure::Missing.message(), Failure::Unreadable.message());
}

#[test]
fn failures_are_printed_in_red() {
    assert_eq!(Failure::Missing.line(), "\u{1b}[31mThe Path does not exist...!\u{1b}[39m");
    assert_eq!(Failure::Unreadable.line(), "\u{1b}[31mcannot read directory\u{1b}[39m");
}

#[test]
fn present_draws_the_table_in_table_mode() {
    let records = get_files(&mixed_scan());
    assert_eq!(present(OutputMode::Table, &records), render_table(&records));
}

#[test]
fn present_writes_the_json_in_structured_mode() {
    let records = get_files(&mixed_scan());
    assert_eq!(present(OutputMode::Structured, &records), structured_output(&records));
}

#[test]
fn listing_presents_the_records_of_the_scan() {
    let scan = mixed_scan();
    let records = get_files(&scan);
    assert_eq!(listing(OutputMode::Table, &scan), render_table(&records));
    assert_eq!(listing(OutputMode::Structured, &scan), structured_output(&records));
}

#[test]
fn both_modes_show_every_found_entry_once_and_in_order() {
    let records = get_files(&mixed_scan());
    assert_eq!(records.len(), 3);

    let rows = table_rows(&records);
    assert_eq!(rows.len(), 3 + 1);
    assert_eq!(rows[0], vec!["Name", "Type", "Bytes", "Modified"]);

    let parsed: Value = serde_json::from_str(&structured_output(&records)).unwrap();
    let elements = parsed.as_array().unwrap();
    assert_eq!(elements.len(), 3);

    let names = vec!["a.txt", "b", "c \"quoted\""];
    for i in 0..3 {
        assert_eq!(rows[i + 1][0], names[i]);
        assert_eq!(elements[i]["name"].as_str(), Some(names[i]));
    }
}

#[test]
fn what_the_table_shows_the_json_shows_too() {
    let records = get_files(&mixed_scan());
    let rows = table_rows(&records);
    let parsed: Value = serde_json::from_str(&structured_output(&records)).unwrap();
    let elements = parsed.as_array().unwrap();
    for i in 0..records.len() {
        let row = &rows[i + 1];
        assert_eq!(elements[i]["name"].as_str(), Some(row[0].as_str()));
        assert_eq!(elements[i]["e_type"].as_str(), Some(row[1].as_str()));
        assert_eq!(elements[i]["len_bytes"].as_u64().unwrap().to_string(), row[2]);
        assert_eq!(elements[i]["modified"].as_str(), Some(row[3].as_str()));
    }
}

#[test]
fn kinds_follow_the_directory_bit_in_both_modes() {
    let records = get_files(&mixed_scan());
    assert_eq!(records[0].kind, EntryKind::File);
    assert_eq!(records[1].kind, EntryKind::Directory);
    assert_eq!(records[2].kind, EntryKind::File);
    let rows = table_rows(&records);
    assert_eq!(rows[1][1], "File");
    assert_eq!(rows[2][1], "Dir");
    assert_eq!(rows[3][1], "File");
}

#[test]
fn modification_times_are_timestamps_or_unknown() {
    for record in get_files(&mixed_scan()) {
        assert!(is_timestamp(&record.modified) || record.modified == "unknown");
    }
}

#[test]
fn an_unopened_directory_is_presented_as_an_empty_one() {
    let nothing: Vec<FileRecord> = Vec::new();
    assert_eq!(listing(OutputMode::Structured, &Scan::OpenFailed), "[]");
    assert_eq!(listing(OutputMode::Table, &Scan::OpenFailed), render_table(&nothing));
    assert_eq!(
        listing(OutputMode::Table, &Scan::OpenFailed),
        listing(OutputMode::Table, &Scan::Opened(Vec::new()))
    );
}

#[test]
fn the_example_listing_in_structured_mode() {
    let scan = Scan::Opened(vec![found("a.txt", false, 5, None), found("b", true, 4096, None)]);
    assert_eq!(
        listing(OutputMode::Structured, &scan),
        "[{\"name\":\"a.txt\",\"e_type\":\"File\",\"len_bytes\":5,\"modified\":\"unknown\"},\
{\"name\":\"b\",\"e_type\":\"Dir\",\"len_bytes\":4096,\"modified\":\"unknown\"}]"
    );
}
