use calamine::Reader;
use logon_logger::append::{append_log, merge_records};
use logon_logger::codec::{column_content_width, read_document, render_document};
use logon_logger::date::{Civil, civil_to_unix};
use logon_logger::error::Error;
use logon_logger::row::Row;
use logon_logger::user_entry::UserEntry;
use logon_logger::workstation::WorkStationEntry;

fn ws_entry(ts: i64, tag: &str) -> WorkStationEntry {
    WorkStationEntry {
        username: format!("user-{tag}"),
        user_ou: format!("ou-{tag}"),
        date_time: ts,
        period: "Period 1".to_string(),
        description: format!("desc-{tag}"),
        ws_ou: "Labs".to_string(),
        os_version: "22H2".to_string(),
        model: format!("model-{tag}"),
        os: "OS 11".to_string(),
        full_ou: "OU=High_School_Labs".to_string(),
        make: "Maker".to_string(),
        uuid: format!("uuid-{tag}"),
        serial_number: format!("sn-{tag}"),
    }
}

fn stamp(y: u16, mo: u8, d: u8, h: u8, mi: u8, s: u8) -> i64 {
    civil_to_unix(Civil { year: y, month: mo, day: d, hour: h, minute: mi, second: s })
}

#[test]
fn round_trip_single_record() {
    let entry = ws_entry(stamp(2024, 5, 17, 13, 37, 59), "a");
    let bytes = append_log(None, &WorkStationEntry::columns(), entry.to_row()).unwrap();
    let rows = read_document(Some(bytes), "Logons").unwrap();
    assert_eq!(rows.len(), 1);
    let back = WorkStationEntry::from_row(&rows[0]);
    assert_eq!(back.username, entry.username);
    assert_eq!(back.user_ou, entry.user_ou);
    assert_eq!(back.date_time, entry.date_time);
    assert_eq!(back.period, entry.period);
    assert_eq!(back.description, entry.description);
    assert_eq!(back.ws_ou, entry.ws_ou);
    assert_eq!(back.os_version, entry.os_version);
    assert_eq!(back.model, entry.model);
    assert_eq!(back.os, entry.os);
    assert_eq!(back.full_ou, entry.full_ou);
    assert_eq!(back.make, entry.make);
    assert_eq!(back.uuid, entry.uuid);
    assert_eq!(back.serial_number, entry.serial_number);
}

#[test]
fn round_trip_early_dates() {
    // The storable window is the format's own: dates before 1970 (down to
    // 1900) survive a write-and-read unchanged.
    let columns = WorkStationEntry::columns();
    let mut bytes: Option<Vec<u8>> = None;
    let stamps =
        [stamp(1969, 12, 31, 23, 59, 59), stamp(1900, 6, 15, 12, 30, 0), stamp(1901, 1, 1, 0, 0, 0)];
    for (i, ts) in stamps.iter().enumerate() {
        let entry = ws_entry(*ts, &format!("old{i}"));
        bytes = Some(append_log(bytes, &columns, entry.to_row()).unwrap());
    }
    let rows = read_document(bytes, "Logons").unwrap();
    assert_eq!(rows.len(), 3);
    let read: Vec<i64> = rows.iter().map(|r| r.date_time).collect();
    let mut expected = stamps.to_vec();
    expected.sort();
    expected.reverse();
    assert_eq!(read, expected);
}

#[test]
fn round_trip_empty_text_field() {
    let mut entry = ws_entry(stamp(2024, 1, 2, 0, 0, 1), "b");
    entry.description = String::new();
    let bytes = append_log(None, &WorkStationEntry::columns(), entry.to_row()).unwrap();
    let rows = read_document(Some(bytes), "Logons").unwrap();
    assert_eq!(rows.len(), 1);
    let back = WorkStationEntry::from_row(&rows[0]);
    assert_eq!(back.description, "");
    assert_eq!(back.date_time, entry.date_time);
}

#[test]
fn ordering_after_n_appends() {
    let columns = WorkStationEntry::columns();
    let stamps = [
        stamp(2024, 3, 1, 12, 0, 0),
        stamp(2024, 3, 1, 8, 0, 0),
        stamp(2024, 3, 1, 15, 30, 0),
        stamp(2024, 3, 1, 8, 0, 0),
        stamp(2024, 3, 1, 23, 59, 59),
    ];
    let mut bytes: Option<Vec<u8>> = None;
    for (i, ts) in stamps.iter().enumerate() {
        let entry = ws_entry(*ts, &format!("n{i}"));
        bytes = Some(append_log(bytes, &columns, entry.to_row()).unwrap());
    }
    let rows = read_document(bytes, "Logons").unwrap();
    assert_eq!(rows.len(), stamps.len());
    for pair in rows.windows(2) {
        assert!(pair[0].date_time >= pair[1].date_time);
    }
    let mut sorted = stamps.to_vec();
    sorted.sort();
    sorted.reverse();
    let read: Vec<i64> = rows.iter().map(|r| r.date_time).collect();
    assert_eq!(read, sorted);
}

#[test]
fn append_scenario_two_records() {
    let columns = WorkStationEntry::columns();
    let a = ws_entry(stamp(2024, 1, 1, 8, 0, 0), "a");
    let b = ws_entry(stamp(2024, 1, 1, 9, 0, 0), "b");

    let bytes1 = append_log(None, &columns, a.to_row()).unwrap();
    let rows1 = read_document(Some(bytes1.clone()), "Logons").unwrap();
    assert_eq!(rows1.len(), 1);
    assert_eq!(WorkStationEntry::from_row(&rows1[0]).username, "user-a");

    let bytes2 = append_log(Some(bytes1), &columns, b.to_row()).unwrap();
    let rows2 = read_document(Some(bytes2), "Logons").unwrap();
    assert_eq!(rows2.len(), 2);
    assert_eq!(WorkStationEntry::from_row(&rows2[0]).username, "user-b");
    assert_eq!(WorkStationEntry::from_row(&rows2[1]).username, "user-a");
    assert!(rows2[0].date_time > rows2[1].date_time);
}

#[test]
fn empty_document_has_header_and_no_table() {
    let columns = WorkStationEntry::columns();
    let rows: Vec<Row> = Vec::new();
    let bytes = render_document(&columns, &rows).unwrap();

    let mut wb = calamine::Xlsx::new(std::io::Cursor::new(bytes.clone())).unwrap();
    let range = wb.worksheet_range("Logons").unwrap();
    assert_eq!(range.height(), 1);
    assert_eq!(range.width(), 13);
    assert_eq!(range.get((0, 0)), Some(&calamine::Data::String("Username".to_string())));
    assert_eq!(range.get((0, 2)), Some(&calamine::Data::String("DateTime".to_string())));
    assert_eq!(range.get((0, 12)), Some(&calamine::Data::String("Serial_Number".to_string())));
    wb.load_tables().unwrap();
    assert!(wb.table_names().is_empty());

    let parsed = read_document(Some(bytes), "Logons").unwrap();
    assert!(parsed.is_empty());
}

#[test]
fn document_with_table_when_records_exist() {
    let columns = WorkStationEntry::columns();
    let entry = ws_entry(stamp(2024, 6, 1, 10, 0, 0), "t");
    let bytes = append_log(None, &columns, entry.to_row()).unwrap();
    let mut wb = calamine::Xlsx::new(std::io::Cursor::new(bytes)).unwrap();
    wb.load_tables().unwrap();
    assert_eq!(wb.table_names().len(), 1);
}

#[test]
fn malformed_row_is_dropped() {
    let labels = [
        "Username", "UserOU", "DateTime", "Period", "Description", "WS_OU", "OSVersion", "Model",
        "OS", "Full_OU", "Make", "UUID", "Serial_Number",
    ];
    let mut wb = rust_xlsxwriter::workbook::Workbook::new();
    let ws = wb.add_worksheet();
    ws.set_name("Logons").unwrap();
    for (c, h) in labels.iter().enumerate() {
        ws.write_string(0, c as u16, *h).unwrap();
    }
    // A well-formed row.
    ws.write_string(1, 0, "alice").unwrap();
    ws.write_string(1, 1, "ou").unwrap();
    let dt = rust_xlsxwriter::ExcelDateTime::from_ymd(2024, 1, 1)
        .unwrap()
        .and_hms(8, 0, 0)
        .unwrap();
    ws.write_datetime(1, 2, dt).unwrap();
    for c in 3..13 {
        ws.write_string(1, c as u16, "x").unwrap();
    }
    // A row with too few cells: no date, most columns missing.
    ws.write_string(2, 0, "bob").unwrap();
    ws.write_string(2, 1, "ou2").unwrap();
    let bytes = wb.save_to_buffer().unwrap();

    let rows = read_document(Some(bytes), "Logons").unwrap();
    assert_eq!(rows.len(), 1);
    assert_eq!(WorkStationEntry::from_row(&rows[0]).username, "alice");
}

#[test]
fn missing_document_and_missing_sheet_read_empty() {
    assert!(read_document(None, "Logons").unwrap().is_empty());

    let mut wb = rust_xlsxwriter::workbook::Workbook::new();
    let ws = wb.add_worksheet();
    ws.set_name("SomethingElse").unwrap();
    ws.write_string(0, 0, "x").unwrap();
    let bytes = wb.save_to_buffer().unwrap();
    assert!(read_document(Some(bytes), "Logons").unwrap().is_empty());
}

#[test]
fn unreadable_document_is_an_error() {
    let garbage = vec![0u8, 1, 2, 3, 4, 5, 6, 7];
    match read_document(Some(garbage), "Logons") {
        Err(Error::CalamaineXlsxError(_)) => {},
        other => panic!("expected a workbook error, got {:?}", other.map(|r| r.len())),
    }
}

#[test]
fn append_over_unreadable_document_is_a_reader_error() {
    let garbage = vec![9u8, 9, 9, 9];
    let entry = ws_entry(stamp(2024, 2, 2, 2, 2, 2), "g");
    match append_log(Some(garbage), &WorkStationEntry::columns(), entry.to_row()) {
        Err(Error::CalamaineXlsxError(_)) => {},
        other => panic!("expected a reader error, got {:?}", other.map(|r| r.len())),
    }
}

#[test]
fn oversized_text_is_a_writer_error() {
    let mut entry = ws_entry(stamp(2024, 2, 2, 2, 2, 2), "big");
    entry.description = "x".repeat(40000);
    match append_log(None, &WorkStationEntry::columns(), entry.to_row()) {
        Err(Error::WorkStationError(_)) => {},
        other => panic!("expected a writer error, got {:?}", other.map(|r| r.len())),
    }
}

#[test]
fn width_computation_matches_longest_content() {
    // Header label `UserOU` has length 6; record values in that column
    // have lengths 3, 10 and 1, so the width is 10 + 2.
    let columns = WorkStationEntry::columns();
    let mut rows: Vec<Row> = Vec::new();
    for v in ["abc", "abcdefghij", "z"] {
        let mut e = ws_entry(stamp(2024, 4, 4, 4, 4, 4), "w");
        e.user_ou = v.to_string();
        rows.push(e.to_row());
    }
    assert_eq!(column_content_width(&columns, &rows, 1), 12);
    // With no records the header alone decides: 6 + 2.
    let empty: Vec<Row> = Vec::new();
    assert_eq!(column_content_width(&columns, &empty, 1), 8);
}

#[test]
fn merge_records_sorts_descending() {
    let rows: Vec<Row> = vec![
        ws_entry(100, "a").to_row(),
        ws_entry(300, "b").to_row(),
        ws_entry(200, "c").to_row(),
    ];
    let merged = merge_records(rows, ws_entry(250, "d").to_row());
    let stamps: Vec<i64> = merged.iter().map(|r| r.date_time).collect();
    assert_eq!(stamps, vec![300, 250, 200, 100]);
}

#[test]
fn user_log_document_round_trip() {
    let ws = ws_entry(stamp(2024, 9, 2, 7, 45, 0), "u");
    let user = UserEntry::from(&ws);
    let bytes = append_log(None, &UserEntry::columns(), user.to_row()).unwrap();
    let rows = read_document(Some(bytes), "Logons").unwrap();
    assert_eq!(rows.len(), 1);
    let back = UserEntry::from_row(&rows[0]);
    assert_eq!(back.computer_name, ws.username);
    assert_eq!(back.user_ou, ws.user_ou);
    assert_eq!(back.date_time, ws.date_time);
}
