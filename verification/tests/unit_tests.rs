use logon_logger::cell::Cell;
use logon_logger::collect::{
    BaseInfo, HardwareInfo, OsInfo, full_ou_from_dn, user_ou_from_dn, username_from_dn,
    ws_ou_from_full_ou,
};
use logon_logger::date::{Civil, MAX_LOG_STAMP, MIN_LOG_STAMP, civil_to_unix, unix_to_civil};
use logon_logger::error::Error;
use logon_logger::period::{TimePeriod, get_current_period, hms, periods};
use logon_logger::user_entry::UserEntry;
use logon_logger::workstation::WorkStationEntry;

#[test]
fn civil_to_unix_known_values() {
    assert_eq!(
        civil_to_unix(Civil { year: 1970, month: 1, day: 1, hour: 0, minute: 0, second: 0 }),
        0
    );
    assert_eq!(
        civil_to_unix(Civil { year: 1900, month: 1, day: 1, hour: 0, minute: 0, second: 0 }),
        MIN_LOG_STAMP
    );
    assert_eq!(
        civil_to_unix(Civil { year: 1969, month: 12, day: 31, hour: 23, minute: 59, second: 59 }),
        -1
    );
    assert_eq!(
        civil_to_unix(Civil { year: 2024, month: 1, day: 1, hour: 8, minute: 0, second: 0 }),
        1704096000
    );
    assert_eq!(
        civil_to_unix(Civil { year: 2000, month: 2, day: 29, hour: 23, minute: 59, second: 59 }),
        951868799
    );
    assert_eq!(
        civil_to_unix(Civil { year: 9999, month: 12, day: 31, hour: 23, minute: 59, second: 59 }),
        MAX_LOG_STAMP
    );
}

#[test]
fn unix_to_civil_known_values() {
    let c = unix_to_civil(1704096000);
    assert_eq!((c.year, c.month, c.day, c.hour, c.minute, c.second), (2024, 1, 1, 8, 0, 0));
    let c = unix_to_civil(0);
    assert_eq!((c.year, c.month, c.day, c.hour, c.minute, c.second), (1970, 1, 1, 0, 0, 0));
    let c = unix_to_civil(MIN_LOG_STAMP);
    assert_eq!((c.year, c.month, c.day, c.hour, c.minute, c.second), (1900, 1, 1, 0, 0, 0));
    let c = unix_to_civil(-1);
    assert_eq!((c.year, c.month, c.day, c.hour, c.minute, c.second), (1969, 12, 31, 23, 59, 59));
    let c = unix_to_civil(MAX_LOG_STAMP);
    assert_eq!((c.year, c.month, c.day, c.hour, c.minute, c.second), (9999, 12, 31, 23, 59, 59));
}

#[test]
fn civil_round_trip_samples() {
    for ts in [
        MIN_LOG_STAMP,
        MIN_LOG_STAMP + 86399,
        -1,
        0i64,
        1,
        86399,
        86400,
        951868799,
        1704096000,
        4102444800,
        MAX_LOG_STAMP,
    ] {
        assert_eq!(civil_to_unix(unix_to_civil(ts)), ts);
    }
    // Around the serial system's 1900 leap quirk: proper Gregorian dates
    // on both sides of 1900-02-28 / 1900-03-01.
    let feb = Civil { year: 1900, month: 2, day: 28, hour: 12, minute: 0, second: 0 };
    let mar = Civil { year: 1900, month: 3, day: 1, hour: 0, minute: 0, second: 0 };
    assert_eq!(civil_to_unix(mar) - civil_to_unix(feb), 12 * 3600);
}

#[test]
fn period_classification() {
    let ps = periods();
    assert_eq!(get_current_period(hms(9, 30), &ps).unwrap(), "Period 1");
    assert_eq!(get_current_period(hms(8, 45), &ps).unwrap(), "Form");
    assert_eq!(get_current_period(hms(5, 0), &ps).unwrap(), "Before School");
    assert_eq!(get_current_period(hms(3, 0), &ps).unwrap(), "After Hours");
    assert_eq!(get_current_period(hms(23, 59), &ps).unwrap(), "After Hours");
    assert_eq!(get_current_period(hms(13, 44) + 59, &ps).unwrap(), "Second Lunch");
}

#[test]
fn period_classification_fails_outside_all_periods() {
    let ps = vec![TimePeriod::new(hms(9, 0), hms(10, 0), false, "Morning")];
    assert!(get_current_period(hms(11, 0), &ps).is_err());
    assert_eq!(get_current_period(hms(9, 30), &ps).unwrap(), "Morning");
}

#[test]
fn wrapping_period_contains_both_sides_of_midnight() {
    let p = TimePeriod::new(hms(14, 55), hms(5, 0), true, "After Hours");
    assert!(p.contains(hms(23, 0)));
    assert!(p.contains(hms(1, 0)));
    assert!(!p.contains(hms(12, 0)));
}

#[test]
fn username_extraction() {
    assert_eq!(username_from_dn("CN=John Doe,OU=Students_2024,DC=example", "jdoe"), "John Doe");
    // No '=' in the leading attribute: fall back to the logon name.
    assert_eq!(username_from_dn("no delimiters here", "jdoe"), "jdoe");
    assert_eq!(username_from_dn("", "jdoe"), "jdoe");
    // Only the text between the first and second '=' is taken.
    assert_eq!(username_from_dn("CN=a=b,rest", "x"), "a");
}

#[test]
fn user_ou_extraction() {
    assert_eq!(user_ou_from_dn("CN=J,OU=Students_Year9,DC=example"), "Year9");
    assert_eq!(user_ou_from_dn("CN=J,OU=Students_Year9_East,DC=x"), "Year9");
    // No second attribute, or no underscore in it.
    assert_eq!(user_ou_from_dn("CN=J"), "Unknown");
    assert_eq!(user_ou_from_dn("CN=J,OU=Students,DC=x"), "Unknown");
    assert_eq!(user_ou_from_dn(""), "Unknown");
}

#[test]
fn full_and_short_ou_extraction() {
    assert_eq!(full_ou_from_dn("CN=PC1,OU=High_School_Labs,DC=x"), "OU=High_School_Labs");
    assert_eq!(full_ou_from_dn("CN=PC1"), "Unknown");
    assert_eq!(ws_ou_from_full_ou("OU=High_School_Labs"), "Labs");
    assert_eq!(ws_ou_from_full_ou("NoUnderscore"), "NoUnderscore");
    assert_eq!(ws_ou_from_full_ou(""), "");
}

#[test]
fn info_records_keep_their_fields() {
    let base = BaseInfo::new(
        "PC1".to_string(),
        "alice".to_string(),
        1704096000,
        "Year9".to_string(),
        "OU=High_School_Labs".to_string(),
        "Labs".to_string(),
    );
    assert_eq!(base.computer_name, "PC1");
    assert_eq!(base.username, "alice");
    assert_eq!(base.now, 1704096000);

    let hw = HardwareInfo::new(
        "Maker".to_string(),
        "M1".to_string(),
        "uuid-1".to_string(),
        "sn-1".to_string(),
        "desc".to_string(),
    );
    assert_eq!(hw.make, "Maker");
    assert_eq!(hw.os_description, "desc");

    let os = OsInfo::new("22H2".to_string(), "OS 11".to_string());
    assert_eq!(os.os_version, "22H2");
    assert_eq!(os.os_name, "OS 11");
}

fn sample_entry() -> WorkStationEntry {
    WorkStationEntry {
        username: "alice".to_string(),
        user_ou: "Year9".to_string(),
        date_time: 1704096000,
        period: "Period 1".to_string(),
        description: "desk".to_string(),
        ws_ou: "Labs".to_string(),
        os_version: "22H2".to_string(),
        model: "M1".to_string(),
        os: "OS 11".to_string(),
        full_ou: "OU=High_School_Labs".to_string(),
        make: "Maker".to_string(),
        uuid: "uuid-1".to_string(),
        serial_number: "sn-1".to_string(),
    }
}

#[test]
fn columns_are_thirteen_and_distinct() {
    for cols in [WorkStationEntry::columns(), UserEntry::columns()] {
        assert_eq!(cols.len(), 13);
        for i in 0..cols.len() {
            for j in (i + 1)..cols.len() {
                assert_ne!(cols[i], cols[j]);
            }
        }
        assert_eq!(cols[2], "DateTime");
    }
}

#[test]
fn row_shape_matches_schema() {
    let e = sample_entry();
    let row = e.to_row();
    assert_eq!(row.texts.len(), 12);
    assert_eq!(WorkStationEntry::columns().len(), row.texts.len() + 1);
    assert_eq!(row.date_time, e.date_time);
    assert_eq!(row.texts[0], "alice");
    assert_eq!(row.texts[11], "sn-1");
}

#[test]
fn parse_row_accepts_a_full_row() {
    let mut cells: Vec<Cell> = Vec::new();
    for i in 0..13 {
        if i == 2 {
            cells.push(Cell { date: Some(1704096000), text: None });
        } else {
            cells.push(Cell { date: None, text: Some(format!("v{i}")) });
        }
    }
    let e = WorkStationEntry::parse_row(&cells).unwrap();
    assert_eq!(e.date_time, 1704096000);
    assert_eq!(e.username, "v0");
    assert_eq!(e.user_ou, "v1");
    assert_eq!(e.period, "v3");
    assert_eq!(e.serial_number, "v12");
}

#[test]
fn parse_row_rejects_short_or_dateless_rows() {
    let short: Vec<Cell> = (0..5).map(|_| Cell { date: None, text: Some("x".to_string()) }).collect();
    assert!(WorkStationEntry::parse_row(&short).is_none());

    let mut dateless: Vec<Cell> = Vec::new();
    for _ in 0..13 {
        dateless.push(Cell { date: None, text: Some("x".to_string()) });
    }
    assert!(WorkStationEntry::parse_row(&dateless).is_none());

    // A date outside the storable range is unparseable too.
    let mut out_of_range: Vec<Cell> = Vec::new();
    for i in 0..13 {
        if i == 2 {
            out_of_range.push(Cell { date: Some(MIN_LOG_STAMP - 1), text: None });
        } else {
            out_of_range.push(Cell { date: None, text: Some("x".to_string()) });
        }
    }
    assert!(WorkStationEntry::parse_row(&out_of_range).is_none());

    // A pre-1970 date inside the format's window parses fine.
    let mut vintage: Vec<Cell> = Vec::new();
    for i in 0..13 {
        if i == 2 {
            vintage.push(Cell { date: Some(-5), text: None });
        } else {
            vintage.push(Cell { date: None, text: Some("x".to_string()) });
        }
    }
    assert_eq!(WorkStationEntry::parse_row(&vintage).unwrap().date_time, -5);
}

#[test]
fn parse_row_reads_missing_text_as_empty() {
    let mut cells: Vec<Cell> = Vec::new();
    for i in 0..13 {
        if i == 2 {
            cells.push(Cell { date: Some(100), text: None });
        } else {
            cells.push(Cell { date: None, text: None });
        }
    }
    let e = WorkStationEntry::parse_row(&cells).unwrap();
    assert_eq!(e.username, "");
    assert_eq!(e.serial_number, "");
}

#[test]
fn workstation_entry_from_collected_facts() {
    let base = BaseInfo::new(
        "PC1".to_string(),
        "alice".to_string(),
        1704096000,
        "Year9".to_string(),
        "OU=High_School_Labs".to_string(),
        "Labs".to_string(),
    );
    let hw = HardwareInfo::new(
        "Maker".to_string(),
        "M1".to_string(),
        "uuid-1".to_string(),
        "sn-1".to_string(),
        "desk".to_string(),
    );
    let os = OsInfo::new("22H2".to_string(), "OS 11".to_string());
    let e = WorkStationEntry::from(base, hw, os, "Period 1".to_string());
    assert_eq!(e.username, "alice");
    assert_eq!(e.user_ou, "Year9");
    assert_eq!(e.date_time, 1704096000);
    assert_eq!(e.period, "Period 1");
    assert_eq!(e.description, "desk");
    assert_eq!(e.ws_ou, "Labs");
    assert_eq!(e.os_version, "22H2");
    assert_eq!(e.model, "M1");
    assert_eq!(e.os, "OS 11");
    assert_eq!(e.full_ou, "OU=High_School_Labs");
    assert_eq!(e.make, "Maker");
    assert_eq!(e.uuid, "uuid-1");
    assert_eq!(e.serial_number, "sn-1");
}

#[test]
fn user_entry_from_workstation_swaps_key_columns() {
    let ws = sample_entry();
    let u = UserEntry::from(&ws);
    assert_eq!(u.computer_name, ws.username);
    assert_eq!(u.user_ou, ws.user_ou);
    assert_eq!(u.date_time, ws.date_time);
    assert_eq!(u.serial_number, ws.serial_number);
}

#[test]
fn field_lengths_count_characters() {
    let mut e = sample_entry();
    e.username = "abc".to_string();
    e.user_ou = String::new();
    let lens = e.field_lengths();
    assert_eq!(lens.len(), 12);
    assert_eq!(lens[0], 3);
    assert_eq!(lens[1], 0);
    assert_eq!(lens[11], "sn-1".len());
}

#[test]
fn error_messages_carry_their_text() {
    let e = Error::Generic("something broke".to_string());
    assert_eq!(e.message(), "something broke");
    let e = Error::WorkStationError("writer refused".to_string());
    assert_eq!(e.message(), "writer refused");
    let e = Error::CalamaineXlsxError("not a workbook".to_string());
    assert_eq!(e.message(), "not a workbook");
}
