use idea_session::date::{artifact_name, date_from_parts, date_string, today, Date};

#[test]
fn artifact_name_is_the_dated_file() {
    let d = Date { year: 2025, month: 3, day: 7 };
    assert_eq!(artifact_name(&d), "2025_03_07.md");
}

#[test]
fn artifact_name_pads_every_field() {
    let d = Date { year: 999, month: 1, day: 2 };
    assert_eq!(artifact_name(&d), "0999_01_02.md");
}

#[test]
fn date_string_is_dashed() {
    let d = Date { year: 2024, month: 12, day: 31 };
    assert_eq!(date_string(&d), "2024-12-31");
}

#[test]
fn date_from_parts_accepts_calendar_shaped_values() {
    let d = date_from_parts(2025, 6, 15).unwrap();
    assert_eq!((d.year, d.month, d.day), (2025, 6, 15));
    assert!(date_from_parts(0, 1, 1).is_some());
    assert!(date_from_parts(9999, 12, 31).is_some());
}

#[test]
fn date_from_parts_rejects_out_of_range_values() {
    assert!(date_from_parts(-1, 6, 15).is_none());
    assert!(date_from_parts(10000, 6, 15).is_none());
    assert!(date_from_parts(2025, 0, 15).is_none());
    assert!(date_from_parts(2025, 13, 15).is_none());
    assert!(date_from_parts(2025, 6, 0).is_none());
    assert!(date_from_parts(2025, 6, 32).is_none());
}

#[test]
fn today_matches_the_local_clock() {
    let d = today().expect("the clock's year fits four digits");
    let now = chrono::Local::now();
    assert_eq!(d.year as i32, chrono::Datelike::year(&now));
    assert_eq!(d.month as u32, chrono::Datelike::month(&now));
    assert_eq!(d.day as u32, chrono::Datelike::day(&now));
}
