use chrono::{DateTime, Datelike, NaiveDate};
use isdayoff::utils::format_date;
use isdayoff::CalendarDate;

fn calendar_date<D: Datelike>(d: &D) -> CalendarDate {
    CalendarDate::new(d.year(), d.month(), d.day()).unwrap()
}

#[test]
fn test_format_date() {
    let correct_str = "20240919";

    let formatted_date1 = format_date(&calendar_date(&NaiveDate::from_ymd_opt(2024, 09, 19).unwrap()));
    let formatted_date2 =
        format_date(&calendar_date(&NaiveDate::parse_from_str("2024-09-19", "%Y-%m-%d").unwrap()));
    let formatted_date3 =
        format_date(&calendar_date(&DateTime::parse_from_rfc3339("2024-09-19T00:00:00Z").unwrap()));

    assert_eq!(formatted_date1, correct_str);
    assert_eq!(formatted_date2, correct_str);
    assert_eq!(formatted_date3, correct_str);
}

#[test]
fn format_date_pads_every_field() {
    let d = CalendarDate::new(5, 1, 2).unwrap();
    assert_eq!(format_date(&d), "00050102");
}

#[test]
fn format_date_largest_year() {
    let d = CalendarDate::new(9999, 12, 31).unwrap();
    let s = format_date(&d);
    assert_eq!(s, "99991231");
    assert_eq!(s.len(), 8);
    assert!(s.chars().all(|c| c.is_ascii_digit()));
}

#[test]
fn format_date_is_eight_digits_over_a_year() {
    let mut d = NaiveDate::from_ymd_opt(2024, 1, 1).unwrap();
    while d.year() == 2024 {
        let s = format_date(&calendar_date(&d));
        assert_eq!(s, d.format("%Y%m%d").to_string());
        d = d.succ_opt().unwrap();
    }
}

#[test]
fn calendar_date_rejects_missing_days() {
    assert!(CalendarDate::new(2024, 2, 29).is_some());
    assert!(CalendarDate::new(2023, 2, 29).is_none());
    assert!(CalendarDate::new(1900, 2, 29).is_none());
    assert!(CalendarDate::new(2000, 2, 29).is_some());
    assert!(CalendarDate::new(2024, 4, 31).is_none());
    assert!(CalendarDate::new(2024, 13, 1).is_none());
    assert!(CalendarDate::new(2024, 0, 1).is_none());
    assert!(CalendarDate::new(2024, 1, 0).is_none());
    assert_eq!(
        CalendarDate::new(2024, 9, 30),
        Some(CalendarDate { year: 2024, month: 9, day: 30 })
    );
}
