use chrono::NaiveDate;
use slack_payload::{CalendarTime, Parse, SlackTime};

fn seconds(y: i32, mo: u32, d: u32, h: u32, mi: u32, s: u32, ns: u32) -> i64 {
    let t = CalendarTime::new(y, mo, d, h, mi, s, ns).expect("valid instant");
    SlackTime::new(&t).encode()
}

#[test]
fn timestamp_of_known_instant() {
    assert_eq!(seconds(2021, 1, 1, 0, 0, 0, 0), 1609459200);
}

#[test]
fn timestamp_epoch_and_before() {
    assert_eq!(seconds(1970, 1, 1, 0, 0, 0, 0), 0);
    assert_eq!(seconds(1969, 12, 31, 23, 59, 59, 0), -1);
    assert_eq!(seconds(1, 1, 1, 0, 0, 0, 0), -62135596800);
    assert_eq!(seconds(0, 1, 1, 0, 0, 0, 0), -62167219200);
}

#[test]
fn timestamp_drops_fraction() {
    assert_eq!(seconds(2000, 2, 29, 12, 34, 56, 999_999_999), 951827696);
    assert_eq!(seconds(2016, 12, 31, 23, 59, 59, 1_500_000_000), 1483228799);
}

#[test]
fn timestamp_at_the_extremes_and_negative_years() {
    assert_eq!(seconds(262142, 12, 31, 23, 59, 59, 0), 8210266876799);
    assert_eq!(seconds(-262143, 1, 1, 23, 59, 59, 0), -8334601142401);
    assert_eq!(seconds(-1, 3, 1, 23, 59, 59, 0), -62193571201);
    assert_eq!(seconds(-400, 2, 29, 23, 59, 59, 0), -74784816001);
    assert_eq!(seconds(1600, 12, 31, 23, 59, 59, 0), -11644473601);
}

#[test]
fn calendar_time_validation() {
    assert!(CalendarTime::new(2020, 2, 29, 0, 0, 0, 0).is_some());
    assert!(CalendarTime::new(2000, 2, 29, 0, 0, 0, 0).is_some());
    assert!(CalendarTime::new(2021, 2, 29, 0, 0, 0, 0).is_none());
    assert!(CalendarTime::new(1900, 2, 29, 0, 0, 0, 0).is_none());
    assert!(CalendarTime::new(2021, 4, 31, 0, 0, 0, 0).is_none());
    assert!(CalendarTime::new(2021, 13, 1, 0, 0, 0, 0).is_none());
    assert!(CalendarTime::new(2021, 0, 1, 0, 0, 0, 0).is_none());
    assert!(CalendarTime::new(2021, 1, 0, 0, 0, 0, 0).is_none());
    assert!(CalendarTime::new(2021, 1, 1, 24, 0, 0, 0).is_none());
    assert!(CalendarTime::new(2021, 1, 1, 0, 60, 0, 0).is_none());
    assert!(CalendarTime::new(2021, 1, 1, 0, 0, 60, 0).is_none());
    assert!(CalendarTime::new(2021, 1, 1, 0, 0, 58, 1_000_000_000).is_none());
    assert!(CalendarTime::new(2021, 1, 1, 0, 0, 59, 2_000_000_000).is_none());
    assert!(CalendarTime::new(262143, 1, 1, 0, 0, 0, 0).is_none());
    assert!(CalendarTime::new(-262144, 12, 31, 0, 0, 0, 0).is_none());
}

#[test]
fn calendar_time_agrees_with_chrono_on_validity() {
    for (y, mo, d) in [(2020, 2, 29), (2021, 2, 29), (1900, 2, 29), (-4, 2, 29), (-100, 2, 29), (262142, 12, 31), (262143, 1, 1)] {
        assert_eq!(
            CalendarTime::new(y, mo, d, 0, 0, 0, 0).is_some(),
            NaiveDate::from_ymd_opt(y, mo, d).is_some(),
            "{y}-{mo}-{d}"
        );
    }
}

#[test]
fn parse_mode_names() {
    assert_eq!(Parse::Full.encode(), "full");
    assert_eq!(Parse::Off.encode(), "none");
}
