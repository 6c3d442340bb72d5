use chrono::{Datelike, NaiveDate};
use prayer_times::calendar::{julian_day, shift_date, CivilDate, MAX_YEAR, MIN_YEAR};

fn civil(date: NaiveDate) -> CivilDate {
    CivilDate { year: date.year(), month: date.month(), day: date.day() }
}

fn ymd(year: i32, month: u32, day: u32) -> CivilDate {
    CivilDate { year, month, day }
}

#[test]
fn test_julian_day_known_dates() {
    let j2000 = NaiveDate::from_ymd_opt(2000, 1, 1).unwrap();
    assert!((f64::from(julian_day(civil(j2000))) - 2_451_545.0).abs() < f64::EPSILON);

    let before = NaiveDate::from_ymd_opt(1999, 12, 31).unwrap();
    assert!((f64::from(julian_day(civil(before))) - 2_451_544.0).abs() < f64::EPSILON);

    let paris_test_date = NaiveDate::from_ymd_opt(2025, 10, 2).unwrap();
    assert!((f64::from(julian_day(civil(paris_test_date))) - 2_460_951.0).abs() < f64::EPSILON);
}

#[test]
fn julian_day_of_early_dates() {
    // 4714-11-24 BCE (proleptic Gregorian, astronomical year -4713) starts the count.
    assert_eq!(julian_day(ymd(-4713, 11, 24)), 0);
    assert_eq!(julian_day(ymd(1, 1, 1)), 1_721_426);
    assert_eq!(julian_day(ymd(1858, 11, 17)), 2_400_001);
}

#[test]
fn julian_day_counts_consecutive_days() {
    let mut date = NaiveDate::from_ymd_opt(-4800, 3, 1).unwrap();
    let mut previous = julian_day(civil(date));
    for _ in 0..3_000_000 {
        date = date.succ_opt().unwrap();
        let jdn = julian_day(civil(date));
        assert_eq!(jdn, previous + 1);
        previous = jdn;
    }
}

#[test]
fn julian_day_is_days_since_2000_plus_2451545() {
    let j2000 = NaiveDate::from_ymd_opt(2000, 1, 1).unwrap();
    let mut date = NaiveDate::from_ymd_opt(-4800, 3, 1).unwrap();
    while date < NaiveDate::MAX {
        let expected = 2_451_545 + date.signed_duration_since(j2000).num_days();
        assert_eq!(i64::from(julian_day(civil(date))), expected);
        date = match date.checked_add_days(chrono::Days::new(9_973)) {
            Some(next) => next,
            None => break,
        };
    }
}

#[test]
fn julian_day_count_breaks_before_march_of_year_minus_4800() {
    let leap_day = ymd(-4800, 2, 29);
    let march = ymd(-4800, 3, 1);
    assert_ne!(julian_day(march), julian_day(leap_day) + 1);
}

#[test]
fn validity_follows_the_gregorian_calendar() {
    assert!(ymd(2024, 2, 29).is_valid_date());
    assert!(!ymd(2023, 2, 29).is_valid_date());
    assert!(ymd(2000, 2, 29).is_valid_date());
    assert!(!ymd(1900, 2, 29).is_valid_date());
    assert!(ymd(-4, 2, 29).is_valid_date());
    assert!(!ymd(-1, 2, 29).is_valid_date());
    assert!(!ymd(2025, 4, 31).is_valid_date());
    assert!(!ymd(2025, 13, 1).is_valid_date());
    assert!(!ymd(2025, 0, 1).is_valid_date());
    assert!(!ymd(2025, 1, 0).is_valid_date());
    assert!(ymd(MAX_YEAR, 12, 31).is_valid_date());
    assert!(!ymd(MAX_YEAR + 1, 1, 1).is_valid_date());
    assert!(!ymd(MIN_YEAR - 1, 12, 31).is_valid_date());
}

#[test]
fn shift_date_moves_by_whole_days() {
    let d = ymd(2025, 10, 2);
    assert_eq!(shift_date(d, 0), d);
    assert_eq!(shift_date(d, 1), ymd(2025, 10, 3));
    assert_eq!(shift_date(d, -1), ymd(2025, 10, 1));
    assert_eq!(shift_date(ymd(2024, 12, 31), 1), ymd(2025, 1, 1));
    assert_eq!(shift_date(ymd(2024, 3, 1), -1), ymd(2024, 2, 29));
    assert_eq!(shift_date(d, 30), ymd(2025, 11, 1));
}

#[test]
fn shift_date_keeps_the_date_when_out_of_range() {
    let last = ymd(MAX_YEAR, 12, 31);
    assert_eq!(shift_date(last, 1), last);
    let first = ymd(MIN_YEAR, 1, 1);
    assert_eq!(shift_date(first, -1), first);
    assert_eq!(shift_date(ymd(2025, 1, 1), i64::MIN), ymd(2025, 1, 1));
    assert_eq!(shift_date(ymd(2025, 1, 1), i64::MAX), ymd(2025, 1, 1));
}
