use prayer_times::event::Event;
use prayer_times::prayer::{
    format_two_digits, next_step, previous_step, text_duration, text_time, time_has_passed,
    time_remaining, Step,
};

const SECOND: i128 = 1_000_000_000;

#[test]
fn previous_stays_on_the_same_calculation_when_earlier() {
    // Isha at 20:35, Maghrib at 19:20.
    assert_eq!(previous_step(Event::Isha, 74_100, 69_600), Step::SameMeasures(Event::Maghrib));
}

#[test]
fn previous_of_fajr_goes_to_the_day_before() {
    // Fajr at 06:10; Isha of the same calculation is at 20:35.
    assert_eq!(previous_step(Event::Fajr, 22_200, 74_100), Step::OtherDay(Event::Isha, -1));
}

#[test]
fn next_of_isha_is_the_midnight_after_it() {
    // Isha at 20:35; Midnight of the same calculation falls at 01:39 the next
    // day, 86_400 + 5_940 seconds from the start of the calculation's date.
    assert_eq!(next_step(Event::Isha, 74_100, 92_340), Step::SameMeasures(Event::Midnight));
}

#[test]
fn next_of_a_midnight_after_00_00_is_the_following_fajr() {
    // Midnight at 01:39 the next day; Fajr of the same calculation is at 06:10
    // of the calculation's date, which is earlier on the wall clock.
    assert_eq!(next_step(Event::Midnight, 92_340, 22_200), Step::OtherDay(Event::Fajr, 1));
    // Going back from that Midnight finds the same calculation's Isha.
    assert_eq!(previous_step(Event::Midnight, 92_340, 74_100), Step::SameMeasures(Event::Isha));
}

#[test]
fn next_step_within_the_day() {
    assert_eq!(next_step(Event::Dhuhr, 48_000, 58_000), Step::SameMeasures(Event::Asr));
    assert_eq!(next_step(Event::Dhuhr, 48_000, 48_000), Step::SameMeasures(Event::Asr));
}

#[test]
fn remaining_time_is_never_negative() {
    assert_eq!(time_remaining(-5 * SECOND), 0);
    assert_eq!(time_remaining(0), 0);
    assert_eq!(time_remaining(7 * SECOND), 7 * SECOND);
    assert!(time_has_passed(-1));
    assert!(time_has_passed(0));
    assert!(!time_has_passed(1));
}

#[test]
fn two_digit_formatting_pads_with_zero() {
    assert_eq!(format_two_digits(0), "00");
    assert_eq!(format_two_digits(7), "07");
    assert_eq!(format_two_digits(42), "42");
    assert_eq!(format_two_digits(123), "123");
    assert_eq!(format_two_digits(u64::MAX), format!("{:02}", u64::MAX));
}

#[test]
fn duration_text_while_ahead() {
    let until = (3600 + 13 * 60 + 20) * SECOND;
    assert_eq!(text_duration(Event::Dhuhr, until), "Dhuhr in 01H13");
    assert_eq!(text_duration(Event::Asr, 100 * 3600 * SECOND), "Asr in 100H00");
    assert_eq!(text_duration(Event::Isha, 1), "Isha in 00H00");
}

#[test]
fn duration_text_once_passed() {
    assert_eq!(text_duration(Event::Fajr, -(5 * 3600) * SECOND), "Fajr since 00H00");
    assert!(text_duration(Event::Fajr, 0).starts_with("Fajr since "));
}

#[test]
fn time_text_has_the_clock_format() {
    let text = text_time(Event::Fajr, 7 * 3600 + 3 * 60 + 6);
    assert_eq!(text, "Fajr at 07:03:06");
    assert!(text.len() == "Fajr at HH:MM:SS".len());
    assert_eq!(text_time(Event::Midnight, 0), "Midnight at 00:00:00");
    assert_eq!(text_time(Event::Isha, 86_399), "Isha at 23:59:59");
}
