use nrjmeter::decimal::{decimal_text, signed_decimal_text};
use nrjmeter::{Ratio, WallTime};

#[test]
fn decimal_text_of_integers() {
    assert_eq!(decimal_text(0), "0");
    assert_eq!(decimal_text(7), "7");
    assert_eq!(decimal_text(10), "10");
    assert_eq!(decimal_text(1_234_567_890_123), "1234567890123");
    assert_eq!(decimal_text(u128::MAX), "340282366920938463463374607431768211455");
}

#[test]
fn signed_decimal_text_of_integers() {
    assert_eq!(signed_decimal_text(0), "0");
    assert_eq!(signed_decimal_text(-42), "-42");
    assert_eq!(signed_decimal_text(i64::MAX), "9223372036854775807");
    assert_eq!(signed_decimal_text(i64::MIN), "-9223372036854775808");
}

#[test]
fn fixed_two_decimals_round_half_up() {
    assert_eq!(Ratio { num: 2000, den: 2000 }.fixed2_text(), "1.00");
    assert_eq!(Ratio { num: 1, den: 200 }.fixed2_text(), "0.01");
    assert_eq!(Ratio { num: 3, den: 200 }.fixed2_text(), "0.02");
    assert_eq!(Ratio { num: 1, den: 3 }.fixed2_text(), "0.33");
    assert_eq!(Ratio { num: 2, den: 3 }.fixed2_text(), "0.67");
    assert_eq!(Ratio { num: 0, den: 5 }.fixed2_text(), "0.00");
    assert_eq!(Ratio { num: 12345, den: 10 }.fixed2_text(), "1234.50");
    assert_eq!(Ratio { num: u64::MAX, den: 1 }.fixed2_text(), "18446744073709551615.00");
    assert_eq!(Ratio { num: 1, den: u128::MAX }.fixed2_text(), "0.00");
}

#[test]
fn fixed_two_decimals_of_a_zero_denominator() {
    assert_eq!(Ratio { num: 5, den: 0 }.fixed2_text(), "inf");
    assert_eq!(Ratio { num: 0, den: 0 }.fixed2_text(), "NaN");
}

#[test]
fn wall_time_accepts_only_existing_times() {
    assert!(WallTime::new(2024, 2, 29, 0, 0, 0, 0, 0).is_some());
    assert!(WallTime::new(2023, 2, 29, 0, 0, 0, 0, 0).is_none());
    assert!(WallTime::new(2000, 2, 29, 0, 0, 0, 0, 0).is_some());
    assert!(WallTime::new(1900, 2, 29, 0, 0, 0, 0, 0).is_none());
    assert!(WallTime::new(2024, 4, 31, 0, 0, 0, 0, 0).is_none());
    assert!(WallTime::new(2024, 13, 1, 0, 0, 0, 0, 0).is_none());
    assert!(WallTime::new(2024, 0, 1, 0, 0, 0, 0, 0).is_none());
    assert!(WallTime::new(0, 1, 1, 0, 0, 0, 0, 0).is_none());
    assert!(WallTime::new(10000, 1, 1, 0, 0, 0, 0, 0).is_none());
    assert!(WallTime::new(2024, 1, 1, 24, 0, 0, 0, 0).is_none());
    assert!(WallTime::new(2024, 1, 1, 0, 60, 0, 0, 0).is_none());
    assert!(WallTime::new(2024, 1, 1, 0, 0, 60, 0, 0).is_none());
    assert!(WallTime::new(2024, 1, 1, 0, 0, 58, 1_500_000_000, 0).is_none());
    assert!(WallTime::new(2024, 1, 1, 0, 0, 59, 1_500_000_000, 0).is_some());
    assert!(WallTime::new(2024, 1, 1, 0, 0, 59, 2_000_000_000, 0).is_none());
    assert!(WallTime::new(2024, 1, 1, 0, 0, 0, 0, 86_399).is_some());
    assert!(WallTime::new(2024, 1, 1, 0, 0, 0, 0, 86_400).is_none());
    assert!(WallTime::new(2024, 1, 1, 0, 0, 0, 0, -86_400).is_none());
}

#[test]
fn wall_time_keeps_its_fields() {
    let t = WallTime::new(2024, 3, 10, 7, 8, 9, 10, -3600).unwrap();
    assert_eq!(
        (t.year(), t.month(), t.day(), t.hour(), t.minute(), t.second(), t.nanosecond()),
        (2024, 3, 10, 7, 8, 9, 10)
    );
    assert_eq!(t.offset_secs(), -3600);
}

#[test]
fn rfc3339_text_of_wall_times() {
    let t = WallTime::new(2024, 3, 10, 0, 0, 5, 0, 3600).unwrap();
    assert_eq!(t.to_rfc3339(), "2024-03-10T00:00:05+01:00");
    let t = WallTime::new(2024, 3, 10, 0, 0, 5, 123_000_000, -5400).unwrap();
    assert_eq!(t.to_rfc3339(), "2024-03-10T00:00:05.123-01:30");
}

#[test]
fn unix_nanoseconds_of_wall_times() {
    let t = WallTime::new(2024, 3, 10, 0, 0, 5, 0, 3600).unwrap();
    assert_eq!(t.timestamp_nanos_opt(), Some(1_710_025_205_000_000_000));
    let t = WallTime::new(1970, 1, 1, 0, 0, 0, 1, 0).unwrap();
    assert_eq!(t.timestamp_nanos_opt(), Some(1));
    let t = WallTime::new(1969, 12, 31, 23, 59, 59, 0, 0).unwrap();
    assert_eq!(t.timestamp_nanos_opt(), Some(-1_000_000_000));
    let t = WallTime::new(2300, 1, 1, 0, 0, 0, 0, 0).unwrap();
    assert_eq!(t.timestamp_nanos_opt(), None);
}

#[test]
fn window_close_of_midnight_is_the_end_of_day() {
    let t = WallTime::new(2024, 3, 9, 23, 59, 58, 0, 0).unwrap();
    let c = t.window_close(0);
    assert_eq!((c.day(), c.hour(), c.minute(), c.second()), (9, 23, 59, 59));
    assert_eq!(c.nanosecond(), 999_999_999);
    let c = t.window_close(5);
    assert_eq!(c.hour(), 4);
    assert!(t.is_same_day(&c));
    assert!(!t.is_same_day(&WallTime::new(2024, 3, 10, 23, 59, 58, 0, 0).unwrap()));
}
