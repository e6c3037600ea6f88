//! Conversion of seconds and a fraction to microseconds, and decimal text.

use snowflake_api::text::decimal_text;
use snowflake_api::timestamp::{timestamp_micros, MAX_SCALE};

#[test]
fn every_scale_is_a_power_of_ten() {
    let expected: [i64; 25] = [
        123_000_000, 12_300_000, 1_230_000, 123_000, 12_300, 1_230, 123, 12, 1, 0, 0, 0, 0, 0, 0,
        0, 0, 0, 0, 0, 0, 0, 0, 0, 0,
    ];
    assert_eq!(MAX_SCALE, 24);
    for (scale, micros) in expected.iter().enumerate() {
        assert_eq!(timestamp_micros(scale as u32, 0, 123), Some(*micros), "scale {scale}");
    }
}

#[test]
fn negative_fractions_round_towards_zero() {
    assert_eq!(timestamp_micros(7, 0, -19), Some(-1));
    assert_eq!(timestamp_micros(7, 10, -19), Some(9_999_999));
    assert_eq!(timestamp_micros(15, 0, i32::MIN), Some(-2));
}

#[test]
fn coarse_fractions_are_exact() {
    // 12.345 s written in milliseconds and in microseconds is the same instant.
    assert_eq!(timestamp_micros(3, 12, 345), Some(12_345_000));
    assert_eq!(timestamp_micros(6, 12, 345_000), Some(12_345_000));
}

#[test]
fn a_fraction_below_one_second_stays_below_it() {
    assert_eq!(timestamp_micros(9, 0, 999_999_999), Some(999_999));
    assert_eq!(timestamp_micros(1, 0, 9), Some(900_000));
}

#[test]
fn later_instants_have_no_smaller_timestamps() {
    let instants = [(-2_i64, 999_999_999_i32), (-1, 0), (-1, 1), (0, 0), (0, 999), (0, 1_000), (1, 0)];
    for pair in instants.windows(2) {
        let earlier = timestamp_micros(9, pair[0].0, pair[0].1).unwrap();
        let later = timestamp_micros(9, pair[1].0, pair[1].1).unwrap();
        assert!(earlier <= later, "{pair:?}");
    }
}

#[test]
fn the_range_is_that_of_i64() {
    assert_eq!(timestamp_micros(6, 9_223_372_036_854, 775_807), Some(i64::MAX));
    assert_eq!(timestamp_micros(6, 9_223_372_036_854, 775_808), None);
    assert_eq!(timestamp_micros(6, -9_223_372_036_854, -775_808), Some(i64::MIN));
    assert_eq!(timestamp_micros(6, -9_223_372_036_854, -775_809), None);
    assert_eq!(timestamp_micros(6, 9_223_372_036_855, -1_000_000), None);
    assert_eq!(timestamp_micros(0, i64::MIN, 0), None);
}

#[test]
fn decimal_text_has_no_leading_zeros() {
    assert_eq!(decimal_text(0), "0");
    assert_eq!(decimal_text(7), "7");
    assert_eq!(decimal_text(10), "10");
    assert_eq!(decimal_text(9_008_000), "9008000");
}
