use aurora_client::calendar::{
    duration_nanos, TimeOfDay, Timestamp, NANOS_PER_DAY, NANOS_PER_SECOND,
};

#[test]
fn timestamp_accepts_an_ordinary_day() {
    assert!(Timestamp::new(2017, 6, 5, 7, 3).is_some());
}

#[test]
fn timestamp_knows_leap_years() {
    assert!(Timestamp::new(2016, 2, 29, 0, 0).is_some());
    assert!(Timestamp::new(2017, 2, 29, 0, 0).is_none());
    assert!(Timestamp::new(2000, 2, 29, 0, 0).is_some());
    assert!(Timestamp::new(1900, 2, 29, 0, 0).is_none());
}

#[test]
fn timestamp_refuses_days_that_do_not_exist() {
    assert!(Timestamp::new(2017, 4, 31, 0, 0).is_none());
    assert!(Timestamp::new(2017, 4, 30, 0, 0).is_some());
    assert!(Timestamp::new(2017, 12, 31, 0, 0).is_some());
    assert!(Timestamp::new(2017, 12, 32, 0, 0).is_none());
    assert!(Timestamp::new(2017, 0, 1, 0, 0).is_none());
    assert!(Timestamp::new(2017, 13, 1, 0, 0).is_none());
    assert!(Timestamp::new(2017, 1, 0, 0, 0).is_none());
}

#[test]
fn timestamp_refuses_years_of_five_digits() {
    assert!(Timestamp::new(9999, 12, 31, 23, 59).is_some());
    assert!(Timestamp::new(10000, 1, 1, 0, 0).is_none());
    assert!(Timestamp::new(i32::MAX, 1, 1, 0, 0).is_none());
}

#[test]
fn timestamp_refuses_years_before_zero() {
    assert!(Timestamp::new(0, 1, 1, 0, 0).is_some());
    assert!(Timestamp::new(-1, 1, 1, 0, 0).is_none());
    assert!(Timestamp::new(i32::MIN, 1, 1, 0, 0).is_none());
}

#[test]
fn timestamp_refuses_fields_beyond_a_byte() {
    assert!(Timestamp::new(2017, 256 + 6, 5, 7, 3).is_none());
    assert!(Timestamp::new(2017, 6, 256 + 5, 7, 3).is_none());
    assert!(Timestamp::new(2017, 6, 5, 256 + 7, 3).is_none());
    assert!(Timestamp::new(2017, 6, 5, 7, 256 + 3).is_none());
    assert!(Timestamp::new(2017, u32::MAX, u32::MAX, u32::MAX, u32::MAX).is_none());
}

#[test]
fn timestamp_refuses_times_outside_the_day() {
    assert!(Timestamp::new(2017, 6, 5, 24, 0).is_none());
    assert!(Timestamp::new(2017, 6, 5, 23, 60).is_none());
    assert!(Timestamp::new(2017, 6, 5, 23, 59).is_some());
}

#[test]
fn date_string_is_zero_padded() {
    let stamp = Timestamp::new(2017, 6, 5, 7, 3).unwrap();
    assert_eq!(stamp.date_string(), "20170605");
}

#[test]
fn date_string_pads_early_years() {
    let stamp = Timestamp::new(33, 11, 30, 0, 0).unwrap();
    assert_eq!(stamp.date_string(), "00331130");
    let stamp = Timestamp::new(0, 1, 1, 0, 0).unwrap();
    assert_eq!(stamp.date_string(), "00000101");
}

#[test]
fn date_string_of_the_last_day() {
    let stamp = Timestamp::new(9999, 12, 31, 23, 59).unwrap();
    assert_eq!(stamp.date_string(), "99991231");
}

#[test]
fn time_string_is_zero_padded() {
    let stamp = Timestamp::new(2017, 6, 5, 7, 3).unwrap();
    assert_eq!(stamp.time_string(), "07:03");
}

#[test]
fn time_string_at_both_ends_of_the_day() {
    assert_eq!(Timestamp::new(2017, 6, 5, 0, 0).unwrap().time_string(), "00:00");
    assert_eq!(Timestamp::new(2017, 6, 5, 23, 59).unwrap().time_string(), "23:59");
}

#[test]
fn time_of_day_from_nanos_stays_within_the_day() {
    assert_eq!(TimeOfDay::from_nanos(0).unwrap().nanos(), 0);
    assert_eq!(TimeOfDay::from_nanos(NANOS_PER_DAY - 1).unwrap().nanos(), NANOS_PER_DAY - 1);
    assert!(TimeOfDay::from_nanos(NANOS_PER_DAY).is_none());
    assert!(TimeOfDay::from_nanos(u64::MAX).is_none());
}

#[test]
fn time_of_day_from_hms_counts_nanoseconds() {
    assert_eq!(TimeOfDay::from_hms(0, 0, 0).unwrap().nanos(), 0);
    assert_eq!(TimeOfDay::from_hms(6, 30, 15).unwrap().nanos(), 23_415 * NANOS_PER_SECOND);
    assert_eq!(TimeOfDay::from_hms(23, 59, 59).unwrap().nanos(), 86_399 * NANOS_PER_SECOND);
}

#[test]
fn time_of_day_from_hms_refuses_what_is_out_of_range() {
    assert!(TimeOfDay::from_hms(24, 0, 0).is_none());
    assert!(TimeOfDay::from_hms(0, 60, 0).is_none());
    assert!(TimeOfDay::from_hms(0, 0, 60).is_none());
}

#[test]
fn time_of_day_counts_the_nanoseconds_of_the_second() {
    assert_eq!(TimeOfDay::from_hms_nano(0, 0, 0, 1).unwrap().nanos(), 1);
    assert_eq!(
        TimeOfDay::from_hms_nano(6, 30, 15, 999_999_999).unwrap().nanos(),
        23_415 * NANOS_PER_SECOND + 999_999_999
    );
    assert_eq!(
        TimeOfDay::from_hms_nano(23, 59, 59, 999_999_999).unwrap().nanos(),
        NANOS_PER_DAY - 1
    );
}

#[test]
fn leap_second_is_the_last_nanosecond_of_its_second() {
    assert_eq!(
        TimeOfDay::from_hms_nano(23, 59, 59, 1_000_000_000).unwrap().nanos(),
        NANOS_PER_DAY - 1
    );
    assert_eq!(
        TimeOfDay::from_hms_nano(23, 59, 59, 1_999_999_999).unwrap().nanos(),
        NANOS_PER_DAY - 1
    );
    assert_eq!(
        TimeOfDay::from_hms_nano(0, 0, 59, u32::MAX).unwrap().nanos(),
        60 * NANOS_PER_SECOND - 1
    );
}

#[test]
fn time_of_day_from_hms_nano_refuses_what_is_out_of_range() {
    assert!(TimeOfDay::from_hms_nano(24, 0, 0, 0).is_none());
    assert!(TimeOfDay::from_hms_nano(0, 60, 0, 0).is_none());
    assert!(TimeOfDay::from_hms_nano(0, 0, 60, 0).is_none());
    assert!(TimeOfDay::from_hms_nano(u32::MAX, u32::MAX, u32::MAX, 0).is_none());
}

#[test]
fn duration_in_nanoseconds() {
    assert_eq!(duration_nanos(0, 0), Some(0));
    assert_eq!(duration_nanos(5, 0), Some(5 * NANOS_PER_SECOND));
    assert_eq!(duration_nanos(5, 250_000_000), Some(5_250_000_000));
    assert_eq!(duration_nanos(0, u32::MAX), Some(u64::from(u32::MAX)));
}

#[test]
fn duration_beyond_the_clock() {
    assert_eq!(duration_nanos(18_446_744_073, 709_551_615), Some(u64::MAX));
    assert_eq!(duration_nanos(18_446_744_073, 709_551_616), None);
    assert_eq!(duration_nanos(18_446_744_074, 0), None);
    assert_eq!(duration_nanos(u64::MAX, 0), None);
}
