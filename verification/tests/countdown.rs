use usage_limit_wait::clock::{clock_millis, unix_now_ms, Span};
use usage_limit_wait::countdown::{
    format_remaining_seconds, format_remaining_time, format_remaining_time_at,
};

#[test]
fn countdown_formats_minutes_hours_and_days() {
    assert_eq!(format_remaining_seconds(7), "0m 07s");
    assert_eq!(format_remaining_seconds(3_661), "1h 01m 01s");
    assert_eq!(format_remaining_seconds(90_061), "1d 1h 01m 01s");
}

#[test]
fn countdown_decreases_when_refreshed_one_second_later() {
    let retry_at_ms = 4_322_000;
    assert_eq!(format_remaining_time_at(retry_at_ms, 1_000), "1h 12m 01s");
    assert_eq!(format_remaining_time_at(retry_at_ms, 2_000), "1h 12m 00s");
}

#[test]
fn countdown_matches_std_formatting() {
    let mut samples: Vec<u64> = (0..200_000).step_by(7).collect();
    samples.extend([59, 60, 3_599, 3_600, 86_399, 86_400, 863_999, 864_000, u64::MAX - 1, u64::MAX]);
    for total in samples {
        let days = total / 86_400;
        let hours = (total % 86_400) / 3_600;
        let minutes = (total % 3_600) / 60;
        let seconds = total % 60;
        let expected = if days > 0 {
            format!("{days}d {hours}h {minutes:02}m {seconds:02}s")
        } else if hours > 0 {
            format!("{hours}h {minutes:02}m {seconds:02}s")
        } else {
            format!("{minutes}m {seconds:02}s")
        };
        assert_eq!(format_remaining_seconds(total), expected);
    }
}

#[test]
fn countdown_units_appear_at_their_thresholds() {
    assert_eq!(format_remaining_seconds(0), "0m 00s");
    assert_eq!(format_remaining_seconds(3_599), "59m 59s");
    assert_eq!(format_remaining_seconds(3_600), "1h 00m 00s");
    assert_eq!(format_remaining_seconds(86_399), "23h 59m 59s");
    assert_eq!(format_remaining_seconds(86_400), "1d 0h 00m 00s");
}

#[test]
fn countdowns_of_different_lengths_read_differently() {
    let mut texts: Vec<String> = (0..100_000).map(format_remaining_seconds).collect();
    texts.sort();
    texts.dedup();
    assert_eq!(texts.len(), 100_000);
}

#[test]
fn countdown_stays_at_zero_once_the_time_has_come() {
    assert_eq!(format_remaining_time_at(1_000, 1_000), "0m 00s");
    assert_eq!(format_remaining_time_at(1_999, 1_000), "0m 00s");
    assert_eq!(format_remaining_time_at(2_000, 1_000), "0m 01s");
    assert_eq!(format_remaining_time_at(i64::MIN, i64::MAX), "0m 00s");
}

#[test]
fn countdown_saturates_at_the_longest_distance() {
    let longest = format_remaining_seconds(i64::MAX as u64 / 1_000);
    assert_eq!(format_remaining_time_at(i64::MAX, 0), longest);
    assert_eq!(format_remaining_time_at(i64::MAX, -5_000), longest);
    assert_eq!(format_remaining_time_at(i64::MAX, i64::MIN), longest);
}

#[test]
fn countdown_never_grows_as_time_passes() {
    let mut shown = u64::MAX;
    for now_ms in (0..10_000).step_by(250) {
        let text = format_remaining_time_at(7_500, now_ms);
        let left = (0..8u64).find(|s| format_remaining_seconds(*s) == text).unwrap();
        assert!(left <= shown);
        shown = left;
    }
    assert_eq!(shown, 0);
}

#[test]
fn countdown_by_the_system_clock_lies_between_two_readings() {
    let before = unix_now_ms();
    let text = format_remaining_time(before + 100_000_500);
    let after = unix_now_ms();
    let candidates: Vec<String> = (before..=after)
        .map(|now_ms| format_remaining_time_at(before + 100_000_500, now_ms))
        .collect();
    assert!(candidates.contains(&text));
}

#[test]
fn system_clock_is_read_in_milliseconds_since_the_epoch() {
    let before = chrono::Utc::now().timestamp_millis();
    let now_ms = unix_now_ms();
    let after = chrono::Utc::now().timestamp_millis();
    assert!(before <= now_ms && now_ms <= after);
}

#[test]
fn clock_readings_become_milliseconds() {
    assert_eq!(clock_millis(None), 0);
    assert_eq!(clock_millis(Some(Span { secs: 12, nanos: 345_678_901 })), 12_345);
    assert_eq!(clock_millis(Some(Span { secs: u64::MAX, nanos: 0 })), i64::MAX);
}
