use chrono::{DateTime, Timelike, Utc};
use usage_limit_wait::clock::{Span, UtcInstant, MAX_UTC_SECS, MIN_UTC_SECS};
use usage_limit_wait::countdown::format_remaining_time_at;
use usage_limit_wait::quota_wait::{
    plan_wait, select_wake, CodexErr, EventMsg, UsageLimitWaitEvent, WaitAction, WaitInput,
    WaitPhase, Wake,
};

fn instant(secs: i64, nanos: u32) -> UtcInstant {
    UtcInstant::new(secs, nanos).unwrap()
}

fn date_time(instant: UtcInstant) -> DateTime<Utc> {
    let whole = DateTime::<Utc>::from_timestamp(instant.secs, 0).unwrap().naive_utc();
    whole.with_nanosecond(instant.nanos).unwrap().and_utc()
}

#[test]
fn instants_cover_what_a_date_and_time_can_hold() {
    assert_eq!(DateTime::<Utc>::MIN_UTC.timestamp(), MIN_UTC_SECS);
    assert_eq!(DateTime::<Utc>::MAX_UTC.timestamp(), MAX_UTC_SECS);
    assert!(DateTime::<Utc>::from_timestamp(MIN_UTC_SECS - 1, 0).is_none());
    assert!(DateTime::<Utc>::from_timestamp(MAX_UTC_SECS + 1, 0).is_none());
    assert!(UtcInstant::new(MIN_UTC_SECS, 0).is_some());
    assert!(UtcInstant::new(MAX_UTC_SECS, 1_999_999_999).is_some());
    assert!(UtcInstant::new(MIN_UTC_SECS - 1, 0).is_none());
    assert!(UtcInstant::new(MAX_UTC_SECS + 1, 0).is_none());
    assert!(UtcInstant::new(0, 2_000_000_000).is_none());
}

#[test]
fn differences_of_instants_agree_with_the_calendar() {
    let samples = [
        instant(MIN_UTC_SECS, 0),
        instant(-86_401, 999_999_999),
        instant(-1, 1),
        instant(0, 0),
        instant(59, 1_500_000_000),
        instant(1_700_000_000, 123_456_789),
        instant(1_700_000_000, 1_123_456_789),
        instant(1_483_228_799, 1_999_999_999),
        instant(1_483_228_800, 0),
        instant(MAX_UTC_SECS, 1_999_999_999),
    ];
    for later in samples {
        for earlier in samples {
            let delta = later.signed_duration_since(earlier);
            let expected = date_time(later).signed_duration_since(date_time(earlier));
            let total = delta.secs as i128 * 1_000_000_000 + delta.nanos as i128;
            let expected_total = expected.num_seconds() as i128 * 1_000_000_000
                + expected.subsec_nanos() as i128;
            assert_eq!(total, expected_total);
            // The difference by the formula that the contract gives.
            let leap = match later.secs.rem_euclid(86_400) - earlier.secs.rem_euclid(86_400) {
                distance if distance > 0 && earlier.nanos >= 1_000_000_000 => 1,
                distance if distance < 0 && later.nanos >= 1_000_000_000 => -1,
                _ => 0,
            };
            let formula = (later.secs - earlier.secs + leap) as i128 * 1_000_000_000
                + later.nanos as i128 - earlier.nanos as i128;
            assert_eq!(total, formula);

            let plan = plan_wait(later, earlier);
            let wait = expected.to_std().unwrap_or_default() + std::time::Duration::from_secs(5);
            assert_eq!(plan.wait_duration.secs, wait.as_secs());
            assert_eq!(plan.wait_duration.nanos, wait.subsec_nanos());
            assert_eq!(
                plan.retry_at_ms,
                date_time(earlier).timestamp_millis() + wait.as_millis() as i64,
            );
        }
    }
}

#[test]
fn stale_reset_waits_five_seconds() {
    let now = instant(1_700_000_000, 250_000_000);
    let plan = plan_wait(instant(1_700_000_000 - 60, 0), now);
    assert_eq!(plan.wait_duration, Span { secs: 5, nanos: 0 });
    assert_eq!(plan.retry_at_ms, 1_700_000_005_250);
}

#[test]
fn reset_right_now_waits_five_seconds() {
    let now = instant(1_700_000_000, 0);
    let plan = plan_wait(now, now);
    assert_eq!(plan.wait_duration, Span { secs: 5, nanos: 0 });
    assert_eq!(plan.retry_at_ms, 1_700_000_005_000);
}

#[test]
fn reset_in_an_hour_is_retried_within_six_seconds_of_it() {
    let resets_at = 1_700_003_600;
    for nanos in [0, 1, 999_999, 1_000_000, 1_500_000, 999_999_999] {
        let plan = plan_wait(instant(resets_at, 0), instant(1_700_000_000, nanos));
        assert!((resets_at * 1000..=resets_at * 1000 + 6000).contains(&plan.retry_at_ms));
        assert!(plan.retry_at_ms == resets_at * 1000 + 5000 || plan.retry_at_ms == resets_at * 1000 + 4999);
    }
    let plan = plan_wait(instant(resets_at, 0), instant(1_700_000_000, 1_500_000));
    assert_eq!(plan.wait_duration, Span { secs: 3_604, nanos: 998_500_000 });
    assert_eq!(plan.retry_at_ms, 1_700_003_604_999);
}

#[test]
fn later_reset_waits_no_less() {
    let now = instant(1_000, 0);
    let mut longest = Span { secs: 0, nanos: 0 };
    for secs in 990..1_020 {
        let wait = plan_wait(instant(secs, 500), now).wait_duration;
        assert!((wait.secs, wait.nanos) >= (longest.secs, longest.nanos));
        longest = wait;
    }
}

#[test]
fn durations_add_up_and_saturate() {
    let a = Span { secs: 1, nanos: 600_000_000 };
    let b = Span { secs: 2, nanos: 700_000_000 };
    assert_eq!(a.saturating_add(b), Span { secs: 4, nanos: 300_000_000 });
    let longest = Span { secs: u64::MAX, nanos: 999_999_999 };
    assert_eq!(longest.saturating_add(Span::from_secs(5)), longest);
    assert_eq!(longest.saturating_add(Span::zero()), longest);
    assert_eq!(b.as_millis(), 2_700);
    assert_eq!(longest.as_millis(), u64::MAX as u128 * 1000 + 999);
}

#[test]
fn wait_begun_by_the_clock_retries_after_the_reset() {
    let resets_at = Utc::now().timestamp() + 3600;
    let before = Utc::now().timestamp_millis();
    let (phase, action) = WaitPhase::begin(instant(resets_at, 0));
    match action {
        WaitAction::Send(EventMsg::UsageLimitWaitStarted(event)) => {
            assert!((resets_at * 1000..=resets_at * 1000 + 6000).contains(&event.retry_at_ms));
            assert!(event.retry_at_ms > before);
        }
        other => panic!("unexpected action {other:?}"),
    }
    match phase {
        WaitPhase::Starting { wait_duration } => {
            assert!(3_600 <= wait_duration.secs && wait_duration.secs <= 3_605);
        }
        other => panic!("unexpected phase {other:?}"),
    }
}

#[test]
fn stale_wait_begun_by_the_clock_retries_in_five_seconds() {
    let before = Utc::now().timestamp_millis();
    let (_, action) = WaitPhase::begin(instant(Utc::now().timestamp() - 60, 0));
    let after = Utc::now().timestamp_millis();
    match action {
        WaitAction::Send(EventMsg::UsageLimitWaitStarted(event)) => {
            assert!(before + 5_000 <= event.retry_at_ms && event.retry_at_ms <= after + 5_000);
        }
        other => panic!("unexpected action {other:?}"),
    }
}

#[test]
fn wait_announces_its_end_before_it_returns() {
    let plan = plan_wait(instant(1_060, 0), instant(1_000, 0));
    for (wake, result) in [(Wake::Elapsed, Ok(())), (Wake::Cancelled, Err(CodexErr::TurnAborted))] {
        let (mut phase, action) = WaitPhase::begin_with(plan);
        assert_eq!(
            action,
            WaitAction::Send(EventMsg::UsageLimitWaitStarted(UsageLimitWaitEvent {
                retry_at_ms: 1_065_000,
            })),
        );
        assert_eq!(
            phase.step(WaitInput::EventSent),
            Some(WaitAction::Sleep(Span { secs: 65, nanos: 0 })),
        );
        assert_eq!(
            phase.step(WaitInput::Woke(wake)),
            Some(WaitAction::Send(EventMsg::UsageLimitWaitEnded)),
        );
        assert_eq!(phase.step(WaitInput::EventSent), Some(WaitAction::Return(result)));
        assert_eq!(phase, WaitPhase::Finished);
    }
}

#[test]
fn reports_out_of_order_change_nothing() {
    let plan = plan_wait(instant(1_060, 0), instant(1_000, 0));
    let (mut phase, _) = WaitPhase::begin_with(plan);
    assert_eq!(phase.step(WaitInput::Woke(Wake::Cancelled)), None);
    assert_eq!(phase.step(WaitInput::EventSent), Some(WaitAction::Sleep(plan.wait_duration)));
    assert_eq!(phase.step(WaitInput::EventSent), None);
    assert_eq!(phase, WaitPhase::Sleeping);
    assert!(phase.step(WaitInput::Woke(Wake::Elapsed)).is_some());
    assert_eq!(phase.step(WaitInput::Woke(Wake::Cancelled)), None);
    assert_eq!(phase.step(WaitInput::EventSent), Some(WaitAction::Return(Ok(()))));
    assert_eq!(phase.step(WaitInput::EventSent), None);
}

#[test]
fn cancellation_goes_before_the_end_of_the_sleep() {
    assert_eq!(select_wake(true, true), Some(Wake::Cancelled));
    assert_eq!(select_wake(true, false), Some(Wake::Cancelled));
    assert_eq!(select_wake(false, true), Some(Wake::Elapsed));
    assert_eq!(select_wake(false, false), None);
}

#[test]
fn countdown_begins_with_the_wait_and_outlasts_the_reset() {
    let now = instant(1_000, 700_000_000);
    let resets_at = instant(1_060, 300_000_000);
    let plan = plan_wait(resets_at, now);
    assert_eq!(plan.wait_duration, Span { secs: 64, nanos: 600_000_000 });
    assert_eq!(plan.retry_at_ms, 1_065_300);
    assert_eq!(format_remaining_time_at(plan.retry_at_ms, 1_000_700), "1m 04s");
    assert_eq!(format_remaining_time_at(plan.retry_at_ms, 1_060_300), "0m 05s");
    assert_eq!(format_remaining_time_at(plan.retry_at_ms, 1_064_300), "0m 01s");
    assert_eq!(format_remaining_time_at(plan.retry_at_ms, 1_064_301), "0m 00s");
}
