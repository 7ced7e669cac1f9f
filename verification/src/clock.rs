//! Instants and durations as plain values, and the clocks they are read from.

use chrono::{DateTime, OutOfRangeError, TimeDelta, Timelike, Utc};
use std::time::{SystemTimeError, UNIX_EPOCH};
use vstd::prelude::*;

verus! {

pub const NANOS_PER_SEC: u32 = 1_000_000_000;

pub const NANOS_PER_MILLI: u32 = 1_000_000;

/// First second that a UTC date and time can lie in, counted from the Unix epoch.
pub const MIN_UTC_SECS: i64 = -8_334_601_228_800;

/// Last second that a UTC date and time can lie in, counted from the Unix epoch.
pub const MAX_UTC_SECS: i64 = 8_210_266_876_799;

/// A length of time of zero or more nanoseconds: whole seconds and the nanoseconds
/// beyond them.
#[derive(Clone, Copy, Debug, PartialEq, Eq, Structural)]
pub struct Span {
    pub secs: u64,
    pub nanos: u32,
}

impl Span {
    /// The nanoseconds are less than one second.
    pub open spec fn wf(self) -> bool {
        self.nanos < NANOS_PER_SEC
    }

    /// The whole length in nanoseconds.
    pub open spec fn total_nanos(self) -> int {
        self.secs * NANOS_PER_SEC + self.nanos
    }

    /// The whole milliseconds in this length.
    pub open spec fn total_millis(self) -> int {
        self.total_nanos() / (NANOS_PER_MILLI as int)
    }

    /// The longest representable length, in nanoseconds.
    pub open spec fn max_nanos() -> int {
        u64::MAX * NANOS_PER_SEC + (NANOS_PER_SEC - 1)
    }

    /// No time at all.
    pub fn zero() -> (span: Span)
        ensures
            span == (Span { secs: 0, nanos: 0 }),
    {
        Span { secs: 0, nanos: 0 }
    }

    /// A number of whole seconds.
    pub fn from_secs(secs: u64) -> (span: Span)
        ensures
            span == (Span { secs, nanos: 0 }),
    {
        Span { secs, nanos: 0 }
    }

    /// Adds two lengths, stopping at the longest representable one.
    pub fn saturating_add(self, other: Span) -> (sum: Span)
        requires
            self.wf(),
            other.wf(),
        ensures
            sum.wf(),
            sum.total_nanos() == if self.total_nanos() + other.total_nanos() <= Span::max_nanos() {
                self.total_nanos() + other.total_nanos()
            } else {
                Span::max_nanos()
            },
    {
        let nanos: u32 = self.nanos + other.nanos;
        let carry: u64 = if nanos >= NANOS_PER_SEC { 1 } else { 0 };
        let rest: u32 = if nanos >= NANOS_PER_SEC { nanos - NANOS_PER_SEC } else { nanos };
        let secs: u128 = self.secs as u128 + other.secs as u128 + carry as u128;
        if secs <= u64::MAX as u128 {
            Span { secs: secs as u64, nanos: rest }
        } else {
            Span { secs: u64::MAX, nanos: NANOS_PER_SEC - 1 }
        }
    }

    /// The whole milliseconds in this length.
    pub fn as_millis(self) -> (millis: u128)
        requires
            self.wf(),
        ensures
            millis == self.total_millis(),
            millis == self.secs * 1000 + self.nanos / NANOS_PER_MILLI,
    {
        self.secs as u128 * 1000 + (self.nanos / NANOS_PER_MILLI) as u128
    }
}

/// A length of time that may be negative: whole seconds, rounded down, and the
/// nanoseconds beyond them.
#[derive(Clone, Copy, Debug, PartialEq, Eq, Structural)]
pub struct SignedSpan {
    pub secs: i64,
    pub nanos: u32,
}

impl SignedSpan {
    /// The nanoseconds are less than one second, and the length is one that the
    /// calendar library can hold: less than `i64::MAX` milliseconds either way.
    pub open spec fn wf(self) -> bool {
        &&& self.nanos < NANOS_PER_SEC
        &&& -9_223_372_036_854_775 <= self.secs < 9_223_372_036_854_775
    }

    /// The whole length in nanoseconds.
    pub open spec fn total_nanos(self) -> int {
        self.secs * NANOS_PER_SEC + self.nanos
    }
}

/// A UTC date and time: seconds since the Unix epoch, and nanoseconds since that
/// second began. Nanoseconds of a full second or more lie in a leap second that
/// follows the second.
#[derive(Clone, Copy, Debug, PartialEq, Eq, Structural)]
pub struct UtcInstant {
    pub secs: i64,
    pub nanos: u32,
}

impl UtcInstant {
    /// The instant is one that a `chrono::DateTime<Utc>` can hold.
    pub open spec fn wf(self) -> bool {
        &&& MIN_UTC_SECS <= self.secs <= MAX_UTC_SECS
        &&& self.nanos < 2 * NANOS_PER_SEC
    }

    /// The instant does not lie in a leap second.
    pub open spec fn is_ordinary(self) -> bool {
        self.nanos < NANOS_PER_SEC
    }

    /// Nanoseconds since the Unix epoch, each day counted as 86400 seconds.
    pub open spec fn unix_nanos(self) -> int {
        self.secs * NANOS_PER_SEC + self.nanos
    }

    /// Milliseconds since the Unix epoch, rounded down.
    pub open spec fn unix_millis(self) -> int {
        self.secs * 1000 + self.nanos / NANOS_PER_MILLI
    }

    /// Seconds since midnight.
    pub open spec fn time_of_day(self) -> int {
        self.secs as int % 86_400
    }

    /// Seconds to count on top of the Unix difference when one of the two instants
    /// lies in a leap second: the later time of day has that second behind it.
    pub open spec fn leap_seconds_since(self, earlier: UtcInstant) -> int {
        if self.time_of_day() > earlier.time_of_day() && !earlier.is_ordinary() {
            1
        } else if self.time_of_day() < earlier.time_of_day() && !self.is_ordinary() {
            -1
        } else {
            0
        }
    }

    /// Nanoseconds from `earlier` to this instant, negative when it lies before.
    pub open spec fn nanos_since(self, earlier: UtcInstant) -> int {
        self.unix_nanos() - earlier.unix_nanos() + self.leap_seconds_since(earlier) * NANOS_PER_SEC
    }

    /// An instant, if a UTC date and time can hold it.
    pub fn new(secs: i64, nanos: u32) -> (instant: Option<UtcInstant>)
        ensures
            instant is Some <==> (UtcInstant { secs, nanos }).wf(),
            instant matches Some(t) ==> t == (UtcInstant { secs, nanos }),
    {
        if MIN_UTC_SECS <= secs && secs <= MAX_UTC_SECS && nanos < 2 * NANOS_PER_SEC {
            Some(UtcInstant { secs, nanos })
        } else {
            None
        }
    }

    /// The time from `earlier` to this instant.
    pub fn signed_duration_since(self, earlier: UtcInstant) -> (delta: SignedSpan)
        requires
            self.wf(),
            earlier.wf(),
        ensures
            delta.wf(),
            delta.total_nanos() == self.nanos_since(earlier),
    {
        let (secs, nanos) = chrono_signed_duration_since(self, earlier);
        if nanos < 0 {
            SignedSpan { secs: secs - 1, nanos: (nanos + 1_000_000_000) as u32 }
        } else {
            SignedSpan { secs, nanos: nanos as u32 }
        }
    }
}

/// Calls `chrono::DateTime::<Utc>::signed_duration_since` and takes the result apart
/// with `TimeDelta::num_seconds` and `TimeDelta::subsec_nanos`; the instants are handed over
/// by way of `DateTime::from_timestamp` and `NaiveDateTime::with_nanosecond`, which take every
/// valid instant. Claimed: the two parts add up to the nanoseconds from `earlier` to `later`,
/// and the second part is less than a second either way.
#[verifier::external_body]
fn chrono_signed_duration_since(later: UtcInstant, earlier: UtcInstant) -> (parts: (i64, i32))
    requires
        later.wf(),
        earlier.wf(),
    ensures
        parts.0 * NANOS_PER_SEC + parts.1 == later.nanos_since(earlier),
        -1_000_000_000 < parts.1 < 1_000_000_000,
{
    let whole = DateTime::<Utc>::from_timestamp(later.secs, 0).unwrap().naive_utc();
    let later = whole.with_nanosecond(later.nanos).unwrap().and_utc();
    let whole = DateTime::<Utc>::from_timestamp(earlier.secs, 0).unwrap().naive_utc();
    let earlier = whole.with_nanosecond(earlier.nanos).unwrap().and_utc();
    let delta = later.signed_duration_since(earlier);
    (delta.num_seconds(), delta.subsec_nanos())
}

/// Declares the error of `chrono::TimeDelta::to_std`.
#[verifier::external_type_specification]
#[verifier::external_body]
pub struct ExOutOfRangeError(OutOfRangeError);

/// Calls `chrono::TimeDelta::to_std`; the length is handed over by way of `TimeDelta::new`,
/// which takes every valid one. Claimed: a length below zero is an error, and any
/// other length comes back unchanged.
#[verifier::external_body]
pub(crate) fn chrono_to_std(delta: SignedSpan) -> (span: Result<Span, OutOfRangeError>)
    requires
        delta.wf(),
    ensures
        span is Err <==> delta.total_nanos() < 0,
        span matches Ok(s) ==> s.wf() && s.total_nanos() == delta.total_nanos(),
{
    match TimeDelta::new(delta.secs, delta.nanos).unwrap().to_std() {
        Ok(std) => Ok(Span { secs: std.as_secs(), nanos: std.subsec_nanos() }),
        Err(error) => Err(error),
    }
}

/// Calls `chrono::DateTime::<Utc>::timestamp_millis`; the instant is handed over by way of
/// `DateTime::from_timestamp` and `NaiveDateTime::with_nanosecond`. Claimed: the result is the
/// number of milliseconds since the Unix epoch, rounded down.
#[verifier::external_body]
pub(crate) fn chrono_timestamp_millis(instant: UtcInstant) -> (millis: i64)
    requires
        instant.wf(),
    ensures
        millis == instant.unix_millis(),
{
    let whole = DateTime::<Utc>::from_timestamp(instant.secs, 0).unwrap().naive_utc();
    let instant = whole.with_nanosecond(instant.nanos).unwrap().and_utc();
    instant.timestamp_millis()
}

/// Calls `chrono::Utc::now`. Claimed of every reading: it is a valid instant at or after
/// the Unix epoch and outside leap seconds. Which instant it is depends on the system
/// clock. The call does not return when that clock is set before the Unix epoch, or past the
/// last valid instant.
#[verifier::external_body]
pub(crate) fn chrono_utc_now() -> (now: UtcInstant)
    ensures
        now.wf(),
        now.is_ordinary(),
        now.secs >= 0,
{
    let now = Utc::now();
    UtcInstant { secs: now.timestamp(), nanos: now.timestamp_subsec_nanos() }
}

/// Declares the error of `SystemTime::elapsed`.
#[verifier::external_type_specification]
#[verifier::external_body]
pub struct ExSystemTimeError(SystemTimeError);

/// Calls `SystemTime::elapsed` on the Unix epoch. Claimed: a span that comes back has less than
/// a second of nanoseconds. How long it is, and whether there is one, depends on the system
/// clock.
#[verifier::external_body]
fn since_unix_epoch() -> (elapsed: Result<Span, SystemTimeError>)
    ensures
        elapsed matches Ok(span) ==> span.wf(),
{
    match UNIX_EPOCH.elapsed() {
        Ok(std) => Ok(Span { secs: std.as_secs(), nanos: std.subsec_nanos() }),
        Err(error) => Err(error),
    }
}

/// The milliseconds that a clock shows, given the time it has run since the Unix epoch
/// (`None` when it is set before the epoch).
pub open spec fn clock_millis_spec(elapsed: Option<Span>) -> int {
    match elapsed {
        Some(span) => if span.total_millis() <= i64::MAX { span.total_millis() } else { i64::MAX as int },
        None => 0,
    }
}

/// The milliseconds that a clock shows, given the time it has run since the Unix epoch
/// (`None` when it is set before the epoch). Readings beyond `i64::MAX` stop there.
pub fn clock_millis(elapsed: Option<Span>) -> (millis: i64)
    requires
        elapsed matches Some(span) ==> span.wf(),
    ensures
        millis == clock_millis_spec(elapsed),
        millis >= 0,
{
    match elapsed {
        Some(span) => {
            let millis: u128 = span.as_millis();
            if millis <= i64::MAX as u128 { millis as i64 } else { i64::MAX }
        },
        None => 0,
    }
}

/// The system clock was read, and had run this long since the Unix epoch (`None`: it was set
/// before the epoch). Only a call that reads the clock establishes this.
pub closed spec fn system_clock_read(elapsed: Option<Span>) -> bool {
    match elapsed {
        Some(span) => call_ensures(since_unix_epoch, (), Ok(span)),
        None => exists|error: SystemTimeError| call_ensures(since_unix_epoch, (), Err(error)),
    }
}

/// A reading of the system clock came to this many milliseconds since the Unix epoch.
pub open spec fn unix_clock_showed(now_ms: i64) -> bool {
    exists|elapsed: Option<Span>| #[trigger]
        system_clock_read(elapsed) && (elapsed matches Some(span) ==> span.wf()) && now_ms
            == clock_millis_spec(elapsed)
}

/// Milliseconds since the Unix epoch by the system clock, zero when the clock is set
/// before the epoch.
pub fn unix_now_ms() -> (now_ms: i64)
    ensures
        now_ms >= 0,
        unix_clock_showed(now_ms),
{
    match since_unix_epoch() {
        Ok(span) => {
            assert(system_clock_read(Some(span)));
            clock_millis(Some(span))
        },
        Err(error) => {
            assert(call_ensures(since_unix_epoch, (), Err(error)));
            assert(system_clock_read(None));
            clock_millis(None)
        },
    }
}

/// A clock shows the whole milliseconds of the time it has run, or the most that there are; one
/// that is set before the epoch shows none.
pub proof fn law_clock_shows_milliseconds(elapsed: Option<Span>)
    requires
        elapsed matches Some(span) ==> span.nanos < 1_000_000_000,
    ensures
        match elapsed {
            Some(span) => {
                let shown = clock_millis_spec(elapsed);
                let run = span.secs * 1_000_000_000 + span.nanos;
                if run < 9_223_372_036_854_775_808_000_000 {
                    shown * 1_000_000 <= run < (shown + 1) * 1_000_000
                } else {
                    shown == 9_223_372_036_854_775_807
                }
            },
            None => clock_millis_spec(elapsed) == 0,
        },
{
}

/// A reading of the system clock is what `since_unix_epoch` returned: the time that the clock had
/// run, or none where the call failed.
proof fn law_system_reading_came_from_the_clock(elapsed: Option<Span>)
    requires
        system_clock_read(elapsed),
    ensures
        match elapsed {
            Some(span) => call_ensures(since_unix_epoch, (), Ok(span)) && span.nanos
                < 1_000_000_000,
            None => exists|error: SystemTimeError|
                call_ensures(since_unix_epoch, (), Err(error)),
        },
{
}

/// Every time that the clock showed goes back to a reading of it: the milliseconds are those of
/// the time that the clock had then run.
pub proof fn law_clock_time_is_a_reading(now_ms: i64)
    requires
        unix_clock_showed(now_ms),
    ensures
        exists|elapsed: Option<Span>| #[trigger]
            system_clock_read(elapsed) && match elapsed {
                Some(span) => {
                    let run = span.secs * 1_000_000_000 + span.nanos;
                    if run < 9_223_372_036_854_775_808_000_000 {
                        now_ms * 1_000_000 <= run < (now_ms + 1) * 1_000_000
                    } else {
                        now_ms == 9_223_372_036_854_775_807
                    }
                },
                None => now_ms == 0,
            },
{
    let elapsed = choose|elapsed: Option<Span>| #[trigger]
        system_clock_read(elapsed) && (elapsed matches Some(span) ==> span.wf()) && now_ms
            == clock_millis_spec(elapsed);
    law_clock_shows_milliseconds(elapsed);
}

/// A length of time is its seconds and its nanoseconds; its milliseconds are the whole ones in it;
/// and no two lengths with less than a second of nanoseconds are the same.
pub proof fn law_span_measures(a: Span, b: Span)
    requires
        a.nanos < 1_000_000_000,
        b.nanos < 1_000_000_000,
    ensures
        a.wf(),
        a.total_nanos() == a.secs * 1_000_000_000 + a.nanos,
        a.total_millis() == a.secs * 1_000 + a.nanos / 1_000_000,
        a.total_nanos() <= Span::max_nanos(),
        Span::max_nanos() == 18_446_744_073_709_551_615 * 1_000_000_000 + 999_999_999,
        a.total_nanos() == b.total_nanos() ==> a == b,
{
}

/// Outside leap seconds, the time between two instants is the difference of their Unix times.
/// In any case it changes its sign with the order of the two.
pub proof fn law_difference_of_instants(a: UtcInstant, b: UtcInstant)
    ensures
        a.nanos < 1_000_000_000 && b.nanos < 1_000_000_000 ==> a.nanos_since(b) == (a.secs - b.secs)
            * 1_000_000_000 + a.nanos - b.nanos,
        a.nanos_since(b) == -b.nanos_since(a),
        a.nanos_since(a) == 0,
{
}

/// The Unix time of an instant in milliseconds is its Unix time in nanoseconds, rounded down.
pub proof fn law_unix_millis_round_down(t: UtcInstant)
    ensures
        t.unix_millis() * 1_000_000 <= t.secs * 1_000_000_000 + t.nanos < (t.unix_millis() + 1)
            * 1_000_000,
{
}

/// The valid instants are those in the seconds that a UTC date and time can lie in, each with less
/// than two seconds of nanoseconds.
pub proof fn law_valid_instants(t: UtcInstant)
    ensures
        t.wf() <==> -8_334_601_228_800 <= t.secs <= 8_210_266_876_799 && t.nanos < 2_000_000_000,
        t.is_ordinary() <==> t.nanos < 1_000_000_000,
{
}

/// A length of time that may be negative is its seconds and the nanoseconds on top of them, so it is
/// negative exactly when its seconds are.
pub proof fn law_signed_span_measures(a: SignedSpan, b: SignedSpan)
    requires
        a.wf(),
        b.wf(),
    ensures
        a.nanos < 1_000_000_000,
        a.total_nanos() == a.secs * 1_000_000_000 + a.nanos,
        a.total_nanos() < 0 <==> a.secs < 0,
        a.total_nanos() == b.total_nanos() ==> a == b,
{
}

} // verus!
