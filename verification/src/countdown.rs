//! The text of a countdown to the retry of a waiting turn.

use crate::clock::{unix_clock_showed, unix_now_ms};
use vstd::arithmetic::div_mod::lemma_fundamental_div_mod_converse;
use vstd::prelude::*;
use vstd::string::StringExecFns;

verus! {

/// The character of a decimal digit.
pub open spec fn digit_char(digit: nat) -> char {
    (48 + digit) as char
}

/// A number in decimal, without leading zeros.
pub open spec fn decimal(n: nat) -> Seq<char>
    decreases n,
{
    if n < 10 {
        seq![digit_char(n)]
    } else {
        decimal(n / 10).push(digit_char(n % 10))
    }
}

/// A number in decimal, padded with a zero to two digits.
pub open spec fn two_digits(n: nat) -> Seq<char> {
    if n < 10 {
        seq![digit_char(0), digit_char(n)]
    } else {
        decimal(n)
    }
}

/// The text that shows `total` seconds: days and hours only where there are any, and
/// everything below the largest unit but hours in two digits.
pub open spec fn countdown_text(total: nat) -> Seq<char> {
    let days = total / 86_400;
    let hours = (total % 86_400) / 3_600;
    let minutes = (total % 3_600) / 60;
    let seconds = total % 60;
    if days > 0 {
        decimal(days) + "d "@ + decimal(hours) + "h "@ + two_digits(minutes) + "m "@ + two_digits(
            seconds,
        ) + "s"@
    } else if hours > 0 {
        decimal(hours) + "h "@ + two_digits(minutes) + "m "@ + two_digits(seconds) + "s"@
    } else {
        decimal(minutes) + "m "@ + two_digits(seconds) + "s"@
    }
}

/// Whole seconds from `now_ms` to `retry_at_ms`, zero once that time has come. A distance
/// beyond `i64::MAX` milliseconds counts as that many.
pub open spec fn remaining_seconds(retry_at_ms: i64, now_ms: i64) -> nat {
    let left = retry_at_ms - now_ms;
    if left <= 0 {
        0
    } else if left <= i64::MAX {
        (left / 1000) as nat
    } else {
        (i64::MAX as int / 1000) as nat
    }
}

/// The text of a single digit.
fn digit_text(digit: u64) -> (text: &'static str)
    requires
        digit < 10,
    ensures
        text@ == seq![digit_char(digit as nat)],
{
    proof {
        reveal_strlit("0");
        reveal_strlit("1");
        reveal_strlit("2");
        reveal_strlit("3");
        reveal_strlit("4");
        reveal_strlit("5");
        reveal_strlit("6");
        reveal_strlit("7");
        reveal_strlit("8");
        reveal_strlit("9");
    }
    match digit {
        0 => "0",
        1 => "1",
        2 => "2",
        3 => "3",
        4 => "4",
        5 => "5",
        6 => "6",
        7 => "7",
        8 => "8",
        _ => "9",
    }
}

/// Appends a number in decimal.
fn append_decimal(out: &mut String, n: u64)
    ensures
        final(out)@ == old(out)@ + decimal(n as nat),
    decreases n,
{
    if n >= 10 {
        append_decimal(out, n / 10);
    }
    out.append(digit_text(n % 10));
}

/// Appends a number in decimal, padded with a zero to two digits.
fn append_two_digits(out: &mut String, n: u64)
    ensures
        final(out)@ == old(out)@ + two_digits(n as nat),
{
    if n < 10 {
        out.append(digit_text(0));
    }
    append_decimal(out, n);
}

/// The countdown for a number of remaining seconds.
pub fn format_remaining_seconds(remaining_seconds: u64) -> (text: String)
    ensures
        text@ == countdown_text(remaining_seconds as nat),
{
    let days: u64 = remaining_seconds / 86_400;
    let hours: u64 = (remaining_seconds % 86_400) / 3_600;
    let minutes: u64 = (remaining_seconds % 3_600) / 60;
    let seconds: u64 = remaining_seconds % 60;

    let mut text = String::new();
    if days > 0 {
        append_decimal(&mut text, days);
        text.append("d ");
    }
    if days > 0 || hours > 0 {
        append_decimal(&mut text, hours);
        text.append("h ");
        append_two_digits(&mut text, minutes);
    } else {
        append_decimal(&mut text, minutes);
    }
    text.append("m ");
    append_two_digits(&mut text, seconds);
    text.append("s");
    assert(text@ =~= countdown_text(remaining_seconds as nat));
    text
}

/// The countdown to `retry_at_ms` as it stands at `now_ms`.
pub fn format_remaining_time_at(retry_at_ms: i64, now_ms: i64) -> (text: String)
    ensures
        text@ == countdown_text(remaining_seconds(retry_at_ms, now_ms)),
{
    let left: i128 = retry_at_ms as i128 - now_ms as i128;
    let left_ms: u64 = if left <= 0 {
        0
    } else if left <= i64::MAX as i128 {
        left as u64
    } else {
        i64::MAX as u64
    };
    format_remaining_seconds(left_ms / 1000)
}

/// The countdown to `retry_at_ms` by the system clock: the one for the time it was read at.
pub fn format_remaining_time(retry_at_ms: i64) -> (text: String)
    ensures
        exists|now_ms: i64|
            now_ms >= 0 && unix_clock_showed(now_ms) && text@ == countdown_text(
                #[trigger] remaining_seconds(retry_at_ms, now_ms),
            ),
{
    let now_ms: i64 = unix_now_ms();
    format_remaining_time_at(retry_at_ms, now_ms)
}

/// Every character is a decimal digit.
spec fn all_digits(s: Seq<char>) -> bool {
    forall|i: int| 0 <= i < s.len() ==> 48 <= #[trigger] s[i] as int <= 57
}

/// The number that a sequence of digits writes.
spec fn digits_value(s: Seq<char>) -> int
    decreases s.len(),
{
    if s.len() == 0 {
        0
    } else {
        10 * digits_value(s.drop_last()) + (s.last() as int - 48)
    }
}

proof fn lemma_decimal_value(n: nat)
    ensures
        all_digits(decimal(n)),
        digits_value(decimal(n)) == n,
    decreases n,
{
    if n >= 10 {
        lemma_decimal_value(n / 10);
        assert(decimal(n).drop_last() =~= decimal(n / 10));
    } else {
        assert(decimal(n).drop_last() =~= seq![]);
        assert(digits_value(seq![]) == 0);
    }
}

proof fn lemma_two_digits_value(n: nat)
    ensures
        all_digits(two_digits(n)),
        digits_value(two_digits(n)) == n,
{
    lemma_decimal_value(n);
    if n < 10 {
        assert(two_digits(n).drop_last() =~= decimal(0));
        lemma_decimal_value(0);
    }
}

/// Digits that end at another character can be told from what follows.
proof fn lemma_digits_end(a: Seq<char>, u: char, x: Seq<char>, b: Seq<char>, v: char, y: Seq<char>)
    requires
        all_digits(a),
        all_digits(b),
        !(48 <= u as int <= 57),
        !(48 <= v as int <= 57),
        a.push(u) + x == b.push(v) + y,
    ensures
        a == b,
        u == v,
        x == y,
{
    let whole = a.push(u) + x;
    assert(whole[a.len() as int] == u);
    assert(whole[b.len() as int] == v) by {
        assert((b.push(v) + y)[b.len() as int] == v);
    }
    if a.len() < b.len() {
        assert((b.push(v) + y)[a.len() as int] == b[a.len() as int]);
    } else if b.len() < a.len() {
        assert((a.push(u) + x)[b.len() as int] == a[b.len() as int]);
    }
    assert forall|i: int| 0 <= i < a.len() implies a[i] == b[i] by {
        assert((a.push(u) + x)[i] == a[i]);
        assert((b.push(v) + y)[i] == b[i]);
    }
    assert(a =~= b);
    assert(x =~= whole.skip(a.len() as int + 1));
    assert(y =~= (b.push(v) + y).skip(b.len() as int + 1));
}

/// The text of the seconds, behind that of the minutes.
spec fn seconds_part(seconds: nat) -> Seq<char> {
    seq![' '] + (two_digits(seconds).push('s') + seq![])
}

/// The text of the minutes and seconds, behind that of the hours.
spec fn minutes_part(minutes: nat, seconds: nat) -> Seq<char> {
    seq![' '] + (two_digits(minutes).push('m') + seconds_part(seconds))
}

/// The text of the hours, minutes and seconds, behind that of the days.
spec fn hours_part(hours: nat, minutes: nat, seconds: nat) -> Seq<char> {
    seq![' '] + (decimal(hours).push('h') + minutes_part(minutes, seconds))
}

proof fn lemma_same_after_space(x: Seq<char>, y: Seq<char>)
    requires
        seq![' '] + x == seq![' '] + y,
    ensures
        x == y,
{
    assert(x =~= (seq![' '] + x).skip(1));
    assert(y =~= (seq![' '] + y).skip(1));
}

proof fn lemma_seconds_part(s: nat, t: nat)
    requires
        seconds_part(s) == seconds_part(t),
    ensures
        s == t,
{
    lemma_two_digits_value(s);
    lemma_two_digits_value(t);
    lemma_same_after_space(
        two_digits(s).push('s') + seq![],
        two_digits(t).push('s') + seq![],
    );
    lemma_digits_end(two_digits(s), 's', seq![], two_digits(t), 's', seq![]);
}

proof fn lemma_minutes_part(m: nat, s: nat, n: nat, t: nat)
    requires
        minutes_part(m, s) == minutes_part(n, t),
    ensures
        m == n,
        s == t,
{
    lemma_two_digits_value(m);
    lemma_two_digits_value(n);
    lemma_same_after_space(
        two_digits(m).push('m') + seconds_part(s),
        two_digits(n).push('m') + seconds_part(t),
    );
    lemma_digits_end(two_digits(m), 'm', seconds_part(s), two_digits(n), 'm', seconds_part(t));
    lemma_seconds_part(s, t);
}

proof fn lemma_hours_part(h: nat, m: nat, s: nat, k: nat, n: nat, t: nat)
    requires
        hours_part(h, m, s) == hours_part(k, n, t),
    ensures
        h == k,
        m == n,
        s == t,
{
    lemma_decimal_value(h);
    lemma_decimal_value(k);
    lemma_same_after_space(
        decimal(h).push('h') + minutes_part(m, s),
        decimal(k).push('h') + minutes_part(n, t),
    );
    lemma_digits_end(decimal(h), 'h', minutes_part(m, s), decimal(k), 'h', minutes_part(n, t));
    lemma_minutes_part(m, s, n, t);
}

proof fn lemma_unit_then(a: Seq<char>, unit: char, x: Seq<char>)
    ensures
        a + seq![unit, ' '] + x =~= a.push(unit) + (seq![' '] + x),
{
}

proof fn lemma_units_regroup(
    a: Seq<char>,
    u: Seq<char>,
    b: Seq<char>,
    v: Seq<char>,
    c: Seq<char>,
    w: Seq<char>,
)
    ensures
        a + u + b + v + c + w =~= a + u + (b + v + c + w),
{
}

proof fn lemma_more_units_regroup(
    a: Seq<char>,
    u: Seq<char>,
    b: Seq<char>,
    v: Seq<char>,
    c: Seq<char>,
    w: Seq<char>,
    d: Seq<char>,
    z: Seq<char>,
)
    ensures
        a + u + b + v + c + w + d + z =~= a + u + (b + v + c + w + d + z),
{
}

/// The text of minutes and seconds, whatever way the minutes are written.
proof fn lemma_minutes_text(minutes: Seq<char>, seconds: nat)
    ensures
        minutes + "m "@ + two_digits(seconds) + "s"@ == minutes.push('m') + seconds_part(seconds),
{
    reveal_strlit("m ");
    reveal_strlit("s");
    let s = two_digits(seconds);
    assert("m "@ =~= seq!['m', ' ']);
    assert("s"@ =~= seq!['s']);
    assert(s + seq!['s'] =~= s.push('s') + seq![]);
    lemma_unit_then(minutes, 'm', s + seq!['s']);
    assert(minutes + seq!['m', ' '] + s + seq!['s'] =~= minutes + seq!['m', ' '] + (s + seq!['s']));
}

/// The text of hours, minutes and seconds.
proof fn lemma_hours_text(hours: Seq<char>, minutes: nat, seconds: nat)
    ensures
        hours + "h "@ + two_digits(minutes) + "m "@ + two_digits(seconds) + "s"@ == hours.push('h')
            + minutes_part(minutes, seconds),
{
    reveal_strlit("h ");
    assert("h "@ =~= seq!['h', ' ']);
    let m = two_digits(minutes);
    let s = two_digits(seconds);
    lemma_units_regroup(hours, "h "@, m, "m "@, s, "s"@);
    lemma_minutes_text(m, seconds);
    lemma_unit_then(hours, 'h', m + "m "@ + s + "s"@);
}

/// The text of days, hours, minutes and seconds.
proof fn lemma_days_text(days: Seq<char>, hours: nat, minutes: nat, seconds: nat)
    ensures
        days + "d "@ + decimal(hours) + "h "@ + two_digits(minutes) + "m "@ + two_digits(seconds)
            + "s"@ == days.push('d') + hours_part(hours, minutes, seconds),
{
    reveal_strlit("d ");
    assert("d "@ =~= seq!['d', ' ']);
    let h = decimal(hours);
    let m = two_digits(minutes);
    let s = two_digits(seconds);
    lemma_more_units_regroup(days, "d "@, h, "h "@, m, "m "@, s, "s"@);
    lemma_hours_text(h, minutes, seconds);
    lemma_unit_then(days, 'd', h + "h "@ + m + "m "@ + s + "s"@);
}

/// The text of a number of days, hours, minutes and seconds.
#[verifier::opaque]
spec fn parts_text(days: nat, hours: nat, minutes: nat, seconds: nat) -> Seq<char> {
    if days > 0 {
        decimal(days).push('d') + hours_part(hours, minutes, seconds)
    } else if hours > 0 {
        decimal(hours).push('h') + minutes_part(minutes, seconds)
    } else {
        decimal(minutes).push('m') + seconds_part(seconds)
    }
}

proof fn lemma_countdown_parts(total: nat)
    ensures
        countdown_text(total) == parts_text(
            total / 86_400,
            (total % 86_400) / 3_600,
            (total % 3_600) / 60,
            total % 60,
        ),
{
    reveal(parts_text);
    let days = total / 86_400;
    let hours = (total % 86_400) / 3_600;
    let minutes = (total % 3_600) / 60;
    let seconds = total % 60;
    lemma_days_text(decimal(days), hours, minutes, seconds);
    lemma_hours_text(decimal(hours), minutes, seconds);
    lemma_minutes_text(decimal(minutes), seconds);
}

proof fn lemma_parts_unambiguous(
    d: nat,
    h: nat,
    m: nat,
    s: nat,
    e: nat,
    k: nat,
    n: nat,
    t: nat,
)
    requires
        parts_text(d, h, m, s) == parts_text(e, k, n, t),
    ensures
        d == e,
        h == k,
        m == n,
        s == t,
{
    reveal(parts_text);
    let (a, u, x) = if d > 0 {
        (d, 'd', hours_part(h, m, s))
    } else if h > 0 {
        (h, 'h', minutes_part(m, s))
    } else {
        (m, 'm', seconds_part(s))
    };
    let (b, v, y) = if e > 0 {
        (e, 'd', hours_part(k, n, t))
    } else if k > 0 {
        (k, 'h', minutes_part(n, t))
    } else {
        (n, 'm', seconds_part(t))
    };
    lemma_decimal_value(a);
    lemma_decimal_value(b);
    lemma_digits_end(decimal(a), u, x, decimal(b), v, y);
    if u == 'd' {
        lemma_hours_part(h, m, s, k, n, t);
    } else if u == 'h' {
        lemma_minutes_part(m, s, n, t);
    } else {
        lemma_seconds_part(s, t);
    }
}

proof fn lemma_parts_add_up(total: nat)
    ensures
        total == 86_400 * (total / 86_400) + 3_600 * ((total % 86_400) / 3_600) + 60 * ((total
            % 3_600) / 60) + total % 60,
{
    let day = total % 86_400;
    let hour = total % 3_600;
    assert(total == 86_400 * (total / 86_400) + day);
    assert(day == 3_600 * (day / 3_600) + hour) by {
        let k = 24 * (total / 86_400) + day / 3_600;
        assert(total == 3_600 * k + day % 3_600);
        lemma_fundamental_div_mod_converse(total as int, 3_600, k as int, (day % 3_600) as int);
    }
    assert(hour == 60 * (hour / 60) + total % 60) by {
        let k = 60 * (total / 3_600) + hour / 60;
        assert(total == 60 * k + hour % 60);
        lemma_fundamental_div_mod_converse(total as int, 60, k as int, (hour % 60) as int);
    }
}

/// Two countdowns read alike only when they show the same number of seconds.
pub proof fn law_countdown_is_unambiguous(a: nat, b: nat)
    requires
        countdown_text(a) == countdown_text(b),
    ensures
        a == b,
{
    let (d, h, m, s) = (a / 86_400, (a % 86_400) / 3_600, (a % 3_600) / 60, a % 60);
    let (e, k, n, t) = (b / 86_400, (b % 86_400) / 3_600, (b % 3_600) / 60, b % 60);
    assert(d == e && h == k && m == n && s == t) by {
        lemma_countdown_parts(a);
        lemma_countdown_parts(b);
        lemma_parts_unambiguous(d, h, m, s, e, k, n, t);
    }
    lemma_parts_add_up(a);
    lemma_parts_add_up(b);
}

/// As time passes, a countdown never grows.
pub proof fn law_countdown_never_grows(retry_at_ms: i64, now_ms: i64, later_ms: i64)
    requires
        now_ms <= later_ms,
    ensures
        remaining_seconds(retry_at_ms, later_ms) <= remaining_seconds(retry_at_ms, now_ms),
{
}

/// A countdown with a second or more left, refreshed one second later, shows one second
/// less, and so another text. Only distances too long to be told apart are left out: those
/// that show the seconds of `i64::MAX` milliseconds though they are longer.
pub proof fn law_countdown_decreases_by_the_second(retry_at_ms: i64, now_ms: i64)
    requires
        1000 <= retry_at_ms - now_ms,
        (retry_at_ms - now_ms) / 1000 <= i64::MAX as int / 1000,
    ensures
        ({
            let later_ms = (now_ms + 1000) as i64;
            &&& remaining_seconds(retry_at_ms, later_ms) + 1 == remaining_seconds(retry_at_ms, now_ms)
            &&& countdown_text(remaining_seconds(retry_at_ms, later_ms)) != countdown_text(
                remaining_seconds(retry_at_ms, now_ms),
            )
        }),
{
    let later = remaining_seconds(retry_at_ms, (now_ms + 1000) as i64);
    let sooner = remaining_seconds(retry_at_ms, now_ms);
    if countdown_text(later) == countdown_text(sooner) {
        law_countdown_is_unambiguous(later, sooner);
    }
}

/// A countdown shows nothing left exactly when less than a second is left.
pub proof fn law_countdown_ends_at_retry(retry_at_ms: i64, now_ms: i64)
    ensures
        countdown_text(remaining_seconds(retry_at_ms, now_ms)) == countdown_text(0) <==> retry_at_ms
            - now_ms < 1000,
{
    if countdown_text(remaining_seconds(retry_at_ms, now_ms)) == countdown_text(0) {
        law_countdown_is_unambiguous(remaining_seconds(retry_at_ms, now_ms), 0);
    }
}

/// The whole seconds left are those of the milliseconds left: no more of them fit, and one
/// fewer would leave a second over. None are left once the time has come, and a distance beyond
/// `i64::MAX` milliseconds counts as that many.
pub proof fn law_remaining_seconds_are_whole(retry_at_ms: i64, now_ms: i64)
    ensures
        ({
            let left = retry_at_ms - now_ms;
            let seconds = remaining_seconds(retry_at_ms, now_ms);
            &&& left < 1_000 ==> seconds == 0
            &&& 0 <= left <= 9_223_372_036_854_775_807 ==> seconds * 1_000 <= left < (seconds + 1)
                * 1_000
            &&& left > 9_223_372_036_854_775_807 ==> seconds == 9_223_372_036_854_775
        }),
{
}

/// Decimal numbers are built digit by digit from the front: a single digit stands for itself, and
/// a digit behind a number other than zero makes it ten times as large and adds its own value.
pub proof fn law_decimal_by_digits(n: nat, digit: nat)
    requires
        digit < 10,
    ensures
        decimal(digit) == seq![(48 + digit) as char],
        n > 0 ==> decimal(10 * n + digit) == decimal(n).push((48 + digit) as char),
{
    if n > 0 {
        assert((10 * n + digit) / 10 == n);
        assert((10 * n + digit) % 10 == digit);
    }
}

proof fn lemma_two_digits_written(n: nat)
    requires
        n < 100,
    ensures
        two_digits(n) == seq![(48 + n / 10) as char, (48 + n % 10) as char],
{
    if n >= 10 {
        assert(n / 10 < 10);
        assert(decimal(n / 10) == seq![digit_char(n / 10)]);
        assert(two_digits(n) =~= seq![(48 + n / 10) as char, (48 + n % 10) as char]);
    }
}

/// A number of days, hours, minutes and seconds is shown with each unit behind its number, spaces
/// between, and two digits for minutes and seconds; days are left out where there are none, hours
/// where there are neither, and then the minutes are not padded.
pub proof fn law_countdown_of_parts(days: nat, hours: nat, minutes: nat, seconds: nat)
    requires
        hours < 24,
        minutes < 60,
        seconds < 60,
    ensures
        ({
            let text = countdown_text(days * 86_400 + hours * 3_600 + minutes * 60 + seconds);
            let m = seq![(48 + minutes / 10) as char, (48 + minutes % 10) as char];
            let s = seq![(48 + seconds / 10) as char, (48 + seconds % 10) as char];
            text == if days > 0 {
                decimal(days) + seq!['d', ' '] + decimal(hours) + seq!['h', ' '] + m + seq!['m', ' '] + s
                    + seq!['s']
            } else if hours > 0 {
                decimal(hours) + seq!['h', ' '] + m + seq!['m', ' '] + s + seq!['s']
            } else {
                decimal(minutes) + seq!['m', ' '] + s + seq!['s']
            }
        }),
{
    let total = days * 86_400 + hours * 3_600 + minutes * 60 + seconds;
    assert(total / 86_400 == days && (total % 86_400) / 3_600 == hours && (total % 3_600) / 60
        == minutes && total % 60 == seconds) by {
        lemma_parts_of_sum(days, hours, minutes, seconds);
    }
    lemma_two_digits_written(minutes);
    lemma_two_digits_written(seconds);
    reveal_strlit("d ");
    reveal_strlit("h ");
    reveal_strlit("m ");
    reveal_strlit("s");
    assert("d "@ =~= seq!['d', ' ']);
    assert("h "@ =~= seq!['h', ' ']);
    assert("m "@ =~= seq!['m', ' ']);
    assert("s"@ =~= seq!['s']);
}

proof fn lemma_parts_of_sum(days: nat, hours: nat, minutes: nat, seconds: nat)
    requires
        hours < 24,
        minutes < 60,
        seconds < 60,
    ensures
        ({
            let total = days * 86_400 + hours * 3_600 + minutes * 60 + seconds;
            &&& total / 86_400 == days
            &&& (total % 86_400) / 3_600 == hours
            &&& (total % 3_600) / 60 == minutes
            &&& total % 60 == seconds
        }),
{
    let total = days * 86_400 + hours * 3_600 + minutes * 60 + seconds;
    let day = hours * 3_600 + minutes * 60 + seconds;
    let hour = minutes * 60 + seconds;
    lemma_fundamental_div_mod_converse(total as int, 86_400, days as int, day as int);
    lemma_fundamental_div_mod_converse(day as int, 3_600, hours as int, hour as int);
    lemma_fundamental_div_mod_converse(total as int, 3_600, days * 24 + hours as int, hour as int);
    lemma_fundamental_div_mod_converse(hour as int, 60, minutes as int, seconds as int);
    lemma_fundamental_div_mod_converse(
        total as int,
        60,
        days * 1_440 + hours * 60 + minutes as int,
        seconds as int,
    );
}

/// Reads on through a countdown: the seconds of the units read so far, and the number that is
/// being read. A unit turns the number in front of it into seconds.
pub open spec fn read_on(start: (int, int), text: Seq<char>) -> (int, int)
    decreases text.len(),
{
    if text.len() == 0 {
        start
    } else {
        let (total, number) = read_on(start, text.drop_last());
        let c = text.last();
        if '0' <= c <= '9' {
            (total, number * 10 + (c as int - 48))
        } else if c == 'd' {
            (total + number * 86_400, 0)
        } else if c == 'h' {
            (total + number * 3_600, 0)
        } else if c == 'm' {
            (total + number * 60, 0)
        } else if c == 's' {
            (total + number, 0)
        } else {
            (total, number)
        }
    }
}

proof fn lemma_read_on_joined(start: (int, int), a: Seq<char>, b: Seq<char>)
    ensures
        read_on(start, a + b) == read_on(read_on(start, a), b),
    decreases b.len(),
{
    if b.len() == 0 {
        assert(a + b =~= a);
    } else {
        assert((a + b).drop_last() =~= a + b.drop_last());
        lemma_read_on_joined(start, a, b.drop_last());
    }
}

proof fn lemma_read_digits(total: int, digits: Seq<char>)
    requires
        all_digits(digits),
    ensures
        read_on((total, 0), digits) == (total, digits_value(digits)),
    decreases digits.len(),
{
    if digits.len() > 0 {
        assert(48 <= digits[digits.len() - 1] as int <= 57);
        lemma_read_digits(total, digits.drop_last());
    }
}

proof fn lemma_read_unit(total: int, digits: Seq<char>, unit: char, rest: Seq<char>)
    requires
        all_digits(digits),
        unit == 'd' || unit == 'h' || unit == 'm' || unit == 's',
    ensures
        ({
            let weight: int = if unit == 'd' {
                86_400
            } else if unit == 'h' {
                3_600
            } else if unit == 'm' {
                60
            } else {
                1
            };
            read_on((total, 0), digits.push(unit) + rest) == read_on(
                (total + digits_value(digits) * weight, 0),
                rest,
            )
        }),
{
    lemma_read_on_joined((total, 0), digits.push(unit), rest);
    assert(digits.push(unit).drop_last() =~= digits);
    lemma_read_digits(total, digits);
}

proof fn lemma_read_space(total: int, rest: Seq<char>)
    ensures
        read_on((total, 0), seq![' '] + rest) == read_on((total, 0), rest),
{
    lemma_read_on_joined((total, 0), seq![' '], rest);
    assert(seq![' '].drop_last() =~= Seq::<char>::empty());
    assert(read_on((total, 0), Seq::<char>::empty()) == (total, 0int));
}

proof fn lemma_read_seconds_part(total: int, seconds: nat)
    ensures
        read_on((total, 0), seconds_part(seconds)) == (total + seconds, 0int),
{
    lemma_two_digits_value(seconds);
    lemma_read_space(total, two_digits(seconds).push('s') + seq![]);
    lemma_read_unit(total, two_digits(seconds), 's', seq![]);
}

proof fn lemma_read_minutes_part(total: int, minutes: nat, seconds: nat)
    ensures
        read_on((total, 0), minutes_part(minutes, seconds)) == (
            total + minutes * 60 + seconds,
            0int,
        ),
{
    lemma_two_digits_value(minutes);
    lemma_read_space(total, two_digits(minutes).push('m') + seconds_part(seconds));
    lemma_read_unit(total, two_digits(minutes), 'm', seconds_part(seconds));
    lemma_read_seconds_part(total + minutes * 60, seconds);
}

proof fn lemma_read_hours_part(total: int, hours: nat, minutes: nat, seconds: nat)
    ensures
        read_on((total, 0), hours_part(hours, minutes, seconds)) == (
            total + hours * 3_600 + minutes * 60 + seconds,
            0int,
        ),
{
    lemma_decimal_value(hours);
    lemma_read_space(total, decimal(hours).push('h') + minutes_part(minutes, seconds));
    lemma_read_unit(total, decimal(hours), 'h', minutes_part(minutes, seconds));
    lemma_read_minutes_part(total + hours * 3_600, minutes, seconds);
}

proof fn lemma_read_parts(days: nat, hours: nat, minutes: nat, seconds: nat)
    ensures
        read_on((0, 0), parts_text(days, hours, minutes, seconds)) == (
            days * 86_400int + hours * 3_600int + minutes * 60int + seconds,
            0int,
        ),
{
    reveal(parts_text);
    lemma_decimal_value(days);
    lemma_decimal_value(hours);
    lemma_decimal_value(minutes);
    if days > 0 {
        lemma_read_unit(0, decimal(days), 'd', hours_part(hours, minutes, seconds));
        lemma_read_hours_part(days * 86_400int, hours, minutes, seconds);
    } else if hours > 0 {
        lemma_read_unit(0, decimal(hours), 'h', minutes_part(minutes, seconds));
        lemma_read_minutes_part(hours * 3_600int, minutes, seconds);
    } else {
        lemma_read_unit(0, decimal(minutes), 'm', seconds_part(seconds));
        lemma_read_seconds_part(minutes * 60int, seconds);
    }
}

/// Reading a countdown back, each number by the unit behind it, gives the seconds that it shows.
pub proof fn law_countdown_reads_back(total: nat)
    ensures
        read_on((0, 0), countdown_text(total)) == (total as int, 0int),
{
    assert(countdown_text(total) == parts_text(
        total / 86_400,
        (total % 86_400) / 3_600,
        (total % 3_600) / 60,
        total % 60,
    )) by {
        lemma_countdown_parts(total);
    }
    lemma_read_parts(total / 86_400, (total % 86_400) / 3_600, (total % 3_600) / 60, total % 60);
    lemma_parts_add_up(total);
}

} // verus!
