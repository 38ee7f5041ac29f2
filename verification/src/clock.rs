//! The calendar, the clock and chance.

use crate::primitives::Instant;
use crate::text;
use chrono::{Datelike, TimeZone};
use rand::Rng;
use vstd::prelude::*;

verus! {

/// The seconds of a day.
pub const DAY_SECS: i64 = 86_400;

/// The first second that `chrono` can hold: the start of the year -262143.
pub const FIRST_SECOND: i64 = -8_334_601_228_800;

/// The last second that `chrono` can hold: the end of the year 262142.
pub const LAST_SECOND: i64 = 8_210_266_876_799;

/// Whether `chrono` can hold the second `secs`, counted from the start of 1970
/// in UTC.
pub open spec fn in_calendar(secs: int) -> bool {
    FIRST_SECOND <= secs <= LAST_SECOND
}

/// Whether the year has 366 days, in the Gregorian calendar.
pub open spec fn is_leap(year: int) -> bool {
    year % 4 == 0 && (year % 100 != 0 || year % 400 == 0)
}

/// How many days lie between the start of 1970 and the start of the year; less
/// than zero for the years before.
pub open spec fn days_before_year(year: int) -> int {
    365 * (year - 1970) + ((year - 1) / 4 - (year - 1) / 100 + (year - 1) / 400) - 477
}

/// How many days the month has.
pub open spec fn days_in_month(year: int, month: int) -> int {
    if month == 2 {
        if is_leap(year) {
            29
        } else {
            28
        }
    } else if month == 4 || month == 6 || month == 9 || month == 11 {
        30
    } else {
        31
    }
}

/// How many days of the year lie before the month.
pub open spec fn days_before_month(year: int, month: int) -> int
    decreases month,
{
    if month <= 1 {
        0
    } else {
        days_before_month(year, month - 1) + days_in_month(year, month - 1)
    }
}

/// Whether year, month and day are a date that `chrono` can hold.
pub open spec fn is_date(date: (i32, u32, u32)) -> bool {
    &&& -262143 <= date.0 <= 262142
    &&& 1 <= date.1 <= 12
    &&& 1 <= date.2 <= days_in_month(date.0 as int, date.1 as int)
}

/// The number of the day with this date, counted from the start of 1970.
pub open spec fn day_number(date: (i32, u32, u32)) -> int {
    days_before_year(date.0 as int) + days_before_month(date.0 as int, date.1 as int) + date.2 - 1
}

/// Whether this is the date, year, month and day, on which the second `secs`
/// falls in UTC. Every day has 86400 seconds.
pub open spec fn is_date_of(date: (i32, u32, u32), secs: i64) -> bool {
    is_date(date) && day_number(date) == secs as int / 86400
}

/// The date in UTC, year, month and day, on which the second `secs` falls.
pub open spec fn utc_date(secs: i64) -> (i32, u32, u32) {
    choose|date: (i32, u32, u32)| is_date_of(date, secs)
}

/// A year starts as many days after the one before as that one has.
proof fn year_length(year: int)
    ensures
        days_before_year(year + 1) - days_before_year(year) == (if is_leap(year) {
            366int
        } else {
            365
        }),
{
    assert(year / 4 - (year - 1) / 4 == (if year % 4 == 0 {
        1int
    } else {
        0
    }));
    assert(year / 100 - (year - 1) / 100 == (if year % 100 == 0 {
        1int
    } else {
        0
    }));
    assert(year / 400 - (year - 1) / 400 == (if year % 400 == 0 {
        1int
    } else {
        0
    }));
    assert(year % 100 == 0 ==> year % 4 == 0);
    assert(year % 400 == 0 ==> year % 100 == 0);
}

/// Years start one after the other.
proof fn years_in_order(a: int, b: int)
    requires
        a < b,
    ensures
        days_before_year(a) + (if is_leap(a) {
            366int
        } else {
            365
        }) <= days_before_year(b),
    decreases b - a,
{
    year_length(b - 1);
    if a < b - 1 {
        years_in_order(a, b - 1);
    }
}

/// Months start one after the other.
proof fn months_in_order(year: int, a: int, b: int)
    requires
        1 <= a < b,
    ensures
        days_before_month(year, a) + days_in_month(year, a) <= days_before_month(year, b),
    decreases b - a,
{
    if a < b - 1 {
        months_in_order(year, a, b - 1);
    }
}

/// The days of a date lie within its year.
proof fn day_within_year(date: (i32, u32, u32))
    requires
        is_date(date),
    ensures
        ({
            let year = date.0 as int;
            let length = if is_leap(year) {
                366int
            } else {
                365
            };
            days_before_year(year) <= day_number(date) < days_before_year(year) + length
        }),
{
    let year = date.0 as int;
    let month = date.1 as int;
    if month > 1 {
        months_in_order(year, 1, month);
    }
    months_in_order(year, month, 13);
    reveal_with_fuel(days_before_month, 14);
}

/// No day has two dates.
pub proof fn date_is_unique(a: (i32, u32, u32), b: (i32, u32, u32))
    requires
        is_date(a),
        is_date(b),
        day_number(a) == day_number(b),
    ensures
        a == b,
{
    day_within_year(a);
    day_within_year(b);
    let (x, y) = (a.0 as int, b.0 as int);
    if x < y {
        years_in_order(x, y);
    } else if y < x {
        years_in_order(y, x);
    } else if a.1 < b.1 {
        months_in_order(x, a.1 as int, b.1 as int);
    } else if b.1 < a.1 {
        months_in_order(x, b.1 as int, a.1 as int);
    }
}

/// The date on which a second falls is the one that [`is_date_of`] describes.
pub proof fn date_of_second(date: (i32, u32, u32), secs: i64)
    requires
        is_date_of(date, secs),
    ensures
        utc_date(secs) == date,
{
    date_is_unique(date, utc_date(secs));
}

/// The calendar starts and ends with its years.
pub proof fn calendar_is_whole_years()
    ensures
        FIRST_SECOND == 86400 * day_number((-262143i32, 1u32, 1u32)),
        LAST_SECOND == 86400 * (day_number((262142i32, 12u32, 31u32)) + 1) - 1,
{
    reveal_with_fuel(days_before_month, 13);
}

/// A year with at least four digits, and with a sign where it lies outside the
/// years 0 to 9999.
pub open spec fn year_written(year: int) -> Seq<char> {
    if 0 <= year <= 9999 {
        text::padded(year as nat, 4)
    } else if year < 0 {
        seq!['-'] + text::padded((-year) as nat, 4)
    } else {
        seq!['+'] + text::padded(year as nat, 4)
    }
}

/// A date, year, month and day, as `2024-02-29`.
pub open spec fn date_written(date: (i32, u32, u32)) -> Seq<char> {
    year_written(date.0 as int) + seq!['-'] + text::padded(date.1 as nat, 2) + seq!['-']
        + text::padded(date.2 as nat, 2)
}

/// `year`, `month` and `day` of `chrono::DateTime<Utc>`: the Gregorian date on
/// which the second falls.
#[verifier::external_body]
fn date_of(secs: i64) -> (date: (i32, u32, u32))
    requires
        in_calendar(secs as int),
    ensures
        is_date_of(date, secs),
{
    let at = chrono::DateTime::from_timestamp(secs, 0).expect("a second of the calendar");
    (at.year(), at.month(), at.day())
}

/// `with_ymd_and_hms` of `chrono::Utc` for the start of a day: the first
/// second of the day with that date; `None` where there is no such date.
#[verifier::external_body]
fn start_of(date: (i32, u32, u32)) -> (secs: Option<i64>)
    ensures
        secs is Some <==> is_date(date),
        secs matches Some(s) ==> s == 86400 * day_number(date),
{
    let start = chrono::Utc.with_ymd_and_hms(date.0, date.1, date.2, 0, 0, 0).single();
    start.map(|at| at.timestamp())
}

/// Whether the text is the date on which the second `secs` falls.
pub open spec fn is_date_text(s: Seq<char>, secs: i64) -> bool {
    exists|date: (i32, u32, u32)| #[trigger] is_date_of(date, secs) && s == date_written(date)
}

/// `format("%Y-%m-%d")` of `chrono::DateTime<Utc>`: the date on which the
/// second falls, the month and the day with two digits.
#[verifier::external_body]
fn format_date(secs: i64) -> (s: String)
    requires
        in_calendar(secs as int),
    ensures
        is_date_text(s@, secs),
{
    let at = chrono::DateTime::from_timestamp(secs, 0).expect("a second of the calendar");
    at.format("%Y-%m-%d").to_string()
}

/// The date in UTC on which the second `secs` falls, as `2024-02-29`.
pub fn date_text(secs: i64) -> (s: String)
    requires
        in_calendar(secs as int),
    ensures
        is_date_of(utc_date(secs), secs),
        s@ == date_written(utc_date(secs)),
{
    let s = format_date(secs);
    proof {
        let date = choose|date: (i32, u32, u32)| #[trigger]
            is_date_of(date, secs) && s@ == date_written(date);
        date_of_second(date, secs);
    }
    s
}

/// The point in time that a text with a date, a time and an offset from UTC
/// names, as `chrono` reads it.
pub uninterp spec fn instant_denoted(s: Seq<char>) -> Option<Instant>;

/// `FromStr` of `chrono::DateTime` with an offset from UTC; the point in time
/// is the same whatever time zone it is then shown in.
#[verifier::external_body]
pub(crate) fn instant_of(s: &str) -> (at: Option<Instant>)
    ensures
        at == instant_denoted(s@),
{
    match s.parse::<chrono::DateTime<chrono::FixedOffset>>() {
        Ok(at) => Some(Instant { secs: at.timestamp(), nanos: at.timestamp_subsec_nanos() }),
        Err(_) => None,
    }
}

/// A reading of the system's clock.
#[verifier::external_type_specification]
#[verifier::external_body]
pub struct ExSystemTime(std::time::SystemTime);

/// `std::time::SystemTime::now`. Nothing is known of the reading.
#[verifier::external_body]
fn system_now() -> (at: std::time::SystemTime) {
    std::time::SystemTime::now()
}

/// `std::time::SystemTime::duration_since`, from the start of 1970 in UTC. A
/// reading from before that has no such duration.
#[verifier::external_body]
fn since_epoch(at: std::time::SystemTime) -> (elapsed: Option<std::time::Duration>) {
    at.duration_since(std::time::SystemTime::UNIX_EPOCH).ok()
}

/// `std::time::Duration::as_secs`: the whole seconds of a duration, which may
/// be any number.
#[verifier::external_body]
fn whole_secs(elapsed: std::time::Duration) -> (secs: u64) {
    elapsed.as_secs()
}

/// `rand`'s thread-local generator: any 32-bit number.
#[verifier::external_body]
fn random_u32() -> (n: u32) {
    rand::rng().random()
}

/// Whether `n` is what `rand` has drawn.
pub closed spec fn is_draw(n: u32) -> bool {
    call_ensures(random_u32, (), n)
}

/// Draws a number at random.
pub fn draw() -> (n: u32)
    ensures
        is_draw(n),
{
    let n: u32 = random_u32();
    assert(call_ensures(random_u32, (), n));
    n
}

/// Whether `secs` is what a reading of the system's clock comes to: the whole
/// seconds of the time since the start of 1970 in UTC, or `None` where the
/// reading lies before that.
pub closed spec fn is_clock_reading(secs: Option<u64>) -> bool {
    exists|at: std::time::SystemTime, elapsed: Option<std::time::Duration>|
        {
            &&& #[trigger] call_ensures(system_now, (), at)
            &&& #[trigger] call_ensures(since_epoch, (at,), elapsed)
            &&& match (elapsed, secs) {
                (Some(elapsed), Some(secs)) => call_ensures(whole_secs, (elapsed,), secs),
                (None, None) => true,
                _ => false,
            }
        }
}

/// The seconds since the start of 1970 in UTC; `None` where the clock stands
/// before that.
pub fn get_current_unix_time_secs() -> (secs: Option<u64>)
    ensures
        is_clock_reading(secs),
{
    let at = system_now();
    let elapsed = since_epoch(at);
    assert(call_ensures(system_now, (), at));
    assert(call_ensures(since_epoch, (at,), elapsed));
    match elapsed {
        Some(elapsed) => {
            let secs: u64 = whole_secs(elapsed);
            assert(call_ensures(whole_secs, (elapsed,), secs));
            Some(secs)
        },
        None => None,
    }
}

/// The first midnight in UTC after the second `now`: the start of the day on
/// which `now` falls, and a day more.
pub fn next_midnight(now: i64) -> (midnight: i64)
    requires
        in_calendar(now as int),
        now <= LAST_SECOND - DAY_SECS,
    ensures
        midnight == now - now % DAY_SECS + DAY_SECS,
        now < midnight <= now + DAY_SECS,
        midnight % DAY_SECS == 0,
{
    let date = date_of(now);
    let today: i64 = start_of(date).unwrap();
    today + DAY_SECS
}

/// The second at which the day after the one of `now` starts in UTC; `None`
/// where there is no `now`, or where it falls on the calendar's last day or
/// behind it.
pub open spec fn tomorrow_of(now: Option<u64>) -> Option<u64> {
    match now {
        Some(now) => if now <= LAST_SECOND - DAY_SECS {
            Some((now - now % 86400 + 86400) as u64)
        } else {
            None
        },
        None => None,
    }
}

/// The second at which the day after the one of `now` starts in UTC.
pub fn tomorrow_after(now: Option<u64>) -> (secs: Option<u64>)
    ensures
        secs == tomorrow_of(now),
{
    match now {
        Some(now) => if now <= (LAST_SECOND - DAY_SECS) as u64 {
            let midnight: i64 = next_midnight(now as i64);
            Some(midnight as u64)
        } else {
            None
        },
        None => None,
    }
}

/// The second at which the next day starts in UTC, by the clock; `None` where
/// the clock stands before 1970, or on the calendar's last day or behind it.
pub fn timestamp_of_tomorrow_at_12am_utc() -> (secs: Option<u64>)
    ensures
        exists|now: Option<u64>| #[trigger] is_clock_reading(now) && secs == tomorrow_of(now),
        secs matches Some(s) ==> s % 86400 == 0 && 0 < s <= LAST_SECOND,
{
    tomorrow_after(get_current_unix_time_secs())
}

/// The second at which tomorrow starts is the one midnight that lies within a
/// day after now. There is one unless there is no reading, or it falls on the
/// calendar's last day or behind it.
pub proof fn tomorrow_starts_at_the_next_midnight(now: Option<u64>, secs: Option<u64>)
    requires
        call_ensures(tomorrow_after, (now,), secs),
    ensures
        secs is Some <==> (now matches Some(n) && n <= LAST_SECOND - 86400),
        secs matches Some(s) ==> s % 86400 == 0 && now->0 < s <= now->0 + 86400,
{
}

/// The days are counted from the start of 1970: the date of a day is the one
/// after the date of the day before, by the length of its month.
pub proof fn days_follow_one_another(date: (i32, u32, u32))
    requires
        is_date(date),
    ensures
        day_number((1970i32, 1u32, 1u32)) == 0,
        date.2 < days_in_month(date.0 as int, date.1 as int) ==> day_number(
            (date.0, date.1, (date.2 + 1) as u32),
        ) == day_number(date) + 1,
        date.2 == days_in_month(date.0 as int, date.1 as int) && date.1 < 12 ==> day_number(
            (date.0, (date.1 + 1) as u32, 1u32),
        ) == day_number(date) + 1,
        date.1 == 12 && date.2 == 31 ==> day_number(((date.0 + 1) as i32, 1u32, 1u32))
            == day_number(date) + 1,
{
    reveal_with_fuel(days_before_month, 13);
    year_length(date.0 as int);
}

} // verus!
