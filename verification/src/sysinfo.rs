//! Status-bar readings: the clock text, the battery level and the storage
//! use, from the raw values the system reports.

use vstd::prelude::*;
use crate::strings::{push_char, digit_char};

verus! {

/// How long a storage reading is reused.
pub const STORAGE_CACHE_TTL_MS: u64 = 15_000;
/// How long a battery reading is reused.
pub const BATTERY_CACHE_TTL_MS: u64 = 5_000;

/// A number below 100 as two digits.
pub open spec fn two_digits(n: nat) -> Seq<char> {
    seq![digit_char(n / 10), digit_char(n % 10)]
}

/// The `HH:MM` text of a time of day given as seconds since the epoch (UTC),
/// or `--:--` when the clock is before the epoch.
pub open spec fn clock_text(elapsed_secs: Option<u64>) -> Seq<char> {
    match elapsed_secs {
        None => "--:--"@,
        Some(secs) => {
            let mins = (secs / 60) % 1440;
            two_digits((mins / 60) as nat) + seq![':'] + two_digits((mins % 60) as nat)
        },
    }
}

fn push_two_digits(out: &mut String, n: u64)
    requires
        n < 100,
    ensures
        final(out)@ == old(out)@ + two_digits(n as nat),
{
    push_char(out, crate::strings::digit_char_exec((n / 10) as u8));
    push_char(out, crate::strings::digit_char_exec((n % 10) as u8));
}

/// The clock shown in the status bar, from the seconds since the epoch.
pub fn clock_hhmm(elapsed_secs: Option<u64>) -> (r: String)
    ensures
        r@ == clock_text(elapsed_secs),
{
    match elapsed_secs {
        None => "--:--".to_owned(),
        Some(secs) => {
            let mins = (secs / 60) % 1440;
            let mut out = String::new();
            push_two_digits(&mut out, mins / 60);
            push_char(&mut out, ':');
            push_two_digits(&mut out, mins % 60);
            assert(out@ =~= two_digits((mins / 60) as nat) + seq![':'] + two_digits((mins % 60) as nat));
            out
        },
    }
}

/// The battery level from the system's reading: none when it reports an
/// error (a negative value), else the reading's low byte, at most 100.
pub fn battery_percent(raw: i32) -> (r: Option<u8>)
    ensures
        r == (if raw < 0 { None } else { Some((if raw % 256 < 100 { raw % 256 } else { 100 }) as u8) }),
{
    if raw < 0 {
        return None;
    }
    let low = (raw % 256) as u8;
    Some(if low < 100 { low } else { 100 })
}

/// The storage use (used, total) from a device query: none when the query
/// failed or reports no capacity.
pub fn storage(ret: i32, max_size: u64, free_size: u64) -> (r: Option<(u64, u64)>)
    ensures
        r == (if ret < 0 || max_size == 0 {
            None
        } else {
            Some((if free_size <= max_size { (max_size - free_size) as u64 } else { 0 }, max_size))
        }),
{
    if ret < 0 || max_size == 0 {
        return None;
    }
    let used = if free_size <= max_size { max_size - free_size } else { 0 };
    Some((used, max_size))
}

/// Whether a reading taken at `at_ms` may still be shown at `now_ms`.
pub fn reading_is_fresh(at_ms: u64, now_ms: u64, ttl_ms: u64) -> (r: bool)
    ensures
        r == ((if now_ms >= at_ms { now_ms - at_ms } else { 0 }) < ttl_ms),
{
    let elapsed = if now_ms >= at_ms { now_ms - at_ms } else { 0 };
    elapsed < ttl_ms
}


/// A reading kept with the time it was taken at.
#[derive(Clone, Copy, Debug, PartialEq, Eq, Structural)]
pub struct CachedReading<T> {
    pub at_ms: u64,
    pub value: T,
}

/// The value a reading cache gives at `now_ms`: the kept value while it is
/// fresh, else none (the hardware must be asked again).
pub open spec fn cache_lookup<T>(cache: Option<CachedReading<T>>, now_ms: u64, ttl_ms: u64) -> Option<T> {
    match cache {
        Some(c) => if (if now_ms >= c.at_ms { now_ms - c.at_ms } else { 0 }) < ttl_ms { Some(c.value) } else { None },
        None => None,
    }
}

/// The kept reading, if it may still be shown at `now_ms`; `None` means the
/// hardware is to be asked and the answer kept with `keep_reading`.
pub fn cached_reading<T: Copy>(cache: Option<CachedReading<T>>, now_ms: u64, ttl_ms: u64) -> (r: Option<T>)
    ensures
        r == cache_lookup(cache, now_ms, ttl_ms),
{
    match cache {
        Some(c) => if reading_is_fresh(c.at_ms, now_ms, ttl_ms) { Some(c.value) } else { None },
        None => None,
    }
}

/// The cache after the hardware answered `value` at `now_ms`.
pub fn keep_reading<T: Copy>(value: T, now_ms: u64) -> (r: CachedReading<T>)
    ensures
        r == (CachedReading { at_ms: now_ms, value }),
{
    CachedReading { at_ms: now_ms, value }
}

/// A reading taken at `t` is shown again, unchanged, until its time to live
/// has passed, and is asked for again after that.
pub proof fn a_reading_is_reused_within_its_ttl<T>(value: T, t: u64, now_ms: u64, ttl_ms: u64)
    ensures
        t <= now_ms && now_ms - t < ttl_ms ==> cache_lookup(Some(CachedReading { at_ms: t, value }), now_ms, ttl_ms) == Some(value),
        t <= now_ms && now_ms - t >= ttl_ms ==> cache_lookup(Some(CachedReading { at_ms: t, value }), now_ms, ttl_ms) is None,
{
}

/// A leap year of the Gregorian calendar.
pub open spec fn leap(year: nat) -> bool {
    (year % 4 == 0 && year % 100 != 0) || year % 400 == 0
}

/// The number of days in a year.
pub open spec fn year_days(year: nat) -> nat {
    if leap(year) { 366 } else { 365 }
}

/// The year `days` days after the start of `year`, and the day within it.
pub open spec fn year_and_day(days: nat, year: nat) -> (nat, nat)
    decreases days,
{
    if days < year_days(year) { (year, days) } else { year_and_day((days - year_days(year)) as nat, year + 1) }
}

/// The lengths of the months of a year.
pub open spec fn month_days(year: nat) -> Seq<nat> {
    seq![31, if leap(year) { 29 } else { 28 }, 31, 30, 31, 30, 31, 31, 30, 31, 30, 31]
}

/// The day of the month of day `day` of a year with these month lengths.
pub open spec fn day_in_months(day: nat, months: Seq<nat>) -> nat
    decreases months.len(),
{
    if months.len() == 0 || day < months[0] { day + 1 } else { day_in_months((day - months[0]) as nat, months.drop_first()) }
}

/// The day of the month, `days` days after 1 January 1970.
pub open spec fn day_of_month_spec(days: nat) -> nat {
    let (year, day) = year_and_day(days, 1970);
    day_in_months(day, month_days(year))
}

fn is_leap(year: u64) -> (r: bool)
    ensures
        r == leap(year as nat),
{
    (year % 4 == 0 && year % 100 != 0) || year % 400 == 0
}

fn days_in_year(year: u64) -> (r: u64)
    ensures
        r == year_days(year as nat),
{
    if is_leap(year) { 366 } else { 365 }
}

/// The days of the first `i` months.
pub open spec fn months_total(months: Seq<nat>, i: int) -> nat
    decreases i,
{
    if i <= 0 { 0 } else { months_total(months, i - 1) + months[i - 1] }
}

/// The day of the month, `days` days after 1 January 1970.
pub fn day_of_month(since_epoch: u64) -> (r: u64)
    ensures
        r == day_of_month_spec(since_epoch as nat),
        1 <= r <= 31,
{
    let mut days = since_epoch;
    let mut year: u64 = 1970;
    while days >= days_in_year(year)
        invariant
            year_and_day(since_epoch as nat, 1970) == year_and_day(days as nat, year as nat),
            year >= 1970,
            365 * (year - 1970) <= since_epoch - days,
            days <= since_epoch,
        decreases days,
    {
        days = days - days_in_year(year);
        year = year + 1;
    }
    let feb: u64 = if is_leap(year) { 29 } else { 28 };
    let lengths: [u64; 12] = [31, feb, 31, 30, 31, 30, 31, 31, 30, 31, 30, 31];
    assert(lengths@ =~= seq![31u64, feb, 31u64, 30u64, 31u64, 30u64, 31u64, 31u64, 30u64, 31u64, 30u64, 31u64]);
    let ghost months = month_days(year as nat);
    let ghost day0 = days as nat;
    assert(year_and_day(since_epoch as nat, 1970) == (year as nat, day0));
    assert(day0 < year_days(year as nat));
    assert(months_total(months, 12) == year_days(year as nat)) by {
        reveal_with_fuel(months_total, 13);
    }
    let mut i: usize = 0;
    assert(months.skip(0) =~= months);
    while i < 12
        invariant
            i <= 12,
            months == month_days(year as nat),
            year_and_day(since_epoch as nat, 1970) == (year as nat, day0),
            months.len() == 12,
            forall|k: int| 0 <= k < 12 ==> months[k] == lengths@[k] as nat,
            months_total(months, 12) == year_days(year as nat),
            day0 < year_days(year as nat),
            days as nat + months_total(months, i as int) == day0,
            day_in_months(day0, months) == day_in_months(days as nat, months.skip(i as int)),
        decreases 12 - i,
    {
        assert(months.skip(i as int)[0] == months[i as int]);
        assert(months[i as int] == lengths@[i as int] as nat);
        if days < lengths[i] {
            assert(day_in_months(days as nat, months.skip(i as int)) == days + 1);
            assert(day_of_month_spec(since_epoch as nat) == day_in_months(day0, months));
            return days + 1;
        }
        assert(months.skip(i as int).drop_first() =~= months.skip(i + 1));
        days = days - lengths[i];
        i += 1;
    }
    assert(false);
    days + 1
}

/// The build stamp `DD-HHMM` (day of the month, hour and minute, UTC) of a
/// time given as seconds since the epoch.
pub open spec fn stamp_text(seconds: u64) -> Seq<char> {
    two_digits(day_of_month_spec((seconds / 86_400) as nat))
        + seq!['-'] + two_digits(((seconds % 86_400) / 3600) as nat) + two_digits(((seconds % 3600) / 60) as nat)
}

/// The build stamp of a time.
pub fn build_stamp(seconds: u64) -> (r: String)
    ensures
        r@ == stamp_text(seconds),
{
    let day = day_of_month(seconds / 86_400);
    let mut out = String::new();
    push_two_digits(&mut out, day);
    push_char(&mut out, '-');
    push_two_digits(&mut out, (seconds % 86_400) / 3600);
    push_two_digits(&mut out, (seconds % 3600) / 60);
    assert(out@ =~= stamp_text(seconds));
    out
}

} // verus!
