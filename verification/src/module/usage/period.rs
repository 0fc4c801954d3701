//! The reporting windows of the usage presets, worked out from the clock:
//! this month so far, the whole of last month, and the last seven days.
use vstd::prelude::*;
use chrono::{Datelike, TimeZone};
use super::{DateRangePreset, UsagePeriods};

verus! {

/// A UTC instant: whole seconds since 1970-01-01T00:00:00Z and the
/// nanoseconds past that second.
#[derive(Debug, Clone, Copy, PartialEq, Eq, Structural)]
pub struct UtcInstant {
    pub secs: i64,
    pub nanos: u32,
}

/// Seconds in seven days.
pub const SEVEN_DAYS_SECS: i64 = 604800;

/// What a reading of the system clock can be: at or after 1970, below
/// 2^43 seconds (past the last year chrono represents), with the
/// nanoseconds under one second.
pub open spec fn clock_reading(t: UtcInstant) -> bool {
    &&& 0 <= t.secs < 0x800_0000_0000
    &&& t.nanos < 1_000_000_000
}

/// chrono's UTC calendar year and month (1 to 12) of the instant with
/// these seconds and nanoseconds, `None` where chrono has no such instant.
pub uninterp spec fn calendar_month_of(secs: i64, nanos: u32) -> Option<(i32, u32)>;

/// The seconds of midnight UTC on the first of `month` in `year`, as chrono
/// computes them, `None` where chrono has no such date.
pub uninterp spec fn month_start_secs(year: i32, month: u32) -> Option<i64>;

/// chrono's RFC 3339 text of the UTC instant with these seconds and
/// nanoseconds, `None` where chrono has no such instant.
pub uninterp spec fn rfc3339_of(secs: i64, nanos: u32) -> Option<Seq<char>>;

/// The current time, read with `chrono::Local::now()` and converted to UTC.
/// Which time it is depends on the clock; the contract claims what chrono's
/// source shows of every reading: `Utc::now` takes the seconds since the
/// Unix epoch from `SystemTime` (panicking before 1970), keeps the
/// sub-second nanoseconds of that duration, and unwraps an instant inside
/// chrono's range.
#[verifier::external_body]
fn utc_now() -> (r: UtcInstant)
    ensures
        clock_reading(r),
{
    let now = chrono::Local::now().with_timezone(&chrono::Utc);
    UtcInstant { secs: now.timestamp(), nanos: now.timestamp_subsec_nanos() }
}

/// The UTC year and month of an instant, from `Utc.timestamp_opt` and the
/// `year()` and `month()` of the instant it gives. Claimed: the result is
/// the named one, and the month lies between 1 and 12 as chrono documents,
/// the year above `i32::MIN` as chrono's year range puts it.
#[verifier::external_body]
fn utc_year_month(t: UtcInstant) -> (r: Option<(i32, u32)>)
    ensures
        r == calendar_month_of(t.secs, t.nanos),
        r matches Some((y, m)) ==> 1 <= m <= 12 && y > i32::MIN,
{
    match chrono::Utc.timestamp_opt(t.secs, t.nanos).single() {
        Some(d) => Some((d.year(), d.month())),
        None => None,
    }
}

/// Midnight UTC on the first of a month, from
/// `Utc.with_ymd_and_hms(year, month, 1, 0, 0, 0).single()` and the
/// instant's `timestamp()`. Claimed: the result is the named one.
#[verifier::external_body]
fn utc_month_start(year: i32, month: u32) -> (r: Option<i64>)
    ensures
        r == month_start_secs(year, month),
{
    match chrono::Utc.with_ymd_and_hms(year, month, 1, 0, 0, 0).single() {
        Some(d) => Some(d.timestamp()),
        None => None,
    }
}

/// The RFC 3339 text of an instant, from `Utc.timestamp_opt` and
/// `to_rfc3339()`. Claimed: the result is the named one.
#[verifier::external_body]
fn rfc3339(t: UtcInstant) -> (r: Option<String>)
    ensures
        match r {
            Some(s) => rfc3339_of(t.secs, t.nanos) == Some(s@),
            None => rfc3339_of(t.secs, t.nanos) is None,
        },
{
    match chrono::Utc.timestamp_opt(t.secs, t.nanos).single() {
        Some(d) => Some(d.to_rfc3339()),
        None => None,
    }
}

/// The month before `month` of `year`.
pub open spec fn month_before(year: i32, month: u32) -> (i32, u32) {
    if month == 1 { ((year - 1) as i32, 12u32) } else { (year, (month - 1) as u32) }
}

/// The instant at whole second `secs`, when there is one.
pub open spec fn at_second(secs: Option<i64>) -> Option<UtcInstant> {
    match secs {
        Some(s) => Some(UtcInstant { secs: s, nanos: 0 }),
        None => None,
    }
}

/// The starts of the month `now` falls in and of the month before it, as
/// chrono gives them; both unknown when chrono gives no calendar month.
pub open spec fn month_starts(now: UtcInstant) -> (Option<UtcInstant>, Option<UtcInstant>) {
    match calendar_month_of(now.secs, now.nanos) {
        Some((y, m)) => (
            at_second(month_start_secs(y, m)),
            at_second(month_start_secs(month_before(y, m).0, month_before(y, m).1)),
        ),
        None => (None, None),
    }
}

/// The window of preset `p` at time `now`, given the starts of this month
/// and of last month: a start that is unknown falls back to `now`, and the
/// last seven days end at `now` and begin 7 × 86400 seconds earlier.
pub open spec fn window_spec(
    p: DateRangePreset,
    now: UtcInstant,
    start_this: Option<UtcInstant>,
    start_last: Option<UtcInstant>,
) -> (UtcInstant, UtcInstant) {
    match p {
        DateRangePreset::ThisMonth => (start_this.unwrap_or(now), now),
        DateRangePreset::LastMonth => (start_last.unwrap_or(now), start_this.unwrap_or(now)),
        DateRangePreset::Last7Days => (UtcInstant { secs: (now.secs - SEVEN_DAYS_SECS) as i64, nanos: now.nanos }, now),
    }
}

/// The window of preset `p` at time `now`.
pub open spec fn preset_window_at(p: DateRangePreset, now: UtcInstant) -> (UtcInstant, UtcInstant) {
    window_spec(p, now, month_starts(now).0, month_starts(now).1)
}

/// The RFC 3339 text of an instant, empty where chrono has none.
pub open spec fn instant_text(t: UtcInstant) -> Seq<char> {
    match rfc3339_of(t.secs, t.nanos) {
        Some(s) => s,
        None => Seq::empty(),
    }
}

/// The texts of a window's start and end.
pub open spec fn window_texts(w: (UtcInstant, UtcInstant)) -> (Seq<char>, Seq<char>) {
    (instant_text(w.0), instant_text(w.1))
}

/// The windows of all presets at time `now`, as texts.
pub open spec fn periods_at(periods: UsagePeriods, now: UtcInstant) -> bool {
    &&& (periods.this_month.0@, periods.this_month.1@) == window_texts(preset_window_at(DateRangePreset::ThisMonth, now))
    &&& (periods.last_month.0@, periods.last_month.1@) == window_texts(preset_window_at(DateRangePreset::LastMonth, now))
    &&& (periods.last_7_days.0@, periods.last_7_days.1@) == window_texts(preset_window_at(DateRangePreset::Last7Days, now))
}

/// The window of preset `p` at time `now`, given the starts of this month
/// and of last month (`None` where they could not be had).
pub fn preset_window(
    p: DateRangePreset,
    now: UtcInstant,
    start_this: Option<UtcInstant>,
    start_last: Option<UtcInstant>,
) -> (r: (UtcInstant, UtcInstant))
    requires
        now.secs >= i64::MIN + SEVEN_DAYS_SECS,
    ensures
        r == window_spec(p, now, start_this, start_last),
{
    let this_start = match start_this {
        Some(s) => s,
        None => now,
    };
    match p {
        DateRangePreset::ThisMonth => (this_start, now),
        DateRangePreset::LastMonth => {
            let last_start = match start_last {
                Some(s) => s,
                None => now,
            };
            (last_start, this_start)
        },
        DateRangePreset::Last7Days => (UtcInstant { secs: now.secs - SEVEN_DAYS_SECS, nanos: now.nanos }, now),
    }
}

/// The starts of the month `now` falls in and of the month before it.
pub fn month_starts_of(now: UtcInstant) -> (r: (Option<UtcInstant>, Option<UtcInstant>))
    ensures
        r == month_starts(now),
{
    match utc_year_month(now) {
        Some((y, m)) => {
            let (py, pm) = super::previous_month(y, m);
            let this_start = match utc_month_start(y, m) {
                Some(s) => Some(UtcInstant { secs: s, nanos: 0 }),
                None => None,
            };
            let last_start = match utc_month_start(py, pm) {
                Some(s) => Some(UtcInstant { secs: s, nanos: 0 }),
                None => None,
            };
            (this_start, last_start)
        },
        None => (None, None),
    }
}

/// The RFC 3339 texts of a window's start and end.
pub fn window_text(w: (UtcInstant, UtcInstant)) -> (r: (String, String))
    ensures
        (r.0@, r.1@) == window_texts(w),
{
    let start = match rfc3339(w.0) {
        Some(s) => s,
        None => String::new(),
    };
    let end = match rfc3339(w.1) {
        Some(s) => s,
        None => String::new(),
    };
    (start, end)
}

impl DateRangePreset {
    /// The preset's window, read off the clock: for this month its first
    /// midnight until now, for last month its first midnight until this
    /// month's, and for the last seven days now minus seven days until now.
    pub fn start_end(&self) -> (r: (UtcInstant, UtcInstant))
        ensures
            exists|now: UtcInstant| clock_reading(now) && r == preset_window_at(*self, now),
    {
        let now = utc_now();
        let (start_this, start_last) = month_starts_of(now);
        preset_window(*self, now, start_this, start_last)
    }
}

/// Every preset's window as RFC 3339 texts, all from one reading of the
/// clock.
pub fn usage_periods() -> (r: UsagePeriods)
    ensures
        exists|now: UtcInstant| clock_reading(now) && periods_at(r, now),
{
    let now = utc_now();
    let (start_this, start_last) = month_starts_of(now);
    let this_month = window_text(preset_window(DateRangePreset::ThisMonth, now, start_this, start_last));
    let last_month = window_text(preset_window(DateRangePreset::LastMonth, now, start_this, start_last));
    let last_7_days = window_text(preset_window(DateRangePreset::Last7Days, now, start_this, start_last));
    UsagePeriods { this_month, last_month, last_7_days }
}

} // verus!
