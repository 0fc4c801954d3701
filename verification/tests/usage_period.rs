use chrono::{Datelike, TimeZone, Utc};
use ostui::module::usage::period::{month_starts_of, preset_window, usage_periods, window_text, UtcInstant};
use ostui::module::usage::DateRangePreset;

fn date_of(t: UtcInstant) -> chrono::DateTime<Utc> {
    Utc.timestamp_opt(t.secs, t.nanos).single().unwrap()
}

fn before(a: UtcInstant, b: UtcInstant) -> bool {
    (a.secs, a.nanos) < (b.secs, b.nanos)
}

#[test]
fn test_date_range_start_end_this_month() {
    let (start, end) = DateRangePreset::ThisMonth.start_end();
    assert!(before(start, end));
    assert_eq!(date_of(start).day(), 1);
}

#[test]
fn test_date_range_start_end_last_month() {
    let (start, end) = DateRangePreset::LastMonth.start_end();
    assert!(before(start, end));
    assert_eq!(date_of(start).day(), 1);
    assert_eq!(date_of(end).day(), 1);
}

#[test]
fn test_date_range_start_end_last_7_days() {
    let (start, end) = DateRangePreset::Last7Days.start_end();
    assert!(before(start, end));
    let diff = date_of(end) - date_of(start);
    assert!(diff.num_days() >= 6 && diff.num_days() <= 7);
}

// 2026-03-15T12:30:00.5Z
const MID_MARCH: UtcInstant = UtcInstant { secs: 1_773_577_800, nanos: 500_000_000 };

#[test]
fn month_starts_of_mid_march() {
    let (this_start, last_start) = month_starts_of(MID_MARCH);
    // 2026-03-01T00:00:00Z and 2026-02-01T00:00:00Z
    assert_eq!(this_start, Some(UtcInstant { secs: 1_772_323_200, nanos: 0 }));
    assert_eq!(last_start, Some(UtcInstant { secs: 1_769_904_000, nanos: 0 }));
}

#[test]
fn month_starts_of_january_reach_back_into_december() {
    // 2026-01-10T00:00:00Z
    let now = UtcInstant { secs: 1_768_003_200, nanos: 0 };
    let (this_start, last_start) = month_starts_of(now);
    // 2026-01-01 and 2025-12-01
    assert_eq!(this_start, Some(UtcInstant { secs: 1_767_225_600, nanos: 0 }));
    assert_eq!(last_start, Some(UtcInstant { secs: 1_764_547_200, nanos: 0 }));
}

#[test]
fn preset_window_of_each_preset() {
    let this_start = Some(UtcInstant { secs: 1_772_323_200, nanos: 0 });
    let last_start = Some(UtcInstant { secs: 1_769_904_000, nanos: 0 });
    assert_eq!(
        preset_window(DateRangePreset::ThisMonth, MID_MARCH, this_start, last_start),
        (this_start.unwrap(), MID_MARCH)
    );
    assert_eq!(
        preset_window(DateRangePreset::LastMonth, MID_MARCH, this_start, last_start),
        (last_start.unwrap(), this_start.unwrap())
    );
    assert_eq!(
        preset_window(DateRangePreset::Last7Days, MID_MARCH, this_start, last_start),
        (UtcInstant { secs: 1_773_577_800 - 604_800, nanos: 500_000_000 }, MID_MARCH)
    );
}

#[test]
fn preset_window_falls_back_to_now_without_month_starts() {
    assert_eq!(preset_window(DateRangePreset::ThisMonth, MID_MARCH, None, None), (MID_MARCH, MID_MARCH));
    assert_eq!(preset_window(DateRangePreset::LastMonth, MID_MARCH, None, None), (MID_MARCH, MID_MARCH));
}

#[test]
fn window_text_is_rfc3339() {
    let w = (UtcInstant { secs: 1_772_323_200, nanos: 0 }, MID_MARCH);
    let (start, end) = window_text(w);
    assert_eq!(start, "2026-03-01T00:00:00+00:00");
    assert_eq!(end, "2026-03-15T12:30:00.500+00:00");
}

#[test]
fn usage_periods_line_up() {
    let p = usage_periods();
    assert_eq!(p.this_month.1, p.last_7_days.1);
    assert_eq!(p.last_month.1, p.this_month.0);
    assert!(p.this_month.0.contains("-01T00:00:00"));
    assert!(p.last_month.0.contains("-01T00:00:00"));
}
