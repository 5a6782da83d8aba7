use chrono::{DateTime, FixedOffset, TimeZone};
use wallclock::chrono_utils::{
    parse_instant, render_hours_mins, render_summary, render_walltime_iso, summary_line,
};
use wallclock::instant::Instant;
use wallclock::session::ClockSession;
use wallclock::wallclock::{scale_duration, Wallclock};
use wallclock::ClockError;

const HOUR: i32 = 60 * 60;

fn at(offset: i32, y: i32, mo: u32, d: u32, h: u32, mi: u32, s: u32) -> DateTime<FixedOffset> {
    FixedOffset::east_opt(offset)
        .unwrap()
        .with_ymd_and_hms(y, mo, d, h, mi, s)
        .unwrap()
}

fn instant(dt: DateTime<FixedOffset>) -> Instant {
    Instant::new(dt.timestamp(), dt.offset().local_minus_utc()).unwrap()
}

fn clock(start: DateTime<FixedOffset>, end: DateTime<FixedOffset>) -> Wallclock {
    Wallclock::new(instant(start), instant(end)).unwrap()
}

#[test]
fn go_test_lhr_jfk() {
    let start = at(0 * HOUR, 2019, 6, 14, 10, 0, 0);
    let end = at(-5 * HOUR, 2019, 6, 14, 13, 0, 0);
    let wc = clock(start, end);

    let now = at(0 * HOUR, 2019, 6, 14, 14, 0, 0);
    let t = wc.go(instant(now));

    assert_eq!(t.walltime, instant(at(0 * HOUR, 2019, 6, 14, 11, 30, 0)));
}

#[test]
fn go_test_lhr_sin() {
    let start = at(0 * HOUR, 2019, 6, 14, 21, 0, 0);
    let end = at(8 * HOUR, 2019, 6, 15, 17, 0, 0);
    let wc = clock(start, end);

    let now = at(0 * HOUR, 2019, 6, 15, 3, 0, 0);
    let t = wc.go(instant(now));

    assert_eq!(t.walltime, instant(at(0 * HOUR, 2019, 6, 15, 7, 0, 0)));
}

#[test]
fn go_test_pvg_ewr() {
    let start = at(8 * HOUR, 2019, 6, 14, 15, 0, 0);
    let end = at(-5 * HOUR, 2019, 6, 14, 18, 0, 0);
    let wc = clock(start, end);

    let now = at(8 * HOUR, 2019, 6, 14, 23, 0, 0);
    let t = wc.go(instant(now));

    assert_eq!(t.walltime, instant(at(8 * HOUR, 2019, 6, 14, 16, 30, 0)));
}

#[test]
fn go_test_ewr_pvg() {
    let start = at(-5 * HOUR, 2019, 6, 14, 10, 0, 0);
    let end = at(8 * HOUR, 2019, 6, 15, 13, 0, 0);
    let wc = clock(start, end);

    let now = at(-5 * HOUR, 2019, 6, 14, 17, 0, 0);
    let t = wc.go(instant(now));

    assert_eq!(t.walltime, instant(at(-5 * HOUR, 2019, 6, 14, 23, 30, 0)));
}

#[test]
fn reading_is_within_local_bounds_midway() {
    let start = at(0 * HOUR, 2019, 6, 14, 21, 0, 0);
    let end = at(8 * HOUR, 2019, 6, 15, 17, 0, 0);
    let wc = clock(start, end);
    let t = wc.go(instant(at(0, 2019, 6, 15, 1, 0, 0)));
    let local = t.walltime.secs + t.walltime.offset as i64;
    assert!(start.naive_local().and_utc().timestamp() <= local);
    assert!(local <= end.naive_local().and_utc().timestamp());
    assert_eq!(t.elapsed, 4 * 3600);
    assert_eq!(t.remaining, 8 * 3600);
}

#[test]
fn reading_twice_gives_the_same_result() {
    let wc = clock(at(0, 2019, 6, 14, 10, 0, 0), at(-5 * HOUR, 2019, 6, 14, 13, 0, 0));
    let now = instant(at(0, 2019, 6, 14, 12, 17, 3));
    assert_eq!(wc.go(now), wc.go(now));
}

#[test]
fn reading_at_the_start_and_the_end() {
    let start = at(8 * HOUR, 2019, 6, 14, 15, 0, 0);
    let end = at(-5 * HOUR, 2019, 6, 14, 18, 0, 0);
    let wc = clock(start, end);

    let t = wc.go(instant(start));
    assert_eq!(t.walltime, instant(start));
    assert_eq!(t.elapsed, 0);

    let t = wc.go(instant(end));
    assert_eq!(t.remaining, 0);
    // The end's local time, 18:00, shown at the start's offset.
    assert_eq!(t.walltime, instant(at(8 * HOUR, 2019, 6, 14, 18, 0, 0)));
}

#[test]
fn reading_outside_the_interval_shows_now() {
    let wc = clock(at(0, 2019, 6, 14, 10, 0, 0), at(-5 * HOUR, 2019, 6, 14, 13, 0, 0));

    let before = at(-5 * HOUR, 2019, 6, 14, 4, 0, 0);
    let t = wc.go(instant(before));
    assert_eq!(t.walltime, Instant { secs: before.timestamp(), offset: 0 });
    assert_eq!(t.elapsed, -3600);

    let after = at(0, 2019, 6, 14, 19, 0, 0);
    let t = wc.go(instant(after));
    assert_eq!(t.walltime, Instant { secs: after.timestamp(), offset: 0 });
    assert_eq!(t.remaining, -3600);
}

#[test]
fn zero_length_journey_is_refused() {
    let start = instant(at(0, 2019, 6, 14, 10, 0, 0));
    let end = instant(at(-5 * HOUR, 2019, 6, 14, 5, 0, 0));
    assert_eq!(Wallclock::new(start, end), Err(ClockError::ZeroDuration));

    let mut session = ClockSession::new();
    assert_eq!(session.configure(start, end), Err(ClockError::ZeroDuration));
    assert!(!session.is_configured());
}

#[test]
fn fresh_session_is_not_configured() {
    let session = ClockSession::new();
    assert!(!session.is_configured());
    for secs in [0i64, 1_560_506_400, -86_400] {
        let now = Instant::new(secs, 0).unwrap();
        assert_eq!(session.evaluate(now), Err(ClockError::NotConfigured));
    }
}

#[test]
fn session_configure_replaces_and_evaluates() {
    let mut session = ClockSession::new();
    let now = instant(at(0, 2019, 6, 14, 14, 0, 0));
    session
        .configure(instant(at(8 * HOUR, 2019, 6, 14, 15, 0, 0)), instant(at(-5 * HOUR, 2019, 6, 14, 18, 0, 0)))
        .unwrap();
    session
        .configure(instant(at(0, 2019, 6, 14, 10, 0, 0)), instant(at(-5 * HOUR, 2019, 6, 14, 13, 0, 0)))
        .unwrap();
    assert!(session.is_configured());
    let t = session.evaluate(now).unwrap();
    assert_eq!(t.walltime, instant(at(0, 2019, 6, 14, 11, 30, 0)));
    assert_eq!(t.elapsed, 4 * 3600);
    assert_eq!(t.remaining, 4 * 3600);

    // A refused configuration keeps the previous one.
    assert!(session.configure(now, now).is_err());
    assert_eq!(session.evaluate(now).unwrap(), t);
}

#[test]
fn scale_duration_truncates_toward_zero() {
    assert_eq!(scale_duration(4 * 3600, 3, 8), 5400);
    assert_eq!(scale_duration(10, 1, 3), 3);
    assert_eq!(scale_duration(10, -1, 3), -3);
    assert_eq!(scale_duration(-10, 1, 3), -3);
    assert_eq!(scale_duration(7, 0, 5), 0);
}

#[test]
fn negative_rate_runs_the_clock_backwards() {
    // One hour of flight across a 3-hour westward jump: apparent span -2h.
    let wc = clock(at(0, 2019, 6, 14, 10, 0, 0), at(-3 * HOUR, 2019, 6, 14, 8, 0, 0));
    let t = wc.go(instant(at(0, 2019, 6, 14, 10, 30, 0)));
    assert_eq!(t.walltime, instant(at(0, 2019, 6, 14, 9, 0, 0)));
}

#[test]
fn render_hours_mins_examples() {
    assert_eq!(render_hours_mins(5400), "1:30");
    assert_eq!(render_hours_mins(0), "0:00");
    assert_eq!(render_hours_mins(300), "0:05");
    assert_eq!(render_hours_mins(12 * 3600 + 59 * 60 + 59), "12:59");
    assert_eq!(render_hours_mins(-5400), "-1:-30");
    assert_eq!(render_hours_mins(-300), "0:-5");
    assert_eq!(render_hours_mins(100 * 3600), "100:00");
}

#[test]
fn parse_instant_reads_offsets() {
    let i = parse_instant("2019-06-14 13:00:00 -0500").unwrap();
    assert_eq!(i, Instant { secs: 1_560_535_200, offset: -5 * HOUR });
    let i = parse_instant("2019-06-15 17:00:00 +0800").unwrap();
    assert_eq!(i, instant(at(8 * HOUR, 2019, 6, 15, 17, 0, 0)));
}

#[test]
fn parse_instant_rejects_bad_text() {
    assert_eq!(parse_instant("2019-06-14 13:00:00"), Err(ClockError::BadTimestamp));
    assert_eq!(parse_instant("yesterday"), Err(ClockError::BadTimestamp));
    assert_eq!(parse_instant("2019-13-14 13:00:00 +0000"), Err(ClockError::BadTimestamp));
    assert_eq!(parse_instant(""), Err(ClockError::BadTimestamp));
}

#[test]
fn instant_new_checks_range() {
    assert!(Instant::new(0, 86_400).is_none());
    assert!(Instant::new(0, -86_400).is_none());
    assert!(Instant::new(i64::MAX, 0).is_none());
    assert_eq!(Instant::new(5, -3600), Some(Instant { secs: 5, offset: -3600 }));
}

#[test]
fn summary_line_joins_fields() {
    let s = summary_line("A", 5400, "B", -300, "C");
    assert_eq!(s, "A | 1:30 | B | 0:-5 | C");
}

#[test]
fn render_summary_writes_the_reading() {
    let wc = clock(at(0, 2019, 6, 14, 10, 0, 0), at(-5 * HOUR, 2019, 6, 14, 13, 0, 0));
    let t = wc.go(instant(at(0, 2019, 6, 14, 14, 0, 0)));
    let s = render_summary(&wc, &t).unwrap();
    assert_eq!(
        s,
        "Fri 14 10:00:00 +00:00 | 4:00 | Fri 14 11:30:00 | 4:00 | Fri 14 13:00:00 -05:00"
    );
}

#[test]
fn render_walltime_iso_writes_offset() {
    let wc = clock(at(8 * HOUR, 2019, 6, 14, 15, 0, 0), at(-5 * HOUR, 2019, 6, 14, 18, 0, 0));
    let t = wc.go(instant(at(8 * HOUR, 2019, 6, 14, 23, 0, 0)));
    assert_eq!(render_walltime_iso(&t).unwrap(), "2019-06-14T16:30:00+08:00");
}
