//! Text in and out: reading timestamps, and rendering durations and readings.
use vstd::prelude::*;

use std::fmt::Write;

use crate::instant::Instant;
use crate::wallclock::{trunc_div, Wallclock, Walltime};
use crate::ClockError;

verus! {

/// The timestamp layout accepted on input, such as `2019-06-14 10:00:00 +0000`.
pub const TIMESTAMP_FORMAT: &'static str = "%Y-%m-%d %H:%M:%S %z";

/// How the ends of a journey are shown: weekday, day, time and offset.
pub const ENDPOINT_FORMAT: &'static str = "%a %e %T %Z";

/// How the wall time is shown: weekday, day and time.
pub const WALLTIME_FORMAT: &'static str = "%a %e %T";

/// ISO 8601 with the offset, such as `2019-06-14T11:30:00+00:00`.
pub const ISO_FORMAT: &'static str = "%Y-%m-%dT%H:%M:%S%:z";

/// What chrono reads from `s` laid out as `fmt`: the Unix timestamp and the
/// offset in seconds east of UTC, or nothing if it cannot.
pub uninterp spec fn parsed_datetime(s: Seq<char>, fmt: Seq<char>) -> Option<(i64, i32)>;

/// What chrono writes for the instant `secs` at `offset` laid out as `fmt`, or
/// nothing if the instant, the offset or the layout is out of its reach.
pub uninterp spec fn formatted_datetime(secs: i64, offset: i32, fmt: Seq<char>) -> Option<Seq<char>>;

/// Relies on chrono's `DateTime::parse_from_str`, which reads a date, a time and
/// a fixed offset from `s` as laid out by `fmt`; the timestamp and the offset in
/// seconds of the result are handed back.
#[verifier::external_body]
fn parse_datetime(s: &str, fmt: &str) -> (r: Option<(i64, i32)>)
    ensures
        r == parsed_datetime(s@, fmt@),
{
    match chrono::DateTime::parse_from_str(s, fmt) {
        Ok(dt) => Some((dt.timestamp(), dt.offset().local_minus_utc())),
        Err(_) => None,
    }
}

/// Relies on chrono's `DateTime::from_timestamp`, `FixedOffset::east_opt`,
/// `DateTime::with_timezone` and `DateTime::format`, to write the instant `secs`
/// at `offset` as laid out by `fmt`.
#[verifier::external_body]
fn format_datetime(secs: i64, offset: i32, fmt: &str) -> (r: Option<String>)
    ensures
        r matches Some(t) ==> formatted_datetime(secs, offset, fmt@) == Some(t@),
        r is None ==> formatted_datetime(secs, offset, fmt@) is None,
{
    match (chrono::DateTime::from_timestamp(secs, 0), chrono::FixedOffset::east_opt(offset)) {
        (Some(utc), Some(tz)) => {
            let mut out = String::new();
            match write!(out, "{}", utc.with_timezone(&tz).format(fmt)) {
                Ok(()) => Some(out),
                Err(_) => None,
            }
        },
        _ => None,
    }
}

/// The instant that a parse result denotes, if it is supported.
pub open spec fn instant_from(p: Option<(i64, i32)>) -> Result<Instant, ClockError> {
    match p {
        Some((secs, offset)) => if (Instant { secs, offset }).wf() {
            Ok(Instant { secs, offset })
        } else {
            Err(ClockError::BadTimestamp)
        },
        None => Err(ClockError::BadTimestamp),
    }
}

/// Turns a parse result into a supported instant, or reports a bad timestamp.
pub fn instant_from_parsed(p: Option<(i64, i32)>) -> (r: Result<Instant, ClockError>)
    ensures
        r == instant_from(p),
        r matches Ok(i) ==> i.wf(),
{
    match p {
        Some((secs, offset)) => match Instant::new(secs, offset) {
            Some(i) => Ok(i),
            None => Err(ClockError::BadTimestamp),
        },
        None => Err(ClockError::BadTimestamp),
    }
}

/// Reads a timestamp such as `2019-06-14 10:00:00 +0000`.
pub fn parse_instant(s: &str) -> (r: Result<Instant, ClockError>)
    ensures
        r == instant_from(parsed_datetime(s@, TIMESTAMP_FORMAT@)),
        r matches Ok(i) ==> i.wf(),
{
    instant_from_parsed(parse_datetime(s, TIMESTAMP_FORMAT))
}

/// The character of a decimal digit.
pub open spec fn digit_char(d: int) -> char {
    if d == 0 { '0' }
    else if d == 1 { '1' }
    else if d == 2 { '2' }
    else if d == 3 { '3' }
    else if d == 4 { '4' }
    else if d == 5 { '5' }
    else if d == 6 { '6' }
    else if d == 7 { '7' }
    else if d == 8 { '8' }
    else { '9' }
}

/// The decimal digits of `n`, most significant first, without leading zeros.
pub open spec fn digits(n: nat) -> Seq<char>
    decreases n,
{
    if n < 10 {
        seq![digit_char(n as int)]
    } else {
        digits(n / 10) + seq![digit_char((n % 10) as int)]
    }
}

/// `n` written in decimal, with a minus sign when negative.
pub open spec fn decimal(n: int) -> Seq<char> {
    if n < 0 {
        seq!['-'] + digits((-n) as nat)
    } else {
        digits(n as nat)
    }
}

/// `n` written in decimal and padded with zeros to two characters, the sign
/// counting as one of them.
pub open spec fn two_digits(n: int) -> Seq<char> {
    if 0 <= n < 10 {
        seq!['0'] + digits(n as nat)
    } else {
        decimal(n)
    }
}

/// The remainder of `a` by a positive `d` that goes with truncated division:
/// it takes the sign of `a`.
pub open spec fn trunc_rem(a: int, d: int) -> int {
    a - d * trunc_div(a, d)
}

/// A duration of `secs` seconds as whole hours, a colon, and the minutes past
/// the hour in two digits, each part truncated toward zero.
pub open spec fn hours_mins_text(secs: int) -> Seq<char> {
    decimal(trunc_div(secs, 3600)) + seq![':'] + two_digits(trunc_rem(trunc_div(secs, 60), 60))
}

fn digit_str(d: u64) -> (r: &'static str)
    requires
        d < 10,
    ensures
        r@ == seq![digit_char(d as int)],
{
    proof {
        reveal_strlit("0");
        reveal_strlit("1");
        reveal_strlit("2");
        reveal_strlit("3");
        reveal_strlit("4");
        reveal_strlit("5");
        reveal_strlit("6");
        reveal_strlit("7");
        reveal_strlit("8");
        reveal_strlit("9");
    }
    if d == 0 { "0" }
    else if d == 1 { "1" }
    else if d == 2 { "2" }
    else if d == 3 { "3" }
    else if d == 4 { "4" }
    else if d == 5 { "5" }
    else if d == 6 { "6" }
    else if d == 7 { "7" }
    else if d == 8 { "8" }
    else { "9" }
}

fn push_digits(out: &mut String, n: u64)
    ensures
        final(out)@ == old(out)@ + digits(n as nat),
    decreases n,
{
    if n >= 10 {
        push_digits(out, n / 10);
    }
    out.append(digit_str(n % 10));
    proof {
        assert(final(out)@ =~= old(out)@ + digits(n as nat));
    }
}

fn push_decimal(out: &mut String, n: i64)
    ensures
        final(out)@ == old(out)@ + decimal(n as int),
{
    if n < 0 {
        proof {
            reveal_strlit("-");
        }
        out.append("-");
        let m: u64 = if n == i64::MIN {
            0x8000_0000_0000_0000u64
        } else {
            (-n) as u64
        };
        push_digits(out, m);
        proof {
            assert(final(out)@ =~= old(out)@ + decimal(n as int));
        }
    } else {
        push_digits(out, n as u64);
    }
}

/// Renders a duration of `secs` seconds as hours and minutes, such as `3:05`.
pub fn render_hours_mins(secs: i64) -> (r: String)
    ensures
        r@ == hours_mins_text(secs as int),
{
    let hours: i64 = secs / 3600;
    let minutes: i64 = secs / 60;
    let past: i64 = minutes % 60;
    proof {
        assert(hours == trunc_div(secs as int, 3600));
        assert(minutes == trunc_div(secs as int, 60));
        assert(past == trunc_rem(minutes as int, 60));
        reveal_strlit(":");
        reveal_strlit("0");
    }
    let mut out = String::new();
    push_decimal(&mut out, hours);
    out.append(":");
    if 0 <= past && past < 10 {
        out.append("0");
        push_digits(&mut out, past as u64);
    } else {
        push_decimal(&mut out, past);
    }
    proof {
        assert(out@ =~= hours_mins_text(secs as int));
    }
    out
}

/// The separator between the fields of a summary line.
pub open spec fn separator() -> Seq<char> {
    seq![' ', '|', ' ']
}

/// A summary line: start, elapsed time, wall time, remaining time and end,
/// separated by bars.
pub open spec fn summary_text(
    start_text: Seq<char>,
    elapsed: int,
    walltime_text: Seq<char>,
    remaining: int,
    end_text: Seq<char>,
) -> Seq<char> {
    start_text + separator() + hours_mins_text(elapsed) + separator() + walltime_text
        + separator() + hours_mins_text(remaining) + separator() + end_text
}

/// The summary line of reading `t` from clock `c`, when chrono can write all
/// three instants.
pub open spec fn summary_of(c: Wallclock, t: Walltime) -> Option<Seq<char>> {
    match (
        formatted_datetime(c.start.secs, c.start.offset, ENDPOINT_FORMAT@),
        formatted_datetime(t.walltime.secs, t.walltime.offset, WALLTIME_FORMAT@),
        formatted_datetime(c.end.secs, c.end.offset, ENDPOINT_FORMAT@),
    ) {
        (Some(a), Some(w), Some(b)) => Some(summary_text(a, t.elapsed as int, w, t.remaining as int, b)),
        _ => None,
    }
}

/// Assembles a summary line from the written start, wall time and end.
pub fn summary_line(
    start_text: &str,
    elapsed: i64,
    walltime_text: &str,
    remaining: i64,
    end_text: &str,
) -> (r: String)
    ensures
        r@ == summary_text(start_text@, elapsed as int, walltime_text@, remaining as int, end_text@),
{
    proof {
        reveal_strlit(" | ");
    }
    let mut out = String::from_str(start_text);
    out.append(" | ");
    let e = render_hours_mins(elapsed);
    out.append(e.as_str());
    out.append(" | ");
    out.append(walltime_text);
    out.append(" | ");
    let r = render_hours_mins(remaining);
    out.append(r.as_str());
    out.append(" | ");
    out.append(end_text);
    proof {
        assert(out@ =~= summary_text(start_text@, elapsed as int, walltime_text@, remaining as int, end_text@));
    }
    out
}

/// The summary line of reading `t` from clock `c`, or nothing when one of the
/// instants cannot be written.
pub fn render_summary(c: &Wallclock, t: &Walltime) -> (r: Option<String>)
    ensures
        r matches Some(s) ==> summary_of(*c, *t) == Some(s@),
        r is None ==> summary_of(*c, *t) is None,
{
    let a = format_datetime(c.start.secs, c.start.offset, ENDPOINT_FORMAT);
    let w = format_datetime(t.walltime.secs, t.walltime.offset, WALLTIME_FORMAT);
    let b = format_datetime(c.end.secs, c.end.offset, ENDPOINT_FORMAT);
    match (a, w, b) {
        (Some(a), Some(w), Some(b)) => Some(summary_line(a.as_str(), t.elapsed, w.as_str(), t.remaining, b.as_str())),
        _ => None,
    }
}

/// The wall time of reading `t` in ISO 8601, or nothing when chrono cannot
/// write that instant.
pub fn render_walltime_iso(t: &Walltime) -> (r: Option<String>)
    ensures
        r matches Some(s) ==> formatted_datetime(t.walltime.secs, t.walltime.offset, ISO_FORMAT@)
            == Some(s@),
        r is None ==> formatted_datetime(t.walltime.secs, t.walltime.offset, ISO_FORMAT@) is None,
{
    format_datetime(t.walltime.secs, t.walltime.offset, ISO_FORMAT)
}

} // verus!
