//! The dilated clock: maps a real instant between a start and an end, which may
//! be shown at different fixed offsets, onto a smoothly running wall time.
use vstd::prelude::*;
use vstd::arithmetic::div_mod::{lemma_div_is_ordered, lemma_div_multiples_vanish};

use crate::instant::Instant;
use crate::ClockError;

verus! {

/// `a / d` truncated toward zero, for a positive divisor.
pub open spec fn trunc_div(a: int, d: int) -> int {
    if a >= 0 {
        a / d
    } else {
        -((-a) / d)
    }
}

/// A duration of `secs` seconds scaled by the rate `apparent / actual`, truncated
/// toward zero to whole seconds.
pub open spec fn scaled(secs: int, apparent: int, actual: int) -> int {
    trunc_div(secs * apparent, actual)
}

/// Real duration of the interval, in seconds, ignoring offsets.
pub open spec fn real_duration(start: Instant, end: Instant) -> int {
    end.secs - start.secs
}

/// The span the displayed clock must cover: the real duration plus the change
/// of offset from start to end.
pub open spec fn apparent_duration(start: Instant, end: Instant) -> int {
    real_duration(start, end) + (end.offset - start.offset)
}

/// Whether `now` lies within the interval, ends included.
pub open spec fn within(start: Instant, end: Instant, now: Instant) -> bool {
    start.secs <= now.secs <= end.secs
}

/// The UTC seconds of the wall time shown at `now`: inside the interval the
/// elapsed real time scaled by the dilation rate and added to the start;
/// outside it `now` itself.
pub open spec fn walltime_secs(start: Instant, end: Instant, now: Instant) -> int {
    if within(start, end, now) {
        start.secs + scaled(
            now.secs - start.secs,
            apparent_duration(start, end),
            real_duration(start, end),
        )
    } else {
        now.secs as int
    }
}

/// The outcome of reading the clock: real time elapsed since the start, the
/// wall time to display (at the start's offset), and real time left until the end.
#[derive(Debug, Clone, Copy, PartialEq, Eq, Structural)]
pub struct Walltime {
    pub elapsed: i64,
    pub walltime: Instant,
    pub remaining: i64,
}

/// A clock configured for one journey from `start` to `end`.
#[derive(Debug, Clone, Copy, PartialEq, Eq, Structural)]
pub struct Wallclock {
    pub start: Instant,
    pub end: Instant,
}

/// Truncated scaling of a duration lying between zero and the real duration
/// stays between zero and the apparent duration.
proof fn lemma_scaled_bounds(x: int, e: int, d: int)
    requires
        0 <= x <= d,
        0 < d,
    ensures
        e >= 0 ==> 0 <= scaled(x, e, d) <= e,
        e < 0 ==> e <= scaled(x, e, d) <= 0,
        x == 0 ==> scaled(x, e, d) == 0,
        x == d ==> scaled(x, e, d) == e,
{
    if e >= 0 {
        assert(0 <= x * e <= d * e) by (nonlinear_arith)
            requires 0 <= x <= d, e >= 0;
        lemma_div_is_ordered(x * e, d * e, d);
        lemma_div_is_ordered(0, x * e, d);
        lemma_div_multiples_vanish(e, d);
    } else {
        assert(0 <= x * (-e) <= d * (-e)) by (nonlinear_arith)
            requires 0 <= x <= d, e < 0;
        assert(-(x * e) == x * (-e)) by (nonlinear_arith);
        lemma_div_is_ordered(x * (-e), d * (-e), d);
        lemma_div_is_ordered(0, x * (-e), d);
        lemma_div_multiples_vanish(-e, d);
    }
    if x == 0 {
        assert(x * e == 0);
    }
    if x == d {
        assert(x * e == e * d) by (nonlinear_arith) requires x == d;
        if e < 0 {
            assert(-(x * e) == (-e) * d) by (nonlinear_arith) requires x == d;
        }
    }
}

/// Scales a duration of `secs` seconds by the rate `apparent / actual` and
/// truncates toward zero. The rate is kept as an exact ratio.
pub fn scale_duration(secs: i64, apparent: i64, actual: i64) -> (r: i64)
    requires
        actual > 0,
        i64::MIN <= scaled(secs as int, apparent as int, actual as int) <= i64::MAX,
    ensures
        r == scaled(secs as int, apparent as int, actual as int),
{
    let a: i128 = secs as i128;
    let b: i128 = apparent as i128;
    assert(-0x4000_0000_0000_0000_0000_0000_0000_0000 <= a * b
        <= 0x4000_0000_0000_0000_0000_0000_0000_0000) by (nonlinear_arith)
        requires
            -0x8000_0000_0000_0000 <= a < 0x8000_0000_0000_0000,
            -0x8000_0000_0000_0000 <= b < 0x8000_0000_0000_0000,
    ;
    let p: i128 = a * b;
    let d: i128 = actual as i128;
    let q: i128 = if p >= 0 {
        p / d
    } else {
        -((-p) / d)
    };
    q as i64
}

/// Between the ends of a journey on which the displayed clock runs forward
/// (positive apparent duration), the wall time read lies between the start's
/// and the end's local times.
pub proof fn lemma_walltime_within_local_bounds(c: Wallclock, now: Instant, r: Walltime)
    requires
        c.wf(),
        now.wf(),
        c.start.secs < now.secs < c.end.secs,
        apparent_duration(c.start, c.end) > 0,
        c.reads(now, r),
    ensures
        c.start.local() <= r.walltime.local() <= c.end.local(),
{
    lemma_scaled_bounds(
        now.secs - c.start.secs,
        apparent_duration(c.start, c.end),
        real_duration(c.start, c.end),
    );
}

/// Reading the same clock at the same instant twice gives the same result.
pub proof fn lemma_reading_is_deterministic(c: Wallclock, now: Instant, r1: Walltime, r2: Walltime)
    requires
        c.reads(now, r1),
        c.reads(now, r2),
    ensures
        r1 == r2,
{
}

/// At the start the clock shows the start itself, with nothing elapsed.
pub proof fn lemma_reading_at_start(c: Wallclock, r: Walltime)
    requires
        c.wf(),
        c.reads(c.start, r),
    ensures
        r.walltime == c.start,
        r.elapsed == 0,
{
    if c.start.secs < c.end.secs {
        lemma_scaled_bounds(0, apparent_duration(c.start, c.end), real_duration(c.start, c.end));
    }
}

/// At the end of a journey that ends after it starts, the clock shows the end's
/// local time at the start's offset, with nothing remaining.
pub proof fn lemma_reading_at_end(c: Wallclock, r: Walltime)
    requires
        c.wf(),
        c.start.secs < c.end.secs,
        c.reads(c.end, r),
    ensures
        r.walltime.local() == c.end.local(),
        r.walltime.offset == c.start.offset,
        r.remaining == 0,
{
    lemma_scaled_bounds(
        real_duration(c.start, c.end),
        apparent_duration(c.start, c.end),
        real_duration(c.start, c.end),
    );
}

/// Before the start the clock shows `now` itself (at the start's offset) with
/// negative elapsed time; after the end it shows `now` with negative remaining time.
pub proof fn lemma_outside_interval(c: Wallclock, now: Instant, r: Walltime)
    requires
        c.reads(now, r),
    ensures
        now.secs < c.start.secs ==> r.walltime == now.with_offset_spec(c.start.offset)
            && r.elapsed < 0,
        now.secs > c.end.secs ==> r.walltime == now.with_offset_spec(c.start.offset)
            && r.remaining < 0,
{
}

/// Within the interval, on a journey whose apparent duration is not negative,
/// a later instant never shows an earlier wall time.
pub proof fn lemma_walltime_monotonic(c: Wallclock, a: Instant, b: Instant, ra: Walltime, rb: Walltime)
    requires
        c.wf(),
        within(c.start, c.end, a),
        within(c.start, c.end, b),
        a.secs <= b.secs,
        apparent_duration(c.start, c.end) >= 0,
        c.reads(a, ra),
        c.reads(b, rb),
    ensures
        ra.walltime.secs <= rb.walltime.secs,
{
    let e = apparent_duration(c.start, c.end);
    let d = real_duration(c.start, c.end);
    let xa = a.secs - c.start.secs;
    let xb = b.secs - c.start.secs;
    assert(0 <= xa * e <= xb * e) by (nonlinear_arith)
        requires 0 <= xa <= xb, e >= 0;
    lemma_div_is_ordered(xa * e, xb * e, d);
}

impl Wallclock {
    /// Both ends are supported instants, and they are distinct in real time.
    pub open spec fn wf(self) -> bool {
        &&& self.start.wf()
        &&& self.end.wf()
        &&& self.start.secs != self.end.secs
    }

    /// `r` is the reading of this clock at `now`.
    pub open spec fn reads(self, now: Instant, r: Walltime) -> bool {
        &&& r.elapsed == now.secs - self.start.secs
        &&& r.remaining == self.end.secs - now.secs
        &&& r.walltime.offset == self.start.offset
        &&& r.walltime.secs == walltime_secs(self.start, self.end, now)
    }

    /// A clock for the journey from `start` to `end`. Start and end at the same
    /// real instant leave no duration to dilate, and are refused.
    pub fn new(start: Instant, end: Instant) -> (r: Result<Wallclock, ClockError>)
        requires
            start.wf(),
            end.wf(),
        ensures
            start.secs == end.secs ==> r == Err::<Wallclock, ClockError>(ClockError::ZeroDuration),
            start.secs != end.secs ==> r == Ok::<Wallclock, ClockError>(Wallclock { start, end }),
            r matches Ok(c) ==> c.wf(),
    {
        if start.secs == end.secs {
            Err(ClockError::ZeroDuration)
        } else {
            Ok(Wallclock { start, end })
        }
    }

    /// Reads the clock at the real instant `now`.
    pub fn go(&self, now: Instant) -> (r: Walltime)
        requires
            self.wf(),
            now.wf(),
        ensures
            self.reads(now, r),
    {
        let here = now.with_offset(self.start.offset);
        let elapsed: i64 = now.secs - self.start.secs;
        let remaining: i64 = self.end.secs - now.secs;
        if now.secs < self.start.secs || now.secs > self.end.secs {
            return Walltime { elapsed, walltime: here, remaining };
        }
        let duration: i64 = self.end.secs - self.start.secs;
        let tzdiff: i64 = self.end.offset as i64 - self.start.offset as i64;
        let apparent: i64 = duration + tzdiff;
        proof {
            lemma_scaled_bounds(elapsed as int, apparent as int, duration as int);
        }
        let shift = scale_duration(elapsed, apparent, duration);
        let walltime = Instant { secs: self.start.secs + shift, offset: self.start.offset };
        Walltime { elapsed, walltime, remaining }
    }
}

} // verus!
