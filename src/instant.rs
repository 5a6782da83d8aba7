//! Points in time carrying a fixed UTC offset.
use vstd::prelude::*;

verus! {

/// Largest magnitude, in seconds from the Unix epoch, of a supported instant.
/// It covers every instant chrono can represent (years -262143 to 262142).
pub const MAX_SECS: i64 = 8_796_093_022_208;

/// Offsets are strictly less than one day in magnitude, as for chrono's `FixedOffset`.
pub const OFFSET_LIMIT: i32 = 86_400;

/// An instant: seconds since the Unix epoch (UTC) and the fixed offset, in
/// seconds east of UTC, in which it is displayed.
#[derive(Debug, Clone, Copy, PartialEq, Eq, Structural)]
pub struct Instant {
    pub secs: i64,
    pub offset: i32,
}

impl Instant {
    /// Within the supported range, with an offset of less than a day.
    pub open spec fn wf(self) -> bool {
        &&& -MAX_SECS <= self.secs <= MAX_SECS
        &&& -OFFSET_LIMIT < self.offset < OFFSET_LIMIT
    }

    /// The local time-of-day reading, as seconds: UTC seconds plus the offset.
    pub open spec fn local(self) -> int {
        self.secs + self.offset
    }

    /// The instant `secs` shown at `offset`, if it is supported.
    pub fn new(secs: i64, offset: i32) -> (r: Option<Instant>)
        ensures
            r == (if (Instant { secs, offset }).wf() {
                Some(Instant { secs, offset })
            } else {
                None::<Instant>
            }),
    {
        let i = Instant { secs, offset };
        if -MAX_SECS <= secs && secs <= MAX_SECS && -OFFSET_LIMIT < offset && offset < OFFSET_LIMIT {
            Some(i)
        } else {
            None
        }
    }

    /// The same instant displayed at `offset`.
    pub open spec fn with_offset_spec(self, offset: i32) -> Instant {
        Instant { secs: self.secs, offset }
    }

    /// The same instant displayed at `offset`.
    #[verifier::when_used_as_spec(with_offset_spec)]
    pub fn with_offset(self, offset: i32) -> (r: Instant)
        ensures
            r == self.with_offset_spec(offset),
    {
        Instant { secs: self.secs, offset }
    }
}

} // verus!
