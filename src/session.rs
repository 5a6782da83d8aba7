//! The currently configured clock, as kept by a service between requests.
use vstd::prelude::*;

use crate::instant::Instant;
use crate::wallclock::{Wallclock, Walltime};
use crate::ClockError;

verus! {

/// Holds at most one configured clock; a new configuration replaces the old one.
pub struct ClockSession {
    clock: Option<Wallclock>,
}

impl View for ClockSession {
    type V = Option<Wallclock>;

    closed spec fn view(&self) -> Option<Wallclock> {
        self.clock
    }
}

impl ClockSession {
    /// A configured clock, if any, is well formed.
    pub closed spec fn wf(&self) -> bool {
        self.clock matches Some(c) ==> c.wf()
    }

    /// `r` is what evaluating the session at `now` answers.
    pub open spec fn answers(&self, now: Instant, r: Result<Walltime, ClockError>) -> bool {
        match self@ {
            None => r == Err::<Walltime, ClockError>(ClockError::NotConfigured),
            Some(c) => r matches Ok(t) && c.reads(now, t),
        }
    }

    /// A session with nothing configured.
    pub fn new() -> (r: ClockSession)
        ensures
            r@ is None,
            r.wf(),
    {
        ClockSession { clock: None }
    }

    /// Whether a clock has been configured.
    pub fn is_configured(&self) -> (r: bool)
        ensures
            r == self@ is Some,
    {
        self.clock.is_some()
    }

    /// Configures the journey from `start` to `end`, replacing any earlier one.
    /// A zero-length journey is refused and leaves the session as it was.
    pub fn configure(&mut self, start: Instant, end: Instant) -> (r: Result<(), ClockError>)
        requires
            old(self).wf(),
            start.wf(),
            end.wf(),
        ensures
            final(self).wf(),
            start.secs == end.secs ==> r == Err::<(), ClockError>(ClockError::ZeroDuration)
                && final(self)@ == old(self)@,
            start.secs != end.secs ==> r == Ok::<(), ClockError>(())
                && final(self)@ == Some(Wallclock { start, end }),
    {
        match Wallclock::new(start, end) {
            Ok(c) => {
                self.clock = Some(c);
                Ok(())
            },
            Err(e) => Err(e),
        }
    }

    /// Reads the configured clock at `now`; fails if none is configured.
    pub fn evaluate(&self, now: Instant) -> (r: Result<Walltime, ClockError>)
        requires
            self.wf(),
            now.wf(),
        ensures
            self.answers(now, r),
    {
        match &self.clock {
            None => Err(ClockError::NotConfigured),
            Some(c) => Ok(c.go(now)),
        }
    }
}

/// A session that was never configured answers every query with the
/// not-configured error.
pub proof fn lemma_fresh_session_not_configured(
    s: ClockSession,
    now: Instant,
    r: Result<Walltime, ClockError>,
)
    requires
        s@ is None,
        s.answers(now, r),
    ensures
        r == Err::<Walltime, ClockError>(ClockError::NotConfigured),
{
}

/// Evaluating the same session at the same instant twice gives the same answer.
pub proof fn lemma_evaluation_is_deterministic(
    s: ClockSession,
    now: Instant,
    r1: Result<Walltime, ClockError>,
    r2: Result<Walltime, ClockError>,
)
    requires
        s.answers(now, r1),
        s.answers(now, r2),
    ensures
        r1 == r2,
{
}

} // verus!
