//! The scope-guard timer: measures elapsed wall-clock time for one labeled
//! region and yields exactly one event record, however often it is stopped.
//!
//! The timer itself never touches a clock's representation: the moment of
//! creation is captured as an opaque instant, and elapsed time is read
//! through a trusted wrapper. What the record holds — a non-negative
//! duration, the given label and thread identity — is verified.

use vstd::prelude::*;
use crate::event::ProfileResult;

verus! {

#[verifier::external_type_specification]
#[verifier::external_body]
pub struct ExInstant(std::time::Instant);

/// Relies on std::time::Instant::now: an opaque moment of the monotonic
/// clock.
#[verifier::external_body]
fn instant_now() -> std::time::Instant {
    std::time::Instant::now()
}

/// Relies on std::time::Instant::elapsed: the time since `earlier`, which
/// is zero if the monotonic clock has not advanced, so never negative.
#[verifier::external_body]
fn micros_since(earlier: &std::time::Instant) -> (r: i64)
    ensures
        0 <= r,
{
    i64::try_from(earlier.elapsed().as_micros()).unwrap_or(i64::MAX)
}

/// One in-flight timed region. Stopping it — explicitly, or from the scope
/// guard a caller wraps around it — produces its event record exactly once.
pub struct InstrumentationTimer<'a> {
    name: &'a str,
    start_timepoint: std::time::Instant,
    stopped: bool,
}

impl<'a> InstrumentationTimer<'a> {
    /// The region's display label.
    pub closed spec fn label(self) -> Seq<char> {
        self.name@
    }

    /// Whether the timer has already reported its event.
    pub closed spec fn is_stopped(self) -> bool {
        self.stopped
    }

    /// Starts timing a region labeled `name`.
    pub fn new(name: &'a str) -> (t: Self)
        ensures
            t.label() == name@,
            !t.is_stopped(),
    {
        InstrumentationTimer { name, start_timepoint: instant_now(), stopped: false }
    }

    /// Stops the timer. The first call yields the region's event record:
    /// its label, the elapsed microseconds as a non-negative duration, and
    /// the given thread identity. Every later call is a no-op that yields
    /// nothing, so one timer never reports twice.
    ///
    /// As in the trace format, the record's duration is `end - start`. Its
    /// `start` is the timer's own elapsed time read again at the moment of
    /// stopping — a relative clock, not the position within the session.
    pub fn stop(&mut self, thread_id: u32) -> (r: Option<ProfileResult>)
        ensures
            old(self).is_stopped() ==> *final(self) == *old(self) && r is None,
            !old(self).is_stopped() ==> {
                &&& final(self).is_stopped()
                &&& final(self).label() == old(self).label()
                &&& r is Some
                &&& r->Some_0.name@ == old(self).label()
                &&& r->Some_0.thread_id == thread_id
                &&& 0 <= r->Some_0.start <= r->Some_0.end
            },
    {
        if self.stopped {
            return None;
        }
        let duration: i64 = micros_since(&self.start_timepoint);
        let start: i64 = micros_since(&self.start_timepoint);
        let end: i64 = if start <= i64::MAX - duration {
            start + duration
        } else {
            i64::MAX
        };
        self.stopped = true;
        Some(ProfileResult { name: self.name.to_owned(), start, end, thread_id })
    }
}

} // verus!
