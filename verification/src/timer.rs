//! The clock.  A `Timer` wraps the monotonic time source; each query
//! returns the wall time elapsed since the previous query and since the
//! timer was built.  Nothing else in the library touches the real clock:
//! the scheduler takes a `GameTime` as a plain value.
//!
//! What the clock answers cannot be promised, but how the answers fit
//! together can: the timer accumulates its `total` itself, so it is
//! proved that each query's `total` is the previous query's `total` plus
//! the new `since_update` — the elapsed spans partition the total, which
//! therefore measures from construction.

use crate::duration::{max_duration_nanos, Duration};
use vstd::prelude::*;

verus! {

/// One clock query: wall time since the timer started, and since the
/// previous query.
#[derive(Debug, Clone, Copy, PartialEq, Eq, Structural)]
pub struct GameTime {
    pub total: Duration,
    pub since_update: Duration,
}

#[verifier::external_type_specification]
#[verifier::external_body]
pub struct ExInstant(std::time::Instant);

/// Relies on std::time::Instant::now: a reading of the monotonic clock.
/// Nothing can be promised of the value itself.
#[verifier::external_body]
fn now_instant() -> std::time::Instant {
    std::time::Instant::now()
}

/// Relies on Instant::saturating_duration_since: the time from `earlier`
/// to `later`, zero where `earlier` is the later one, decomposed into
/// whole seconds and a sub-second remainder.  The standard library
/// documents the remainder as below one second.
#[verifier::external_body]
fn elapsed_parts(later: &std::time::Instant, earlier: &std::time::Instant) -> (r: (u64, u32))
    ensures
        r.1 < 1_000_000_000,
{
    let elapsed = later.saturating_duration_since(*earlier);
    (elapsed.as_secs(), elapsed.subsec_nanos())
}

/// The monotonic clock with a memory of its last query and of the total
/// it has handed out so far.
pub struct Timer {
    last_update: std::time::Instant,
    total: Duration,
}

impl Default for Timer {
    fn default() -> (r: Timer)
        ensures
            r.spec_total()@ == 0,
    {
        Timer::new()
    }
}

impl Timer {
    /// The accumulated total: the sum of every `since_update` this timer
    /// has answered, saturating at the representable cap.  Queries return
    /// it as their `total`, so it measures from construction.
    pub closed spec fn spec_total(&self) -> Duration {
        self.total
    }

    /// Starts the clock: the reference point is the present moment and
    /// nothing has elapsed yet, so the first query measures from
    /// construction.
    pub fn new() -> (r: Timer)
        ensures
            r.spec_total()@ == 0,
    {
        Timer { last_update: now_instant(), total: Duration::default() }
    }

    /// Queries the clock, advancing the reference point for the next
    /// query.  The elapsed span itself depends on the real clock and is
    /// promised nothing; what is promised is how the answers fit
    /// together: the returned `total` is the accumulated total, which
    /// grows by exactly this query's `since_update` — saturating only at
    /// the representable cap, several centuries in.
    pub fn update(&mut self) -> (r: GameTime)
        ensures
            r.total == final(self).spec_total(),
            old(self).spec_total()@ + r.since_update@ <= max_duration_nanos()
                ==> final(self).spec_total()@ == old(self).spec_total()@ + r.since_update@,
            old(self).spec_total()@ + r.since_update@ > max_duration_nanos()
                ==> final(self).spec_total()@ == max_duration_nanos(),
            final(self).spec_total()@ >= old(self).spec_total()@,
    {
        let now = now_instant();
        let since_parts = elapsed_parts(&now, &self.last_update);
        self.last_update = now;
        let since_update = Duration::new(since_parts.0, since_parts.1);
        self.total.range_facts();
        proof {
            crate::duration::lemma_duration_nonneg(since_update);
        }
        self.total = match self.total.checked_add(since_update) {
            Some(total) => total,
            None => Duration::max_value(),
        };
        GameTime { total: self.total, since_update }
    }
}

} // verus!
