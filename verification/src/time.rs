//! Instants and spans of the monotonic millisecond clock.
//!
//! An instant counts clock ticks since start-up, one tick per millisecond. The
//! arithmetic never wraps: an operation whose result would leave the range
//! returns `None`.

use vstd::prelude::*;

verus! {

/// A non-negative span of time, in clock ticks (milliseconds).
#[derive(Clone, Copy, Debug, PartialEq, Eq, Structural)]
pub struct Duration {
    pub millis: u32,
}

/// A reading of the monotonic clock, in ticks since start-up.
#[derive(Clone, Copy, Debug, PartialEq, Eq, Structural)]
pub struct TimeInstant {
    pub ticks: u32,
}

/// `fugit::Instant + fugit::Duration`, both 64 bits wide at one tick per
/// millisecond: the sum of the two tick counts modulo 2^64. fugit does not
/// panic here, it wraps. The instants of this clock are 32 bits wide, so
/// their sums stay far from there.
#[verifier::external_body]
fn ticks_plus(start: u64, span: u64) -> (end: u64)
    ensures
        end as int == (start as int + span as int) % 0x1_0000_0000_0000_0000,
{
    let start = fugit::Instant::<u64, 1, 1000>::from_ticks(start);
    let span = fugit::Duration::<u64, 1, 1000>::from_ticks(span);
    (start + span).ticks()
}

/// `fugit::Instant - fugit::Instant`, both 64 bits wide at one tick per
/// millisecond. fugit reads a difference of more than half the range as a
/// wrapped clock and panics on it, so such a pair is left out; on the others
/// the result is the difference of the tick counts. Two instants of this
/// clock, 32 bits wide, are never that far apart.
#[verifier::external_body]
fn ticks_between(later: u64, earlier: u64) -> (span: u64)
    requires
        earlier <= later,
        later - earlier <= 0x7FFF_FFFF_FFFF_FFFF,
    ensures
        span == later - earlier,
{
    let later = fugit::Instant::<u64, 1, 1000>::from_ticks(later);
    let earlier = fugit::Instant::<u64, 1, 1000>::from_ticks(earlier);
    (later - earlier).ticks()
}

impl Duration {
    /// A span of `millis` milliseconds.
    pub fn millis(millis: u32) -> (span: Duration)
        ensures
            span.millis == millis,
    {
        Duration { millis }
    }

    /// The span in milliseconds.
    pub fn to_millis(&self) -> (millis: u32)
        ensures
            millis == self.millis,
    {
        self.millis
    }
}

impl TimeInstant {
    /// The instant `ticks` milliseconds after start-up.
    pub fn from_ticks(ticks: u32) -> (instant: TimeInstant)
        ensures
            instant.ticks == ticks,
    {
        TimeInstant { ticks }
    }

    /// Milliseconds since start-up.
    pub fn ticks(&self) -> (ticks: u32)
        ensures
            ticks == self.ticks,
    {
        self.ticks
    }

    /// Whether `self` is `other` or comes after it.
    pub open spec fn reached(self, other: TimeInstant) -> bool {
        self.ticks >= other.ticks
    }

    /// Whether the clock, reading `self`, has reached `other`.
    pub fn has_reached(&self, other: TimeInstant) -> (yes: bool)
        ensures
            yes == self.reached(other),
    {
        self.ticks >= other.ticks
    }

    /// The instant `span` after `self`, or `None` where the clock cannot
    /// count that far.
    pub fn checked_add(&self, span: Duration) -> (end: Option<TimeInstant>)
        ensures
            self.ticks + span.millis <= u32::MAX <==> end is Some,
            end is Some ==> end->Some_0.ticks == self.ticks + span.millis,
    {
        let sum: u64 = ticks_plus(self.ticks as u64, span.millis as u64);
        if sum <= u32::MAX as u64 {
            Some(TimeInstant { ticks: sum as u32 })
        } else {
            None
        }
    }

    /// The span from `earlier` to `self`, or `None` where `earlier` comes
    /// after `self`.
    pub fn checked_duration_since(&self, earlier: TimeInstant) -> (span: Option<Duration>)
        ensures
            earlier.ticks <= self.ticks <==> span is Some,
            span is Some ==> span->Some_0.millis == self.ticks - earlier.ticks,
    {
        if earlier.ticks <= self.ticks {
            let diff: u64 = ticks_between(self.ticks as u64, earlier.ticks as u64);
            Some(Duration { millis: diff as u32 })
        } else {
            None
        }
    }

    /// The later of the two instants: when a task that waits for `self`
    /// resumes if the clock reads `now` as it starts to wait.
    pub fn resumed_at(&self, now: TimeInstant) -> (at: TimeInstant)
        ensures
            at.reached(*self),
            at.reached(now),
            at == *self || at == now,
    {
        if now.ticks >= self.ticks {
            now
        } else {
            *self
        }
    }
}

/// The times of one activation.
#[derive(Clone, Copy, Debug, PartialEq, Eq, Structural)]
pub struct Timing {
    /// From the release instant to the end of the activation; `None` where
    /// the end is given as before the release.
    pub execution_time: Option<Duration>,
    /// The instant before which the task does not start again: the release
    /// instant plus the minimum separation, or the period; `None` where the
    /// clock cannot count that far.
    pub resume_at: Option<TimeInstant>,
}

/// The times of an activation released at `release` that ends at `now`, for
/// a task whose minimum separation, or period, is `min_sep` milliseconds.
pub open spec fn timing_of(release: TimeInstant, now: TimeInstant, min_sep: u32) -> Timing {
    Timing {
        execution_time: if now.ticks >= release.ticks {
            Some(Duration { millis: (now.ticks - release.ticks) as u32 })
        } else {
            None
        },
        resume_at: if release.ticks + min_sep <= u32::MAX {
            Some(TimeInstant { ticks: (release.ticks + min_sep) as u32 })
        } else {
            None
        },
    }
}

/// The times of an activation released at `release` that ends at `now`.
pub fn timing(release: TimeInstant, now: TimeInstant, min_sep: u32) -> (times: Timing)
    ensures
        times == timing_of(release, now, min_sep),
{
    Timing {
        execution_time: now.checked_duration_since(release),
        resume_at: release.checked_add(Duration::millis(min_sep)),
    }
}

/// The monotonic clock: its reading never goes back.
///
/// Reading it changes nothing. Time passes only through `advance` and
/// `delay_until`, and only forwards.
#[derive(Clone, Copy, Debug, PartialEq, Eq, Structural)]
pub struct MonotonicClock {
    now: TimeInstant,
}

impl MonotonicClock {
    /// The reading of the clock.
    pub closed spec fn reading(&self) -> TimeInstant {
        self.now
    }

    /// A clock that reads `start`.
    pub fn start(start: TimeInstant) -> (clock: MonotonicClock)
        ensures
            clock.reading() == start,
    {
        MonotonicClock { now: start }
    }

    /// The current time.
    pub fn now(&self) -> (now: TimeInstant)
        ensures
            now == self.reading(),
    {
        self.now
    }

    /// Time passes until `to`; where `to` is already past, none passes.
    pub fn advance(&mut self, to: TimeInstant)
        ensures
            final(self).reading().reached(old(self).reading()),
            final(self).reading().reached(to),
            final(self).reading() == old(self).reading() || final(self).reading() == to,
    {
        self.now = to.resumed_at(self.now);
    }

    /// Waits until the clock has reached `instant` and returns the reading
    /// at which the caller resumes. An instant that is already past is no
    /// error: the caller resumes at once, at the present reading.
    pub fn delay_until(&mut self, instant: TimeInstant) -> (resumed: TimeInstant)
        ensures
            resumed == final(self).reading(),
            resumed.reached(instant),
            resumed.reached(old(self).reading()),
            resumed == old(self).reading() || resumed == instant,
    {
        self.advance(instant);
        self.now
    }
}

} // verus!
