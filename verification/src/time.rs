//! Time sources: the real clock, and a deterministic clock that tests and
//! replays drive by hand.
use vstd::prelude::*;

use crate::clock::{
    duration_as_nanos, duration_from_nanos, duration_nanos, instant_checked_add,
    instant_duration_since, instant_gap, instant_now, instant_plus, unix_now_secs,
};

verus! {

/// Nanoseconds in one second.
pub const NANOS_PER_SEC: u64 = 1_000_000_000;

/// A source of time that components are parameterised over, so that tests and
/// replays can control how time moves.
pub trait TimeProvider: Send + Sync + 'static {
    /// The current time as a monotonic `Instant`.
    fn now(&self) -> std::time::Instant;

    /// The current time in whole seconds since the Unix epoch.
    fn timestamp_secs(&self) -> u64;

    /// The time from `since` to `now()`, zero when `since` is later.
    fn elapsed(&self, since: std::time::Instant) -> std::time::Duration {
        let now = self.now();
        instant_duration_since(&now, &since)
    }
}

/// The real clock: `Instant::now()` and the system wall clock.
#[derive(Debug, Clone, Copy, Default)]
pub struct RealTimeProvider;

impl TimeProvider for RealTimeProvider {
    fn now(&self) -> std::time::Instant {
        instant_now()
    }

    fn timestamp_secs(&self) -> u64 {
        unix_now_secs()
    }
}

/// The whole seconds in a nanosecond offset.
pub open spec fn secs_of_nanos(nanos: u64) -> u64 {
    (nanos / NANOS_PER_SEC) as u64
}

/// A deterministic clock: a base instant and a simulated offset in
/// nanoseconds since the Unix epoch, which moves only when advanced.
#[derive(Debug)]
pub struct DeterministicClock {
    base: std::time::Instant,
    offset_nanos: u64,
}

impl DeterministicClock {
    /// The simulated time, in nanoseconds since the Unix epoch.
    pub closed spec fn offset(&self) -> u64 {
        self.offset_nanos
    }

    /// The real instant the clock was built at.
    pub closed spec fn base(&self) -> std::time::Instant {
        self.base
    }

    /// What `now()` reads: the base moved forward by the offset, or the base
    /// itself where the platform cannot represent that instant.
    pub open spec fn reading(&self) -> std::time::Instant {
        match instant_plus(self.base(), self.offset() as nat) {
            Some(t) => t,
            None => self.base(),
        }
    }

    /// A clock that reads `start_timestamp_secs` seconds since the epoch.
    pub fn new(start_timestamp_secs: u64) -> (c: DeterministicClock)
        requires
            start_timestamp_secs * NANOS_PER_SEC <= u64::MAX,
        ensures
            c.offset() == start_timestamp_secs * NANOS_PER_SEC,
    {
        DeterministicClock {
            base: instant_now(),
            offset_nanos: start_timestamp_secs * NANOS_PER_SEC,
        }
    }

    /// Move the clock forward by `duration`. The nanosecond count of the
    /// duration is truncated to 64 bits and added with wrap-around.
    pub fn advance(&mut self, duration: std::time::Duration)
        ensures
            final(self).offset() == (old(self).offset() + (duration_nanos(duration) as u64)) as int
                % 0x1_0000_0000_0000_0000,
            final(self).base() == old(self).base(),
    {
        let nanos = duration_as_nanos(&duration);
        let step: u64 = nanos as u64;
        self.offset_nanos = self.offset_nanos.wrapping_add(step);
    }

    /// The simulated time in whole seconds since the epoch.
    pub fn timestamp_secs(&self) -> (s: u64)
        ensures
            s == secs_of_nanos(self.offset()),
    {
        self.offset_nanos / NANOS_PER_SEC
    }

    /// The simulated `Instant`: the base moved forward by the offset, or the
    /// base itself where the platform cannot represent that instant.
    pub fn now(&self) -> (r: std::time::Instant)
        ensures
            r == self.reading(),
    {
        let d = duration_from_nanos(self.offset_nanos);
        match instant_checked_add(&self.base, d) {
            Some(t) => t,
            None => self.base,
        }
    }

    /// The time from `since` to `now()`, zero when `since` is later.
    pub fn elapsed(&self, since: std::time::Instant) -> (r: std::time::Duration)
        ensures
            duration_nanos(r) == instant_gap(self.reading(), since),
            since == self.reading() ==> duration_nanos(r) == 0,
    {
        let now = self.now();
        instant_duration_since(&now, &since)
    }
}

impl Clone for DeterministicClock {
    fn clone(&self) -> (c: Self)
        ensures
            c.offset() == self.offset(),
            c.base() == self.base(),
    {
        DeterministicClock { base: self.base, offset_nanos: self.offset_nanos }
    }
}

/// Advancing the clock by a duration that does not overflow the offset moves
/// the reading forward by exactly that many nanoseconds, so the seconds reading
/// never goes backwards.
pub proof fn lemma_advance_monotone(before: u64, step: u64)
    requires
        before + step <= u64::MAX,
    ensures
        (before + step) as int % 0x1_0000_0000_0000_0000 == before + step,
        secs_of_nanos(before) <= secs_of_nanos((before + step) as u64),
{
    let a: int = before as int;
    let b: int = before + step;
    let n: int = NANOS_PER_SEC as int;
    assert(a / n <= b / n) by (nonlinear_arith)
        requires
            a <= b,
            n > 0,
    ;
}

/// The total length, in nanoseconds, of a sequence of durations.
pub open spec fn total_nanos(ds: Seq<std::time::Duration>) -> nat
    decreases ds.len(),
{
    if ds.len() == 0 {
        0
    } else {
        total_nanos(ds.drop_last()) + duration_nanos(ds.last())
    }
}

/// The offset of a clock that started at `start` after `advance` was called
/// with each of `ds` in turn (each step truncated to 64 bits and added with
/// wrap-around, as `advance` states).
pub open spec fn offset_after(start: u64, ds: Seq<std::time::Duration>) -> u64
    decreases ds.len(),
{
    if ds.len() == 0 {
        start
    } else {
        ((offset_after(start, ds.drop_last()) + (duration_nanos(ds.last()) as u64)) as int
            % 0x1_0000_0000_0000_0000) as u64
    }
}

/// A run of advances that does not overflow the offset adds up: the offset
/// moves by the sum of the steps, and the seconds reading is that sum (plus
/// the start) divided by 10^9, rounded down.
pub proof fn lemma_advances_accumulate(start: u64, ds: Seq<std::time::Duration>)
    requires
        start + total_nanos(ds) <= u64::MAX,
    ensures
        offset_after(start, ds) == start + total_nanos(ds),
        secs_of_nanos(offset_after(start, ds)) == (start + total_nanos(ds)) / (NANOS_PER_SEC as int),
    decreases ds.len(),
{
    if ds.len() > 0 {
        lemma_advances_accumulate(start, ds.drop_last());
        let before = offset_after(start, ds.drop_last());
        let step = duration_nanos(ds.last());
        assert(step <= u64::MAX);
        assert((step as u64) == step);
        assert(before + step <= u64::MAX);
        assert((before + (step as u64)) as int % 0x1_0000_0000_0000_0000 == before + step);
    }
}

/// Deterministic time provider kept for older callers; it wraps a
/// `DeterministicClock`.
#[derive(Debug, Clone)]
pub struct DeterministicTimeProvider {
    inner: DeterministicClock,
    step: std::time::Duration,
}

impl DeterministicTimeProvider {
    /// The simulated time, in nanoseconds since the Unix epoch.
    pub closed spec fn offset(&self) -> u64 {
        self.inner.offset()
    }

    /// What `now()` reads: the reading of the underlying deterministic clock.
    pub closed spec fn reading(&self) -> std::time::Instant {
        self.inner.reading()
    }

    /// The duration that one `advance` moves the provider forward by.
    pub closed spec fn step(&self) -> std::time::Duration {
        self.step
    }

    /// A provider that reads `start_secs` seconds since the epoch and moves
    /// forward by `step` on each `advance`.
    pub fn new(start_secs: u64, step: std::time::Duration) -> (p: DeterministicTimeProvider)
        requires
            start_secs * NANOS_PER_SEC <= u64::MAX,
        ensures
            p.offset() == start_secs * NANOS_PER_SEC,
            p.step() == step,
    {
        DeterministicTimeProvider { inner: DeterministicClock::new(start_secs), step }
    }

    /// Move the provider forward by one step (as `DeterministicClock::advance`
    /// does with that duration).
    pub fn advance(&mut self)
        ensures
            final(self).offset() == (old(self).offset() + (duration_nanos(old(self).step()) as u64))
                as int % 0x1_0000_0000_0000_0000,
            final(self).step() == old(self).step(),
    {
        let step = self.step;
        self.inner.advance(step);
    }

    /// Set the current time to `timestamp_secs` seconds since the epoch.
    pub fn set_time(&mut self, timestamp_secs: u64)
        requires
            timestamp_secs * NANOS_PER_SEC <= u64::MAX,
        ensures
            final(self).offset() == timestamp_secs * NANOS_PER_SEC,
            final(self).step() == old(self).step(),
    {
        self.inner = DeterministicClock::new(timestamp_secs);
    }
}

impl Default for DeterministicTimeProvider {
    fn default() -> (p: Self)
        ensures
            p.offset() == 1_700_000_000 * NANOS_PER_SEC,
            duration_nanos(p.step()) == 1_000_000,
    {
        let step = duration_from_nanos(1_000_000);
        DeterministicTimeProvider::new(1_700_000_000, step)
    }
}

impl TimeProvider for DeterministicTimeProvider {
    fn now(&self) -> (r: std::time::Instant)
        ensures
            r == self.reading(),
    {
        self.inner.now()
    }

    fn timestamp_secs(&self) -> (s: u64)
        ensures
            s == secs_of_nanos(self.offset()),
    {
        self.inner.timestamp_secs()
    }
}

} // verus!
