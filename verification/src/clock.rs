//! Wall-clock and monotonic time sources from the standard library.
//!
//! Every item here is a thin trusted wrapper around one `std::time` function.
//! What a clock reads depends on the machine and the moment, so the readings
//! themselves carry no contract; the `Duration` conversions are exact unit
//! conversions and are stated as such.
use vstd::prelude::*;

verus! {

#[verifier::external_type_specification]
#[verifier::external_body]
pub struct ExInstant(std::time::Instant);

#[verifier::external_type_specification]
#[verifier::external_body]
pub struct ExSystemTime(std::time::SystemTime);

#[verifier::external_type_specification]
#[verifier::external_body]
pub struct ExSystemTimeError(std::time::SystemTimeError);

/// `Instant` is `Copy`: its `clone` is the value itself.
pub assume_specification[<std::time::Instant as Clone>::clone](i: &std::time::Instant) -> (r:
    std::time::Instant)
    ensures
        r == *i,
;

/// `Duration` is `Copy`: its `clone` is the value itself.
pub assume_specification[<std::time::Duration as Clone>::clone](d: &std::time::Duration) -> (r:
    std::time::Duration)
    ensures
        r == *d,
;

/// The length of a `Duration` in nanoseconds.
pub uninterp spec fn duration_nanos(d: std::time::Duration) -> nat;

/// `Duration::from_nanos`: a duration of exactly `nanos` nanoseconds.
#[verifier::external_body]
pub fn duration_from_nanos(nanos: u64) -> (d: std::time::Duration)
    ensures
        duration_nanos(d) == nanos,
{
    std::time::Duration::from_nanos(nanos)
}

/// `Duration::from_secs`: a duration of exactly `secs` seconds.
#[verifier::external_body]
pub fn duration_from_secs(secs: u64) -> (d: std::time::Duration)
    ensures
        duration_nanos(d) == secs * 1_000_000_000,
{
    std::time::Duration::from_secs(secs)
}

/// `Duration::from_millis`: a duration of exactly `millis` milliseconds.
#[verifier::external_body]
pub fn duration_from_millis(millis: u64) -> (d: std::time::Duration)
    ensures
        duration_nanos(d) == millis * 1_000_000,
{
    std::time::Duration::from_millis(millis)
}

/// `Duration::as_nanos`: the whole number of nanoseconds in `d`.
#[verifier::external_body]
pub fn duration_as_nanos(d: &std::time::Duration) -> (n: u128)
    ensures
        n == duration_nanos(*d),
{
    d.as_nanos()
}

/// `Duration::as_millis`: the whole number of milliseconds in `d`.
#[verifier::external_body]
pub fn duration_as_millis(d: &std::time::Duration) -> (n: u128)
    ensures
        n == duration_nanos(*d) / 1_000_000,
{
    d.as_millis()
}

/// `Duration::as_secs`: the whole number of seconds in `d`.
#[verifier::external_body]
pub fn duration_as_secs(d: &std::time::Duration) -> (n: u64)
    ensures
        n == duration_nanos(*d) / 1_000_000_000,
{
    d.as_secs()
}

/// `Duration::default`: the zero-length duration.
#[verifier::external_body]
pub fn duration_zero() -> (d: std::time::Duration)
    ensures
        duration_nanos(d) == 0,
{
    std::time::Duration::default()
}

/// `Instant::now`: the current reading of the monotonic clock.
/// Nothing is claimed of the reading.
#[verifier::external_body]
pub fn instant_now() -> std::time::Instant {
    std::time::Instant::now()
}

/// `Instant::elapsed`: how long ago `i` was taken.
/// Nothing is claimed of the result, which depends on the moment of the call.
#[verifier::external_body]
pub fn instant_elapsed(i: &std::time::Instant) -> std::time::Duration {
    i.elapsed()
}

/// The time from instant `earlier` to instant `later`, in nanoseconds, as
/// `Instant::duration_since` measures it.
pub uninterp spec fn instant_gap(later: std::time::Instant, earlier: std::time::Instant) -> nat;

/// The instant `nanos` nanoseconds after `i`, or `None` where the platform
/// cannot represent it, as `Instant::checked_add` computes it.
pub uninterp spec fn instant_plus(i: std::time::Instant, nanos: nat) -> Option<std::time::Instant>;

/// `Instant::duration_since`: the time from `earlier` to `later`, saturating at
/// zero when `earlier` is the later of the two. Claimed: the result is a
/// function of the two instants, and an instant is no time from itself. How
/// the gap relates to `checked_add` is left unsaid: the documentation calls
/// `Instant` platform-specific and does not promise exact arithmetic.
#[verifier::external_body]
pub fn instant_duration_since(
    later: &std::time::Instant,
    earlier: &std::time::Instant,
) -> (r: std::time::Duration)
    ensures
        duration_nanos(r) == instant_gap(*later, *earlier),
        *later == *earlier ==> duration_nanos(r) == 0,
{
    later.duration_since(*earlier)
}

/// `Instant::checked_add`: `i` moved forward by `d`, or `None` where the
/// platform cannot represent the result. The result is claimed to be a
/// function of the instant and the length of `d`.
#[verifier::external_body]
pub fn instant_checked_add(
    i: &std::time::Instant,
    d: std::time::Duration,
) -> (r: Option<std::time::Instant>)
    ensures
        r == instant_plus(*i, duration_nanos(d)),
{
    i.checked_add(d)
}

/// `SystemTime::now`: the current wall-clock reading. Nothing is claimed of it.
#[verifier::external_body]
pub fn system_time_now() -> std::time::SystemTime {
    std::time::SystemTime::now()
}

/// `SystemTime::duration_since(UNIX_EPOCH)`: the time since the Unix epoch, or
/// an error when the reading lies before the epoch. Nothing is claimed of it.
#[verifier::external_body]
pub fn since_unix_epoch(
    t: &std::time::SystemTime,
) -> Result<std::time::Duration, std::time::SystemTimeError> {
    t.duration_since(std::time::UNIX_EPOCH)
}

/// Whether `d` is strictly longer than `limit`.
pub fn duration_exceeds(d: &std::time::Duration, limit: &std::time::Duration) -> (r: bool)
    ensures
        r == (duration_nanos(*d) > duration_nanos(*limit)),
{
    duration_as_nanos(d) > duration_as_nanos(limit)
}

/// Whole seconds since the Unix epoch on the wall clock, zero when the clock
/// reads a time before the epoch.
pub fn unix_now_secs() -> u64 {
    let now = system_time_now();
    let elapsed = match since_unix_epoch(&now) {
        Ok(d) => d,
        Err(_) => duration_zero(),
    };
    duration_as_secs(&elapsed)
}

/// Whole milliseconds since the Unix epoch on the wall clock, zero when the
/// clock reads a time before the epoch. The count is truncated to 64 bits.
pub fn unix_now_millis() -> u64 {
    let now = system_time_now();
    let elapsed = match since_unix_epoch(&now) {
        Ok(d) => d,
        Err(_) => duration_zero(),
    };
    let ms = duration_as_millis(&elapsed);
    ms as u64
}

} // verus!
