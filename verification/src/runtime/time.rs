//! Instants and durations as counts of nanoseconds since a common origin.
use vstd::prelude::*;

verus! {

pub const NANOS_PER_MILLI: u128 = 1_000_000;

/// `nanos` capped at the largest representable instant.
pub open spec fn capped(nanos: int) -> u128 {
    if nanos > u128::MAX {
        u128::MAX
    } else {
        nanos as u128
    }
}

pub open spec fn spec_after(instant: u128, duration: u128) -> u128 {
    capped(instant + duration)
}

/// The instant that lies `duration` after `instant`.
pub fn after(instant: u128, duration: u128) -> (later: u128)
    ensures
        later == spec_after(instant, duration),
{
    instant.saturating_add(duration)
}

pub open spec fn spec_since(now: u128, earlier: u128) -> u128 {
    if now > earlier {
        (now - earlier) as u128
    } else {
        0
    }
}

/// How long ago `earlier` was; zero for an instant still to come.
pub fn since(now: u128, earlier: u128) -> (elapsed: u128)
    ensures
        elapsed == spec_since(now, earlier),
{
    now.saturating_sub(earlier)
}

pub open spec fn spec_from_millis(millis: u64) -> u128 {
    (millis * NANOS_PER_MILLI) as u128
}

pub fn from_millis(millis: u64) -> (nanos: u128)
    ensures
        nanos == spec_from_millis(millis),
        nanos == millis * NANOS_PER_MILLI,
{
    millis as u128 * NANOS_PER_MILLI
}

/// The span one frame occupies on the wall clock: at least a millisecond.
pub open spec fn spec_frame_span(duration_ms: u64) -> u128 {
    spec_from_millis(if duration_ms == 0 { 1 } else { duration_ms })
}

pub fn frame_span(duration_ms: u64) -> (nanos: u128)
    ensures
        nanos == spec_frame_span(duration_ms),
{
    from_millis(if duration_ms == 0 { 1 } else { duration_ms })
}

pub open spec fn spec_whole_millis(nanos: u128) -> u64 {
    if nanos / NANOS_PER_MILLI > u64::MAX {
        u64::MAX
    } else {
        (nanos / NANOS_PER_MILLI) as u64
    }
}

/// Full milliseconds, capped at the largest count.
pub fn whole_millis(nanos: u128) -> (millis: u64)
    ensures
        millis == spec_whole_millis(nanos),
{
    let millis: u128 = nanos / NANOS_PER_MILLI;
    if millis > u64::MAX as u128 {
        u64::MAX
    } else {
        millis as u64
    }
}

pub open spec fn spec_max(a: u64, b: u64) -> u64 {
    if a >= b {
        a
    } else {
        b
    }
}

pub fn larger(a: u64, b: u64) -> (max: u64)
    ensures
        max == spec_max(a, b),
{
    if a >= b {
        a
    } else {
        b
    }
}

/// A sum of two counters, capped at the largest count.
pub open spec fn sum(a: u64, b: u64) -> u64 {
    if a + b > u64::MAX {
        u64::MAX
    } else {
        (a + b) as u64
    }
}

/// What is left of a counter, no less than nothing.
pub open spec fn difference(a: u64, b: u64) -> u64 {
    if a < b {
        0
    } else {
        (a - b) as u64
    }
}

/// `new` is `old` and `by` more, or the largest count if that cannot be counted.
pub open spec fn grew_by(new: u64, old: u64, by: int) -> bool {
    if old + by <= 18_446_744_073_709_551_615 {
        new == old + by
    } else {
        new == 18_446_744_073_709_551_615
    }
}

/// Sums and differences are exact where they can be counted and stop at the ends
/// otherwise; the larger of two counts is one of them and no less than either.
pub proof fn counters_count(a: u64, b: u64)
    ensures
        grew_by(sum(a, b), a, b as int),
        a >= b ==> difference(a, b) == a - b,
        a <= b ==> difference(a, b) == 0,
        spec_max(a, b) >= a,
        spec_max(a, b) >= b,
        spec_max(a, b) == a || spec_max(a, b) == b,
{
}

/// A millisecond has a million nanoseconds, a frame takes up at least one
/// millisecond, and what is left of one is not counted.
pub proof fn milliseconds_have_a_million_nanoseconds(millis: u64, nanos: u128)
    ensures
        spec_from_millis(millis) == millis * 1_000_000,
        millis > 0 ==> spec_frame_span(millis) == millis * 1_000_000,
        spec_frame_span(0) == 1_000_000,
        spec_whole_millis(nanos) < 18_446_744_073_709_551_615 ==> spec_whole_millis(nanos)
            * 1_000_000 <= nanos < (spec_whole_millis(nanos) + 1) * 1_000_000,
        spec_whole_millis(nanos) * 1_000_000 <= nanos,
        spec_whole_millis(spec_from_millis(millis)) == millis,
{
}

/// Going forward by a duration and looking back measures that duration; an instant
/// still to come lies no time ago.
pub proof fn looking_back_measures_the_way(instant: u128, duration: u128)
    requires
        instant + duration <= u128::MAX,
    ensures
        spec_after(instant, duration) == instant + duration,
        spec_since(spec_after(instant, duration), instant) == duration,
        spec_since(instant, spec_after(instant, duration)) == 0,
{
}

} // verus!
