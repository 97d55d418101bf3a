//! Wall-clock projection of the media timeline.
use super::time::{after, since, spec_after, spec_since};
use crate::audio::opus::OPUS_SAMPLE_RATE_HZ;
use vstd::prelude::*;

verus! {

/// Persistent wall-clock projection for the next media sample.
///
/// Output scheduling may rebase its next wake-up after a delayed turn to avoid
/// catch-up bursts. This clock deliberately does not: every sent or discarded
/// frame advances the projection by its media samples, so repeated delays that
/// are individually below the recovery threshold still accumulate and
/// eventually trigger stale-frame recovery.
#[derive(Clone, Copy, Debug, PartialEq, Eq)]
pub struct PlayoutClock {
    pub next_media_instant: Option<u128>,
}

impl Default for PlayoutClock {
    fn default() -> (clock: Self)
        ensures
            clock.next_media_instant is None,
    {
        PlayoutClock { next_media_instant: None }
    }
}

pub open spec fn nanos_for_samples(samples: int) -> int {
    samples * 1_000_000_000 / OPUS_SAMPLE_RATE_HZ as int
}

/// How long so many samples per channel play, in nanoseconds rounded down.
pub fn duration_for_samples(samples: u32) -> (nanos: u64)
    ensures
        nanos == nanos_for_samples(samples as int),
{
    samples as u64 * 1_000_000_000 / OPUS_SAMPLE_RATE_HZ as u64
}

impl PlayoutClock {
    pub open spec fn expected(self, now: u128) -> u128 {
        match self.next_media_instant {
            Some(expected) => expected,
            None => now,
        }
    }

    /// How far the media lags behind the wall clock.
    pub open spec fn spec_lateness(self, now: u128) -> u128 {
        spec_since(now, self.expected(now))
    }

    pub open spec fn anchored(now: u128) -> PlayoutClock {
        PlayoutClock { next_media_instant: Some(now) }
    }

    /// The clock after so many more samples; the first ones set it going.
    pub open spec fn advanced(self, samples_per_channel: u32, now: u128) -> PlayoutClock {
        PlayoutClock {
            next_media_instant: Some(
                spec_after(
                    self.expected(now),
                    nanos_for_samples(samples_per_channel as int) as u128,
                ),
            ),
        }
    }

    pub fn reanchor(&mut self, now: u128)
        ensures
            *final(self) == PlayoutClock::anchored(now),
    {
        self.next_media_instant = Some(now);
    }

    pub fn lateness(&self, now: u128) -> (late: u128)
        ensures
            late == self.spec_lateness(now),
    {
        match self.next_media_instant {
            Some(expected) => since(now, expected),
            None => 0,
        }
    }

    pub fn deadline_with_tolerance(&self, now: u128, tolerance: u128) -> (deadline: u128)
        ensures
            deadline == spec_after(self.expected(now), tolerance),
    {
        match self.next_media_instant {
            Some(expected) => after(expected, tolerance),
            None => after(now, tolerance),
        }
    }

    pub fn advance_samples(&mut self, samples_per_channel: u32, now: u128)
        ensures
            *final(self) == old(self).advanced(samples_per_channel, now),
    {
        let duration: u64 = duration_for_samples(samples_per_channel);
        let expected: u128 = match self.next_media_instant {
            Some(expected) => expected,
            None => now,
        };
        self.next_media_instant = Some(after(expected, duration as u128));
    }
}

/// Frames that were played: how many samples each held, and what the wall clock
/// read then.
pub struct Played {
    pub samples: u32,
    pub now: u128,
}

/// The clock after frames in a row.
pub open spec fn after_frames(clock: PlayoutClock, frames: Seq<Played>) -> PlayoutClock
    decreases frames.len(),
{
    if frames.len() == 0 {
        clock
    } else {
        after_frames(clock, frames.drop_last()).advanced(frames.last().samples, frames.last().now)
    }
}

/// How long frames in a row play, each rounded down to nanoseconds.
pub open spec fn play_time(frames: Seq<Played>) -> int
    decreases frames.len(),
{
    if frames.len() == 0 {
        0
    } else {
        play_time(frames.drop_last()) + nanos_for_samples(frames.last().samples as int)
    }
}

/// Delays accumulate: whatever the wall clock read while frames were played, the
/// lateness afterwards is the time since the anchor less the media played.
pub proof fn stalls_accumulate(anchor: u128, frames: Seq<Played>, reading: u128)
    requires
        anchor + play_time(frames) <= u128::MAX,
    ensures
        after_frames(PlayoutClock::anchored(anchor), frames).spec_lateness(reading) == if reading
            >= anchor + play_time(frames) {
            reading - (anchor + play_time(frames))
        } else {
            0
        },
{
    frames_move_the_projection(anchor, frames);
}

proof fn frames_move_the_projection(anchor: u128, frames: Seq<Played>)
    requires
        anchor + play_time(frames) <= u128::MAX,
    ensures
        play_time(frames) >= 0,
        after_frames(PlayoutClock::anchored(anchor), frames).next_media_instant == Some(
            (anchor + play_time(frames)) as u128,
        ),
    decreases frames.len(),
{
    if frames.len() > 0 {
        let rest = frames.drop_last();
        assert(0 <= nanos_for_samples(frames.last().samples as int) <= u128::MAX);
        frames_move_the_projection(anchor, rest);
    }
}

/// A clock that was never anchored is never late.
pub proof fn unanchored_clocks_are_never_late(clock: PlayoutClock, now: u128)
    requires
        clock.next_media_instant is None,
    ensures
        clock.spec_lateness(now) == 0,
{
}

/// Re-anchoring forgets every delay that went before.
pub proof fn reanchoring_clears_lateness(now: u128)
    ensures
        PlayoutClock::anchored(now).spec_lateness(now) == 0,
{
}

/// Media is played at 48000 samples a second: 48 samples are a millisecond, and a
/// count of samples takes as long as it does to the nanosecond, rounded down.
pub proof fn samples_take_their_time(samples: int)
    requires
        samples >= 0,
    ensures
        nanos_for_samples(48 * samples) == samples * 1_000_000,
        nanos_for_samples(samples) * 48_000 <= samples * 1_000_000_000,
        samples * 1_000_000_000 < (nanos_for_samples(samples) + 1) * 48_000,
{
}

/// A clock that has been set going is later than tolerated exactly when its deadline
/// with that tolerance has passed.
pub proof fn tolerance_ends_at_its_deadline(
    clock: PlayoutClock,
    tolerance: u128,
    reading: u128,
    deadline: u128,
)
    requires
        clock.next_media_instant matches Some(instant) && instant + tolerance <= u128::MAX,
        call_ensures(
            PlayoutClock::deadline_with_tolerance,
            (&clock, reading, tolerance),
            deadline,
        ),
    ensures
        clock.spec_lateness(reading) > tolerance <==> reading > deadline,
{
}

/// The first frame sets a clock going from now; every other moves it on from where
/// it was, whatever the wall clock reads.
pub proof fn clocks_move_by_media_alone(
    clock: PlayoutClock,
    samples: u32,
    now: u128,
    other: u128,
)
    requires
        now <= u128::MAX - 4_294_967_295_000_000_000,
        clock.next_media_instant matches Some(instant) ==> instant <= u128::MAX
            - 4_294_967_295_000_000_000,
    ensures
        clock.next_media_instant is Some ==> clock.advanced(samples, now) == clock.advanced(
            samples,
            other,
        ),
        clock.next_media_instant matches Some(instant) ==> clock.advanced(
            samples,
            now,
        ).next_media_instant == Some((instant + samples * 1_000_000_000 / 48_000) as u128),
        clock.next_media_instant is None ==> clock.advanced(samples, now).next_media_instant
            == Some((now + samples * 1_000_000_000 / 48_000) as u128),
        PlayoutClock::anchored(now).next_media_instant == Some(now),
{
}

} // verus!
