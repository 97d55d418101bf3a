//! Channel layout and the choice of a loudness value.
use crate::error::MusicStreamError;
use crate::model::GainLevel;
use vstd::arithmetic::div_mod::*;
use vstd::prelude::*;

verus! {

#[derive(Clone, Copy, Debug, PartialEq, Eq, Structural)]
pub enum ReplayGainMode {
    Track,
    Album,
}

impl Default for ReplayGainMode {
    fn default() -> (mode: Self)
        ensures
            mode == ReplayGainMode::Track,
    {
        ReplayGainMode::Track
    }
}

#[derive(Clone, Copy, Debug, PartialEq, Eq, Structural)]
pub enum ReplayGainSource {
    Track,
    Album,
}

/// Loudness values of a track; `P` measures peaks.
#[derive(Clone, Copy, Debug, PartialEq)]
pub struct ReplayGainMetadata<P> {
    pub track_gain: Option<GainLevel>,
    pub album_gain: Option<GainLevel>,
    pub track_peak: Option<P>,
    pub album_peak: Option<P>,
}

impl<P> ReplayGainMetadata<P> {
    /// The gain and peak that belong to a source.
    pub open spec fn of(self, source: ReplayGainSource) -> (Option<GainLevel>, Option<P>) {
        match source {
            ReplayGainSource::Track => (self.track_gain, self.track_peak),
            ReplayGainSource::Album => (self.album_gain, self.album_peak),
        }
    }
}

/// The source that a mode asks for first.
pub open spec fn preferred(mode: ReplayGainMode) -> ReplayGainSource {
    match mode {
        ReplayGainMode::Track => ReplayGainSource::Track,
        ReplayGainMode::Album => ReplayGainSource::Album,
    }
}

pub open spec fn other_source(source: ReplayGainSource) -> ReplayGainSource {
    match source {
        ReplayGainSource::Track => ReplayGainSource::Album,
        ReplayGainSource::Album => ReplayGainSource::Track,
    }
}

/// Picks the gain that the mode asks for, or else, if allowed, the other one.
pub fn select_replay_gain<P: Copy>(
    metadata: ReplayGainMetadata<P>,
    mode: ReplayGainMode,
    fallback_to_other: bool,
) -> (result: Result<(ReplayGainSource, GainLevel, Option<P>), MusicStreamError>)
    ensures
        ({
            let first = preferred(mode);
            let second = other_source(first);
            if metadata.of(first).0 is Some {
                result == Ok::<_, MusicStreamError>(
                    (first, metadata.of(first).0->0, metadata.of(first).1),
                )
            } else if fallback_to_other && metadata.of(second).0 is Some {
                result == Ok::<_, MusicStreamError>(
                    (second, metadata.of(second).0->0, metadata.of(second).1),
                )
            } else {
                result matches Err(error) && (error matches MusicStreamError::InvalidConfig(text)
                    && text@
                    == "ReplayGain metadata does not contain a gain for the requested mode"@)
            }
        }),
{
    let track = (ReplayGainSource::Track, metadata.track_gain, metadata.track_peak);
    let album = (ReplayGainSource::Album, metadata.album_gain, metadata.album_peak);
    let (first, second) = match mode {
        ReplayGainMode::Track => (track, album),
        ReplayGainMode::Album => (album, track),
    };
    if let Some(gain) = first.1 {
        return Ok((first.0, gain, first.2));
    }
    if fallback_to_other {
        if let Some(gain) = second.1 {
            return Ok((second.0, gain, second.2));
        }
    }
    Err(
        MusicStreamError::InvalidConfig(
            "ReplayGain metadata does not contain a gain for the requested mode".to_owned(),
        ),
    )
}

/// What is wrong with interleaved input of so many channels, if anything is.
pub open spec fn layout_complaint(len: nat, channels: u16) -> Option<Seq<char>> {
    if channels == 0 {
        Some("channel count must be greater than zero"@)
    } else if len as int % channels as int != 0 {
        Some("interleaved sample count must be divisible by channel count"@)
    } else {
        None
    }
}

/// `output` is the stereo form of `input`: mono is doubled, stereo is kept, and
/// each frame of more channels becomes what `mix` makes of it.
pub open spec fn is_stereo_of<T, F: Fn(&[T]) -> (T, T)>(
    input: Seq<T>,
    channels: u16,
    mix: F,
    output: Seq<T>,
) -> bool {
    &&& output.len() == input.len() as int / channels as int * 2
    &&& channels == 1 ==> forall|i: int|
        0 <= i < input.len() ==> output[2 * i] == #[trigger] input[i] && output[2 * i + 1]
            == input[i]
    &&& channels == 2 ==> output == input
    &&& channels > 2 ==> forall|i: int|
        0 <= i < input.len() as int / channels as int ==> #[trigger] mixed_from(
            input.subrange(i * channels, (i + 1) * channels),
            mix,
            output[2 * i],
            output[2 * i + 1],
        )
}

/// `mix` may turn `frame` into the pair of `left` and `right`.
pub open spec fn mixed_from<T, F: Fn(&[T]) -> (T, T)>(
    frame: Seq<T>,
    mix: F,
    left: T,
    right: T,
) -> bool {
    exists|samples: &[T]|
        samples@ == frame && #[trigger] call_ensures(mix, (samples,), (left, right))
}

/// Converts interleaved samples of any channel count to stereo.
pub fn to_stereo_interleaved<T: Copy, F: Fn(&[T]) -> (T, T)>(
    input: &[T],
    channels: u16,
    mix: F,
) -> (result: Result<Vec<T>, MusicStreamError>)
    requires
        forall|frame: &[T]| frame@.len() == channels && channels > 2 ==> call_requires(mix, (frame,)),
    ensures
        result is Ok <==> layout_complaint(input@.len(), channels) is None,
        match result {
            Ok(output) => is_stereo_of(input@, channels, mix, output@),
            Err(error) => error matches MusicStreamError::InvalidConfig(text) && Some(text@)
                == layout_complaint(input@.len(), channels),
        },
{
    if channels == 0 {
        return Err(
            MusicStreamError::InvalidConfig("channel count must be greater than zero".to_owned()),
        );
    }
    let width: usize = channels as usize;
    if input.len() % width != 0 {
        return Err(
            MusicStreamError::InvalidConfig(
                "interleaved sample count must be divisible by channel count".to_owned(),
            ),
        );
    }
    let mut output: Vec<T> = Vec::new();
    if width == 1 {
        let mut i: usize = 0;
        while i < input.len()
            invariant
                i <= input@.len(),
                output@.len() == 2 * i,
                forall|k: int|
                    0 <= k < i ==> output@[2 * k] == #[trigger] input@[k] && output@[2 * k + 1]
                        == input@[k],
            decreases input@.len() - i,
        {
            output.push(input[i]);
            output.push(input[i]);
            i = i + 1;
        }
        assert(input@.len() as int / 1 * 2 == output@.len());
        return Ok(output);
    }
    if width == 2 {
        let mut i: usize = 0;
        while i < input.len()
            invariant
                i <= input@.len(),
                output@ == input@.take(i as int),
            decreases input@.len() - i,
        {
            output.push(input[i]);
            proof {
                assert(output@ =~= input@.take(i + 1));
            }
            i = i + 1;
        }
        proof {
            let len = input@.len() as int;
            assert(input@.take(i as int) =~= input@);
            assert(output@ == input@);
            assert(len % 2 == 0);
            lemma_fundamental_div_mod(len, 2);
            assert(len / 2 * 2 == len);
        }
        return Ok(output);
    }
    let total: usize = input.len();
    let frames: usize = total / width;
    proof {
        lemma_fundamental_div_mod(input@.len() as int, width as int);
        assert(frames * width == width * frames) by (nonlinear_arith);
        assert(frames * width == total);
    }
    let mut i: usize = 0;
    while i < frames
        invariant
            i <= frames,
            width == channels,
            width > 2,
            frames * width == total,
            total == input@.len(),
            frames == input@.len() as int / channels as int,
            output@.len() == 2 * i,
            forall|frame: &[T]|
                frame@.len() == channels && channels > 2 ==> call_requires(mix, (frame,)),
            forall|k: int|
                0 <= k < i ==> #[trigger] mixed_from(
                    input@.subrange(k * channels, (k + 1) * channels),
                    mix,
                    output@[2 * k],
                    output@[2 * k + 1],
                ),
        decreases frames - i,
    {
        proof {
            assert(0 <= i * width && i * width + width <= frames * width && i * width + width == (i
                + 1) * width) by (nonlinear_arith)
                requires
                    0 <= i < frames,
                    width > 0,
            ;
        }
        let start: usize = i * width;
        let frame = vstd::slice::slice_subrange(input, start, start + width);
        let (left, right) = mix(frame);
        let ghost before = output@;
        output.push(left);
        output.push(right);
        proof {
            assert(call_ensures(mix, (frame,), (left, right)));
            assert(mixed_from(
                input@.subrange(i * channels, (i + 1) * channels),
                mix,
                output@[2 * i],
                output@[2 * i + 1],
            ));
            assert forall|k: int| 0 <= k < i + 1 implies #[trigger] mixed_from(
                input@.subrange(k * channels, (k + 1) * channels),
                mix,
                output@[2 * k],
                output@[2 * k + 1],
            ) by {
                if k < i {
                    assert(output@[2 * k] == before[2 * k]);
                    assert(output@[2 * k + 1] == before[2 * k + 1]);
                }
            }
        }
        i = i + 1;
    }
    Ok(output)
}

/// The gain that is picked is one that the track has, with the peak that belongs to
/// it. It is of the kind that was asked for if the track has that, of the other kind
/// only if that is allowed, and there is none only if neither may be used.
pub proof fn replay_gain_is_what_was_asked_for<P: Copy>(
    metadata: ReplayGainMetadata<P>,
    mode: ReplayGainMode,
    fallback_to_other: bool,
    result: Result<(ReplayGainSource, GainLevel, Option<P>), MusicStreamError>,
)
    requires
        call_ensures(select_replay_gain::<P>, (metadata, mode, fallback_to_other), result),
    ensures
        result matches Ok((source, gain, peak)) ==> {
            &&& source == ReplayGainSource::Track ==> metadata.track_gain == Some(gain) && peak
                == metadata.track_peak
            &&& source == ReplayGainSource::Album ==> metadata.album_gain == Some(gain) && peak
                == metadata.album_peak
            &&& mode == ReplayGainMode::Track ==> (source == ReplayGainSource::Track <==>
            metadata.track_gain is Some)
            &&& mode == ReplayGainMode::Album ==> (source == ReplayGainSource::Album <==>
            metadata.album_gain is Some)
        },
        result is Err <==> {
            &&& mode == ReplayGainMode::Track ==> metadata.track_gain is None && (
            !fallback_to_other || metadata.album_gain is None)
            &&& mode == ReplayGainMode::Album ==> metadata.album_gain is None && (
            !fallback_to_other || metadata.track_gain is None)
        },
{
}

/// Interleaved samples make up whole frames of at least one channel, or are refused.
pub proof fn layouts_are_whole_frames(frames: nat, channels: u16)
    requires
        channels > 0,
    ensures
        layout_complaint(frames * channels as nat, channels) is None,
        forall|rest: nat|
            0 < rest < channels ==> #[trigger] layout_complaint(
                frames * channels as nat + rest,
                channels,
            ) is Some,
        layout_complaint(frames, 0) is Some,
{
    assert(frames * channels as nat == frames as int * channels as int);
    lemma_mod_multiples_basic(frames as int, channels as int);
    assert forall|rest: nat| 0 < rest < channels implies #[trigger] layout_complaint(
        frames * channels as nat + rest,
        channels,
    ) is Some by {
        lemma_mod_multiples_vanish(frames as int, rest as int, channels as int);
        lemma_small_mod(rest, channels as nat);
        assert(channels as int * frames as int == frames as int * channels as int)
            by (nonlinear_arith);
    }
}

/// Stereo has two samples for every frame that came in; what was mono plays the same
/// on both sides, and what was stereo is left as it is.
pub proof fn stereo_has_two_sides<T, F: Fn(&[T]) -> (T, T)>(
    input: Seq<T>,
    channels: u16,
    mix: F,
    output: Seq<T>,
    i: int,
)
    requires
        channels > 0,
        input.len() as int % channels as int == 0,
        is_stereo_of(input, channels, mix, output),
    ensures
        output.len() * channels == 2 * input.len(),
        channels == 1 && 0 <= i < input.len() ==> output[2 * i] == input[i] && output[2 * i + 1]
            == input[i],
        channels == 2 && 0 <= i < input.len() ==> output[i] == input[i],
{
    lemma_fundamental_div_mod(input.len() as int, channels as int);
    let frames = input.len() as int / channels as int;
    assert(frames * 2 * channels == 2 * (channels * frames)) by (nonlinear_arith);
}

} // verus!
