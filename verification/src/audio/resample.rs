//! Bookkeeping around a resampler: what goes in, what is trimmed, what comes out.
//!
//! The resampler itself computes with samples and belongs to the application.
//! This module decides when it runs and what of its output is played.
use super::decode::{DecodePoll, DecodedChunk};
use super::format::{capped_usize, AudioFormat};
use crate::error::MusicStreamError;
use crate::text::{decimal, decimal_text};
use std::collections::VecDeque;
use vstd::arithmetic::div_mod::*;
use vstd::arithmetic::mul::*;
use vstd::prelude::*;
use vstd::std_specs::vecdeque::*;
use vstd::string::*;

verus! {

pub const DEFAULT_CHUNK_FRAMES: usize = 1024;

/// How a resampled value is found between the points of the filter.
#[derive(Clone, Copy, Debug, PartialEq, Eq, Structural)]
pub enum SincInterpolationType {
    Cubic,
    Quadratic,
    Linear,
    Nearest,
}

/// The window that the filter is cut out with.
#[derive(Clone, Copy, Debug, PartialEq, Eq, Structural)]
pub enum WindowFunction {
    Blackman,
    Blackman2,
    BlackmanHarris,
    BlackmanHarris2,
    Hann,
    Hann2,
}

#[derive(Clone, Copy, Debug, PartialEq, Eq, Structural)]
pub struct RubatoResamplerConfig {
    pub target: AudioFormat,
    pub chunk_frames: usize,
    /// How far the ratio may move from its start, in thousandths.
    pub max_resample_ratio_permille: u32,
    pub sinc_len: usize,
    pub oversampling_factor: usize,
    pub interpolation: SincInterpolationType,
    pub window: WindowFunction,
}

impl RubatoResamplerConfig {
    #[must_use]
    pub fn new(target: AudioFormat) -> (config: Self)
        ensures
            config == (RubatoResamplerConfig {
                target,
                chunk_frames: DEFAULT_CHUNK_FRAMES,
                max_resample_ratio_permille: 1_100,
                sinc_len: 128,
                oversampling_factor: 256,
                interpolation: SincInterpolationType::Quadratic,
                window: WindowFunction::Blackman2,
            }),
    {
        RubatoResamplerConfig {
            target,
            chunk_frames: DEFAULT_CHUNK_FRAMES,
            max_resample_ratio_permille: 1_100,
            sinc_len: 128,
            oversampling_factor: 256,
            interpolation: SincInterpolationType::Quadratic,
            window: WindowFunction::Blackman2,
        }
    }

    /// What is wrong with the settings, if anything is.
    pub open spec fn complaint(self) -> Option<Seq<char>> {
        if self.target.sample_rate == 0 {
            Some("target sample_rate must be greater than zero"@)
        } else if self.target.channels == 0 {
            Some("target channels must be greater than zero"@)
        } else if self.chunk_frames == 0 {
            Some("rubato chunk_frames must be greater than zero"@)
        } else if self.max_resample_ratio_permille <= 1_000 {
            Some("max_resample_ratio_relative must be greater than 1.0"@)
        } else if self.sinc_len == 0 {
            Some("sinc_len must be greater than zero"@)
        } else if self.oversampling_factor == 0 {
            Some("oversampling_factor must be greater than zero"@)
        } else {
            None
        }
    }

    pub fn validate(&self) -> (result: Result<(), MusicStreamError>)
        ensures
            result is Ok <==> self.complaint() is None,
            result matches Err(error) ==> error matches MusicStreamError::InvalidConfig(text)
                && Some(text@) == self.complaint(),
    {
        if self.target.sample_rate == 0 {
            return Err(
                MusicStreamError::InvalidConfig(
                    "target sample_rate must be greater than zero".to_owned(),
                ),
            );
        }
        if self.target.channels == 0 {
            return Err(
                MusicStreamError::InvalidConfig(
                    "target channels must be greater than zero".to_owned(),
                ),
            );
        }
        if self.chunk_frames == 0 {
            return Err(
                MusicStreamError::InvalidConfig(
                    "rubato chunk_frames must be greater than zero".to_owned(),
                ),
            );
        }
        if self.max_resample_ratio_permille <= 1_000 {
            return Err(
                MusicStreamError::InvalidConfig(
                    "max_resample_ratio_relative must be greater than 1.0".to_owned(),
                ),
            );
        }
        if self.sinc_len == 0 {
            return Err(
                MusicStreamError::InvalidConfig("sinc_len must be greater than zero".to_owned()),
            );
        }
        if self.oversampling_factor == 0 {
            return Err(
                MusicStreamError::InvalidConfig(
                    "oversampling_factor must be greater than zero".to_owned(),
                ),
            );
        }
        Ok(())
    }
}

/// How the channels of a chunk become those of the target.
#[derive(Clone, Copy, Debug, PartialEq, Eq, Structural)]
pub enum ChannelPlan {
    Keep,
    Stereo,
}

/// What to do with samples that already have the target's channels.
#[derive(Clone, Copy, Debug, PartialEq, Eq, Structural)]
pub enum InputPlan {
    /// The rate fits: the samples go straight to the output.
    PassThrough,
    /// The first samples that need resampling: a resampler is to be made.
    MakeResampler,
    /// The resampler is there.
    Resample,
}

/// What is left to do once the source has ended.
#[derive(Clone, Copy, Debug, PartialEq, Eq, Structural)]
pub enum FinishStep {
    /// Run the resampler on so many frames of input.
    Process(usize),
    Done,
}

#[derive(Debug)]
pub struct RubatoResamplingDecoder<T> {
    pub config: RubatoResamplerConfig,
    pub input_sample_rate: Option<u32>,
    pub pending_input: Vec<T>,
    pub pending_output: VecDeque<DecodedChunk<T>>,
    pub trim_output_frames_remaining: usize,
    pub input_frames_seen: usize,
    pub output_frames_emitted: usize,
    pub source_ended: bool,
}

/// How many frames `seen` frames at rate `from` amount to at rate `to`, rounded up.
pub open spec fn resampled_frames(seen: int, from: int, to: int) -> int {
    (seen * to + from - 1) / from
}

impl<T> RubatoResamplingDecoder<T> {
    pub open spec fn wf(self) -> bool {
        &&& self.config.complaint() is None
        &&& self.input_sample_rate != Some(0u32)
    }

    pub open spec fn spec_pending_input_frames(self) -> int {
        self.pending_input@.len() as int / self.config.target.channels as int
    }

    /// How many frames the whole source amounts to.
    pub open spec fn expected(self) -> usize {
        capped_usize(
            resampled_frames(
                self.input_frames_seen as int,
                self.input_sample_rate->0 as int,
                self.config.target.sample_rate as int,
            ),
        )
    }

    /// Of `frames` resampled frames: how many are skipped because they only hold
    /// the delay of the resampler.
    pub open spec fn skipped(self, frames: usize) -> usize {
        if self.trim_output_frames_remaining >= frames {
            frames
        } else {
            self.trim_output_frames_remaining
        }
    }

    /// Of `frames` resampled frames: how many are played. Once the source has
    /// ended, no more than the source amounts to.
    pub open spec fn played(self, frames: usize) -> int {
        let rest = frames - self.skipped(frames);
        if self.source_ended {
            let left = if self.expected() >= self.output_frames_emitted {
                self.expected() - self.output_frames_emitted
            } else {
                0
            };
            if rest < left {
                rest
            } else {
                left
            }
        } else {
            rest
        }
    }

    /// What is left to do after the end of the source: first the input that
    /// waits, then silence until everything expected has come out.
    pub open spec fn next_finish_step(self) -> FinishStep {
        if self.input_sample_rate is None {
            FinishStep::Done
        } else if self.spec_pending_input_frames() > 0 {
            FinishStep::Process(self.spec_pending_input_frames() as usize)
        } else if self.output_frames_emitted < self.expected() {
            FinishStep::Process(0)
        } else {
            FinishStep::Done
        }
    }

    pub fn new(config: RubatoResamplerConfig) -> (result: Result<Self, MusicStreamError>)
        ensures
            result is Ok <==> config.complaint() is None,
            match result {
                Ok(decoder) => {
                    &&& decoder.wf()
                    &&& decoder.config == config
                    &&& decoder.input_sample_rate is None
                    &&& decoder.pending_input@ == Seq::<T>::empty()
                    &&& decoder.pending_output@ == Seq::<DecodedChunk<T>>::empty()
                    &&& decoder.trim_output_frames_remaining == 0
                    &&& decoder.input_frames_seen == 0
                    &&& decoder.output_frames_emitted == 0
                    &&& !decoder.source_ended
                },
                Err(error) => error matches MusicStreamError::InvalidConfig(text) && Some(text@)
                    == config.complaint(),
            },
    {
        match config.validate() {
            Ok(()) => Ok(
                RubatoResamplingDecoder {
                    config,
                    input_sample_rate: None,
                    pending_input: Vec::new(),
                    pending_output: VecDeque::new(),
                    trim_output_frames_remaining: 0,
                    input_frames_seen: 0,
                    output_frames_emitted: 0,
                    source_ended: false,
                },
            ),
            Err(error) => Err(error),
        }
    }

    #[must_use]
    pub fn target(&self) -> (target: &AudioFormat)
        ensures
            *target == self.config.target,
    {
        &self.config.target
    }

    /// `poll` is what can be answered without new input, which leaves the decoder as
    /// `after`.
    pub open spec fn has_ready(
        self,
        poll: Option<DecodePoll<T>>,
        after: RubatoResamplingDecoder<T>,
    ) -> bool {
        if self.pending_output@.len() > 0 {
            &&& poll == Some(DecodePoll::Chunk(self.pending_output@[0]))
            &&& after.pending_output@ == self.pending_output@.subrange(
                1,
                self.pending_output@.len() as int,
            )
            &&& after == (RubatoResamplingDecoder { pending_output: after.pending_output, ..self })
        } else {
            &&& after == self
            &&& poll == if self.source_ended {
                Some(DecodePoll::<T>::End)
            } else {
                None
            }
        }
    }

    /// What can be answered without new input: finished output, or the end.
    pub fn ready_poll(&mut self) -> (poll: Option<DecodePoll<T>>)
        ensures
            old(self).has_ready(poll, *final(self)),
    {
        if self.pending_output.len() > 0 {
            match self.pending_output.pop_front() {
                Some(chunk) => Some(DecodePoll::Chunk(chunk)),
                None => None,
            }
        } else if self.source_ended {
            Some(DecodePoll::End)
        } else {
            None
        }
    }

    /// The decoder below has no more chunks.
    pub fn end_source(&mut self)
        ensures
            *final(self) == (RubatoResamplingDecoder { source_ended: true, ..*old(self) }),
    {
        self.source_ended = true;
    }

    /// Decides how a chunk gets the channels of the target.
    pub fn channel_plan(&self, channels: u16) -> (result: Result<ChannelPlan, MusicStreamError>)
        ensures
            result is Ok <==> channels == self.config.target.channels
                || self.config.target.channels == 2,
            match result {
                Ok(plan) => plan == if channels == self.config.target.channels {
                    ChannelPlan::Keep
                } else {
                    ChannelPlan::Stereo
                },
                Err(error) => error matches MusicStreamError::Unsupported(text) && text@
                    == "channel normalization to "@ + decimal(self.config.target.channels as nat)
                    + " channels is not supported"@,
            },
    {
        if channels == self.config.target.channels {
            return Ok(ChannelPlan::Keep);
        }
        if self.config.target.channels != 2 {
            return Err(
                MusicStreamError::Unsupported(
                    "channel normalization to ".to_owned().concat(
                        decimal_text(self.config.target.channels as u64).as_str(),
                    ).concat(" channels is not supported"),
                ),
            );
        }
        Ok(ChannelPlan::Stereo)
    }

    /// Decides what happens to normalized input of a rate. The rate of a source
    /// that is resampled may not change.
    pub fn input_plan(&self, sample_rate: u32) -> (result: Result<InputPlan, MusicStreamError>)
        ensures
            result is Ok <==> sample_rate == self.config.target.sample_rate
                || self.input_sample_rate is None || self.input_sample_rate == Some(sample_rate),
            match result {
                Ok(plan) => plan == if sample_rate == self.config.target.sample_rate {
                    InputPlan::PassThrough
                } else if self.input_sample_rate is None {
                    InputPlan::MakeResampler
                } else {
                    InputPlan::Resample
                },
                Err(error) => error matches MusicStreamError::ResampleError(text) && text@
                    == "decoder changed sample rate mid-stream"@,
            },
    {
        if sample_rate == self.config.target.sample_rate {
            return Ok(InputPlan::PassThrough);
        }
        match self.input_sample_rate {
            None => Ok(InputPlan::MakeResampler),
            Some(existing) => if existing != sample_rate {
                Err(
                    MusicStreamError::ResampleError(
                        "decoder changed sample rate mid-stream".to_owned(),
                    ),
                )
            } else {
                Ok(InputPlan::Resample)
            },
        }
    }

    /// `after` is the decoder with `samples` as output.
    pub open spec fn passes_on(self, samples: Vec<T>, after: RubatoResamplingDecoder<T>) -> bool {
        &&& after.pending_output@ == self.pending_output@.push(
            DecodedChunk {
                sample_rate: self.config.target.sample_rate,
                channels: self.config.target.channels,
                samples_interleaved: samples,
            },
        )
        &&& after == (RubatoResamplingDecoder { pending_output: after.pending_output, ..self })
    }

    /// Normalized input that already has the target's rate becomes output.
    pub fn pass_through(&mut self, samples: Vec<T>)
        ensures
            old(self).passes_on(samples, *final(self)),
    {
        self.pending_output.push_back(
            DecodedChunk {
                sample_rate: self.config.target.sample_rate,
                channels: self.config.target.channels,
                samples_interleaved: samples,
            },
        );
    }

    /// A resampler for `sample_rate` was made; its first `output_delay` frames
    /// carry no sound.
    pub fn resampler_ready(&mut self, sample_rate: u32, output_delay: usize)
        requires
            old(self).wf(),
            sample_rate > 0,
        ensures
            final(self).wf(),
            *final(self) == (RubatoResamplingDecoder {
                input_sample_rate: Some(sample_rate),
                trim_output_frames_remaining: output_delay,
                ..*old(self)
            }),
    {
        self.trim_output_frames_remaining = output_delay;
        self.input_sample_rate = Some(sample_rate);
    }

    /// Queues normalized input for the resampler.
    pub fn queue_input(&mut self, samples: Vec<T>)
        requires
            old(self).wf(),
        ensures
            final(self).wf(),
            final(self).pending_input@ == old(self).pending_input@ + samples@,
            *final(self) == (RubatoResamplingDecoder {
                pending_input: final(self).pending_input,
                input_frames_seen: capped_usize(
                    old(self).input_frames_seen + samples@.len() as int
                        / old(self).config.target.channels as int,
                ),
                ..*old(self)
            }),
    {
        let frames: usize = samples.len() / self.config.target.channels as usize;
        self.input_frames_seen = self.input_frames_seen.saturating_add(frames);
        let mut queued = samples;
        self.pending_input.append(&mut queued);
    }

    #[must_use]
    pub fn pending_input_frames(&self) -> (frames: usize)
        requires
            self.wf(),
        ensures
            frames == self.spec_pending_input_frames(),
    {
        self.pending_input.len() / self.config.target.channels as usize
    }

    /// Whether enough input waits for a resampler that wants so many frames.
    #[must_use]
    pub fn has_full_chunk(&self, input_frames_next: usize) -> (full: bool)
        requires
            self.wf(),
        ensures
            full == (self.spec_pending_input_frames() >= input_frames_next),
    {
        self.pending_input_frames() >= input_frames_next
    }

    /// Decides how a source that has ended is finished.
    #[must_use]
    pub fn finish_step(&self) -> (step: FinishStep)
        requires
            self.wf(),
        ensures
            step == self.next_finish_step(),
    {
        match self.input_sample_rate {
            None => FinishStep::Done,
            Some(_) => {
                let pending: usize = self.pending_input_frames();
                if pending > 0 {
                    FinishStep::Process(pending)
                } else if self.output_frames_emitted < self.expected_frames() {
                    FinishStep::Process(0)
                } else {
                    FinishStep::Done
                }
            },
        }
    }

    fn expected_frames(&self) -> (frames: usize)
        requires
            self.wf(),
            self.input_sample_rate is Some,
        ensures
            frames == self.expected(),
    {
        let from: u128 = match self.input_sample_rate {
            Some(rate) => rate as u128,
            None => 1,
        };
        let to: u128 = self.config.target.sample_rate as u128;
        let seen: u128 = self.input_frames_seen as u128;
        assert(0 <= seen * to <= 0xffff_ffff_ffff_ffff * 0xffff_ffff) by (nonlinear_arith)
            requires
                0 <= seen <= 0xffff_ffff_ffff_ffff,
                0 <= to <= 0xffff_ffff,
        ;
        let frames: u128 = (seen * to + (from - 1)) / from;
        if frames > usize::MAX as u128 {
            usize::MAX
        } else {
            frames as usize
        }
    }

    /// How many frames are expected in all; unknown until a resampler is there.
    pub fn expected_output_frames(&self) -> (result: Result<usize, MusicStreamError>)
        requires
            self.wf(),
        ensures
            result is Ok <==> self.input_sample_rate is Some,
            match result {
                Ok(frames) => frames == self.expected(),
                Err(error) => error matches MusicStreamError::Internal(text) && text@
                    == "input sample rate was not initialized"@,
            },
    {
        if self.input_sample_rate.is_none() {
            return Err(
                MusicStreamError::Internal("input sample rate was not initialized".to_owned()),
            );
        }
        Ok(self.expected_frames())
    }
}

/// How many frames of the waiting input a run used up.
pub open spec fn used_frames(partial_len: Option<usize>, input_used: usize, waiting: int) -> int {
    match partial_len {
        Some(len) => if len < waiting {
            len as int
        } else {
            waiting
        },
        None => input_used as int,
    }
}

impl<T: Copy> RubatoResamplingDecoder<T> {
    /// The resampler ran: it used input and wrote `output`, of which the first
    /// `frames` frames are valid.
    pub fn processed(
        &mut self,
        partial_len: Option<usize>,
        input_used: usize,
        output: &[T],
        frames: usize,
    )
        requires
            old(self).wf(),
            old(self).input_sample_rate is Some,
            used_frames(partial_len, input_used, old(self).spec_pending_input_frames()) <= old(
                self,
            ).spec_pending_input_frames(),
            frames * old(self).config.target.channels <= output@.len(),
        ensures
            final(self).wf(),
            ({
                let channels = old(self).config.target.channels as int;
                let used = used_frames(
                    partial_len,
                    input_used,
                    old(self).spec_pending_input_frames(),
                );
                let skip = old(self).skipped(frames);
                let played = old(self).played(frames);
                &&& final(self).pending_input@ == old(self).pending_input@.skip(used * channels)
                &&& final(self).trim_output_frames_remaining == old(
                    self,
                ).trim_output_frames_remaining - skip
                &&& final(self).output_frames_emitted == capped_usize(
                    old(self).output_frames_emitted + played,
                )
                &&& if played == 0 {
                    final(self).pending_output@ == old(self).pending_output@
                } else {
                    &&& final(self).pending_output@.len() == old(self).pending_output@.len() + 1
                    &&& final(self).pending_output@.drop_last() == old(self).pending_output@
                    &&& final(self).pending_output@.last().sample_rate == old(
                        self,
                    ).config.target.sample_rate
                    &&& final(self).pending_output@.last().channels == old(
                        self,
                    ).config.target.channels
                    &&& final(self).pending_output@.last().samples_interleaved@
                        == output@.subrange(skip * channels, (skip + played) * channels)
                }
                &&& *final(self) == (RubatoResamplingDecoder {
                    pending_input: final(self).pending_input,
                    pending_output: final(self).pending_output,
                    trim_output_frames_remaining: final(self).trim_output_frames_remaining,
                    output_frames_emitted: final(self).output_frames_emitted,
                    ..*old(self)
                })
            }),
    {
        let channels: usize = self.config.target.channels as usize;
        let waiting: usize = self.pending_input_frames();
        let total: usize = self.pending_input.len();
        let used: usize = match partial_len {
            Some(len) => if len < waiting {
                len
            } else {
                waiting
            },
            None => input_used,
        };
        proof {
            lemma_fundamental_div_mod(self.pending_input@.len() as int, channels as int);
            assert(0 <= used * channels <= waiting * channels) by (nonlinear_arith)
                requires
                    0 <= used <= waiting,
                    0 <= channels,
            ;
            assert(waiting * channels <= total) by {
                lemma_mul_is_commutative(waiting as int, channels as int);
            }
        }
        let rest = self.pending_input.split_off(used * channels);
        self.pending_input = rest;
        proof {
            assert(self.pending_input@ =~= old(self).pending_input@.skip(used * channels));
        }
        self.push_output(output, frames);
    }

    fn push_output(&mut self, samples: &[T], frames: usize)
        requires
            old(self).wf(),
            old(self).input_sample_rate is Some,
            frames * old(self).config.target.channels <= samples@.len(),
        ensures
            final(self).wf(),
            ({
                let channels = old(self).config.target.channels as int;
                let skip = old(self).skipped(frames);
                let played = old(self).played(frames);
                &&& final(self).trim_output_frames_remaining == old(
                    self,
                ).trim_output_frames_remaining - skip
                &&& final(self).output_frames_emitted == capped_usize(
                    old(self).output_frames_emitted + played,
                )
                &&& if played == 0 {
                    final(self).pending_output@ == old(self).pending_output@
                } else {
                    &&& final(self).pending_output@.len() == old(self).pending_output@.len() + 1
                    &&& final(self).pending_output@.drop_last() == old(self).pending_output@
                    &&& final(self).pending_output@.last().sample_rate == old(
                        self,
                    ).config.target.sample_rate
                    &&& final(self).pending_output@.last().channels == old(
                        self,
                    ).config.target.channels
                    &&& final(self).pending_output@.last().samples_interleaved@
                        == samples@.subrange(skip * channels, (skip + played) * channels)
                }
                &&& *final(self) == (RubatoResamplingDecoder {
                    pending_output: final(self).pending_output,
                    trim_output_frames_remaining: final(self).trim_output_frames_remaining,
                    output_frames_emitted: final(self).output_frames_emitted,
                    ..*old(self)
                })
            }),
    {
        let channels: usize = self.config.target.channels as usize;
        let total: usize = samples.len();
        if self.trim_output_frames_remaining >= frames {
            self.trim_output_frames_remaining = self.trim_output_frames_remaining - frames;
            return ;
        }
        let skip: usize = self.trim_output_frames_remaining;
        self.trim_output_frames_remaining = 0;
        let mut emit: usize = frames - skip;
        if self.source_ended {
            let expected: usize = self.expected_frames();
            let remaining: usize = expected.saturating_sub(self.output_frames_emitted);
            if remaining < emit {
                emit = remaining;
            }
        }
        if emit == 0 {
            return ;
        }
        proof {
            assert(0 <= skip * channels <= (skip + emit) * channels && (skip + emit) * channels
                <= frames * channels && skip * channels + emit * channels == (skip + emit)
                * channels && 0 <= emit * channels) by (nonlinear_arith)
                requires
                    0 <= skip,
                    0 <= emit,
                    skip + emit <= frames,
                    0 <= channels,
            ;
        }
        let start: usize = skip * channels;
        let end: usize = start + emit * channels;
        let mut kept: Vec<T> = Vec::new();
        let mut i: usize = start;
        while i < end
            invariant
                start <= i <= end <= total,
                total == samples@.len(),
                kept@ == samples@.subrange(start as int, i as int),
            decreases end - i,
        {
            kept.push(samples[i]);
            i = i + 1;
            proof {
                assert(kept@ =~= samples@.subrange(start as int, i as int));
            }
        }
        self.pending_output.push_back(
            DecodedChunk {
                sample_rate: self.config.target.sample_rate,
                channels: self.config.target.channels,
                samples_interleaved: kept,
            },
        );
        self.output_frames_emitted = self.output_frames_emitted.saturating_add(emit);
        proof {
            assert(self.pending_output@.drop_last() =~= old(self).pending_output@);
        }
    }
}

/// After the end of a source no run makes the output longer than the source
/// amounts to, and the work ends exactly when the output is that long.
pub proof fn output_reaches_the_length_of_the_source<T>(
    decoder: RubatoResamplingDecoder<T>,
    frames: usize,
)
    requires
        decoder.source_ended,
        decoder.output_frames_emitted <= decoder.expected(),
    ensures
        0 <= decoder.played(frames) <= decoder.expected() - decoder.output_frames_emitted,
        decoder.input_sample_rate is Some ==> (decoder.next_finish_step() is Done <==>
        decoder.spec_pending_input_frames() <= 0 && decoder.output_frames_emitted
            == decoder.expected()),
{
}

/// While the source runs, every resampled frame past the delay is played.
pub proof fn only_the_delay_is_skipped<T>(decoder: RubatoResamplingDecoder<T>, frames: usize)
    requires
        !decoder.source_ended,
    ensures
        decoder.played(frames) == frames - decoder.skipped(frames),
        decoder.trim_output_frames_remaining == 0 ==> decoder.played(frames) == frames,
{
}

/// A source amounts to as many frames as it has at the new rate, with a frame for
/// what is left over.
pub proof fn sources_keep_their_length(seen: int, from: int, to: int)
    requires
        seen >= 0,
        from > 0,
        to > 0,
    ensures
        from * resampled_frames(seen, from, to) >= seen * to,
        from * (resampled_frames(seen, from, to) - 1) < seen * to,
        from == to ==> resampled_frames(seen, from, to) == seen,
{
    let whole = seen * to + from - 1;
    let frames = whole / from;
    lemma_fundamental_div_mod(whole, from);
    assert(from * (frames - 1) == from * frames - from) by (nonlinear_arith);
    assert(0 <= whole % from < from) by {
        lemma_mod_bound(whole, from);
    }
    if from == to {
        assert(from * frames >= seen * from && from * (frames - 1) < seen * from ==> frames == seen)
            by (nonlinear_arith)
            requires
                from > 0,
        ;
    }
}

/// The delay of the resampler is skipped once, from the front: no more frames than it
/// has left, and no more than there are.
pub proof fn the_delay_is_skipped_from_the_front<T>(
    decoder: RubatoResamplingDecoder<T>,
    frames: usize,
)
    ensures
        decoder.skipped(frames) <= frames,
        decoder.skipped(frames) <= decoder.trim_output_frames_remaining,
        decoder.skipped(frames) == frames || decoder.skipped(frames)
            == decoder.trim_output_frames_remaining,
        !decoder.source_ended ==> decoder.skipped(frames) + decoder.played(frames) == frames,
        decoder.source_ended && decoder.output_frames_emitted < decoder.expected()
            && decoder.skipped(frames) < frames ==> decoder.played(frames) > 0,
        decoder.source_ended && frames - decoder.skipped(frames) <= decoder.expected()
            - decoder.output_frames_emitted ==> decoder.played(frames) == frames
            - decoder.skipped(frames),
        decoder.source_ended && frames - decoder.skipped(frames) > decoder.expected()
            - decoder.output_frames_emitted && decoder.output_frames_emitted <= decoder.expected()
            ==> decoder.played(frames) == decoder.expected() - decoder.output_frames_emitted,
{
}

/// A source that was resampled is finished by what is left of it, then by silence until
/// it is as long as it should be; one that was not has nothing left.
pub proof fn sources_are_finished_to_the_end<T>(decoder: RubatoResamplingDecoder<T>)
    requires
        decoder.wf(),
        decoder.spec_pending_input_frames() >= 0,
        decoder.spec_pending_input_frames() <= usize::MAX,
    ensures
        decoder.input_sample_rate is None ==> decoder.next_finish_step() is Done,
        decoder.input_sample_rate is Some ==> {
            &&& decoder.spec_pending_input_frames() > 0 ==> decoder.next_finish_step()
                == FinishStep::Process(decoder.spec_pending_input_frames() as usize)
            &&& decoder.spec_pending_input_frames() == 0 && decoder.output_frames_emitted
                < decoder.expected() ==> decoder.next_finish_step() == FinishStep::Process(0)
            &&& decoder.spec_pending_input_frames() == 0 && decoder.output_frames_emitted
                >= decoder.expected() ==> decoder.next_finish_step() is Done
        },
{
}

/// Which settings a resampler takes: a rate and channels to aim for, frames to work
/// on, room for the ratio to move in, and a filter.
pub proof fn resamplers_take_these_settings(config: RubatoResamplerConfig)
    ensures
        config.complaint() is None <==> config.target.sample_rate > 0 && config.target.channels > 0
            && config.chunk_frames > 0 && config.max_resample_ratio_permille > 1_000
            && config.sinc_len > 0 && config.oversampling_factor > 0,
{
}

/// A partial run uses up no more than it was given and no more than waits; a full run
/// uses up what the resampler took.
pub proof fn runs_use_up_what_they_took(partial_len: Option<usize>, input_used: usize, waiting: int)
    ensures
        partial_len is None ==> used_frames(partial_len, input_used, waiting) == input_used,
        partial_len matches Some(len) ==> {
            let used = used_frames(partial_len, input_used, waiting);
            &&& used <= len && used <= waiting
            &&& used == len || used == waiting
        },
{
}

/// Input of the rate that is aimed for is played as it is; the first of another rate
/// makes a resampler, which then takes that rate and no other.
pub proof fn rates_are_kept_to<T>(
    decoder: RubatoResamplingDecoder<T>,
    sample_rate: u32,
    result: Result<InputPlan, MusicStreamError>,
)
    requires
        call_ensures(RubatoResamplingDecoder::<T>::input_plan, (&decoder, sample_rate), result),
    ensures
        result == Ok::<_, MusicStreamError>(InputPlan::PassThrough) <==> sample_rate
            == decoder.config.target.sample_rate,
        result == Ok::<_, MusicStreamError>(InputPlan::MakeResampler) <==> sample_rate
            != decoder.config.target.sample_rate && decoder.input_sample_rate is None,
        result == Ok::<_, MusicStreamError>(InputPlan::Resample) <==> sample_rate
            != decoder.config.target.sample_rate && decoder.input_sample_rate == Some(sample_rate),
        result is Err <==> sample_rate != decoder.config.target.sample_rate && (
        decoder.input_sample_rate matches Some(rate) && rate != sample_rate),
{
}

/// Channels are kept where they are those that are aimed for, and can otherwise only
/// be made into stereo.
pub proof fn channels_are_kept_or_made_stereo<T>(
    decoder: RubatoResamplingDecoder<T>,
    channels: u16,
    result: Result<ChannelPlan, MusicStreamError>,
)
    requires
        call_ensures(RubatoResamplingDecoder::<T>::channel_plan, (&decoder, channels), result),
    ensures
        channels == decoder.config.target.channels <==> result == Ok::<_, MusicStreamError>(
            ChannelPlan::Keep,
        ),
        channels != decoder.config.target.channels && decoder.config.target.channels == 2
            <==> result == Ok::<_, MusicStreamError>(ChannelPlan::Stereo),
{
}

/// Finished output comes out in the order in which it was made, none is lost, and the end
/// comes behind all of it, once the source has ended.
pub proof fn finished_output_comes_out_in_order<T>(
    before: RubatoResamplingDecoder<T>,
    poll: Option<DecodePoll<T>>,
    after: RubatoResamplingDecoder<T>,
)
    requires
        before.has_ready(poll, after),
    ensures
        match poll {
            Some(DecodePoll::Chunk(chunk)) => before.pending_output@ == seq![chunk]
                + after.pending_output@,
            Some(DecodePoll::End) => before.pending_output@.len() == 0 && before.source_ended,
            Some(DecodePoll::NeedMore) => false,
            None => before.pending_output@.len() == 0 && !before.source_ended,
        },
        !(poll matches Some(DecodePoll::Chunk(_))) ==> after == before,
        after.source_ended == before.source_ended,
{
    if before.pending_output@.len() > 0 {
        assert(before.pending_output@ =~= seq![before.pending_output@[0]] + after.pending_output@);
    }
}

/// Input that needs no resampling comes out as it is, in the format of the target, behind
/// what was finished before.
pub proof fn passed_on_input_comes_last<T>(
    before: RubatoResamplingDecoder<T>,
    samples: Vec<T>,
    after: RubatoResamplingDecoder<T>,
)
    requires
        before.passes_on(samples, after),
    ensures
        after.pending_output@.len() == before.pending_output@.len() + 1,
        after.pending_output@.last().samples_interleaved == samples,
        after.pending_output@.last().sample_rate == before.config.target.sample_rate,
        after.pending_output@.last().channels == before.config.target.channels,
        after.pending_output@.drop_last() == before.pending_output@,
        after.source_ended == before.source_ended && after.config == before.config,
{
    assert(after.pending_output@.drop_last() =~= before.pending_output@);
}

} // verus!
