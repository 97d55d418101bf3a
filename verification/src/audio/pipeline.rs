//! One worker turn from decoder chunks to encoded frames.
//!
//! The pipeline has no queue of its own. Each frame is encoded as it comes out
//! and handed to a sink; blocking there is the backpressure.
use super::decode::{DecodePoll, DecodedChunk, DecoderBackend};
use super::format::{capped_u64, capped_usize};
use super::frame::{joined, FrameAssembler, OpusFrame, PcmFrame};
use super::opus::OpusEncoderBackend;
use crate::error::MusicStreamError;
use vstd::prelude::*;

verus! {

#[derive(Clone, Copy, Debug, PartialEq, Eq, Structural)]
pub struct PipelineConfig {
    pub generation: u64,
    pub sample_rate: u32,
    pub channels: u16,
    pub frame_samples_per_channel: u32,
    pub decode_batch_ms: u64,
}

impl PipelineConfig {
    pub open spec fn all_set(self) -> bool {
        self.generation != 0 && self.sample_rate != 0 && self.channels != 0
            && self.frame_samples_per_channel != 0 && self.decode_batch_ms != 0
    }

    pub open spec fn frame_ms(self) -> int {
        self.frame_samples_per_channel as int * 1_000 / self.sample_rate as int
    }

    /// What is wrong with the settings, if anything is.
    pub open spec fn complaint(self) -> Option<Seq<char>> {
        if !self.all_set() {
            Some("pipeline generation, format, frame size and batch must be non-zero"@)
        } else if !(0 < self.frame_ms() <= self.decode_batch_ms) {
            Some("decode batch must fit at least one output frame"@)
        } else {
            None
        }
    }

    pub fn validate(&self) -> (result: Result<(), MusicStreamError>)
        ensures
            result is Ok <==> self.complaint() is None,
            result matches Err(error) ==> error matches MusicStreamError::InvalidConfig(text)
                && Some(text@) == self.complaint(),
    {
        if self.generation == 0 || self.sample_rate == 0 || self.channels == 0
            || self.frame_samples_per_channel == 0 || self.decode_batch_ms == 0 {
            return Err(
                MusicStreamError::InvalidConfig(
                    "pipeline generation, format, frame size and batch must be non-zero".to_owned(),
                ),
            );
        }
        let frame_ms: u64 = self.frame_samples_per_channel as u64 * 1_000 / self.sample_rate as u64;
        if frame_ms == 0 || frame_ms > self.decode_batch_ms {
            return Err(
                MusicStreamError::InvalidConfig(
                    "decode batch must fit at least one output frame".to_owned(),
                ),
            );
        }
        Ok(())
    }
}

#[derive(Clone, Copy, Debug, PartialEq, Eq, Structural)]
pub struct WorkerTurnReport {
    pub decoded_chunks: usize,
    pub pcm_frames: usize,
    pub opus_frames: usize,
    pub source_need_more: bool,
    pub source_ended: bool,
}

impl Default for WorkerTurnReport {
    fn default() -> (report: Self)
        ensures
            report == WorkerTurnReport::empty(),
    {
        WorkerTurnReport {
            decoded_chunks: 0,
            pcm_frames: 0,
            opus_frames: 0,
            source_need_more: false,
            source_ended: false,
        }
    }
}

impl WorkerTurnReport {
    pub open spec fn empty() -> WorkerTurnReport {
        WorkerTurnReport {
            decoded_chunks: 0,
            pcm_frames: 0,
            opus_frames: 0,
            source_need_more: false,
            source_ended: false,
        }
    }

    #[must_use]
    pub fn made_progress(&self) -> (progress: bool)
        ensures
            progress == (self.decoded_chunks > 0 || self.pcm_frames > 0 || self.opus_frames > 0
                || self.source_ended),
    {
        self.decoded_chunks > 0 || self.pcm_frames > 0 || self.opus_frames > 0 || self.source_ended
    }
}

/// A turn in progress.
#[derive(Clone, Copy, Debug, PartialEq, Eq, Structural)]
pub struct WorkerTurn {
    pub decoded_ms: u64,
    pub report: WorkerTurnReport,
}

/// Works on samples before they are encoded.
pub trait SampleStage<T> {
    fn apply(&self, samples: &mut Vec<T>);
}

/// Takes encoded frames.
pub trait FrameSink {
    fn emit(&mut self, frame: OpusFrame) -> (result: Result<(), MusicStreamError>);
}

impl WorkerTurn {
    /// The turn with so many more frames encoded and handed on.
    pub open spec fn with_frames(self, encoded: int, handed_on: int) -> WorkerTurn {
        WorkerTurn {
            report: WorkerTurnReport {
                pcm_frames: capped_usize(self.report.pcm_frames + encoded),
                opus_frames: capped_usize(self.report.opus_frames + handed_on),
                ..self.report
            },
            ..self
        }
    }

    pub open spec fn with_chunk(self, duration_ms: u64) -> WorkerTurn {
        WorkerTurn {
            decoded_ms: capped_u64(self.decoded_ms + duration_ms),
            report: WorkerTurnReport {
                decoded_chunks: (self.report.decoded_chunks + 1) as usize,
                ..self.report
            },
        }
    }
}

/// Frames that are due for encoding.
#[derive(Debug)]
pub struct DueFrames<T> {
    pub frames: Vec<PcmFrame<T>>,
    /// The first of them began in an earlier chunk.
    pub first_held_over: bool,
}

#[derive(Debug)]
pub struct PlayoutPipeline<T> {
    pub config: PipelineConfig,
    pub assembler: FrameAssembler<T>,
    pub source_ended: bool,
}

pub open spec fn is_normalized<T>(config: PipelineConfig, chunk: DecodedChunk<T>) -> bool {
    chunk.sample_rate == config.sample_rate && chunk.channels == config.channels
}

/// `due` are the frames that a chunk completes, and `after` is what is left.
pub open spec fn assembles<T>(
    before: FrameAssembler<T>,
    generation: u64,
    sample_rate: u32,
    samples: Seq<T>,
    frames: Seq<PcmFrame<T>>,
    after: FrameAssembler<T>,
) -> bool {
    let all = before.tail@ + samples;
    let count = all.len() as int / before.spec_frame_len();
    &&& frames.len() == count
    &&& forall|k: int|
        0 <= k < count ==> before.cuts(
            #[trigger] frames[k],
            generation,
            sample_rate,
            before.position_after(k),
            before.piece(all, k),
        )
    &&& after.tail@ == all.skip(count * before.spec_frame_len())
    &&& after.next_position_samples == before.position_after(count)
}

/// What one answer of the decoder does to a pipeline and its turn.
pub open spec fn takes<T>(
    before: PlayoutPipeline<T>,
    turn: WorkerTurn,
    poll: DecodePoll<T>,
    padding: T,
    after: PlayoutPipeline<T>,
    turn_after: WorkerTurn,
    result: Result<DueFrames<T>, MusicStreamError>,
) -> bool {
    &&& after.config == before.config
    &&& after.assembler.same_shape(before.assembler)
    &&& match poll {
        DecodePoll::Chunk(chunk) => if !is_normalized(before.config, chunk) {
            &&& after == before
            &&& turn_after == turn
            &&& result matches Err(error) && (error matches MusicStreamError::DecodeError(text)
                && text@
                == "decoded chunk must be normalized before entering the encoder pipeline"@)
        } else if turn.report.decoded_chunks == usize::MAX {
            &&& after == before
            &&& turn_after == turn
            &&& result matches Err(error) && (error matches MusicStreamError::DecodeError(text)
                && text@ == "a turn decoded more chunks than it can count"@)
        } else {
            &&& turn_after == turn.with_chunk(chunk.spec_duration_ms())
            &&& after.source_ended == before.source_ended
            &&& result is Ok <==> chunk.samples_interleaved@.len() as int
                % before.config.channels as int == 0
            &&& match result {
                Ok(due) => {
                    &&& assembles(
                        before.assembler,
                        before.config.generation,
                        chunk.sample_rate,
                        chunk.samples_interleaved@,
                        due.frames@,
                        after.assembler,
                    )
                    &&& due.first_held_over == (before.assembler.tail@.len() > 0)
                },
                Err(error) => {
                    &&& after == before
                    &&& error matches MusicStreamError::InvalidConfig(text) && text@
                        == "interleaved sample count must be divisible by channel count"@
                },
            }
        },
        DecodePoll::NeedMore => {
            &&& after == before
            &&& turn_after == (WorkerTurn {
                report: WorkerTurnReport { source_need_more: true, ..turn.report },
                ..turn
            })
            &&& result matches Ok(due) && due.frames@.len() == 0
        },
        DecodePoll::End => {
            &&& after.source_ended
            &&& after.assembler.tail@.len() == 0
            &&& turn_after == (WorkerTurn {
                report: WorkerTurnReport { source_ended: true, ..turn.report },
                ..turn
            })
            &&& result matches Ok(due) && due.first_held_over && if before.assembler.tail@.len()
                == 0 {
                due.frames@.len() == 0 && after.assembler == before.assembler
            } else {
                &&& due.frames@.len() == 1
                &&& before.assembler.cuts(
                    due.frames@[0],
                    before.config.generation,
                    before.config.sample_rate,
                    before.assembler.next_position_samples,
                    before.assembler.tail@ + Seq::new(
                        (before.assembler.spec_frame_len() - before.assembler.tail@.len()) as nat,
                        |i: int| padding,
                    ),
                )
                &&& after.assembler.next_position_samples == before.assembler.position_after(1)
            }
        },
    }
}

/// What an answer of the decoder, or its failure, does to a pipeline and its turn.
pub open spec fn settled<T>(
    before: PlayoutPipeline<T>,
    turn: WorkerTurn,
    answer: Result<DecodePoll<T>, MusicStreamError>,
    padding: T,
    after: PlayoutPipeline<T>,
    turn_after: WorkerTurn,
    result: Result<DueFrames<T>, MusicStreamError>,
) -> bool {
    match answer {
        Ok(poll) => takes(before, turn, poll, padding, after, turn_after, result),
        Err(error) => {
            &&& result == Err::<DueFrames<T>, MusicStreamError>(error)
            &&& after == before
            &&& turn_after == turn
        },
    }
}

/// The pipeline after a frame could not be encoded or sent.
pub open spec fn took_back<T>(
    before: PlayoutPipeline<T>,
    frame: PcmFrame<T>,
    held_over: bool,
    after: PlayoutPipeline<T>,
) -> bool {
    &&& after.config == before.config
    &&& after.assembler.same_shape(before.assembler)
    &&& !after.source_ended
    &&& after.assembler.next_position_samples == frame.track_position_samples
    &&& after.assembler.tail@ == if held_over && frame.samples@.len()
        == before.assembler.spec_frame_len() {
        frame.samples@
    } else {
        Seq::empty()
    }
}

/// What the parts behind a pipeline do when they are called: `encoded(e, f, a, g)`
/// says that an encoder `e` answers `a` to the frame `f` and is `g` then, and so on
/// for the others.
#[verifier::reject_recursive_types(T)]
#[verifier::reject_recursive_types(E)]
#[verifier::reject_recursive_types(K)]
pub struct Parts<T, E, K> {
    pub staged: spec_fn(Vec<T>, Vec<T>) -> bool,
    pub encoded: spec_fn(E, PcmFrame<T>, Result<OpusFrame, MusicStreamError>, E) -> bool,
    pub sent: spec_fn(K, OpusFrame, Result<(), MusicStreamError>, K) -> bool,
}

/// What a stage, encoders and sinks do by their own methods. The functions tell
/// what a call leaves behind.
pub open spec fn parts_of<T, E: OpusEncoderBackend<T>, S: SampleStage<T>, K: FrameSink>(
    stage: &S,
    samples_left: spec_fn(&mut Vec<T>) -> Vec<T>,
    encoder_left: spec_fn(&mut E) -> E,
    sink_left: spec_fn(&mut K) -> K,
) -> Parts<T, E, K> {
    Parts {
        staged: |raw: Vec<T>, staged: Vec<T>|
            exists|samples: &mut Vec<T>| #[trigger]
                call_ensures(S::apply, (stage, samples), ()) && *samples == raw && samples_left(
                    samples,
                ) == staged,
        encoded: |
            before: E,
            frame: PcmFrame<T>,
            answer: Result<OpusFrame, MusicStreamError>,
            after: E,
        |
            exists|asked: &mut E| #[trigger]
                call_ensures(E::encode, (asked, &frame), answer) && *asked == before
                    && encoder_left(asked) == after,
        sent: |before: K, frame: OpusFrame, answer: Result<(), MusicStreamError>, after: K|
            exists|asked: &mut K| #[trigger]
                call_ensures(K::emit, (asked, frame), answer) && *asked == before && sink_left(
                    asked,
                ) == after,
    }
}

/// A pipeline in the middle of a turn, with the parts behind it.
pub struct Scene<T, E, K> {
    pub pipeline: PlayoutPipeline<T>,
    pub turn: WorkerTurn,
    pub encoder: E,
    pub sink: K,
}

/// `staged` is `frame` with its samples gone through the stage.
pub open spec fn stages<T, E, K>(
    parts: Parts<T, E, K>,
    frame: PcmFrame<T>,
    staged: PcmFrame<T>,
) -> bool {
    staged == (PcmFrame { samples: staged.samples, ..frame }) && (parts.staged)(
        frame.samples,
        staged.samples,
    )
}

/// A frame goes through the stage and the encoder and, if that succeeds, to the
/// sink; `result` is what the first of them that fails says. A frame that fails
/// is taken back as the stage left it.
pub open spec fn plays<T, E, K>(
    parts: Parts<T, E, K>,
    before: Scene<T, E, K>,
    frame: PcmFrame<T>,
    held_over: bool,
    after: Scene<T, E, K>,
    result: Result<(), MusicStreamError>,
) -> bool {
    exists|staged: PcmFrame<T>, answer: Result<OpusFrame, MusicStreamError>|
        #![trigger settles(parts, before, staged, held_over, answer, after, result)]
        stages(parts, frame, staged) && (parts.encoded)(
            before.encoder,
            staged,
            answer,
            after.encoder,
        ) && settles(parts, before, staged, held_over, answer, after, result)
}

/// What follows the answer of the encoder.
pub open spec fn settles<T, E, K>(
    parts: Parts<T, E, K>,
    before: Scene<T, E, K>,
    staged: PcmFrame<T>,
    held_over: bool,
    answer: Result<OpusFrame, MusicStreamError>,
    after: Scene<T, E, K>,
    result: Result<(), MusicStreamError>,
) -> bool {
    match answer {
        Err(error) => {
            &&& result == Err::<(), MusicStreamError>(error)
            &&& after.sink == before.sink
            &&& after.turn == before.turn
            &&& took_back(before.pipeline, staged, held_over, after.pipeline)
        },
        Ok(encoded) => {
            &&& (parts.sent)(before.sink, encoded, result, after.sink)
            &&& match result {
                Ok(()) => {
                    &&& after.pipeline == before.pipeline
                    &&& after.turn == before.turn.with_frames(1, 1)
                },
                Err(_) => {
                    &&& after.turn == before.turn.with_frames(1, 0)
                    &&& took_back(before.pipeline, staged, held_over, after.pipeline)
                },
            }
        },
    }
}

/// The frame at `k` of those due is played. Only the first can have begun in an
/// earlier chunk.
pub open spec fn plays_due<T, E, K>(
    parts: Parts<T, E, K>,
    before: Scene<T, E, K>,
    due: DueFrames<T>,
    k: nat,
    after: Scene<T, E, K>,
    result: Result<(), MusicStreamError>,
) -> bool {
    plays(
        parts,
        before,
        due.frames@[k as int],
        due.first_held_over && k == 0,
        after,
        result,
    )
}

/// The first `count` of the frames that are due were played, one after the other.
pub open spec fn played_first<T, E, K>(
    parts: Parts<T, E, K>,
    before: Scene<T, E, K>,
    due: DueFrames<T>,
    count: nat,
    after: Scene<T, E, K>,
) -> bool
    decreases count,
{
    if count == 0 {
        after == before
    } else {
        let last = (count - 1) as nat;
        exists|mid: Scene<T, E, K>|
            played_first(parts, before, due, last, mid) && #[trigger] plays_due(
                parts,
                mid,
                due,
                last,
                after,
                Ok(()),
            )
    }
}

/// What a decoder does when it is asked: `said(d, a, e)` says that the decoder `d`
/// answers `a` and is `e` then.
pub type Said<T, D> = spec_fn(D, Result<DecodePoll<T>, MusicStreamError>, D) -> bool;

/// What decoders do by their own method. The function tells what a call leaves
/// behind.
pub open spec fn said_by<T, D: DecoderBackend<T>>(decoder_left: spec_fn(&mut D) -> D) -> Said<T, D> {
    |before: D, answer: Result<DecodePoll<T>, MusicStreamError>, after: D|
        exists|asked: &mut D| #[trigger]
            call_ensures(D::poll_decode, (asked,), answer) && *asked == before && decoder_left(asked)
                == after
}

/// The decoder, asked once by a turn that was not over, answered `poll`, and the
/// pipeline took that in with `result`.
pub open spec fn asks<T: Copy, D, E, K>(
    said: Said<T, D>,
    before: Scene<T, E, K>,
    decoder: D,
    poll: DecodePoll<T>,
    padding: T,
    after: Scene<T, E, K>,
    decoder_after: D,
    result: Result<DueFrames<T>, MusicStreamError>,
) -> bool {
    &&& before.pipeline.polls_again(before.turn)
    &&& said(decoder, Ok(poll), decoder_after)
    &&& takes(
        before.pipeline,
        before.turn,
        poll,
        padding,
        after.pipeline,
        after.turn,
        result,
    )
    &&& after.encoder == before.encoder
    &&& after.sink == before.sink
}

/// One answer of the decoder, with every frame that it made due played.
pub open spec fn advances<T: Copy, D, E, K>(
    said: Said<T, D>,
    parts: Parts<T, E, K>,
    before: Scene<T, E, K>,
    decoder: D,
    poll: DecodePoll<T>,
    padding: T,
    after: Scene<T, E, K>,
    decoder_after: D,
) -> bool {
    exists|asked: Scene<T, E, K>, due: DueFrames<T>| #[trigger]
        asks(said, before, decoder, poll, padding, asked, decoder_after, Ok(due)) && played_first(
            parts,
            asked,
            due,
            due.frames@.len(),
            after,
        )
}

/// The decoder answered with `polls`, one after the other, and all of that was
/// played.
pub open spec fn turned<T: Copy, D, E, K>(
    said: Said<T, D>,
    parts: Parts<T, E, K>,
    before: Scene<T, E, K>,
    decoder: D,
    polls: Seq<DecodePoll<T>>,
    padding: T,
    after: Scene<T, E, K>,
    decoder_after: D,
) -> bool
    decreases polls.len(),
{
    if polls.len() == 0 {
        after == before && decoder_after == decoder
    } else {
        exists|mid: Scene<T, E, K>, decoder_mid: D|
            turned(said, parts, before, decoder, polls.drop_last(), padding, mid, decoder_mid)
                && #[trigger] advances(
                said,
                parts,
                mid,
                decoder_mid,
                polls.last(),
                padding,
                after,
                decoder_after,
            )
    }
}

/// The frame at `k` of those due, and with it the turn, failed with `error`.
pub open spec fn fails_on<T, E, K>(
    parts: Parts<T, E, K>,
    asked: Scene<T, E, K>,
    due: DueFrames<T>,
    k: nat,
    after: Scene<T, E, K>,
    error: MusicStreamError,
) -> bool {
    k < due.frames@.len() && exists|mid: Scene<T, E, K>|
        played_first(parts, asked, due, k, mid) && #[trigger] plays_due(
            parts,
            mid,
            due,
            k,
            after,
            Err(error),
        )
}

/// A turn that was not over broke off with `error`: the decoder failed, which
/// leaves the pipeline as it was; or its answer was refused; or one of the frames
/// that it made due failed.
pub open spec fn broke_off<T: Copy, D, E, K>(
    said: Said<T, D>,
    parts: Parts<T, E, K>,
    before: Scene<T, E, K>,
    decoder: D,
    padding: T,
    after: Scene<T, E, K>,
    decoder_after: D,
    error: MusicStreamError,
) -> bool {
    ||| before.pipeline.polls_again(before.turn) && said(decoder, Err(error), decoder_after)
        && after == before
    ||| exists|poll: DecodePoll<T>| #[trigger]
        asks(said, before, decoder, poll, padding, after, decoder_after, Err(error))
    ||| exists|poll: DecodePoll<T>, asked: Scene<T, E, K>, due: DueFrames<T>, k: nat|
        #![trigger asks(
            said,
            before,
            decoder,
            poll,
            padding,
            asked,
            decoder_after,
            Ok(due),
        ), fails_on(parts, asked, due, k, after, error)]
        asks(said, before, decoder, poll, padding, asked, decoder_after, Ok(due)) && fails_on(
            parts,
            asked,
            due,
            k,
            after,
            error,
        )
}

/// After the answers `polls` were played, the turn broke off with `error`.
pub open spec fn turn_failed<T: Copy, D, E, K>(
    said: Said<T, D>,
    parts: Parts<T, E, K>,
    before: Scene<T, E, K>,
    decoder: D,
    polls: Seq<DecodePoll<T>>,
    padding: T,
    after: Scene<T, E, K>,
    decoder_after: D,
    error: MusicStreamError,
) -> bool {
    exists|mid: Scene<T, E, K>, decoder_mid: D| #[trigger]
        turned(said, parts, before, decoder, polls, padding, mid, decoder_mid) && broke_off(
            said,
            parts,
            mid,
            decoder_mid,
            padding,
            after,
            decoder_after,
            error,
        )
}

impl<T: Copy> PlayoutPipeline<T> {
    pub open spec fn wf(self) -> bool {
        &&& self.config.complaint() is None
        &&& self.assembler.wf()
        &&& self.assembler.channels == self.config.channels
        &&& self.assembler.frame_samples_per_channel == self.config.frame_samples_per_channel
    }

    pub open spec fn fresh_turn(self) -> WorkerTurn {
        WorkerTurn {
            decoded_ms: 0,
            report: WorkerTurnReport {
                source_ended: self.source_ended,
                ..WorkerTurnReport::empty()
            },
        }
    }

    /// A turn goes on until a batch is decoded, the decoder starves, or the source
    /// ends.
    pub open spec fn polls_again(self, turn: WorkerTurn) -> bool {
        !turn.report.source_ended && !turn.report.source_need_more && turn.decoded_ms
            < self.config.decode_batch_ms
    }

    pub fn new(config: PipelineConfig) -> (result: Result<Self, MusicStreamError>)
        requires
            config.frame_samples_per_channel * config.channels <= usize::MAX,
        ensures
            result is Ok <==> config.complaint() is None,
            match result {
                Ok(pipeline) => {
                    &&& pipeline.wf()
                    &&& pipeline.config == config
                    &&& pipeline.assembler.next_position_samples == 0
                    &&& pipeline.assembler.tail@ == Seq::<T>::empty()
                    &&& !pipeline.source_ended
                },
                Err(error) => error matches MusicStreamError::InvalidConfig(text) && Some(text@)
                    == config.complaint(),
            },
    {
        match config.validate() {
            Ok(()) => {},
            Err(error) => {
                return Err(error);
            },
        }
        match FrameAssembler::new(config.channels, config.frame_samples_per_channel) {
            Ok(assembler) => Ok(PlayoutPipeline { config, assembler, source_ended: false }),
            Err(error) => Err(error),
        }
    }

    #[must_use]
    pub fn source_ended(&self) -> (ended: bool)
        ensures
            ended == self.source_ended,
    {
        self.source_ended
    }

    /// Begins a turn. Of a source that has ended it reports just that.
    #[must_use]
    pub fn begin_turn(&self) -> (turn: WorkerTurn)
        ensures
            turn == self.fresh_turn(),
    {
        let mut report = WorkerTurnReport::default();
        report.source_ended = self.source_ended;
        WorkerTurn { decoded_ms: 0, report }
    }

    /// Whether the turn goes on with another look at the decoder.
    #[must_use]
    pub fn wants_poll(&self, turn: &WorkerTurn) -> (more: bool)
        ensures
            more == self.polls_again(*turn),
    {
        !turn.report.source_ended && !turn.report.source_need_more && turn.decoded_ms
            < self.config.decode_batch_ms
    }

    /// Takes in what the decoder said and returns the frames to encode now. The
    /// last frame of a source is filled up with `padding`. A chunk that the report
    /// could no longer count is an error.
    pub fn on_poll(
        &mut self,
        turn: &mut WorkerTurn,
        poll: DecodePoll<T>,
        padding: T,
    ) -> (result: Result<DueFrames<T>, MusicStreamError>)
        requires
            old(self).wf(),
        ensures
            final(self).wf(),
            takes(*old(self), *old(turn), poll, padding, *final(self), *final(turn), result),
    {
        match poll {
            DecodePoll::Chunk(chunk) => {
                if chunk.sample_rate != self.config.sample_rate || chunk.channels
                    != self.config.channels {
                    return Err(
                        MusicStreamError::DecodeError(
                            "decoded chunk must be normalized before entering the encoder pipeline".to_owned(),
                        ),
                    );
                }
                if turn.report.decoded_chunks == usize::MAX {
                    return Err(
                        MusicStreamError::DecodeError(
                            "a turn decoded more chunks than it can count".to_owned(),
                        ),
                    );
                }
                turn.decoded_ms = turn.decoded_ms.saturating_add(chunk.duration_ms());
                turn.report.decoded_chunks = turn.report.decoded_chunks + 1;
                let first_held_over = self.assembler.tail.len() > 0;
                match self.assembler.process_interleaved(
                    self.config.generation,
                    chunk.sample_rate,
                    chunk.samples_interleaved.as_slice(),
                ) {
                    Ok(frames) => Ok(DueFrames { frames, first_held_over }),
                    Err(error) => Err(error),
                }
            },
            DecodePoll::NeedMore => {
                turn.report.source_need_more = true;
                Ok(DueFrames { frames: Vec::new(), first_held_over: false })
            },
            DecodePoll::End => {
                let mut frames: Vec<PcmFrame<T>> = Vec::new();
                if let Some(last) = self.assembler.flush_padded(
                    self.config.generation,
                    self.config.sample_rate,
                    padding,
                ) {
                    frames.push(last);
                }
                self.source_ended = true;
                turn.report.source_ended = true;
                Ok(DueFrames { frames, first_held_over: true })
            },
        }
    }

    /// Asks the decoder once and takes in what it says.
    pub fn poll<D: DecoderBackend<T>>(
        &mut self,
        turn: &mut WorkerTurn,
        decoder: &mut D,
        padding: T,
    ) -> (result: Result<DueFrames<T>, MusicStreamError>)
        requires
            old(self).wf(),
        ensures
            final(self).wf(),
            // What the decoder answers when it is asked once decides the rest.
            ({
                let said = said_by::<T, D>(|decoder: &mut D| *final(decoder));
                exists|answer: Result<DecodePoll<T>, MusicStreamError>| #[trigger]
                    said(*old(decoder), answer, *final(decoder)) && settled(
                        *old(self),
                        *old(turn),
                        answer,
                        padding,
                        *final(self),
                        *final(turn),
                        result,
                    )
            }),
    {
        let ghost said = said_by::<T, D>(|decoder: &mut D| *final(decoder));
        let ghost asked = *decoder;
        let answer = decoder.poll_decode();
        assert(said(asked, answer, *decoder));
        match answer {
            Ok(poll) => self.on_poll(turn, poll, padding),
            Err(error) => Err(error),
        }
    }

    /// Encodes one due frame and hands it on. A frame that fails on the way is
    /// taken back.
    pub fn play_frame<E: OpusEncoderBackend<T>, S: SampleStage<T>, K: FrameSink>(
        &mut self,
        turn: &mut WorkerTurn,
        frame: PcmFrame<T>,
        held_over: bool,
        encoder: &mut E,
        stage: &S,
        sink: &mut K,
    ) -> (result: Result<(), MusicStreamError>)
        requires
            old(self).wf(),
        ensures
            final(self).wf(),
            ({
                let parts = parts_of::<T, E, S, K>(
                    stage,
                    |samples: &mut Vec<T>| *final(samples),
                    |encoder: &mut E| *final(encoder),
                    |sink: &mut K| *final(sink),
                );
                plays(
                    parts,
                    Scene {
                        pipeline: *old(self),
                        turn: *old(turn),
                        encoder: *old(encoder),
                        sink: *old(sink),
                    },
                    frame,
                    held_over,
                    Scene {
                        pipeline: *final(self),
                        turn: *final(turn),
                        encoder: *final(encoder),
                        sink: *final(sink),
                    },
                    result,
                )
            }),
    {
        let ghost parts = parts_of::<T, E, S, K>(
            stage,
            |samples: &mut Vec<T>| *final(samples),
            |encoder: &mut E| *final(encoder),
            |sink: &mut K| *final(sink),
        );
        let ghost before = Scene {
            pipeline: *self,
            turn: *turn,
            encoder: *encoder,
            sink: *sink,
        };
        let mut frame = frame;
        let ghost raw = frame;
        stage.apply(&mut frame.samples);
        let ghost staged = frame;
        assert(stages(parts, raw, staged));
        let answer = encoder.encode(&frame);
        let ghost answered = answer;
        assert((parts.encoded)(before.encoder, staged, answered, *encoder));
        let encoded = match answer {
            Ok(encoded) => encoded,
            Err(error) => {
                self.frame_failed(frame, held_over);
                proof {
                    let after = Scene {
                        pipeline: *self,
                        turn: *turn,
                        encoder: *encoder,
                        sink: *sink,
                    };
                    assert(settles(parts, before, staged, held_over, answered, after, Err(error)));
                }
                return Err(error);
            },
        };
        turn.report.pcm_frames = turn.report.pcm_frames.saturating_add(1);
        let result = sink.emit(encoded);
        assert((parts.sent)(before.sink, encoded, result, *sink));
        match &result {
            Ok(()) => {
                turn.report.opus_frames = turn.report.opus_frames.saturating_add(1);
            },
            Err(_) => {
                self.frame_failed(frame, held_over);
            },
        }
        proof {
            let after = Scene { pipeline: *self, turn: *turn, encoder: *encoder, sink: *sink };
            assert(settles(parts, before, staged, held_over, answered, after, result));
        }
        result
    }

    /// One worker turn: decodes a batch, encodes each frame as it is complete and
    /// hands it on, until the batch is done, the decoder starves, the source ends
    /// or something fails.
    ///
    /// What comes out depends on the decoder, the encoder and the sink.
    #[verifier::loop_isolation(false)]
    pub fn process_turn<
        D: DecoderBackend<T>,
        E: OpusEncoderBackend<T>,
        S: SampleStage<T>,
        K: FrameSink,
    >(
        &mut self,
        decoder: &mut D,
        encoder: &mut E,
        stage: &S,
        sink: &mut K,
        padding: T,
    ) -> (result: Result<WorkerTurnReport, MusicStreamError>)
        requires
            old(self).wf(),
        ensures
            final(self).wf(),
            old(self).source_ended ==> {
                &&& *final(self) == *old(self)
                &&& *final(decoder) == *old(decoder)
                &&& *final(encoder) == *old(encoder)
                &&& *final(sink) == *old(sink)
                &&& result == Ok::<_, MusicStreamError>(old(self).fresh_turn().report)
            },
            ({
                let said = said_by::<T, D>(|decoder: &mut D| *final(decoder));
                let parts = parts_of::<T, E, S, K>(
                    stage,
                    |samples: &mut Vec<T>| *final(samples),
                    |encoder: &mut E| *final(encoder),
                    |sink: &mut K| *final(sink),
                );
                let first = Scene {
                    pipeline: *old(self),
                    turn: old(self).fresh_turn(),
                    encoder: *old(encoder),
                    sink: *old(sink),
                };
                match result {
                    Ok(report) => exists|polls: Seq<DecodePoll<T>>, last: Scene<T, E, K>| #[trigger]
                        turned(
                            said,
                            parts,
                            first,
                            *old(decoder),
                            polls,
                            padding,
                            last,
                            *final(decoder),
                        ) && !last.pipeline.polls_again(last.turn) && last == (Scene {
                            pipeline: *final(self),
                            turn: last.turn,
                            encoder: *final(encoder),
                            sink: *final(sink),
                        }) && report == last.turn.report,
                    Err(error) => exists|polls: Seq<DecodePoll<T>>, last: Scene<T, E, K>| #[trigger]
                        turn_failed(
                            said,
                            parts,
                            first,
                            *old(decoder),
                            polls,
                            padding,
                            last,
                            *final(decoder),
                            error,
                        ) && last == (Scene {
                            pipeline: *final(self),
                            turn: last.turn,
                            encoder: *final(encoder),
                            sink: *final(sink),
                        }),
                }
            }),
    {
        let ghost said = said_by::<T, D>(|decoder: &mut D| *final(decoder));
        let ghost parts = parts_of::<T, E, S, K>(
            stage,
            |samples: &mut Vec<T>| *final(samples),
            |encoder: &mut E| *final(encoder),
            |sink: &mut K| *final(sink),
        );
        let mut turn = self.begin_turn();
        let ghost first = Scene { pipeline: *self, turn, encoder: *encoder, sink: *sink };
        assert(turned(said, parts, first, *decoder, Seq::empty(), padding, first, *decoder));
        while self.wants_poll(&turn)
            invariant
                self.wf(),
                exists|polls: Seq<DecodePoll<T>>| #[trigger]
                    turned(
                        said,
                        parts,
                        first,
                        *old(decoder),
                        polls,
                        padding,
                        Scene { pipeline: *self, turn, encoder: *encoder, sink: *sink },
                        *decoder,
                    ),
                old(self).source_ended ==> {
                    &&& *self == *old(self)
                    &&& *decoder == *old(decoder)
                    &&& *encoder == *old(encoder)
                    &&& *sink == *old(sink)
                    &&& turn == old(self).fresh_turn()
                },
            decreases
                usize::MAX - turn.report.decoded_chunks,
                if self.polls_again(turn) {
                    1int
                } else {
                    0int
                },
        {
            let ghost mid = Scene { pipeline: *self, turn, encoder: *encoder, sink: *sink };
            let ghost decoder_mid = *decoder;
            let ghost polls = choose|polls: Seq<DecodePoll<T>>| #[trigger]
                turned(
                    said,
                    parts,
                    first,
                    *old(decoder),
                    polls,
                    padding,
                    mid,
                    decoder_mid,
                );
            let taken = self.poll(&mut turn, decoder, padding);
            let ghost asked = Scene { pipeline: *self, turn, encoder: *encoder, sink: *sink };
            let ghost result = taken;
            let ghost answer = choose|answer: Result<DecodePoll<T>, MusicStreamError>| #[trigger]
                said(decoder_mid, answer, *decoder) && settled(
                    mid.pipeline,
                    mid.turn,
                    answer,
                    padding,
                    *self,
                    turn,
                    result,
                );
            let ghost poll = answer->Ok_0;
            assert(said(decoder_mid, answer, *decoder));
            assert(answer is Ok ==> asks(
                said,
                mid,
                decoder_mid,
                poll,
                padding,
                asked,
                *decoder,
                result,
            ));
            let due = match taken {
                Ok(due) => due,
                Err(error) => {
                    assert(broke_off(
                        said,
                        parts,
                        mid,
                        decoder_mid,
                        padding,
                        asked,
                        *decoder,
                        error,
                    ));
                    assert(turn_failed(
                        said,
                        parts,
                        first,
                        *old(decoder),
                        polls,
                        padding,
                        asked,
                        *decoder,
                        error,
                    ));
                    return Err(error);
                },
            };
            let ghost whole = due;
            let ghost decoder_after = *decoder;
            let mut held_over = due.first_held_over;
            let mut frames = due.frames;
            while frames.len() > 0
                invariant
                    self.wf(),
                    *decoder == decoder_after,
                    frames@.len() <= whole.frames@.len(),
                    frames@ == whole.frames@.skip(whole.frames@.len() - frames@.len()),
                    held_over == (whole.first_held_over && frames@.len() == whole.frames@.len()),
                    played_first(
                        parts,
                        asked,
                        whole,
                        (whole.frames@.len() - frames@.len()) as nat,
                        Scene { pipeline: *self, turn, encoder: *encoder, sink: *sink },
                    ),
                decreases frames.len(),
            {
                let ghost k = (whole.frames@.len() - frames@.len()) as nat;
                let ghost start = Scene { pipeline: *self, turn, encoder: *encoder, sink: *sink };
                let frame = frames.remove(0);
                assert(frame == whole.frames@[k as int]);
                let result = self.play_frame(&mut turn, frame, held_over, encoder, stage, sink);
                let ghost end = Scene { pipeline: *self, turn, encoder: *encoder, sink: *sink };
                assert(plays_due(parts, start, whole, k, end, result));
                match result {
                    Ok(()) => {
                        held_over = false;
                        assert(result->Ok_0 == ());
                        assert(result == Ok::<(), MusicStreamError>(()));
                        proof {
                            played_one_more(parts, asked, whole, k, start, end);
                        }
                    },
                    Err(error) => {
                        proof {
                            assert(fails_on(parts, asked, whole, k, end, error));
                            assert(broke_off(
                                said,
                                parts,
                                mid,
                                decoder_mid,
                                padding,
                                end,
                                *decoder,
                                error,
                            ));
                            assert(turn_failed(
                                said,
                                parts,
                                first,
                                *old(decoder),
                                polls,
                                padding,
                                end,
                                *decoder,
                                error,
                            ));
                        }
                        return Err(error);
                    },
                }
            }
            proof {
                let end = Scene { pipeline: *self, turn, encoder: *encoder, sink: *sink };
                playing_keeps_the_pipeline(parts, asked, whole, whole.frames@.len(), end);
                let longer = polls.push(poll);
                assert(longer.drop_last() =~= polls);
                assert(advances(
                    said,
                    parts,
                    mid,
                    decoder_mid,
                    longer.last(),
                    padding,
                    end,
                    *decoder,
                ));
                assert(turned(
                    said,
                    parts,
                    first,
                    *old(decoder),
                    longer,
                    padding,
                    end,
                    *decoder,
                ));
            }
        }
        Ok(turn.report)
    }

    /// Takes a frame back whose encoding or sending failed.
    pub fn frame_failed(&mut self, frame: PcmFrame<T>, held_over: bool)
        requires
            old(self).wf(),
        ensures
            final(self).wf(),
            took_back(*old(self), frame, held_over, *final(self)),
    {
        self.assembler.give_back(frame, held_over);
        self.source_ended = false;
    }
}

proof fn played_one_more<T, E, K>(
    parts: Parts<T, E, K>,
    before: Scene<T, E, K>,
    due: DueFrames<T>,
    count: nat,
    mid: Scene<T, E, K>,
    after: Scene<T, E, K>,
)
    requires
        played_first(parts, before, due, count, mid),
        plays_due(parts, mid, due, count, after, Ok(())),
    ensures
        played_first(parts, before, due, count + 1, after),
{
    assert((count + 1 - 1) as nat == count);
}

/// How many samples the answers of a decoder hold.
pub open spec fn samples_in<T>(polls: Seq<DecodePoll<T>>) -> int
    decreases polls.len(),
{
    if polls.len() == 0 {
        0
    } else {
        samples_in(polls.drop_last()) + match polls.last() {
            DecodePoll::Chunk(chunk) => chunk.samples_interleaved@.len() as int,
            _ => 0,
        }
    }
}

/// Playing frames moves nothing but the counts of the turn.
proof fn playing_keeps_the_pipeline<T, E, K>(
    parts: Parts<T, E, K>,
    before: Scene<T, E, K>,
    due: DueFrames<T>,
    count: nat,
    after: Scene<T, E, K>,
)
    requires
        played_first(parts, before, due, count, after),
    ensures
        after.pipeline == before.pipeline,
        after.turn == before.turn.with_frames(count as int, count as int),
    decreases count,
{
    if count > 0 {
        let last = (count - 1) as nat;
        let mid = choose|mid: Scene<T, E, K>|
            played_first(parts, before, due, last, mid) && #[trigger] plays_due(
                parts,
                mid,
                due,
                last,
                after,
                Ok(()),
            );
        playing_keeps_the_pipeline(parts, before, due, last, mid);
    }
}

/// A turn loses and invents no samples: what was held back before it and what it
/// decoded is what its frames hold and what is held back after it. At the end of
/// a source nothing is held back, and only the last frame is filled up; after it
/// the decoder is asked nothing. Every frame that is encoded is handed on.
pub proof fn turns_keep_every_sample<T: Copy, D, E, K>(
    said: Said<T, D>,
    parts: Parts<T, E, K>,
    before: Scene<T, E, K>,
    decoder: D,
    polls: Seq<DecodePoll<T>>,
    padding: T,
    after: Scene<T, E, K>,
    decoder_after: D,
)
    requires
        before.pipeline.wf(),
        before.turn == before.pipeline.fresh_turn(),
        turned(said, parts, before, decoder, polls, padding, after, decoder_after),
        after.turn.report.pcm_frames < usize::MAX,
    ensures
        before.pipeline.source_ended ==> polls.len() == 0,
        after.pipeline.config == before.pipeline.config,
        after.turn.report.source_ended == after.pipeline.source_ended,
        after.turn.report.opus_frames == after.turn.report.pcm_frames,
        ({
            let len = before.pipeline.assembler.spec_frame_len();
            let held = before.pipeline.assembler.tail@.len() as int + samples_in(polls);
            let sent = after.turn.report.pcm_frames * len;
            if after.pipeline.source_ended && !before.pipeline.source_ended {
                after.pipeline.assembler.tail@.len() == 0 && sent - len < held <= sent
            } else {
                held == sent + after.pipeline.assembler.tail@.len()
            }
        }),
        after.pipeline.assembler.same_shape(before.pipeline.assembler),
        after.pipeline.assembler.tail@.len() <= before.pipeline.assembler.spec_frame_len(),
    decreases polls.len(),
{
    let len = before.pipeline.assembler.spec_frame_len();
    assert(len > 0) by (nonlinear_arith)
        requires
            len == before.pipeline.assembler.frame_samples_per_channel
                * before.pipeline.assembler.channels,
            before.pipeline.assembler.frame_samples_per_channel > 0,
            before.pipeline.assembler.channels > 0,
    ;
    if polls.len() == 0 {
        assert(0 * len == 0);
    } else {
        let (mid, decoder_mid) = choose|mid: Scene<T, E, K>, decoder_mid: D|
            turned(said, parts, before, decoder, polls.drop_last(), padding, mid, decoder_mid)
                && #[trigger] advances(
                said,
                parts,
                mid,
                decoder_mid,
                polls.last(),
                padding,
                after,
                decoder_after,
            );
        let (asked, due) = choose|asked: Scene<T, E, K>, due: DueFrames<T>| #[trigger]
            asks(said, mid, decoder_mid, polls.last(), padding, asked, decoder_after, Ok(due))
                && played_first(parts, asked, due, due.frames@.len(), after);
        playing_keeps_the_pipeline(parts, asked, due, due.frames@.len(), after);
        turns_keep_every_sample(
            said,
            parts,
            before,
            decoder,
            polls.drop_last(),
            padding,
            mid,
            decoder_mid,
        );
        assert(mid.pipeline.assembler.spec_frame_len() == len);
        let sent = mid.turn.report.pcm_frames as int;
        let more = due.frames@.len() as int;
        let total = after.turn.report.pcm_frames as int;
        assert(total * len == sent * len + more * len) by (nonlinear_arith)
            requires
                total == sent + more,
        ;
        match polls.last() {
            DecodePoll::Chunk(chunk) => {
                let all = mid.pipeline.assembler.tail@ + chunk.samples_interleaved@;
                assert(more == all.len() as int / len);
                vstd::arithmetic::div_mod::lemma_fundamental_div_mod(all.len() as int, len);
                assert(more * len == len * more) by (nonlinear_arith);
                assert(after.pipeline.assembler.tail@.len() == all.len() as int % len);
            },
            _ => {
                assert(more * len == if more == 0 {
                    0
                } else {
                    len
                }) by (nonlinear_arith)
                    requires
                        more == 0 || more == 1,
                ;
            },
        }
    }
}

/// A source that ended stays ended: a turn begun on it reports the end and asks
/// the decoder nothing.
pub proof fn ended_sources_are_not_polled<T: Copy>(pipeline: PlayoutPipeline<T>)
    requires
        pipeline.source_ended,
    ensures
        pipeline.fresh_turn().report.source_ended,
        !pipeline.polls_again(pipeline.fresh_turn()),
{
}

/// Which settings a pipeline takes: everything is set, a frame lasts at least a
/// millisecond, and at least one frame is decoded at a time.
pub proof fn pipelines_take_these_settings(config: PipelineConfig)
    ensures
        config.complaint() is None <==> {
            &&& config.generation > 0 && config.sample_rate > 0 && config.channels > 0
            &&& config.frame_samples_per_channel > 0 && config.decode_batch_ms > 0
            &&& 1 <= config.frame_samples_per_channel as int * 1_000 / config.sample_rate as int
                <= config.decode_batch_ms
        },
{
}

/// A turn asks the decoder again until it has decoded a batch, and not after the
/// decoder had nothing more to give or came to its end. It begins with nothing
/// decoded.
pub proof fn turns_decode_a_batch<T: Copy>(pipeline: PlayoutPipeline<T>, turn: WorkerTurn)
    ensures
        pipeline.polls_again(turn) <==> turn.decoded_ms < pipeline.config.decode_batch_ms
            && !turn.report.source_ended && !turn.report.source_need_more,
        pipeline.fresh_turn().decoded_ms == 0,
        pipeline.fresh_turn().report.decoded_chunks == 0,
        pipeline.fresh_turn().report.pcm_frames == 0,
        pipeline.fresh_turn().report.opus_frames == 0,
        !pipeline.fresh_turn().report.source_need_more,
        pipeline.fresh_turn().report.source_ended == pipeline.source_ended,
{
}

/// A chunk lengthens what a turn has decoded by the time it plays, and is counted; so
/// are frames that are encoded and handed on.
pub proof fn turns_count_what_they_do(
    turn: WorkerTurn,
    duration_ms: u64,
    encoded: int,
    handed_on: int,
)
    requires
        turn.decoded_ms + duration_ms <= u64::MAX,
        turn.report.decoded_chunks < usize::MAX,
        0 <= encoded,
        0 <= handed_on,
        turn.report.pcm_frames + encoded <= usize::MAX,
        turn.report.opus_frames + handed_on <= usize::MAX,
    ensures
        turn.with_chunk(duration_ms).decoded_ms == turn.decoded_ms + duration_ms,
        turn.with_chunk(duration_ms).report.decoded_chunks == turn.report.decoded_chunks + 1,
        turn.with_chunk(duration_ms).report.pcm_frames == turn.report.pcm_frames,
        turn.with_frames(encoded, handed_on).decoded_ms == turn.decoded_ms,
        turn.with_frames(encoded, handed_on).report.pcm_frames == turn.report.pcm_frames + encoded,
        turn.with_frames(encoded, handed_on).report.opus_frames == turn.report.opus_frames
            + handed_on,
        turn.with_frames(encoded, handed_on).report.decoded_chunks == turn.report.decoded_chunks,
{
}

/// A chunk that is taken in comes out in order: what was held back, followed by the
/// chunk, is what the due frames hold, followed by what is held back now. The frames
/// are those of the pipeline, one behind the other from where it stood.
pub proof fn chunks_come_out_in_order<T: Copy>(
    before: PlayoutPipeline<T>,
    turn: WorkerTurn,
    chunk: DecodedChunk<T>,
    padding: T,
    after: PlayoutPipeline<T>,
    turn_after: WorkerTurn,
    due: DueFrames<T>,
    k: int,
)
    requires
        before.wf(),
        takes(before, turn, DecodePoll::Chunk(chunk), padding, after, turn_after, Ok(due)),
        0 <= k < due.frames@.len(),
        before.assembler.next_position_samples + due.frames@.len()
            * before.assembler.frame_samples_per_channel <= u64::MAX,
    ensures
        joined(due.frames@) + after.assembler.tail@ == before.assembler.tail@
            + chunk.samples_interleaved@,
        due.frames@[k].generation == before.config.generation,
        due.frames@[k].sample_rate == chunk.sample_rate,
        due.frames@[k].channels == chunk.channels,
        due.frames@[k].track_position_samples == before.assembler.next_position_samples + k
            * before.assembler.frame_samples_per_channel,
        due.frames@[k].samples@.len() == before.config.frame_samples_per_channel
            * before.config.channels,
        after.assembler.tail@.len() < before.config.frame_samples_per_channel
            * before.config.channels,
        due.first_held_over <==> before.assembler.tail@.len() > 0,
        !after.source_ended || before.source_ended,
{
    let assembler = before.assembler;
    let all = assembler.tail@ + chunk.samples_interleaved@;
    let len = assembler.spec_frame_len();
    let count = due.frames@.len() as int;
    assert(len > 0) by (nonlinear_arith)
        requires
            len == assembler.frame_samples_per_channel * assembler.channels,
            assembler.frame_samples_per_channel > 0,
            assembler.channels > 0,
    ;
    vstd::arithmetic::div_mod::lemma_fundamental_div_mod(all.len() as int, len);
    assert(count * len == len * count) by (nonlinear_arith);
    assert forall|j: int| 0 <= j < due.frames@.len() implies (#[trigger] due.frames@[j]).samples@
        == assembler.piece(all, j) by {
        assert(assembler.cuts(
            due.frames@[j],
            before.config.generation,
            chunk.sample_rate,
            assembler.position_after(j),
            assembler.piece(all, j),
        ));
    }
    super::frame::assembly_keeps_every_sample(assembler, all, due.frames@);
    assert(assembler.cuts(
        due.frames@[k],
        before.config.generation,
        chunk.sample_rate,
        assembler.position_after(k),
        assembler.piece(all, k),
    ));
    let step = assembler.frame_samples_per_channel as int;
    assert(0 <= k * step <= count * step) by (nonlinear_arith)
        requires
            0 <= k <= count,
            0 <= step,
    ;
    assert((k + 1) * len == k * len + len && 0 <= k * len && (k + 1) * len <= count * len)
        by (nonlinear_arith)
        requires
            0 <= k < count,
            0 < len,
    ;
}

/// A decoder that comes to its end leaves nothing behind: what was held back goes out
/// as a last frame, filled up with silence, and the source has ended.
pub proof fn ends_leave_nothing_behind<T: Copy>(
    before: PlayoutPipeline<T>,
    turn: WorkerTurn,
    padding: T,
    after: PlayoutPipeline<T>,
    turn_after: WorkerTurn,
    due: DueFrames<T>,
)
    requires
        before.wf(),
        takes(before, turn, DecodePoll::End, padding, after, turn_after, Ok(due)),
    ensures
        after.source_ended,
        turn_after.report.source_ended,
        after.assembler.tail@.len() == 0,
        before.assembler.tail@.len() == 0 <==> due.frames@.len() == 0,
        before.assembler.tail@.len() > 0 ==> {
            let last = due.frames@[0];
            &&& due.frames@.len() == 1
            &&& last.generation == before.config.generation
            &&& last.track_position_samples == before.assembler.next_position_samples
            &&& last.samples@.len() == before.config.frame_samples_per_channel
                * before.config.channels
            &&& last.samples@.take(before.assembler.tail@.len() as int) == before.assembler.tail@
            &&& forall|i: int|
                before.assembler.tail@.len() <= i < last.samples@.len() ==> #[trigger] last.samples@[i]
                    == padding
        },
{
    if before.assembler.tail@.len() > 0 {
        let last = due.frames@[0];
        assert(last.samples@.take(before.assembler.tail@.len() as int)
            =~= before.assembler.tail@);
    }
}

/// A decoder that has nothing to give yet changes nothing but that the turn ends.
pub proof fn starving_changes_nothing<T: Copy>(
    before: PlayoutPipeline<T>,
    turn: WorkerTurn,
    padding: T,
    after: PlayoutPipeline<T>,
    turn_after: WorkerTurn,
    result: Result<DueFrames<T>, MusicStreamError>,
)
    requires
        takes(before, turn, DecodePoll::NeedMore, padding, after, turn_after, result),
    ensures
        after == before,
        turn_after.report.source_need_more,
        turn_after.decoded_ms == turn.decoded_ms,
        turn_after.report.decoded_chunks == turn.report.decoded_chunks,
        turn_after.report.pcm_frames == turn.report.pcm_frames,
        result matches Ok(due) && due.frames@.len() == 0,
        !after.polls_again(turn_after),
{
}

/// Only chunks of the rate and channels of the pipeline, in whole frames, are taken
/// in; one that is not leaves the pipeline as it was.
pub proof fn foreign_chunks_are_refused<T: Copy>(
    before: PlayoutPipeline<T>,
    turn: WorkerTurn,
    chunk: DecodedChunk<T>,
    padding: T,
    after: PlayoutPipeline<T>,
    turn_after: WorkerTurn,
    result: Result<DueFrames<T>, MusicStreamError>,
)
    requires
        takes(before, turn, DecodePoll::Chunk(chunk), padding, after, turn_after, result),
        turn.report.decoded_chunks < usize::MAX,
    ensures
        result is Ok <==> chunk.sample_rate == before.config.sample_rate && chunk.channels
            == before.config.channels && chunk.samples_interleaved@.len() as int
            % before.config.channels as int == 0,
        result is Err ==> after == before,
{
}

/// A frame that is played goes through the stage, whatever it says about itself
/// unchanged, then through the encoder, and what that makes of it goes to the sink. It
/// counts as encoded and handed on, and the pipeline is not touched.
pub proof fn played_frames_pass_all_parts<T, E, K>(
    parts: Parts<T, E, K>,
    before: Scene<T, E, K>,
    frame: PcmFrame<T>,
    held_over: bool,
    after: Scene<T, E, K>,
)
    requires
        plays(parts, before, frame, held_over, after, Ok(())),
        before.turn.report.pcm_frames < usize::MAX,
        before.turn.report.opus_frames < usize::MAX,
    ensures
        exists|staged: PcmFrame<T>, encoded: OpusFrame|
            #![trigger (parts.encoded)(before.encoder, staged, Ok(encoded), after.encoder)]
            (parts.staged)(frame.samples, staged.samples) && staged.generation == frame.generation
                && staged.track_position_samples == frame.track_position_samples
                && staged.samples_per_channel == frame.samples_per_channel && staged.sample_rate
                == frame.sample_rate && staged.channels == frame.channels && (parts.encoded)(
                before.encoder,
                staged,
                Ok(encoded),
                after.encoder,
            ) && (parts.sent)(before.sink, encoded, Ok(()), after.sink),
        after.pipeline == before.pipeline,
        after.turn.report.pcm_frames == before.turn.report.pcm_frames + 1,
        after.turn.report.opus_frames == before.turn.report.opus_frames + 1,
        after.turn.decoded_ms == before.turn.decoded_ms,
{
    let (staged, answer) = choose|
        staged: PcmFrame<T>,
        answer: Result<OpusFrame, MusicStreamError>,
    |
        #![trigger settles(parts, before, staged, held_over, answer, after, Ok(()))]
        stages(parts, frame, staged) && (parts.encoded)(
            before.encoder,
            staged,
            answer,
            after.encoder,
        ) && settles(parts, before, staged, held_over, answer, after, Ok(()));
    assert(answer is Ok);
    let encoded = answer->Ok_0;
    assert(answer == Ok::<OpusFrame, MusicStreamError>(encoded));
    assert((parts.encoded)(before.encoder, staged, Ok(encoded), after.encoder));
}

/// A frame that fails is not handed on, and the pipeline is back where the frame
/// stood: it goes on from there, and the source has not ended.
pub proof fn failed_frames_are_taken_back<T, E, K>(
    parts: Parts<T, E, K>,
    before: Scene<T, E, K>,
    frame: PcmFrame<T>,
    held_over: bool,
    after: Scene<T, E, K>,
    error: MusicStreamError,
)
    requires
        plays(parts, before, frame, held_over, after, Err(error)),
    ensures
        after.turn.report.opus_frames == before.turn.report.opus_frames,
        after.pipeline.assembler.next_position_samples == frame.track_position_samples,
        !after.pipeline.source_ended,
        after.pipeline.config == before.pipeline.config,
        !held_over ==> after.pipeline.assembler.tail@.len() == 0,
        exists|staged: PcmFrame<T>| #[trigger]
            stages(parts, frame, staged) && (held_over && staged.samples@.len()
                == before.pipeline.assembler.spec_frame_len()
                ==> after.pipeline.assembler.tail@ == staged.samples@),
{
    let (staged, answer) = choose|
        staged: PcmFrame<T>,
        answer: Result<OpusFrame, MusicStreamError>,
    |
        #![trigger settles(parts, before, staged, held_over, answer, after, Err(error))]
        stages(parts, frame, staged) && (parts.encoded)(
            before.encoder,
            staged,
            answer,
            after.encoder,
        ) && settles(parts, before, staged, held_over, answer, after, Err(error));
    assert(settles(parts, before, staged, held_over, answer, after, Err(error)));
}

} // verus!
