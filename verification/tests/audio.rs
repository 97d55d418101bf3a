use std::collections::VecDeque;

use bytes::Bytes;
use music_stream::audio::decode::{
    codec_error, opus_input_channels, seek_target_nanos, trimmed_range, CodecFailure,
    DecodeErrorBudget, DecodeStep, MemoryDecoder, PacketDecoded, PacketRead, PacketStep,
    TrackDecode, MAX_CONSECUTIVE_DECODE_ERRORS,
};
use music_stream::audio::dsp::{select_replay_gain, to_stereo_interleaved};
use music_stream::audio::frame::FrameAssembler;
use music_stream::audio::opus::{check_frame, encoded_frame};
use music_stream::audio::pipeline::{FrameSink, SampleStage};
use music_stream::audio::resample::{
    self, ChannelPlan, FinishStep, InputPlan,
};
use music_stream::{
    AudioFormat, DecodePoll, DecodedChunk, DecoderBackend, ErrorCode, GainLevel,
    LibOpusEncoderConfig, MusicStreamError, OpusEncoderBackend, OpusFrame, PcmFrame,
    PipelineConfig, PlayoutPipeline, ReplayGainMetadata, ReplayGainMode, ReplayGainSource,
    RubatoResamplerConfig, RubatoResamplingDecoder, WorkerTurnReport,
};
use rubato::audioadapter_buffers::direct::InterleavedSlice;
use rubato::{
    calculate_cutoff, Async, FixedAsync, Indexing, Resampler, SincInterpolationParameters,
    SincInterpolationType, WindowFunction,
};

fn mean_downmix(frame: &[f32]) -> (f32, f32) {
    let surround_sum: f32 = frame[2..].iter().copied().sum();
    let surround = surround_sum * (0.5 / (frame.len() - 2) as f32);
    (
        (frame[0] + surround).clamp(-1.0, 1.0),
        (frame[1] + surround).clamp(-1.0, 1.0),
    )
}

#[test]
fn consecutive_decode_error_budget_is_bounded() {
    let mut budget = DecodeErrorBudget::default();
    let error = symphonia::core::errors::Error::DecodeError("corrupt");
    for _ in 0..MAX_CONSECUTIVE_DECODE_ERRORS {
        budget.record_message(&error.to_string()).expect("within budget");
    }
    let exceeded = budget
        .record_message(&error.to_string())
        .expect_err("budget exceeded");
    assert_eq!(exceeded.code(), ErrorCode::DecodeError);
    assert_eq!(
        exceeded.message(),
        format!("decode error: decoder exceeded 32 consecutive corrupt packets: {error}")
    );
    budget.reset();
    budget.record_message(&error.to_string()).expect("reset budget");
}

#[test]
fn expands_mono_to_stereo() {
    let output = to_stereo_interleaved(&[0.25, -0.5], 1, mean_downmix).expect("mono");
    assert_eq!(output, vec![0.25, 0.25, -0.5, -0.5]);
}

#[test]
fn keeps_stereo_interleaved() {
    let output =
        to_stereo_interleaved(&[0.1, 0.2, 0.3, 0.4], 2, mean_downmix).expect("stereo");
    assert_eq!(output, vec![0.1, 0.2, 0.3, 0.4]);
}

#[test]
fn downmixes_multichannel_without_changing_frame_count() {
    let output =
        to_stereo_interleaved(&[0.2, 0.4, 0.6, 0.8], 4, mean_downmix).expect("downmix");
    assert_eq!(output.len(), 2);
    assert!(output[0] > 0.5);
    assert!(output[1] > 0.7);
}

#[test]
fn stereo_conversion_rejects_impossible_layouts() {
    assert_eq!(
        to_stereo_interleaved(&[0.1], 0, mean_downmix).expect_err("no channels").message(),
        "invalid configuration: channel count must be greater than zero"
    );
    assert_eq!(
        to_stereo_interleaved(&[0.1; 4], 3, mean_downmix).expect_err("misaligned").message(),
        "invalid configuration: interleaved sample count must be divisible by channel count"
    );
    let whole = to_stereo_interleaved(&[1, 2, 3, 4, 5, 6], 3, |frame: &[i32]| {
        (frame[0] * 10, frame[2] * 10)
    })
    .expect("three channels");
    assert_eq!(whole, vec![10, 30, 40, 60]);
}

fn gain(centibels: i16) -> Option<GainLevel> {
    Some(GainLevel::from_centibels(centibels).expect("gain"))
}

#[test]
fn replay_gain_prefers_the_mode_and_falls_back_only_if_allowed() {
    let both = ReplayGainMetadata {
        track_gain: gain(-750),
        album_gain: gain(-500),
        track_peak: Some(0.5_f32),
        album_peak: Some(0.75),
    };
    assert_eq!(
        select_replay_gain(both, ReplayGainMode::Track, true).expect("track"),
        (ReplayGainSource::Track, gain(-750).expect("gain"), Some(0.5))
    );
    assert_eq!(
        select_replay_gain(both, ReplayGainMode::Album, false).expect("album"),
        (ReplayGainSource::Album, gain(-500).expect("gain"), Some(0.75))
    );
    let album_only = ReplayGainMetadata {
        track_gain: None,
        album_gain: gain(-400),
        track_peak: None,
        album_peak: Some(0.8_f32),
    };
    assert_eq!(
        select_replay_gain(album_only, ReplayGainMode::default(), true).expect("fallback"),
        (ReplayGainSource::Album, gain(-400).expect("gain"), Some(0.8))
    );
    let error = select_replay_gain(album_only, ReplayGainMode::Track, false)
        .expect_err("missing track gain");
    assert_eq!(error.code(), ErrorCode::InvalidConfig);
}

#[test]
fn assembler_reuses_storage_and_retains_only_the_tail() {
    let mut assembler = FrameAssembler::new(2, 4).expect("assembler");
    let mut frames = Vec::new();
    let first = [0.0, 0.1, 1.0, 1.1, 2.0, 2.1];
    assembler
        .process_interleaved(7, 48_000, &first)
        .expect("first chunk");
    assert_eq!(assembler.tail.len() / usize::from(assembler.channels), 3);
    let second = [3.0, 3.1, 4.0, 4.1, 5.0, 5.1];
    for frame in assembler
        .process_interleaved(7, 48_000, &second)
        .expect("second chunk")
    {
        frames.push((frame.track_position_samples, frame.samples.to_vec()));
    }
    assert_eq!(frames.len(), 1);
    assert_eq!(frames[0].0, 0);
    assert_eq!(frames[0].1, vec![0.0, 0.1, 1.0, 1.1, 2.0, 2.1, 3.0, 3.1]);
    assert_eq!(assembler.tail.len() / usize::from(assembler.channels), 2);
    assert_eq!(assembler.next_position_samples, 4);
}

#[test]
fn assembler_rejects_misaligned_interleaved_input() {
    let mut assembler = FrameAssembler::new(2, 4).expect("assembler");
    let samples = [0.0, 1.0, 2.0];
    assert!(assembler.process_interleaved(1, 48_000, &samples).is_err());
    assert_eq!(
        FrameAssembler::<f32>::new(0, 4).expect_err("no channels").code(),
        ErrorCode::InvalidConfig
    );
}

#[test]
fn assembler_zero_pads_the_final_partial_frame() {
    let mut assembler = FrameAssembler::new(2, 4).expect("assembler");
    let samples = [0.5, -0.5, 0.25, -0.25];
    assembler
        .process_interleaved(1, 48_000, &samples)
        .expect("partial input");
    let last = assembler.flush_padded(1, 48_000, 0.0).expect("flush");
    assert_eq!(
        last.samples,
        vec![0.5, -0.5, 0.25, -0.25, 0.0, 0.0, 0.0, 0.0]
    );
    assert!(assembler.flush_padded(1, 48_000, 0.0).is_none());
}

#[test]
fn assembler_keeps_every_sample_over_uneven_chunks() {
    let mut assembler = FrameAssembler::new_at(1, 3, 100).expect("assembler");
    let mut seen = Vec::new();
    for chunk in [vec![1, 2], vec![], vec![3, 4, 5, 6, 7], vec![8]] {
        for frame in assembler.process_interleaved(1, 8_000, &chunk).expect("chunk") {
            assert_eq!(frame.track_position_samples, 100 + seen.len() as u64);
            seen.extend(frame.samples);
        }
    }
    assert_eq!(seen, vec![1, 2, 3, 4, 5, 6]);
    assert_eq!(assembler.tail, vec![7, 8]);
}

struct FakeDecoder {
    polls: VecDeque<DecodePoll<f32>>,
}

impl DecoderBackend<f32> for FakeDecoder {
    fn poll_decode(&mut self) -> Result<DecodePoll<f32>, MusicStreamError> {
        Ok(self.polls.pop_front().unwrap_or(DecodePoll::End))
    }
}

struct FakeEncoder {
    fails: bool,
}

impl OpusEncoderBackend<f32> for FakeEncoder {
    fn encode(&mut self, frame: &PcmFrame<f32>) -> Result<OpusFrame, MusicStreamError> {
        if self.fails {
            return Err(MusicStreamError::EncodeError("injected".to_owned()));
        }
        Ok(OpusFrame {
            generation: frame.generation,
            payload: Bytes::from_static(b"opus"),
            samples_per_channel: frame.samples_per_channel,
            duration_ms: frame.duration_ms(),
            marker: frame.track_position_samples == 0,
            track_position_samples: frame.track_position_samples,
        })
    }
}

fn config() -> PipelineConfig {
    PipelineConfig {
        generation: 1,
        sample_rate: 48_000,
        channels: 2,
        frame_samples_per_channel: 960,
        decode_batch_ms: 80,
    }
}

fn chunk(frames: usize) -> DecodedChunk<f32> {
    DecodedChunk {
        sample_rate: 48_000,
        channels: 2,
        samples_interleaved: vec![0.25; frames * 960 * 2],
    }
}

struct Unscaled;

impl SampleStage<f32> for Unscaled {
    fn apply(&self, _samples: &mut Vec<f32>) {}
}

#[derive(Default)]
struct Collected {
    frames: Vec<OpusFrame>,
}

impl FrameSink for Collected {
    fn emit(&mut self, frame: OpusFrame) -> Result<(), MusicStreamError> {
        self.frames.push(frame);
        Ok(())
    }
}

fn process_turn(
    pipeline: &mut PlayoutPipeline<f32>,
    decoder: &mut impl DecoderBackend<f32>,
    encoder: &mut FakeEncoder,
    mut emit: impl FnMut(OpusFrame),
) -> Result<WorkerTurnReport, MusicStreamError> {
    let mut sink = Collected::default();
    let report = pipeline.process_turn(decoder, encoder, &Unscaled, &mut sink, 0.0);
    sink.frames.into_iter().for_each(&mut emit);
    report
}

#[test]
fn emits_directly_without_an_internal_encoded_queue() {
    let mut decoder = MemoryDecoder::new(VecDeque::from([chunk(3)]));
    let mut pipeline = PlayoutPipeline::new(config()).expect("pipeline");
    let mut output = Vec::new();
    let report = process_turn(
        &mut pipeline,
        &mut decoder,
        &mut FakeEncoder { fails: false },
        |frame| output.push(frame),
    )
    .expect("turn");
    assert_eq!(report.opus_frames, 3);
    assert_eq!(output.len(), 3);
    assert_eq!(output[2].track_position_samples, 1_920);
    assert_eq!(output[2].duration_ms, 20);
}

#[test]
fn need_more_returns_without_spinning() {
    let mut decoder = FakeDecoder {
        polls: VecDeque::from([DecodePoll::NeedMore]),
    };
    let mut pipeline = PlayoutPipeline::new(config()).expect("pipeline");
    let report = process_turn(
        &mut pipeline,
        &mut decoder,
        &mut FakeEncoder { fails: false },
        |_| {},
    )
    .expect("turn");
    assert!(report.source_need_more);
    assert!(!report.made_progress());
}

#[test]
fn rejects_non_normalized_input() {
    let mut decoder = MemoryDecoder::new(VecDeque::from([DecodedChunk {
        sample_rate: 44_100,
        channels: 2,
        samples_interleaved: vec![0.0; 1_920],
    }]));
    let mut pipeline = PlayoutPipeline::new(config()).expect("pipeline");
    assert!(process_turn(
        &mut pipeline,
        &mut decoder,
        &mut FakeEncoder { fails: false },
        |_| {},
    )
    .is_err());
}

#[test]
fn pads_and_emits_a_final_partial_frame() {
    let mut decoder = MemoryDecoder::new(VecDeque::from([DecodedChunk {
        sample_rate: 48_000,
        channels: 2,
        samples_interleaved: vec![0.25; 480 * 2],
    }]));
    let mut pipeline = PlayoutPipeline::new(config()).expect("pipeline");
    let mut output = Vec::new();
    let report = process_turn(
        &mut pipeline,
        &mut decoder,
        &mut FakeEncoder { fails: false },
        |frame| output.push(frame),
    )
    .expect("turn");
    assert!(report.source_ended);
    assert_eq!(report.opus_frames, 1);
    assert_eq!(output.len(), 1);

    // The end is reported again without asking the decoder.
    let again = process_turn(
        &mut pipeline,
        &mut FakeDecoder { polls: VecDeque::from([DecodePoll::Chunk(chunk(1))]) },
        &mut FakeEncoder { fails: false },
        |_| {},
    )
    .expect("turn");
    assert_eq!(again.decoded_chunks, 0);
    assert!(again.source_ended);
}

#[test]
fn a_held_over_frame_that_fails_comes_out_again() {
    let half = || DecodedChunk {
        sample_rate: 48_000,
        channels: 2,
        samples_interleaved: vec![0.5; 480 * 2],
    };
    let mut pipeline = PlayoutPipeline::new(config()).expect("pipeline");
    let mut decoder = FakeDecoder {
        polls: VecDeque::from([
            DecodePoll::Chunk(half()),
            DecodePoll::Chunk(half()),
            DecodePoll::NeedMore,
        ]),
    };
    assert_eq!(
        process_turn(&mut pipeline, &mut decoder, &mut FakeEncoder { fails: true }, |_| {})
            .expect_err("encoder fails")
            .code(),
        ErrorCode::EncodeError
    );
    assert!(!pipeline.source_ended());
    let mut decoder = FakeDecoder { polls: VecDeque::from([DecodePoll::End]) };
    let mut output = Vec::new();
    process_turn(
        &mut pipeline,
        &mut decoder,
        &mut FakeEncoder { fails: false },
        |frame| output.push(frame),
    )
    .expect("turn");
    assert_eq!(output.len(), 1);
    assert_eq!(output[0].track_position_samples, 0);
}

#[test]
fn turns_keep_every_sample_and_stop_after_a_batch() {
    let part = |frames: usize| {
        DecodePoll::Chunk(DecodedChunk {
            sample_rate: 48_000,
            channels: 2,
            samples_interleaved: vec![0.5; frames * 2],
        })
    };
    let mut pipeline = PlayoutPipeline::new(config()).expect("pipeline");
    let mut decoder = FakeDecoder {
        polls: VecDeque::from([part(2_000), part(1_500), part(1_000), part(100)]),
    };
    let mut output = Vec::new();
    let first = process_turn(
        &mut pipeline,
        &mut decoder,
        &mut FakeEncoder { fails: false },
        |frame| output.push(frame),
    )
    .expect("turn");
    // 41 ms, 31 ms and 20 ms reach the batch of 80 ms; the last chunk waits.
    assert_eq!(first.decoded_chunks, 3);
    assert_eq!(first.pcm_frames, 4);
    assert!(!first.source_ended && !first.source_need_more);
    assert_eq!(pipeline.assembler.tail.len(), 2 * (4_500 - 4 * 960));
    assert_eq!(decoder.polls.len(), 1);

    let second = process_turn(
        &mut pipeline,
        &mut decoder,
        &mut FakeEncoder { fails: false },
        |frame| output.push(frame),
    )
    .expect("turn");
    assert_eq!(second.decoded_chunks, 1);
    assert_eq!(second.pcm_frames, 1);
    assert!(second.source_ended);
    assert!(pipeline.assembler.tail.is_empty());
    assert_eq!(output.len(), 5);
    assert_eq!(output[4].track_position_samples, 4 * 960);
}

#[test]
fn a_turn_counts_every_chunk_or_fails() {
    let mut pipeline = PlayoutPipeline::new(config()).expect("pipeline");
    let mut turn = pipeline.begin_turn();
    turn.report.decoded_chunks = usize::MAX - 1;
    assert!(pipeline.on_poll(&mut turn, DecodePoll::Chunk(chunk(0)), 0.0).is_ok());
    assert_eq!(turn.report.decoded_chunks, usize::MAX);
    assert_eq!(
        pipeline
            .on_poll(&mut turn, DecodePoll::Chunk(chunk(0)), 0.0)
            .expect_err("uncounted")
            .code(),
        ErrorCode::DecodeError
    );
    assert!(pipeline.on_poll(&mut turn, DecodePoll::End, 0.0).is_ok());
    assert!(turn.report.source_ended);
}

struct Doubling;

impl SampleStage<f32> for Doubling {
    fn apply(&self, samples: &mut Vec<f32>) {
        samples.iter_mut().for_each(|sample| *sample *= 2.0);
    }
}

struct Closed;

impl FrameSink for Closed {
    fn emit(&mut self, _frame: OpusFrame) -> Result<(), MusicStreamError> {
        Err(MusicStreamError::StreamClosed("output is gone".to_owned()))
    }
}

#[test]
fn a_sink_that_fails_ends_the_turn_with_its_error() {
    let mut pipeline = PlayoutPipeline::new(config()).expect("pipeline");
    let half = || {
        DecodePoll::Chunk(DecodedChunk {
            sample_rate: 48_000,
            channels: 2,
            samples_interleaved: vec![0.25; 480 * 2],
        })
    };
    let mut decoder = FakeDecoder { polls: VecDeque::from([half(), half()]) };
    let error = pipeline
        .process_turn(
            &mut decoder,
            &mut FakeEncoder { fails: false },
            &Doubling,
            &mut Closed,
            0.0,
        )
        .expect_err("closed");
    assert_eq!(error.code(), ErrorCode::StreamClosed);
    assert!(!pipeline.source_ended());
    // The frame began in an earlier chunk, so it is kept as the stage left it.
    assert_eq!(pipeline.assembler.tail, vec![0.5; 960 * 2]);
    assert_eq!(pipeline.assembler.next_position_samples, 0);
}

#[test]
fn pipeline_settings_must_fit_one_frame_per_batch() {
    assert!(config().validate().is_ok());
    let text = |config: PipelineConfig| config.validate().expect_err("invalid").message();
    assert_eq!(
        text(PipelineConfig { generation: 0, ..config() }),
        "invalid configuration: pipeline generation, format, frame size and batch must be non-zero"
    );
    assert_eq!(
        text(PipelineConfig { decode_batch_ms: 19, ..config() }),
        "invalid configuration: decode batch must fit at least one output frame"
    );
    assert!(PipelineConfig { decode_batch_ms: 20, ..config() }.validate().is_ok());
    assert!(PipelineConfig { frame_samples_per_channel: 47, ..config() }.validate().is_err());
}

#[test]
fn chunk_durations_round_down_to_milliseconds() {
    assert_eq!(chunk(3).samples_per_channel(), 2_880);
    assert_eq!(chunk(3).duration_ms(), 60);
    let mut odd = chunk(0);
    odd.samples_interleaved = vec![0.0; 95];
    assert_eq!(odd.samples_per_channel(), 47);
    assert_eq!(odd.duration_ms(), 0);
    odd.channels = 0;
    assert_eq!(odd.samples_per_channel(), 0);
    odd.sample_rate = 0;
    assert_eq!(odd.duration_ms(), 0);
}

#[test]
fn corrupt_packets_are_skipped_and_good_ones_restore_the_budget() {
    let mut track = TrackDecode::new(3);
    assert!(matches!(track.on_packet(PacketRead::Packet { track_id: 3 }), PacketStep::Decode));
    assert!(matches!(track.on_packet(PacketRead::Packet { track_id: 4 }), PacketStep::Skip));
    assert!(matches!(track.on_packet(PacketRead::End), PacketStep::Finish));
    assert!(matches!(
        track.on_packet(PacketRead::Failed(CodecFailure::ResetRequired)),
        PacketStep::Reset
    ));
    assert!(matches!(
        track.on_packet(PacketRead::Failed(CodecFailure::Io("eof".to_owned()))),
        PacketStep::Fail(MusicStreamError::DecodeError(text)) if text == "eof"
    ));
    let corrupt = || PacketDecoded::<f32>::Failed(CodecFailure::Decode("bad".to_owned()));
    for _ in 0..32 {
        assert!(matches!(track.on_decoded(corrupt()), DecodeStep::Continue));
    }
    assert!(matches!(
        track.on_decoded(PacketDecoded::Chunk(chunk(1))),
        DecodeStep::Emit(_)
    ));
    for _ in 0..32 {
        assert!(matches!(track.on_decoded(corrupt()), DecodeStep::Continue));
    }
    assert!(matches!(track.on_decoded(PacketDecoded::<f32>::Nothing), DecodeStep::Continue));
    assert!(matches!(track.on_decoded(corrupt()), DecodeStep::Fail(_)));
    assert!(matches!(
        track.on_decoded(PacketDecoded::<f32>::Failed(CodecFailure::ResetRequired)),
        DecodeStep::Reset
    ));
    assert!(matches!(
        track.on_decoded(PacketDecoded::<f32>::Failed(CodecFailure::Limit("big".to_owned()))),
        DecodeStep::Fail(MusicStreamError::DecodeError(_))
    ));
}

#[test]
fn codec_failures_keep_their_words() {
    let text = |failure| codec_error(failure).message();
    assert_eq!(text(CodecFailure::Unsupported("codec".to_owned())), "decode error: codec");
    assert_eq!(text(CodecFailure::Seek("Unseekable".to_owned())), "track is not seekable: Unseekable");
    assert_eq!(text(CodecFailure::ResetRequired), "decode error: decoder reset required");
    assert_eq!(text(CodecFailure::Other), "decode error: unknown symphonia decode error");
}

#[test]
fn packet_trims_never_exceed_the_packet() {
    assert_eq!(trimmed_range(960, 2, 0, 0), Some((0, 1_920)));
    assert_eq!(trimmed_range(960, 2, 312, 0), Some((624, 1_920)));
    assert_eq!(trimmed_range(960, 2, 312, 648), None);
    assert_eq!(trimmed_range(960, 1, 10, 20), Some((10, 940)));
    assert_eq!(trimmed_range(960, 2, u64::MAX, u64::MAX), None);
    assert_eq!(opus_input_channels(2).expect("stereo"), 2);
    assert_eq!(opus_input_channels(6).expect_err("surround").code(), ErrorCode::Unsupported);
    assert_eq!(seek_target_nanos(0), None);
    assert_eq!(seek_target_nanos(100), Some(100_000_000));
    assert_eq!(seek_target_nanos(u64::MAX), Some(u64::MAX));
}

fn pcm(samples: Vec<f32>, samples_per_channel: u32) -> PcmFrame<f32> {
    PcmFrame {
        generation: 1,
        samples_per_channel,
        sample_rate: 48_000,
        channels: 2,
        track_position_samples: 0,
        samples,
    }
}

#[test]
fn libopus_encoder_rejects_format_mismatch() {
    let config = LibOpusEncoderConfig::default();
    let mut frame = pcm(vec![0.0; 960 * 2], 960);
    assert!(check_frame(&config, &frame).is_ok());
    frame.sample_rate = 44_100;

    let error = check_frame(&config, &frame).expect_err("format mismatch");
    assert_eq!(error.code(), ErrorCode::EncodeError);
    assert_eq!(
        check_frame(&config, &pcm(vec![0.0; 3], 960)).expect_err("short").message(),
        "encode error: PCM frame sample count does not match frame metadata"
    );
}

#[test]
fn encoded_frames_carry_their_bytes_and_metadata() {
    let mut frame = pcm(vec![0.0; 960 * 2], 960);
    let first = encoded_frame(&frame, &[1, 2, 3]);
    assert_eq!(first.payload, Bytes::from_static(&[1, 2, 3]));
    assert_eq!(first.duration_ms, 20);
    assert!(first.marker);
    frame.track_position_samples = 960;
    assert!(!encoded_frame(&frame, &[]).marker);
}

#[test]
fn encoder_settings_are_checked_in_order() {
    let usual = LibOpusEncoderConfig::default();
    assert!(usual.validate().is_ok());
    let text = |config: LibOpusEncoderConfig| config.validate().expect_err("invalid").message();
    assert_eq!(
        text(LibOpusEncoderConfig { sample_rate: 44_100, ..usual }),
        "invalid configuration: Opus RTP output requires 48kHz input"
    );
    assert_eq!(
        text(LibOpusEncoderConfig { channels: 3, ..usual }),
        "invalid configuration: Opus encoder supports mono or stereo input"
    );
    assert_eq!(
        text(LibOpusEncoderConfig { max_packet_bytes: 0, ..usual }),
        "invalid configuration: max_packet_bytes must be greater than zero"
    );
    assert_eq!(
        text(LibOpusEncoderConfig { complexity: 11, ..usual }),
        "invalid configuration: Opus complexity must be between 0 and 10"
    );
    assert_eq!(
        text(LibOpusEncoderConfig { bitrate_bps: Some(499), ..usual }),
        "invalid configuration: Opus bitrate must be between 500 and 512000 bps"
    );
    assert!(LibOpusEncoderConfig { bitrate_bps: None, ..usual }.validate().is_ok());
}

fn stereo_48k() -> RubatoResamplerConfig {
    RubatoResamplerConfig::new(AudioFormat {
        sample_rate: 48_000,
        channels: 2,
    })
}

fn run_resampler(
    state: &mut RubatoResamplingDecoder<f32>,
    resampler: &mut Async<f32>,
    partial_len: Option<usize>,
) {
    let channels = usize::from(state.config.target.channels);
    let waiting = state.pending_input_frames();
    let capacity = resampler.output_frames_next();
    let mut output = vec![0.0_f32; capacity * channels];
    let input = InterleavedSlice::new(&state.pending_input, channels, waiting).expect("input");
    let mut target =
        InterleavedSlice::new_mut(&mut output, channels, capacity).expect("output");
    let indexing = partial_len.map(|partial_len| Indexing {
        input_offset: 0,
        output_offset: 0,
        partial_len: Some(partial_len),
        active_channels_mask: None,
    });
    let (used, written) = resampler
        .process_into_buffer(&input, &mut target, indexing.as_ref())
        .expect("resample");
    state.processed(partial_len, used, &output, written);
}

#[test]
fn resampling_decoder_converts_44100_mono_to_48000_stereo() {
    let frames = 4_410;
    let source: Vec<f32> = (0..frames)
        .map(|index| ((index as f32) / 32.0).sin() * 0.5)
        .collect();
    let mut state = RubatoResamplingDecoder::new(stereo_48k()).expect("resampling decoder");
    assert_eq!(state.channel_plan(1).expect("plan"), ChannelPlan::Stereo);
    let normalized = to_stereo_interleaved(&source, 1, mean_downmix).expect("stereo");
    assert_eq!(state.input_plan(44_100).expect("plan"), InputPlan::MakeResampler);
    let config = state.config;
    let params = SincInterpolationParameters {
        sinc_len: config.sinc_len,
        f_cutoff: calculate_cutoff(config.sinc_len, WindowFunction::Blackman2),
        interpolation: SincInterpolationType::Quadratic,
        oversampling_factor: config.oversampling_factor,
        window: WindowFunction::Blackman2,
    };
    let mut resampler = Async::<f32>::new_sinc(
        48_000.0 / 44_100.0,
        f64::from(config.max_resample_ratio_permille) / 1_000.0,
        &params,
        config.chunk_frames,
        2,
        FixedAsync::Input,
    )
    .expect("resampler");
    state.resampler_ready(44_100, resampler.output_delay());
    state.queue_input(normalized);
    while state.has_full_chunk(resampler.input_frames_next()) {
        run_resampler(&mut state, &mut resampler, None);
    }
    state.end_source();
    while let FinishStep::Process(pending) = state.finish_step() {
        run_resampler(&mut state, &mut resampler, Some(pending));
    }

    let mut output_frames = 0;
    loop {
        match state.ready_poll().expect("answer") {
            DecodePoll::Chunk(chunk) => {
                assert_eq!(chunk.sample_rate, 48_000);
                assert_eq!(chunk.channels, 2);
                assert_eq!(chunk.samples_interleaved.len() % 2, 0);
                output_frames += chunk.samples_per_channel();
            }
            DecodePoll::NeedMore => panic!("the source has ended"),
            DecodePoll::End => break,
        }
    }

    assert_eq!(output_frames, 4_800);
    assert_eq!(state.expected_output_frames().expect("known rate"), 4_800);
}

#[test]
fn resampling_decoder_passes_through_matching_sample_rate() {
    let mut state = RubatoResamplingDecoder::new(stereo_48k()).expect("resampling decoder");
    assert_eq!(state.input_plan(48_000).expect("plan"), InputPlan::PassThrough);
    state.pass_through(to_stereo_interleaved(&[0.25, -0.25], 1, mean_downmix).expect("stereo"));

    let chunk = match state.ready_poll() {
        Some(DecodePoll::Chunk(chunk)) => chunk,
        other => panic!("unexpected poll: {other:?}"),
    };

    assert_eq!(chunk.samples_interleaved, vec![0.25, 0.25, -0.25, -0.25]);
    assert!(state.ready_poll().is_none());
    state.end_source();
    assert_eq!(state.finish_step(), FinishStep::Done);
    assert_eq!(state.ready_poll(), Some(DecodePoll::End));
}

#[test]
fn resampled_output_skips_the_delay_and_ends_with_the_source() {
    let config = RubatoResamplerConfig::new(AudioFormat { sample_rate: 2, channels: 1 });
    let mut state = RubatoResamplingDecoder::new(config).expect("state");
    state.resampler_ready(1, 2);
    state.queue_input(vec![7, 8]);
    state.processed(None, 1, &[0, 0, 1, 2], 4);
    assert_eq!(state.trim_output_frames_remaining, 0);
    assert_eq!(state.output_frames_emitted, 2);
    assert_eq!(state.pending_input, vec![8]);
    state.end_source();
    assert_eq!(state.finish_step(), FinishStep::Process(1));
    state.processed(Some(1), 0, &[3, 4, 5, 6], 4);
    assert_eq!(state.output_frames_emitted, 4);
    assert_eq!(state.finish_step(), FinishStep::Done);
    let mut all = Vec::new();
    while let Some(DecodePoll::Chunk(chunk)) = state.ready_poll() {
        all.extend(chunk.samples_interleaved);
    }
    assert_eq!(all, vec![1, 2, 3, 4]);
}

#[test]
fn resampler_settings_and_inputs_are_checked() {
    let usual = stereo_48k();
    assert_eq!(usual.interpolation, resample::SincInterpolationType::Quadratic);
    assert_eq!(usual.window, resample::WindowFunction::Blackman2);
    let text = |config: RubatoResamplerConfig| config.validate().expect_err("invalid").message();
    assert!(usual.validate().is_ok());
    assert_eq!(
        text(RubatoResamplerConfig { target: AudioFormat { sample_rate: 0, channels: 2 }, ..usual }),
        "invalid configuration: target sample_rate must be greater than zero"
    );
    assert_eq!(
        text(RubatoResamplerConfig { target: AudioFormat { sample_rate: 1, channels: 0 }, ..usual }),
        "invalid configuration: target channels must be greater than zero"
    );
    assert_eq!(
        text(RubatoResamplerConfig { chunk_frames: 0, ..usual }),
        "invalid configuration: rubato chunk_frames must be greater than zero"
    );
    assert_eq!(
        text(RubatoResamplerConfig { max_resample_ratio_permille: 1_000, ..usual }),
        "invalid configuration: max_resample_ratio_relative must be greater than 1.0"
    );
    assert_eq!(
        text(RubatoResamplerConfig { sinc_len: 0, ..usual }),
        "invalid configuration: sinc_len must be greater than zero"
    );
    assert_eq!(
        text(RubatoResamplerConfig { oversampling_factor: 0, ..usual }),
        "invalid configuration: oversampling_factor must be greater than zero"
    );
    let mono = RubatoResamplerConfig::new(AudioFormat { sample_rate: 48_000, channels: 6 });
    let mut state = RubatoResamplingDecoder::<f32>::new(mono).expect("state");
    assert_eq!(state.channel_plan(6).expect("same"), ChannelPlan::Keep);
    assert_eq!(
        state.channel_plan(2).expect_err("upmix").message(),
        "operation is not supported: channel normalization to 6 channels is not supported"
    );
    assert_eq!(
        state.expected_output_frames().expect_err("no rate").code(),
        ErrorCode::Internal
    );
    state.resampler_ready(44_100, 0);
    assert_eq!(state.input_plan(44_100).expect("same rate"), InputPlan::Resample);
    assert_eq!(
        state.input_plan(22_050).expect_err("changed rate").message(),
        "resample error: decoder changed sample rate mid-stream"
    );
    assert_eq!(state.target().channels, 6);
}
