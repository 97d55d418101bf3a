use std::collections::VecDeque;

use bytes::Bytes;
use music_stream::audio::decode::MemoryDecoder;
use music_stream::audio::opus::{OPUS_FRAME_SAMPLES, OPUS_SAMPLE_RATE_HZ};
use music_stream::audio::pipeline::{FrameSink, SampleStage};
use music_stream::control::{GateStep, PauseGate};
use music_stream::runtime::config::{validate_stream_id, SourceLimits};
use music_stream::runtime::deadlines::{StartupDeadlineKey, StartupDeadlines};
use music_stream::runtime::opus_queue::{Offer, OpusQueue};
use music_stream::runtime::orchestration::{
    check_start, first_failure, opening_commands, plan_action, plan_command, plan_worker_event,
    runtime_snapshot, step_context, RuntimeStep,
};
use music_stream::runtime::playout_clock::{duration_for_samples, PlayoutClock};
use music_stream::runtime::producer::{
    decoding_ended, emit_stop_error, fetching_ended, job_slot_step, preload_slot_step,
    producer_failure, resolve_step, role_name, stop_error, ArtifactRoute, CpuRun, CpuScheduler,
    CpuStep, EmitAction, EmitEvent, EmitPhase, EmitStop, HlsPlaylistKind, MediaControl, ProducerJob, ProducerRole, ResolveStep,
    SharedUrlSetup, SlotStep, SlotWait, SourceEnd, SourceFirst, SourceRoute, StopProblem,
    TurnOutcome,
};
use music_stream::runtime::resources::{default_max_cpu_workers, SourceDiagnostics};
use music_stream::runtime::timing::{
    timing_bucket, RuntimePerformanceCounters, RuntimeTimingCounter, RuntimeTimingSnapshot,
};
use music_stream::runtime::worker_events::{
    emit_worker_event, flush_worker_events, PendingWorkerEvents,
};
use music_stream::runtime::external_pull::EventBacklog;
use music_stream::{
    DecodedChunk, ErrorCode, GainLevel, MediaBufferConfig, MusicStreamError, NetworkPolicy,
    OpusEncoderBackend, OpusFrame, PcmFrame, PipelineConfig, PlayState, PlayoutPipeline,
    RtcpNetworkQualityLevel, RtcpQualityWindowSnapshot, RtpTransportConfig, RuntimeResourceLimits,
    RuntimeResources, SourceRole, StreamActor, StreamCommand, StreamOutputConfig,
    StreamRuntimeConfig, StreamRuntimeProgress, TaskAction, TrackKind, TrackSource, VolumeLevel,
    WorkerEvent, WorkerTurnReport,
};
use tokio::sync::mpsc;

const MILLI: u128 = 1_000_000;

fn track(id: &str) -> TrackSource {
    TrackSource {
        attempt_id: format!("attempt-{id}"),
        id: id.to_owned(),
        kind: TrackKind::File,
        url: None,
        path: Some(format!("/tmp/{id}.mp3")),
        format_hint: None,
        seekable: Some(true),
        headers: Default::default(),
        network_policy: NetworkPolicy::Provider,
    }
}

fn url_track(url: &str, kind: TrackKind) -> TrackSource {
    TrackSource {
        kind,
        url: Some(url.to_owned()),
        path: None,
        ..track("url")
    }
}

fn frame(duration_ms: u64) -> OpusFrame {
    OpusFrame {
        generation: 1,
        payload: Bytes::from_static(b"opus"),
        samples_per_channel: 960,
        duration_ms,
        marker: false,
        track_position_samples: 0,
    }
}

fn limits() -> RuntimeResourceLimits {
    RuntimeResourceLimits::for_parallelism(4)
}

const SOURCE: SourceLimits = SourceLimits {
    live_max_buffered_bytes: 1_048_576,
    http_max_bytes: 64 * 1_048_576,
};

fn rtp() -> StreamRuntimeConfig {
    StreamRuntimeConfig::new(
        RtpTransportConfig {
            remote_ip: "127.0.0.1".to_owned(),
            remote_port: 5_000,
            ssrc: 42,
            mtu: 1_200,
            plaintext: true,
        },
        SOURCE,
        limits(),
    )
}

// ---- limits, permits and timings ----

#[test]
fn default_cpu_budget_reserves_system_headroom() {
    assert_eq!(default_max_cpu_workers(1), 1);
    assert_eq!(default_max_cpu_workers(2), 1);
    assert_eq!(default_max_cpu_workers(4), 3);
    assert_eq!(default_max_cpu_workers(12), 11);
    assert_eq!(default_max_cpu_workers(512), 256);
}

#[test]
fn runtime_resources_reject_zero_download_concurrency() {
    let error = RuntimeResources::new(
        RuntimeResourceLimits {
            max_concurrent_http_downloads: 0,
            ..limits()
        },
        4,
    )
    .expect_err("zero download slots must fail");

    assert_eq!(error.code(), ErrorCode::InvalidConfig);
}

#[test]
fn every_limit_is_checked() {
    let usual = limits();
    assert!(usual.validate().is_ok());
    for broken in [
        RuntimeResourceLimits { max_streams: 0, ..usual },
        RuntimeResourceLimits { max_streams: usize::MAX, ..usual },
        RuntimeResourceLimits { max_cpu_workers: 0, ..usual },
        RuntimeResourceLimits { max_cpu_workers: 65, ..usual },
        RuntimeResourceLimits { max_blocking_producers: 0, ..usual },
        RuntimeResourceLimits { max_blocking_preloads: 0, ..usual },
        RuntimeResourceLimits { max_blocking_preloads: 64, ..usual },
        RuntimeResourceLimits { max_concurrent_http_downloads: 1, ..usual },
        RuntimeResourceLimits { max_concurrent_live_streams: 0, ..usual },
        RuntimeResourceLimits { max_live_buffered_bytes: 0, ..usual },
        RuntimeResourceLimits { max_live_buffered_bytes: 4_294_967_296, ..usual },
        RuntimeResourceLimits { max_tempfile_bytes: 2_097_151, ..usual },
    ] {
        assert!(broken.validate().is_err());
    }
}

#[test]
fn limits_follow_the_number_of_cpu_workers() {
    let mut all = limits();
    assert_eq!((all.max_blocking_producers, all.max_blocking_preloads), (64, 16));
    all.set_max_cpu_workers_with_blocking_defaults(30);
    assert_eq!((all.max_cpu_workers, all.max_blocking_producers), (30, 120));
    assert_eq!(all.max_blocking_preloads, 30);
    all.set_max_blocking_producers_with_preload_default(3);
    assert_eq!((all.max_blocking_producers, all.max_blocking_preloads), (3, 1));
    assert_eq!(RuntimeResourceLimits::blocking_defaults(usize::MAX), (256, 64));
}

#[test]
fn runtime_timing_counter_exposes_bounded_percentiles() {
    let mut counter = RuntimeTimingCounter::default();
    for elapsed_us in 1..=100 {
        counter.record(elapsed_us * 1_000);
    }

    assert_eq!(
        counter.snapshot(),
        RuntimeTimingSnapshot {
            samples: 100,
            total_us: 5_050,
            max_us: 100,
            p50_us: 55,
            p95_us: 95,
            p99_us: 100,
        }
    );
}

#[test]
fn timing_buckets_are_quarters_of_powers_of_two() {
    assert_eq!(timing_bucket(0), 0);
    assert_eq!(timing_bucket(1), 0);
    assert_eq!(timing_bucket(2), 4);
    assert_eq!(timing_bucket(3), 6);
    assert_eq!(timing_bucket(79), 24);
    assert_eq!(timing_bucket(80), 25);
    assert_eq!(timing_bucket(u64::MAX), 255);
    assert_eq!(RuntimeTimingCounter::default().snapshot().p99_us, 0);
}

#[test]
fn performance_counters_are_kept_apart_by_role() {
    let mut counters = RuntimePerformanceCounters::default();
    counters.record_blocking_admission_wait(true, 5_000);
    counters.record_blocking_admission_wait(false, 6_000);
    counters.record_blocking_start_wait(7_000);
    counters.record_cpu_wait(true, 8_000);
    counters.record_cpu_wait(false, 9_000);
    counters.record_cpu_hold(true, 10_000);
    counters.record_cpu_hold(false, 11_000);
    counters.record_source_wait(12_000);
    counters.record_output_wait(13_000);
    let totals = [
        counters.blocking_current_admission_wait.total_us,
        counters.blocking_next_admission_wait.total_us,
        counters.blocking_start_wait.total_us,
        counters.cpu_current_wait.total_us,
        counters.cpu_next_wait.total_us,
        counters.cpu_current_hold.total_us,
        counters.cpu_next_hold.total_us,
        counters.source_wait.total_us,
        counters.output_wait.total_us,
    ];
    assert_eq!(totals, [5, 6, 7, 8, 9, 10, 11, 12, 13]);
}

#[test]
fn stream_admission_is_hard_bounded_and_reusable() {
    let resources = RuntimeResources::new(
        RuntimeResourceLimits {
            max_streams: 1,
            ..limits()
        },
        4,
    )
    .expect("resources");
    let first = resources.admit_stream().expect("first stream");
    assert!(std::sync::Arc::ptr_eq(first.semaphore(), &resources.streams));
    assert_eq!(first.num_permits(), 1);
    assert_eq!(
        resources.admit_stream().expect_err("full").message(),
        "operation is busy: stream limit 1 is exhausted"
    );
    drop(first);
    assert!(resources.admit_stream().is_ok());
}

#[test]
fn resource_snapshot_reports_effective_cpu_headroom() {
    let resources = RuntimeResources::new(
        RuntimeResourceLimits {
            max_cpu_workers: 1,
            ..limits()
        },
        4,
    )
    .expect("resources");
    let _stream = resources.admit_stream().expect("stream");
    let snapshot = resources.snapshot(
        &RuntimePerformanceCounters::default(),
        &CpuScheduler::with_maximum(1),
        SourceDiagnostics {
            live_bytes_available: 5,
            artifact_cache_entries: 6,
            artifact_cache_retained_quota_bytes: 7,
            download_registry_entries: 8,
            live_download_flights: 9,
        },
    );

    assert_eq!(snapshot.cpu_workers_maximum, 1);
    assert!(snapshot.cpu_parallelism >= 1);
    assert_eq!(
        snapshot.cpu_system_headroom,
        snapshot.cpu_parallelism.saturating_sub(1)
    );
    assert_eq!(snapshot.streams_available, 1_023);
    assert_eq!(snapshot.http_downloads_available, 8);
    assert_eq!(snapshot.http_preloads_available, 7);
    assert_eq!(snapshot.tempfile_quota_units_available, 1_024);
    assert_eq!(snapshot.tempfile_preload_units_available, 256);
    assert_eq!(snapshot.blocking_producers_available, 64);
    assert_eq!(snapshot.blocking_preloads_available, 16);
    assert_eq!(snapshot.live_streams_available, 64);
    assert_eq!(snapshot.live_download_flights, 9);
    assert_eq!(resources.limits().max_cpu_workers, 1);
}

// ---- settings ----

#[test]
fn default_runtime_uses_twenty_millisecond_opus_frames() {
    assert_eq!(OPUS_FRAME_SAMPLES * 1_000 / OPUS_SAMPLE_RATE_HZ, 20);
    assert_eq!(
        StreamRuntimeConfig::new_external_pull(SOURCE, limits()).opus_bitrate_bps,
        320_000
    );
}

#[test]
fn opus_bitrate_is_validated_independently_of_output_kind() {
    let mut rtp = rtp();
    rtp.opus_bitrate_bps = 499;
    assert_eq!(
        rtp.validate(Ok(()), Ok(())).expect_err("low RTP bitrate").code(),
        ErrorCode::InvalidConfig
    );

    let mut external = StreamRuntimeConfig::new_external_pull(SOURCE, limits());
    external.opus_bitrate_bps = 512_001;
    assert_eq!(
        external
            .validate(Ok(()), Ok(()))
            .expect_err("high external bitrate")
            .code(),
        ErrorCode::InvalidConfig
    );
}

#[test]
fn runtime_settings_are_checked_in_order() {
    let bad = || Err(MusicStreamError::InvalidConfig("bad".to_owned()));
    assert!(rtp().validate(Ok(()), Ok(())).is_ok());
    assert!(rtp().validate(bad(), Ok(())).is_err());
    let external = StreamRuntimeConfig::new_external_pull(SOURCE, limits());
    assert!(external.validate(bad(), Ok(())).is_ok());
    assert!(external.validate(Ok(()), bad()).is_err());

    let text = |config: StreamRuntimeConfig| {
        config.validate(Ok(()), Ok(())).expect_err("invalid").message()
    };
    let mut config = rtp();
    config.buffer.prebuffer_ms = 0;
    assert_eq!(
        text(config),
        "invalid configuration: media buffer durations must be greater than zero"
    );
    let mut config = rtp();
    config.source.live_max_buffered_bytes = 67_108_865;
    assert_eq!(
        text(config),
        "invalid configuration: per-stream live buffer must fit the runtime-wide streaming byte budget"
    );
    let mut config = rtp();
    config.source.http_max_bytes = 256 * 1_048_576 + 1;
    assert_eq!(
        text(config),
        "invalid configuration: per-source HTTP max bytes must not exceed one quarter of the runtime tempfile budget"
    );
    let mut config = rtp();
    config.source.http_max_bytes = 256 * 1_048_576;
    assert!(config.validate(Ok(()), Ok(())).is_ok());
    let mut config = rtp();
    config.rtcp_interval = 0;
    assert_eq!(text(config), "invalid configuration: RTCP interval must be greater than zero");
    let mut config = rtp();
    config.attempt_start_timeout = 900_000_000_001;
    assert_eq!(
        text(config),
        "invalid configuration: attempt startup timeout must be between 1 millisecond and 15 minutes"
    );
}

#[test]
fn encoder_packets_fit_the_output() {
    assert_eq!(rtp().encoder().max_packet_bytes, 1_188);
    let external = StreamRuntimeConfig::new_external_pull(SOURCE, limits());
    assert_eq!(external.encoder().bitrate_bps, Some(320_000));
    assert!(external.encoder().validate().is_ok());
    assert!(external.external_output().is_ok());
    assert_eq!(external.output, StreamOutputConfig::ExternalPull);
    assert_eq!(
        rtp().external_output().expect_err("rtp").message(),
        "operation is not supported: RTP streams do not expose external Opus frames"
    );
}

#[test]
fn protected_transports_are_refused() {
    if let StreamOutputConfig::Rtp(mut transport) = rtp().output {
        assert!(transport.require_plaintext().is_ok());
        transport.plaintext = false;
        assert_eq!(
            transport.require_plaintext().expect_err("protected").message(),
            "operation is not supported: RTP protection requires an installed packet protector"
        );
    }
}

#[test]
fn streams_start_only_with_valid_parts() {
    let start = |id: &str, current: TrackSource| check_start(id, current, &rtp(), Ok(()), Ok(()));
    assert!(validate_stream_id("s").is_ok());
    assert_eq!(
        start(" ", track("a")).expect_err("blank id").message(),
        "invalid configuration: stream id must contain 1 to 512 bytes"
    );
    assert!(start(&"x".repeat(513), track("a")).is_err());
    let live = start("s", url_track("http://a.test/x.m3u8", TrackKind::Url)).expect("playlist");
    assert_eq!(live.kind, TrackKind::Live);
    assert_eq!(
        start("s", url_track("a.test", TrackKind::Url)).expect_err("no scheme").code(),
        ErrorCode::InvalidSource
    );
    assert_eq!(
        check_start("s", track("a"), &rtp(), Err(MusicStreamError::InvalidConfig("t".to_owned())), Ok(()))
            .expect_err("transport")
            .message(),
        "invalid configuration: t"
    );
}

// ---- queue, clock and pause ----

#[test]
fn queues_without_a_limit_take_what_they_cannot_count() {
    let long = |duration_ms| OpusFrame {
        generation: 1,
        payload: Bytes::from_static(b"opus"),
        samples_per_channel: 960,
        duration_ms,
        marker: false,
        track_position_samples: 0,
    };
    let mut queue = OpusQueue::bounded(u64::MAX);
    assert!(matches!(queue.offer(long(u64::MAX - 1), false), Offer::Accepted));
    assert!(matches!(queue.offer(long(20), false), Offer::Accepted));
    assert_eq!(queue.snapshot().buffered_ms, u64::MAX);
    assert!(queue.try_recv().is_some());
    assert_eq!(queue.snapshot().buffered_ms, 1);
    assert!(queue.try_recv().is_some());
    assert_eq!(queue.snapshot().buffered_ms, 0);
}

#[test]
fn queue_is_bounded_by_media_duration() {
    let mut queue = OpusQueue::bounded(40);
    assert!(matches!(queue.offer(frame(20), false), Offer::Accepted));
    assert!(matches!(queue.offer(frame(20), false), Offer::Accepted));
    assert_eq!(queue.snapshot().buffered_ms, 40);
    assert!(matches!(queue.offer(frame(20), false), Offer::Wait(_)));
    assert_eq!(queue.try_recv().expect("queued frame").duration_ms, 20);
    assert_eq!(queue.snapshot().buffered_ms, 20);
}

#[test]
fn stale_drop_preserves_the_only_playable_frame() {
    let mut queue = OpusQueue::bounded(40);
    assert!(matches!(queue.offer(frame(20), false), Offer::Accepted));
    assert!(queue.try_drop_oldest_if_followed().is_none());

    assert!(matches!(queue.offer(frame(20), false), Offer::Accepted));
    assert_eq!(
        queue
            .try_drop_oldest_if_followed()
            .expect("stale frame")
            .duration_ms,
        20
    );
    assert_eq!(queue.snapshot().buffered_ms, 20);
}

#[test]
fn queue_closes_only_after_the_last_sender_guard_drops() {
    let mut queue = OpusQueue::bounded(40);
    queue.add_sender();
    assert!(!queue.drop_sender());
    assert!(!queue.snapshot().is_closed());
    assert!(queue.drop_sender());
    assert!(queue.snapshot().is_drained());
}

#[test]
fn queue_refuses_frames_that_nobody_can_take() {
    let mut queue = OpusQueue::bounded(40);
    assert!(matches!(
        queue.offer(frame(41), false),
        Offer::Rejected(MusicStreamError::InvalidConfig(_))
    ));
    assert!(matches!(
        queue.offer(frame(1), true),
        Offer::Rejected(MusicStreamError::StreamClosed(_))
    ));
    assert!(matches!(queue.offer(frame(30), false), Offer::Accepted));
    queue.drop_receiver();
    assert_eq!(queue.snapshot().buffered_ms, 0);
    assert!(matches!(
        queue.offer(frame(1), false),
        Offer::Rejected(MusicStreamError::StreamClosed(_))
    ));
}

#[test]
fn queued_frames_leave_in_order() {
    let mut queue = OpusQueue::bounded(100);
    for position in 0..3 {
        let mut next = frame(20);
        next.track_position_samples = position;
        assert!(matches!(queue.offer(next, false), Offer::Accepted));
    }
    for position in 0..3 {
        assert_eq!(queue.try_recv().expect("frame").track_position_samples, position);
    }
    assert!(queue.try_recv().is_none());
}

#[test]
fn repeated_subthreshold_stalls_accumulate_against_the_media_timeline() {
    let start: u128 = 1_000 * MILLI;
    let mut clock = PlayoutClock::default();
    clock.reanchor(start);
    clock.advance_samples(OPUS_FRAME_SAMPLES, start);

    // A no-burst output loop may rebase its local wake-up after every turn.
    // The media clock must nevertheless retain all three 40 ms deficits.
    for (sent_frames, now_ms) in [(2_u128, 60_u128), (3, 120), (4, 180)] {
        let now = start + now_ms * MILLI;
        assert_eq!(
            clock.lateness(now),
            (now_ms - (sent_frames - 1) * 20) * MILLI
        );
        clock.advance_samples(OPUS_FRAME_SAMPLES, now);
    }

    assert_eq!(clock.lateness(start + 180 * MILLI), 100 * MILLI);
    assert_eq!(clock.lateness(start + 200 * MILLI), 120 * MILLI);
}

#[test]
fn reanchor_excludes_pause_or_underrun_wall_time() {
    let start: u128 = 1_000 * MILLI;
    let mut clock = PlayoutClock::default();
    clock.reanchor(start);
    clock.advance_samples(OPUS_FRAME_SAMPLES, start);
    assert_eq!(clock.lateness(start + 5_000 * MILLI), 4_980 * MILLI);

    let resumed = start + 5_000 * MILLI;
    clock.reanchor(resumed);
    assert_eq!(clock.lateness(resumed), 0);
    assert_eq!(clock.deadline_with_tolerance(0, MILLI), resumed + MILLI);
    assert_eq!(PlayoutClock::default().deadline_with_tolerance(7, 3), 10);
    assert_eq!(PlayoutClock::default().lateness(7), 0);
    assert_eq!(duration_for_samples(1), 20_833);
}

#[test]
fn held_work_passes_only_when_resumed_and_not_cancelled() {
    let mut gate = PauseGate::default();
    assert_eq!(gate.step(false), GateStep::Pass);
    gate.pause();
    assert!(gate.is_paused());
    assert_eq!(gate.step(false), GateStep::Wait);
    assert_eq!(gate.step(true), GateStep::GiveUp);
    assert_eq!(gate.pause_step(true), GateStep::Pass);
    gate.resume();
    assert_eq!(gate.step(true), GateStep::GiveUp);
    assert_eq!(gate.pause_step(false), GateStep::Wait);
    assert_eq!(gate.pause_step(true), GateStep::GiveUp);
}

// ---- outboxes ----

#[test]
fn pending_event_cannot_be_overtaken_when_channel_capacity_returns() {
    let (sender, mut receiver) = mpsc::channel(1);
    sender
        .try_send(WorkerEvent::CurrentPrebufferReady { generation: 0 })
        .expect("fill channel");
    let mut pending = PendingWorkerEvents::default();
    emit_worker_event(
        &sender,
        &mut pending,
        WorkerEvent::CurrentPrebufferReady { generation: 1 },
    );

    assert!(matches!(
        receiver.try_recv(),
        Ok(WorkerEvent::CurrentPrebufferReady { generation: 0 })
    ));
    emit_worker_event(
        &sender,
        &mut pending,
        WorkerEvent::CurrentEnded { generation: 1 },
    );
    assert!(receiver.try_recv().is_err(), "new event bypassed backlog");

    flush_worker_events(&sender, &mut pending);
    assert!(matches!(
        receiver.try_recv(),
        Ok(WorkerEvent::CurrentPrebufferReady { generation: 1 })
    ));
    flush_worker_events(&sender, &mut pending);
    assert!(matches!(
        receiver.try_recv(),
        Ok(WorkerEvent::CurrentEnded { generation: 1 })
    ));
    assert!(pending.is_empty());
}

#[test]
fn output_failure_supersedes_all_pending_media_state() {
    let mut pending = PendingWorkerEvents::default();
    pending.store(WorkerEvent::CurrentPrebufferReady { generation: 1 });
    pending.store(WorkerEvent::CurrentEnded { generation: 1 });
    pending.store(WorkerEvent::CurrentNetworkQualityChanged {
        generation: 1,
        quality: RtcpNetworkQualityLevel::Good,
        snapshot: RtcpQualityWindowSnapshot::default(),
    });
    pending.store(WorkerEvent::OutputFailed {
        code: ErrorCode::OutputError,
        message: "socket closed".to_owned(),
    });
    pending.store(WorkerEvent::CurrentPrebufferReady { generation: 2 });

    assert!(matches!(
        pending.pop(),
        Some(WorkerEvent::OutputFailed {
            code: ErrorCode::OutputError,
            ..
        })
    ));
    assert!(pending.is_empty());
}

#[test]
fn closed_channel_discards_pending_events() {
    let (sender, receiver) = mpsc::channel(1);
    let mut pending = PendingWorkerEvents::default();
    pending.store(WorkerEvent::CurrentEnded { generation: 1 });
    drop(receiver);

    flush_worker_events(&sender, &mut pending);

    assert!(pending.is_empty());
}

#[test]
fn pending_events_leave_by_slot_and_keep_the_newest_of_a_kind() {
    let mut pending = PendingWorkerEvents::default();
    pending.store(WorkerEvent::CurrentEnded { generation: 1 });
    pending.store(WorkerEvent::CurrentPrebufferReady { generation: 1 });
    pending.store(WorkerEvent::CurrentPrebufferReady { generation: 2 });
    assert_eq!(
        pending.pop(),
        Some(WorkerEvent::CurrentPrebufferReady { generation: 2 })
    );
    assert_eq!(pending.pop(), Some(WorkerEvent::CurrentEnded { generation: 1 }));
    assert_eq!(pending.pop(), None);
    pending.store(WorkerEvent::CurrentEnded { generation: 3 });
    pending.clear();
    assert!(pending.is_empty());
}

#[test]
fn backlogs_keep_all_events_in_order() {
    let (sender, mut receiver) = mpsc::channel(1);
    let mut backlog = EventBacklog::default();
    for generation in 1..=3 {
        backlog.emit(&sender, WorkerEvent::CurrentEnded { generation });
    }
    assert_eq!(backlog.pending.len(), 2);
    for generation in 1..=3 {
        assert_eq!(
            receiver.try_recv().expect("event"),
            WorkerEvent::CurrentEnded { generation }
        );
        backlog.flush(&sender);
    }
    assert!(backlog.pending.is_empty());
    backlog.emit(&sender, WorkerEvent::CurrentEnded { generation: 4 });
    backlog.emit(&sender, WorkerEvent::CurrentEnded { generation: 5 });
    drop(receiver);
    backlog.flush(&sender);
    assert!(backlog.pending.is_empty());
}

// ---- producers ----

#[test]
fn cancelled_cpu_waiter_leaves_the_scheduler() {
    let mut scheduler = CpuScheduler::with_maximum(1);
    scheduler.enter(ProducerRole::Current);
    assert_eq!(scheduler.step(ProducerRole::Current, false), CpuStep::Granted);
    scheduler.enter(ProducerRole::Next);
    assert_eq!(scheduler.step(ProducerRole::Next, false), CpuStep::Wait);
    assert_eq!(scheduler.next_waiters, 1);
    assert_eq!(scheduler.step(ProducerRole::Next, true), CpuStep::GiveUp);
    assert_eq!(scheduler.next_waiters, 0);
    scheduler.release();
    assert_eq!(scheduler.active, 0);
}

#[test]
fn current_tracks_are_scheduled_before_next_tracks() {
    let mut scheduler = CpuScheduler::with_maximum(3);
    for _ in 0..2 {
        scheduler.enter(ProducerRole::Next);
        assert_eq!(scheduler.step(ProducerRole::Next, false), CpuStep::Granted);
    }
    scheduler.enter(ProducerRole::Next);
    assert_eq!(scheduler.step(ProducerRole::Next, false), CpuStep::Wait);
    scheduler.enter(ProducerRole::Current);
    scheduler.release();
    assert_eq!(scheduler.step(ProducerRole::Next, false), CpuStep::Wait);
    assert_eq!(scheduler.step(ProducerRole::Current, false), CpuStep::Granted);
    assert_eq!(CpuScheduler::with_maximum(0).maximum, 1);
}

#[test]
fn promotion_releases_preload_admission_and_promotes_shared_download() {
    let mut control = MediaControl::new(
        VolumeLevel::default(),
        GainLevel::default(),
        ProducerRole::Next,
    );
    assert_eq!(control.role(), ProducerRole::Next);
    assert!(control.promotion_gate.is_paused());
    assert_eq!(control.attach_preload_admission("permit"), None);
    assert_eq!(control.attach_preload_admission("newer"), Some("permit"));
    assert_eq!(
        control.attach_shared_url(),
        SharedUrlSetup { promote: false, paused: false }
    );

    let promotion = control.promote_to_current();

    assert!(promotion.changed);
    assert_eq!(promotion.released, Some("newer"));
    assert!(promotion.promote_shared_url);
    assert!(!control.promotion_gate.is_paused());
    assert!(!control.promote_to_current().changed);
    assert_eq!(control.attach_preload_admission("late"), Some("late"));
    assert!(control.pause());
    assert!(control.gate.is_paused());
    assert_eq!(
        control.attach_shared_url(),
        SharedUrlSetup { promote: true, paused: true }
    );
    assert!(control.resume());
    control.detach_shared_url();
    assert!(!control.pause());
    control.set_volume(VolumeLevel::from_units(3).expect("volume"));
    control.set_gain(GainLevel::from_centibels(4).expect("gain"));
    assert_eq!(control.volume.units(), 3);
    assert_eq!(control.gain.centibels(), 4);
}

#[test]
fn promoted_producer_failure_is_reported_as_current() {
    let mut control: MediaControl<()> = MediaControl::new(
        VolumeLevel::default(),
        GainLevel::default(),
        ProducerRole::Next,
    );
    let failed = Err(MusicStreamError::DecodeError("injected".to_owned()));
    assert!(matches!(
        producer_failure(&failed, false, control.role(), 10),
        Some(WorkerEvent::NextFailed { generation: 10, code: ErrorCode::DecodeError, .. })
    ));
    control.promote_to_current();
    assert!(matches!(
        producer_failure(&failed, false, control.role(), 10),
        Some(WorkerEvent::CurrentFailed { generation: 10, message, .. })
            if message == "decode error: injected"
    ));
    assert!(producer_failure(&failed, true, control.role(), 10).is_none());
    assert!(producer_failure(&Ok(()), false, control.role(), 10).is_none());
}

fn job(role: ProducerRole, track: TrackSource) -> ProducerJob {
    ProducerJob::new(role, 11, track, 0, &MediaBufferConfig::default())
}

/// Hands frames to a queue as a run tells it to.
struct Output<'a> {
    run: &'a mut CpuRun,
    queue: &'a mut OpusQueue,
    ready: Vec<WorkerEvent>,
    promoted: bool,
}

impl FrameSink for Output<'_> {
    fn emit(&mut self, frame: OpusFrame) -> Result<(), MusicStreamError> {
        let mut action = self.run.emit_step(EmitEvent::Encoded(frame.duration_ms));
        let mut frame = Some(frame);
        loop {
            let event = match action {
                EmitAction::WaitWhilePaused => EmitEvent::Unpaused(true),
                EmitAction::Queue => {
                    let frame = frame.take().expect("one frame");
                    assert!(matches!(self.queue.offer(frame, false), Offer::Accepted));
                    EmitEvent::Queued(Ok(()))
                }
                EmitAction::TakeCpu => EmitEvent::CpuTaken(true),
                EmitAction::Report(event) => {
                    self.ready.push(event);
                    EmitEvent::Reported(true)
                }
                EmitAction::WaitForPromotion => {
                    assert_eq!(self.queue.snapshot().buffered_ms, 100);
                    EmitEvent::Promoted(self.promoted)
                }
                EmitAction::Done => return Ok(()),
                EmitAction::Fail(error) => return Err(error),
            };
            action = self.run.emit_step(event);
        }
    }
}

struct Unscaled;

impl SampleStage<u8> for Unscaled {
    fn apply(&self, _samples: &mut Vec<u8>) {}
}

struct Copying;

impl OpusEncoderBackend<u8> for Copying {
    fn encode(&mut self, frame: &PcmFrame<u8>) -> Result<OpusFrame, MusicStreamError> {
        Ok(OpusFrame {
            generation: frame.generation,
            payload: Bytes::from_static(b"opus"),
            samples_per_channel: frame.samples_per_channel,
            duration_ms: frame.duration_ms(),
            marker: false,
            track_position_samples: frame.track_position_samples,
        })
    }
}

/// Runs one turn over twenty frames of 20 ms, to be primed after 100 ms.
fn prime(promoted: bool) -> (CpuRun, u64, Vec<WorkerEvent>, Result<WorkerTurnReport, MusicStreamError>) {
    let mut job = job(ProducerRole::Next, track("prime-test"));
    assert_eq!(job.next_prime_ms, Some(200));
    job.next_prime_ms = Some(100);
    let mut run = CpuRun::new(&job);
    let mut queue = OpusQueue::bounded(400);
    let mut pipeline = PlayoutPipeline::new(PipelineConfig {
        generation: job.generation,
        sample_rate: OPUS_SAMPLE_RATE_HZ,
        channels: 2,
        frame_samples_per_channel: OPUS_FRAME_SAMPLES,
        decode_batch_ms: 400,
    })
    .expect("pipeline");
    let mut decoder = MemoryDecoder::new(VecDeque::from([DecodedChunk {
        sample_rate: OPUS_SAMPLE_RATE_HZ,
        channels: 2,
        samples_interleaved: vec![0_u8; 20 * OPUS_FRAME_SAMPLES as usize * 2],
    }]));
    let mut output = Output { run: &mut run, queue: &mut queue, ready: Vec::new(), promoted };
    let result = pipeline.process_turn(&mut decoder, &mut Copying, &Unscaled, &mut output, 0);
    let ready = output.ready;
    let buffered_ms = queue.snapshot().buffered_ms;
    (run, buffered_ms, ready, result)
}

#[test]
fn next_stops_encoding_at_prime_until_promotion() {
    let (run, buffered_ms, ready, result) = prime(false);
    assert_eq!(ready, vec![WorkerEvent::NextReady { generation: 11 }]);
    assert_eq!(buffered_ms, 100);
    assert_eq!(run.produced_ms, 100);
    assert_eq!(run.phase, EmitPhase::Stopped);
    // A producer that is cancelled while it waits ends without an error.
    assert!(matches!(run.turn_ended(result), TurnOutcome::Finish(None)));
}

#[test]
fn promoted_tracks_go_on_and_report_no_more() {
    let (run, buffered_ms, ready, result) = prime(true);
    assert_eq!(ready, vec![WorkerEvent::NextReady { generation: 11 }]);
    assert_eq!(buffered_ms, 400);
    assert_eq!(result.as_ref().expect("turn").opus_frames, 20);
    assert_eq!(run.phase, EmitPhase::Idle);
    let ended = WorkerTurnReport { source_ended: true, ..WorkerTurnReport::default() };
    assert!(matches!(run.turn_ended(Ok(ended)), TurnOutcome::Finish(None)));
}

#[test]
fn frames_stop_where_their_job_does() {
    let stopped = |event: EmitEvent, steps: Vec<EmitEvent>| {
        let mut job = job(ProducerRole::Next, track("a"));
        job.next_prime_ms = Some(20);
        let mut run = CpuRun::new(&job);
        run.emit_step(EmitEvent::Encoded(20));
        for step in steps {
            run.emit_step(step);
        }
        match run.emit_step(event) {
            EmitAction::Fail(error) => error.message(),
            action => panic!("unexpected {action:?}"),
        }
    };
    let queued = || vec![EmitEvent::Unpaused(true), EmitEvent::Queued(Ok(()))];
    let reporting = || {
        let mut steps = queued();
        steps.push(EmitEvent::CpuTaken(true));
        steps
    };
    assert_eq!(
        stopped(EmitEvent::Unpaused(false), vec![]),
        "stream is closed: producer cancelled while paused"
    );
    assert_eq!(
        stopped(
            EmitEvent::Queued(Err(MusicStreamError::Internal("x".to_owned()))),
            vec![EmitEvent::Unpaused(true)]
        ),
        "internal error: x"
    );
    assert_eq!(
        stopped(EmitEvent::CpuTaken(false), queued()),
        "stream is closed: producer cancelled while waiting for CPU"
    );
    assert_eq!(
        stopped(EmitEvent::Reported(false), reporting()),
        "stream is closed: worker event loop closed"
    );
}

fn queue_frame(run: &mut CpuRun, duration_ms: u64) {
    run.emit_step(EmitEvent::Encoded(duration_ms));
    run.emit_step(EmitEvent::Unpaused(true));
    run.emit_step(EmitEvent::Queued(Ok(())));
    assert!(matches!(run.emit_step(EmitEvent::CpuTaken(true)), EmitAction::Done));
}

#[test]
fn turns_decide_how_a_producer_goes_on() {
    let ended = WorkerTurnReport { source_ended: true, ..WorkerTurnReport::default() };
    let mut run = CpuRun::new(&job(ProducerRole::Next, track("a")));
    assert!(matches!(run.turn_ended(Ok(WorkerTurnReport::default())), TurnOutcome::Yield));
    assert!(matches!(
        run.turn_ended(Ok(WorkerTurnReport { decoded_chunks: 1, ..WorkerTurnReport::default() })),
        TurnOutcome::Continue
    ));
    assert!(matches!(
        run.turn_ended(Ok(ended)),
        TurnOutcome::Fail(MusicStreamError::DecodeError(text))
            if text == "source ended without decodable PCM samples"
    ));
    queue_frame(&mut run, 20);
    assert!(matches!(
        run.turn_ended(Ok(ended)),
        TurnOutcome::Finish(Some(WorkerEvent::NextReady { generation: 11 }))
    ));
    let mut current = CpuRun::new(&job(ProducerRole::Current, track("a")));
    queue_frame(&mut current, 20);
    assert!(matches!(current.turn_ended(Ok(ended)), TurnOutcome::Finish(None)));
    assert!(matches!(
        current.turn_ended(Err(emit_stop_error(EmitStop::WhilePaused))),
        TurnOutcome::Finish(None)
    ));
    assert!(matches!(
        current.turn_ended(Err(MusicStreamError::EncodeError("x".to_owned()))),
        TurnOutcome::Fail(MusicStreamError::EncodeError(_))
    ));
    let (volume, gain) = (VolumeLevel::default(), GainLevel::default());
    assert!(current.levels_changed(volume, gain));
    assert!(!current.levels_changed(volume, gain));
    assert!(current.levels_changed(volume, GainLevel::from_centibels(1).expect("gain")));
}

#[test]
fn jobs_are_routed_by_their_source() {
    let routed = |track: TrackSource| job(ProducerRole::Current, track).route();
    assert_eq!(routed(track("a")), SourceRoute::Artifact);
    assert_eq!(routed(url_track("http://a.test/live", TrackKind::Live)), SourceRoute::Live);
    assert_eq!(routed(url_track("http://a.test/x.m3u8", TrackKind::Live)), SourceRoute::Hls);
    let mut mp3 = job(ProducerRole::Current, url_track("http://a.test/x.mp3", TrackKind::Url));
    assert_eq!(mp3.artifact_route(), ArtifactRoute::Progressive);
    mp3.start_position_ms = 1;
    assert_eq!(mp3.artifact_route(), ArtifactRoute::Complete);
    assert_eq!(
        job(ProducerRole::Current, track("a")).artifact_route(),
        ArtifactRoute::Complete
    );
    assert!(matches!(resolve_step(Ok(5)), ResolveStep::Ready(5)));
    assert!(matches!(
        resolve_step::<()>(Err(MusicStreamError::DetectedLiveSource("x".to_owned()))),
        ResolveStep::RunLive
    ));
    assert!(matches!(
        resolve_step::<()>(Err(MusicStreamError::DetectedHlsSource("x".to_owned()))),
        ResolveStep::RunHls
    ));
    assert!(matches!(
        resolve_step::<()>(Err(MusicStreamError::SourceTimeout("x".to_owned()))),
        ResolveStep::Fail(MusicStreamError::SourceTimeout(_))
    ));
}

#[test]
fn detected_live_sources_are_played_only_as_current() {
    let url = || url_track("http://a.test/x", TrackKind::Url);
    let mut next = job(ProducerRole::Next, url());
    assert_eq!(
        next.detected_live(ProducerRole::Next).expect_err("next").message(),
        "operation is not supported: detected live HTTP source cannot be preloaded as next without a timeshift model"
    );
    assert_eq!(
        next.detected_hls(ProducerRole::Next).expect_err("next").message(),
        "operation is not supported: detected HLS source cannot be preloaded as next yet"
    );
    assert_eq!(
        next.check_live_route(SourceRoute::Live).expect_err("next").message(),
        "operation is not supported: live sources cannot run as preload producers"
    );
    assert_eq!(
        next.check_live_route(SourceRoute::Hls).expect_err("next").message(),
        "operation is not supported: HLS sources cannot run as preload producers yet"
    );
    let event = next.detected_live(ProducerRole::Current).expect("promoted");
    assert_eq!(
        event,
        WorkerEvent::CurrentSourceClassified {
            generation: 11,
            kind: TrackKind::Live,
            seekable: false,
        }
    );
    assert_eq!(next.role, ProducerRole::Current);
    assert_eq!(next.next_prime_ms, None);
    assert!(next.check_live_route(SourceRoute::Live).is_ok());

    let mut playlist = job(ProducerRole::Current, url());
    playlist.detected_hls(ProducerRole::Current).expect("playlist");
    assert_eq!(playlist.route(), SourceRoute::Hls);
    assert!(matches!(
        playlist.playlist_opened(HlsPlaylistKind::Vod),
        WorkerEvent::CurrentSourceClassified { kind: TrackKind::Url, seekable: false, .. }
    ));
    assert!(matches!(
        playlist.playlist_opened(HlsPlaylistKind::Live),
        WorkerEvent::CurrentSourceClassified { kind: TrackKind::Live, .. }
    ));
}

#[test]
fn a_failed_source_explains_more_than_the_decoder() {
    let cpu = || Err(MusicStreamError::DecodeError("truncated".to_owned()));
    let text = |result: Result<(), MusicStreamError>| result.expect_err("failed").message();
    assert_eq!(text(decoding_ended(cpu(), SourceEnd::Quiet)), "decode error: truncated");
    assert_eq!(
        text(decoding_ended(
            cpu(),
            SourceEnd::Failed(MusicStreamError::SourceTimeout("slow".to_owned()))
        )),
        "source timed out: slow"
    );
    assert_eq!(
        text(decoding_ended(
            cpu(),
            SourceEnd::Failed(MusicStreamError::StreamClosed("closed".to_owned()))
        )),
        "decode error: truncated"
    );
    assert_eq!(
        text(decoding_ended(Ok(()), SourceEnd::Crashed("boom".to_owned()))),
        "internal error: live HTTP task failed: boom"
    );
    assert!(matches!(fetching_ended(Ok(())), SourceFirst::AwaitDecoder));
    assert!(matches!(fetching_ended(cpu()), SourceFirst::StopDecoder(_)));
}

#[test]
fn admission_waits_end_as_they_should() {
    let text = |step: SlotStep| match step {
        SlotStep::Fail(error) => error.message(),
        other => panic!("expected a failure, got {other:?}"),
    };
    assert_eq!(
        text(job_slot_step(SlotWait::Cancelled)),
        "stream is closed: producer cancelled before blocking admission"
    );
    assert_eq!(
        text(job_slot_step(SlotWait::Closed)),
        "stream is closed: blocking producer admission was closed"
    );
    assert!(matches!(job_slot_step(SlotWait::Paused), SlotStep::Retry));
    assert!(matches!(job_slot_step(SlotWait::Granted), SlotStep::Admitted));
    let next = ProducerRole::Next;
    assert_eq!(
        text(preload_slot_step(SlotWait::Cancelled, next)),
        "stream is closed: producer cancelled before preload admission"
    );
    assert_eq!(
        text(preload_slot_step(SlotWait::Closed, next)),
        "stream is closed: blocking preload admission was closed"
    );
    assert_eq!(
        text(preload_slot_step(SlotWait::RoleLost, next)),
        "stream is closed: producer role state closed"
    );
    assert!(matches!(preload_slot_step(SlotWait::Granted, next), SlotStep::Admitted));
    assert!(matches!(preload_slot_step(SlotWait::Paused, next), SlotStep::Retry));
    assert!(matches!(
        preload_slot_step(SlotWait::Granted, ProducerRole::Current),
        SlotStep::NotNeeded
    ));
    assert!(matches!(
        preload_slot_step(SlotWait::RoleChanged, ProducerRole::Current),
        SlotStep::NotNeeded
    ));
}

#[test]
fn producer_problems_are_worded_with_role_and_generation() {
    assert_eq!(role_name(ProducerRole::Current), "current");
    assert_eq!(role_name(ProducerRole::Next), "next");
    assert_eq!(
        stop_error(ProducerRole::Current, 1_234, StopProblem::TimedOut).message(),
        "internal error: Current producer 1234 did not stop within 2 seconds"
    );
    assert_eq!(
        stop_error(ProducerRole::Next, 0, StopProblem::TaskFailed("x".to_owned())).message(),
        "internal error: Next producer 0 task failed: x"
    );
    assert_eq!(
        stop_error(ProducerRole::Next, 7, StopProblem::SupervisorFailed("y".to_owned())).message(),
        "internal error: Next producer 7 supervisor failed: y"
    );
    for (stop, text) in [
        (EmitStop::WhilePaused, "producer cancelled while paused"),
        (EmitStop::WaitingForCpu, "producer cancelled while waiting for CPU"),
        (EmitStop::BeforePromotion, "preloaded producer was cancelled before promotion"),
        (EmitStop::EventLoopClosed, "worker event loop closed"),
    ] {
        assert_eq!(emit_stop_error(stop).message(), format!("stream is closed: {text}"));
    }
}

// ---- orchestration ----

fn key(source_role: SourceRole, generation: u64, watchdog_epoch: u64) -> StartupDeadlineKey {
    StartupDeadlineKey { source_role, generation, watchdog_epoch }
}

#[test]
fn deadlines_are_settled_by_role_generation_and_epoch() {
    let mut deadlines = StartupDeadlines::default();
    assert!(deadlines.arm(key(SourceRole::Current, 1, 1), "a").is_empty());
    assert!(deadlines.arm(key(SourceRole::Current, 1, 2), "b").is_empty());
    assert!(deadlines.arm(key(SourceRole::Next, 1, 1), "c").is_empty());
    assert_eq!(deadlines.arm(key(SourceRole::Current, 1, 1), "d"), vec!["a"]);
    assert!(deadlines.cancel(SourceRole::Current, Some(2)).is_empty());
    assert_eq!(
        deadlines.observe(&WorkerEvent::StartupTimedOut {
            source_role: SourceRole::Current,
            generation: 1,
            watchdog_epoch: 2,
        }),
        vec!["b"]
    );
    assert!(deadlines
        .observe(&WorkerEvent::OutputFailed {
            code: ErrorCode::OutputError,
            message: String::new(),
        })
        .is_empty());
    assert_eq!(
        deadlines.observe(&WorkerEvent::CurrentPrebufferReady { generation: 1 }),
        vec!["d"]
    );
    assert_eq!(deadlines.observe(&WorkerEvent::NextReady { generation: 1 }), vec!["c"]);
    deadlines.arm(key(SourceRole::Next, 3, 1), "e");
    deadlines.arm(key(SourceRole::Next, 4, 1), "f");
    deadlines.arm(key(SourceRole::Current, 5, 1), "g");
    assert_eq!(deadlines.cancel(SourceRole::Next, None), vec!["e", "f"]);
    deadlines.arm(key(SourceRole::Next, 6, 1), "h");
    assert_eq!(deadlines.cancel_all(), vec!["g", "h"]);
}

#[test]
fn commands_are_normalized_validated_and_planned_on_a_copy() {
    let actor = StreamActor::new("s".to_owned(), Some(track("a")));
    let planned = plan_command(&actor, StreamCommand::Play).expect("play");
    assert_eq!(planned.actor.play_state, PlayState::Buffering);
    assert_eq!(actor.play_state, PlayState::Idle);

    let plan = |version, current, next| {
        plan_command(&actor, StreamCommand::ReconcilePlan { version, current, next })
    };
    assert_eq!(
        plan(0, None, None).expect_err("version").message(),
        "invalid configuration: desired playback plan version must be positive"
    );
    let playlist = || url_track("http://a.test/x.m3u8", TrackKind::Url);
    assert_eq!(
        plan(1, Some(track("b")), Some(playlist())).expect_err("playlist next").message(),
        "operation is not supported: live and HLS sources cannot be preloaded as next without a timeshift model"
    );
    let planned = plan(1, Some(playlist()), None).expect("playlist current");
    assert_eq!(planned.output.status.current.expect("current").kind, TrackKind::Live);
    assert_eq!(
        plan(1, Some(url_track("nowhere", TrackKind::Url)), None).expect_err("bad").code(),
        ErrorCode::InvalidSource
    );
    assert_eq!(
        plan_command(
            &actor,
            StreamCommand::RefreshCurrentSource { current: url_track("x", TrackKind::Url) }
        )
        .expect_err("bad refresh")
        .code(),
        ErrorCode::InvalidSource
    );
    assert_eq!(
        plan_command(&StreamActor::new("s".to_owned(), None), StreamCommand::Seek { seconds: 1 })
            .expect_err("nothing to seek")
            .code(),
        ErrorCode::Unsupported
    );
    let ended = plan_worker_event(&actor, WorkerEvent::CurrentEnded { generation: 1 });
    assert!(ended.actor.current.is_none());
    assert!(actor.current.is_some());
}

#[test]
fn streams_open_with_the_levels_that_differ_from_the_defaults() {
    assert_eq!(
        opening_commands(VolumeLevel::default(), GainLevel::default()),
        vec![StreamCommand::Play]
    );
    let volume = VolumeLevel::from_units(1).expect("volume");
    let gain = GainLevel::from_centibels(-1).expect("gain");
    assert_eq!(
        opening_commands(volume, gain),
        vec![
            StreamCommand::SetVolume { volume },
            StreamCommand::SetGain { gain },
            StreamCommand::Play
        ]
    );
}

#[test]
fn snapshots_take_the_position_of_the_output_for_the_same_generation() {
    let status = || StreamActor::new("s".to_owned(), Some(track("a"))).status();
    let progress = StreamRuntimeProgress {
        generation: 1,
        start_position_ms: 40,
        media_sent_ms: 2,
        ..StreamRuntimeProgress::default()
    };
    assert_eq!(runtime_snapshot(status(), progress).status.time_played_ms, 42);
    let other = StreamRuntimeProgress { generation: 2, ..progress };
    assert_eq!(runtime_snapshot(status(), other).status.time_played_ms, 0);
    let far = StreamRuntimeProgress { start_position_ms: u64::MAX, ..progress };
    assert_eq!(far.stream_position_ms(), u64::MAX);
}

#[test]
fn starting_a_prepared_track_promotes_its_producer() {
    let mut actor = StreamActor::with_next("s".to_owned(), Some(track("a")), Some(track("b")));
    let output = actor.handle_command(StreamCommand::Play).expect("play");
    let context = step_context(&output.status);
    let start = |next_slot| {
        plan_action(
            TaskAction::StartCurrent { generation: 2, watchdog_epoch: 3, track: track("b") },
            next_slot,
            context,
        )
    };
    let promoted = start(Some(2));
    assert!(!promoted.run_all);
    assert_eq!(promoted.steps.len(), 6);
    assert!(matches!(promoted.steps[2], RuntimeStep::PromoteNext { generation: 2 }));
    assert!(matches!(
        start(Some(1)).steps[2],
        RuntimeStep::Spawn { generation: 2, source_role: SourceRole::Current, .. }
    ));
    assert!(matches!(
        promoted.steps[5],
        RuntimeStep::ArmDeadline { source_role: SourceRole::Current, watchdog_epoch: 3, .. }
    ));
    let plan = |action| plan_action(action, None, context);
    let cancel = plan(TaskAction::CancelCurrent { generation: 1 });
    assert!(cancel.run_all);
    assert!(matches!(cancel.steps[1], RuntimeStep::Deactivate { generation: 1 }));
    let stop = plan(TaskAction::StopSender);
    assert!(stop.run_all);
    assert!(matches!(stop.steps[3], RuntimeStep::ReleasePermit));
    let pause = plan(TaskAction::PauseCurrent { generation: 1 });
    assert!(matches!(
        pause.steps[3],
        RuntimeStep::PauseProducer { source_role: SourceRole::Next, generation: None }
    ));
    assert_eq!(plan(TaskAction::PrepareNext { generation: 2, watchdog_epoch: 1, track: track("b") }).steps.len(), 4);
    assert_eq!(plan(TaskAction::CancelNext { generation: 2 }).steps.len(), 2);
    assert_eq!(plan(TaskAction::PauseNext { generation: 2 }).steps.len(), 2);
    assert_eq!(plan(TaskAction::ResumeCurrent { generation: 2 }).steps.len(), 3);
    assert_eq!(plan(TaskAction::ResumeNext { generation: 2 }).steps.len(), 1);
}

#[test]
fn the_first_of_several_failures_is_kept() {
    let failure = |text: &str| Err(MusicStreamError::Internal(text.to_owned()));
    assert_eq!(
        first_failure(failure("a"), failure("b")).expect_err("failed").message(),
        "internal error: a"
    );
    assert_eq!(
        first_failure(Ok(()), failure("b")).expect_err("failed").message(),
        "internal error: b"
    );
    assert!(first_failure(Ok(()), Ok(())).is_ok());
}
