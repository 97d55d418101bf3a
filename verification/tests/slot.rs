use music_stream::slot::{
    check_live_slot, live_hint_extension, DrainStep, LocalFileSlotConfig, RtpSlotDrainReport,
    RtpSlotRunReport, SlotDriver, SlotReadiness, SlotRole, SlotTurnReport,
};
use music_stream::{
    ErrorCode, NetworkPolicy, PipelineConfig, TrackKind, TrackSource, WorkerEvent, WorkerTurnReport,
};

const NOT_READY: SlotReadiness = SlotReadiness {
    prebuffer_ready: false,
    next_prime_ready: false,
    playout_drained: false,
};

fn live(url: &str, kind: TrackKind) -> TrackSource {
    TrackSource {
        attempt_id: "attempt-live".to_owned(),
        id: "live".to_owned(),
        kind,
        url: Some(url.to_owned()),
        path: None,
        format_hint: None,
        seekable: None,
        headers: Default::default(),
        network_policy: NetworkPolicy::Provider,
    }
}

fn packet(bytes: usize, late_ms: Option<u64>, rtp_timestamp: u32) -> DrainStep {
    DrainStep::Sent {
        bytes,
        payload_bytes: bytes - 12,
        duration_ms: 20,
        rtp_timestamp,
        late_ms,
    }
}

#[test]
fn current_slot_reports_prebuffer_ready_once() {
    let mut slot = SlotDriver::new(SlotRole::Current, 7);
    let ready = SlotReadiness { prebuffer_ready: true, ..NOT_READY };

    assert_eq!(slot.event_for_report(NOT_READY), None);
    assert_eq!(
        slot.event_for_report(ready),
        Some(WorkerEvent::CurrentPrebufferReady { generation: 7 })
    );
    assert!(slot.ready_reported());
    assert_eq!(slot.event_for_report(ready), None);
}

#[test]
fn next_slot_reports_next_ready_from_prime_watermark() {
    let mut slot = SlotDriver::new(SlotRole::Next, 9);
    assert_eq!(
        slot.event_for_report(SlotReadiness { prebuffer_ready: true, ..NOT_READY }),
        None
    );
    assert_eq!(
        slot.event_for_report(SlotReadiness { next_prime_ready: true, ..NOT_READY }),
        Some(WorkerEvent::NextReady { generation: 9 })
    );
    assert!(slot.ready_reported());
}

#[test]
fn current_slot_reports_ended_after_playout_drains() {
    let mut slot = SlotDriver::new(SlotRole::Current, 11);
    let drained = SlotReadiness {
        prebuffer_ready: true,
        next_prime_ready: false,
        playout_drained: true,
    };
    assert_eq!(
        slot.event_for_report(drained),
        Some(WorkerEvent::CurrentPrebufferReady { generation: 11 })
    );
    assert_eq!(
        slot.event_for_report(drained),
        Some(WorkerEvent::CurrentEnded { generation: 11 })
    );
    assert!(slot.ended_reported());
    assert_eq!(slot.event_for_report(drained), None);

    let promoted = slot.into_role(SlotRole::Next);
    assert_eq!(promoted.role(), SlotRole::Next);
    assert_eq!(promoted.generation(), 11);
    assert!(!promoted.ready_reported());
}

#[test]
fn drain_reports_add_up_packets_and_keep_the_latest_timestamp() {
    let mut first = RtpSlotDrainReport::default();
    assert!(first.record(packet(100, None, 960)));
    assert!(first.record(packet(50, Some(7), 1_920)));
    assert!(!first.record(DrainStep::Underrun));
    assert_eq!(
        first,
        RtpSlotDrainReport {
            packets_sent: 2,
            bytes_sent: 150,
            payload_bytes_sent: 126,
            media_sent_ms: 40,
            max_pacing_late_ms: 7,
            last_rtp_timestamp: Some(1_920),
            stopped_on_prebuffer: false,
            stopped_on_underrun: true,
            stopped_on_pacing: false,
        }
    );
    let mut second = RtpSlotDrainReport::default();
    assert!(!second.record(DrainStep::WaitPacing));
    assert!(!second.record(DrainStep::WaitPrebuffer));
    first.merge(&second);
    assert_eq!(first.last_rtp_timestamp, Some(1_920));
    assert!(first.stopped_on_pacing && first.stopped_on_prebuffer && first.stopped_on_underrun);
}

#[test]
fn rtp_slot_runner_tick_reports_worker_events_and_drain_together() {
    let mut drain = RtpSlotDrainReport::default();
    drain.record(packet(20, None, 5));
    let mut driver = SlotDriver::new(SlotRole::Current, 15);
    let tick = SlotTurnReport {
        worker: WorkerTurnReport::default(),
        event: driver.event_for_report(SlotReadiness {
            prebuffer_ready: true,
            next_prime_ready: false,
            playout_drained: false,
        }),
    }
    .with_drain(drain);
    assert_eq!(
        tick.events,
        vec![WorkerEvent::CurrentPrebufferReady { generation: 15 }]
    );
    assert_eq!(tick.drain.packets_sent, 1);
    assert!(tick.made_progress());
}

#[test]
fn runs_end_with_their_track_without_progress_or_at_the_limit() {
    let idle = || SlotTurnReport { worker: WorkerTurnReport::default(), event: None };
    let ended = || SlotTurnReport {
        worker: WorkerTurnReport::default(),
        event: Some(WorkerEvent::CurrentEnded { generation: 1 }),
    };
    let mut run = RtpSlotRunReport::default();
    assert!(!run.absorb(idle().with_drain(RtpSlotDrainReport::default()), false));
    assert!(!run.completed);

    let mut run = RtpSlotRunReport::default();
    assert!(run.absorb(ended().with_drain(RtpSlotDrainReport::default()), false));
    assert!(!run.absorb(ended().with_drain(RtpSlotDrainReport::default()), true));
    assert!(run.completed);
    assert_eq!(run.ticks, 2);
    assert_eq!(run.events.len(), 2);

    let mut run = RtpSlotRunReport::default();
    run.reach_limit(false);
    assert!(run.stopped_on_limit);
    assert!(!run.completed);
}

#[test]
fn slot_settings_follow_the_pipeline_format() {
    let config = LocalFileSlotConfig::new(PipelineConfig {
        generation: 1,
        sample_rate: 44_100,
        channels: 1,
        frame_samples_per_channel: 960,
        decode_batch_ms: 80,
    });
    assert_eq!(config.opus.sample_rate, 44_100);
    assert_eq!(config.opus.channels, 1);
    assert_eq!(config.resampler.target.sample_rate, 44_100);
    assert_eq!(config.start_position_ms, 0);
}

#[test]
fn live_slots_take_live_tracks_and_their_url_extension() {
    let track = live("https://a.test/radio.AAC?x=1", TrackKind::Live);
    assert!(check_live_slot(&track).is_ok());
    assert_eq!(live_hint_extension(&track), Some("AAC"));
    assert_eq!(live_hint_extension(&live("https://a.test/radio.", TrackKind::Live)), None);
    assert_eq!(live_hint_extension(&live("https://a.test/x.mp_3", TrackKind::Live)), None);
    assert_eq!(
        check_live_slot(&live("https://a.test/a", TrackKind::Url))
            .expect_err("not live")
            .code(),
        ErrorCode::InvalidSource
    );
}
