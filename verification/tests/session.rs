use music_stream::{
    ErrorCode, GainLevel, MusicStreamError, NetworkPolicy, PlayState, RtcpNetworkQualityLevel,
    RtcpQualityWindowSnapshot, SourceRole, StreamActor, StreamCommand, StreamEvent, TaskAction,
    TrackKind, TrackSource, VolumeLevel, WorkerEvent,
};

fn track(id: &str) -> TrackSource {
    TrackSource {
        attempt_id: format!("attempt-{id}"),
        id: id.to_owned(),
        kind: TrackKind::File,
        url: None,
        path: Some(format!("/tmp/{id}.mp3")),
        format_hint: None,
        seekable: Some(true),
        headers: Default::default(),
        network_policy: NetworkPolicy::Provider,
    }
}

fn url_track(id: &str) -> TrackSource {
    TrackSource {
        attempt_id: format!("attempt-{id}"),
        id: id.to_owned(),
        kind: TrackKind::Url,
        url: Some(format!("https://example.test/{id}.mp3")),
        path: None,
        format_hint: None,
        seekable: None,
        headers: Default::default(),
        network_policy: NetworkPolicy::Provider,
    }
}

fn live_track(id: &str, url: &str) -> TrackSource {
    TrackSource {
        attempt_id: format!("attempt-{id}"),
        id: id.to_owned(),
        kind: TrackKind::Live,
        url: Some(url.to_owned()),
        path: None,
        format_hint: None,
        seekable: Some(false),
        headers: Default::default(),
        network_policy: NetworkPolicy::Provider,
    }
}

fn malformed_seekable_live_track(id: &str, url: &str) -> TrackSource {
    TrackSource {
        attempt_id: format!("attempt-{id}"),
        id: id.to_owned(),
        kind: TrackKind::Live,
        url: Some(url.to_owned()),
        path: None,
        format_hint: None,
        seekable: Some(true),
        headers: Default::default(),
        network_policy: NetworkPolicy::Provider,
    }
}

fn actor(
    stream_id: String,
    current: Option<TrackSource>,
    next: Option<TrackSource>,
) -> StreamActor {
    StreamActor::with_next(stream_id, current, next)
}

#[test]
fn desired_plan_replacement_increments_generation_and_drops_stale_worker_events() {
    let mut actor = actor("s1".to_owned(), Some(track("a")), None);
    let old_generation = actor.current_generation();

    let output = actor
        .handle_command(StreamCommand::ReconcilePlan {
            version: 1,
            current: Some(track("b")),
            next: None,
        })
        .expect("switch should succeed");

    let new_generation = actor.current_generation();
    assert!(new_generation > old_generation);
    assert!(output.actions.contains(&TaskAction::StartCurrent {
        generation: new_generation,
        watchdog_epoch: 1,
        track: track("b"),
    }));
    assert!(!output.actions.iter().any(|action| matches!(
        action,
        TaskAction::CancelCurrent { generation } if *generation == old_generation
    )));

    let stale = actor.handle_worker_event(WorkerEvent::CurrentEnded {
        generation: old_generation,
    });
    assert!(
        !stale
            .events
            .iter()
            .any(|event| matches!(event, StreamEvent::NextNeeded { .. }))
    );
    assert_eq!(actor.current_generation(), new_generation);
}

#[test]
fn runtime_action_failure_forces_a_clean_terminal_state() {
    let mut actor = actor("s1".to_owned(), Some(track("a")), Some(track("b")));
    actor.handle_command(StreamCommand::Play).expect("play");

    let output = actor.handle_runtime_failure(&MusicStreamError::RtpOutputError(
        "sender closed".to_owned(),
    ));

    assert_eq!(output.status.play_state, PlayState::Stopped);
    assert!(output.status.current.is_none());
    assert!(output.status.next.is_none());
    assert!(output.actions.is_empty());
    assert!(output.events.iter().any(|event| matches!(
        event,
        StreamEvent::Error {
            code: ErrorCode::OutputError,
            ..
        }
    )));
}

#[test]
fn next_never_promotes_before_ready() {
    let mut actor = actor("s1".to_owned(), Some(track("a")), Some(track("b")));
    let current_generation = actor.current_generation();
    let output = actor.handle_worker_event(WorkerEvent::CurrentEnded {
        generation: current_generation,
    });

    assert!(matches!(output.status.play_state, PlayState::Buffering));
    assert!(actor.current.is_none());
    assert_eq!(actor.next.as_ref().expect("next retained").source.id, "b");
}

#[test]
fn pause_during_cross_track_gap_freezes_next_and_survives_promotion() {
    let mut actor = actor("s1".to_owned(), Some(track("a")), Some(track("b")));
    actor.handle_command(StreamCommand::Play).expect("play");
    let current_generation = actor.current_generation();
    let next_generation = actor.next.as_ref().expect("next").generation;
    actor.handle_worker_event(WorkerEvent::CurrentEnded {
        generation: current_generation,
    });

    let paused = actor.handle_command(StreamCommand::Pause).expect("pause");
    assert_eq!(paused.status.play_state, PlayState::Paused);
    assert_eq!(
        paused.actions,
        vec![TaskAction::PauseNext {
            generation: next_generation
        }]
    );

    let promoted = actor.handle_worker_event(WorkerEvent::NextReady {
        generation: next_generation,
    });
    assert_eq!(promoted.status.play_state, PlayState::Paused);
    assert_eq!(promoted.status.current.expect("promoted").id, "b");
    assert!(promoted.actions.contains(&TaskAction::StartCurrent {
        generation: next_generation,
        watchdog_epoch: 3,
        track: track("b")
    }));

    let resumed = actor.handle_command(StreamCommand::Play).expect("resume");
    assert_eq!(resumed.status.play_state, PlayState::Buffering);
    assert!(resumed.actions.contains(&TaskAction::ResumeCurrent {
        generation: next_generation
    }));
    assert!(resumed.actions.contains(&TaskAction::ArmStartupDeadline {
        source_role: SourceRole::Current,
        generation: next_generation,
        watchdog_epoch: 4,
    }));
}

#[test]
fn resume_during_cross_track_gap_restarts_next_without_requesting_another_track() {
    let mut actor = actor("s1".to_owned(), Some(track("a")), Some(track("b")));
    actor.handle_command(StreamCommand::Play).expect("play");
    let current_generation = actor.current_generation();
    let next_generation = actor.next.as_ref().expect("next").generation;
    actor.handle_worker_event(WorkerEvent::CurrentEnded {
        generation: current_generation,
    });
    actor.handle_command(StreamCommand::Pause).expect("pause");

    let resumed = actor.handle_command(StreamCommand::Play).expect("resume");

    assert_eq!(resumed.status.play_state, PlayState::Buffering);
    assert_eq!(
        resumed.actions,
        vec![
            TaskAction::ResumeNext {
                generation: next_generation
            },
            TaskAction::ArmStartupDeadline {
                source_role: SourceRole::Next,
                generation: next_generation,
                watchdog_epoch: 3,
            }
        ]
    );
    assert!(
        !resumed
            .events
            .iter()
            .any(|event| matches!(event, StreamEvent::NextNeeded { .. }))
    );
}

#[test]
fn live_track_seek_is_rejected_even_when_input_marks_seekable() {
    let mut actor = actor(
        "s1".to_owned(),
        Some(malformed_seekable_live_track(
            "live-a",
            "https://example.test/live.wav",
        )),
        None,
    );

    let error = actor
        .handle_command(StreamCommand::Seek { seconds: 5 })
        .expect_err("live seek should be rejected");

    assert_eq!(error.code(), ErrorCode::NotSeekable);
    assert_eq!(actor.current_generation(), 1);
}

#[test]
fn ready_next_promotes_on_current_end() {
    let mut actor = actor("s1".to_owned(), Some(track("a")), Some(track("b")));
    actor.handle_command(StreamCommand::Play).expect("play");
    let current_generation = actor.current_generation();
    let next_generation = actor.next.as_ref().expect("next").generation;

    actor.handle_worker_event(WorkerEvent::NextReady {
        generation: next_generation,
    });
    let output = actor.handle_worker_event(WorkerEvent::CurrentEnded {
        generation: current_generation,
    });

    assert_eq!(output.status.current.expect("current").id, "b");
    assert!(output.actions.contains(&TaskAction::StartCurrent {
        generation: next_generation,
        watchdog_epoch: 2,
        track: track("b")
    }));
}

#[test]
fn next_failure_after_current_end_exits_buffering_and_requests_replacement() {
    let mut actor = actor("s1".to_owned(), Some(track("a")), Some(track("b")));
    actor.handle_command(StreamCommand::Play).expect("play");
    let current_generation = actor.current_generation();
    let next_generation = actor.next.as_ref().expect("next").generation;
    actor.handle_worker_event(WorkerEvent::CurrentEnded {
        generation: current_generation,
    });

    let output = actor.handle_worker_event(WorkerEvent::NextFailed {
        generation: next_generation,
        code: ErrorCode::SourceTimeout,
        message: "preload timed out".to_owned(),
    });

    assert_eq!(output.status.play_state, PlayState::Idle);
    assert!(output.status.current.is_none());
    assert!(output.status.next.is_none());
    assert!(output.events.iter().any(
        |event| matches!(event, StreamEvent::NextNeeded { stream_id } if stream_id == "s1")
    ));
    let state_index = output
        .events
        .iter()
        .position(|event| matches!(event, StreamEvent::StateChanged { .. }))
        .expect("state event");
    let request_index = output
        .events
        .iter()
        .position(|event| matches!(event, StreamEvent::NextNeeded { .. }))
        .expect("next request");
    assert!(state_index < request_index);
}

#[test]
fn next_startup_timeout_exits_buffering_with_exact_attempt_identity() {
    let mut next = track("media-b");
    next.attempt_id = "queue-entry-b".to_owned();
    let mut actor = actor("s1".to_owned(), Some(track("a")), Some(next));
    actor.handle_command(StreamCommand::Play).expect("play");
    let current_generation = actor.current_generation();
    let next = actor.next.as_ref().expect("next");
    let next_generation = next.generation;
    let watchdog_epoch = next.watchdog_epoch;
    actor.handle_worker_event(WorkerEvent::CurrentEnded {
        generation: current_generation,
    });

    let output = actor.handle_worker_event(WorkerEvent::StartupTimedOut {
        source_role: SourceRole::Next,
        generation: next_generation,
        watchdog_epoch,
    });

    assert_eq!(output.status.play_state, PlayState::Idle);
    assert!(output.status.current.is_none());
    assert!(output.status.next.is_none());
    assert!(output.events.iter().any(|event| matches!(
        event,
        StreamEvent::AttemptFailed {
            attempt_id,
            track_id,
            source_role: SourceRole::Next,
            generation,
            code: ErrorCode::SourceTimeout,
            ..
        } if attempt_id == "queue-entry-b"
            && track_id == "media-b"
            && *generation == next_generation
    )));
    let state_index = output
        .events
        .iter()
        .position(|event| matches!(event, StreamEvent::StateChanged { .. }))
        .expect("state event");
    let request_index = output
        .events
        .iter()
        .position(|event| matches!(event, StreamEvent::NextNeeded { .. }))
        .expect("next request");
    assert!(state_index < request_index);
}

#[test]
fn paused_and_superseded_startup_deadlines_cannot_fail_a_resumed_attempt() {
    let mut actor = actor("s1".to_owned(), Some(track("a")), None);
    let started = actor.handle_command(StreamCommand::Play).expect("play");
    let generation = actor.current_generation();
    let first_epoch = actor.current.as_ref().expect("current").watchdog_epoch;
    assert_eq!(started.status.play_state, PlayState::Buffering);
    actor.handle_command(StreamCommand::Pause).expect("pause");

    let paused_timeout = actor.handle_worker_event(WorkerEvent::StartupTimedOut {
        source_role: SourceRole::Current,
        generation,
        watchdog_epoch: first_epoch,
    });
    assert_eq!(paused_timeout.status.play_state, PlayState::Paused);
    assert!(
        paused_timeout
            .events
            .iter()
            .all(|event| !matches!(event, StreamEvent::AttemptFailed { .. }))
    );

    actor.handle_command(StreamCommand::Play).expect("resume");
    let stale_timeout = actor.handle_worker_event(WorkerEvent::StartupTimedOut {
        source_role: SourceRole::Current,
        generation,
        watchdog_epoch: first_epoch,
    });
    assert_eq!(stale_timeout.status.play_state, PlayState::Buffering);
    assert!(
        stale_timeout
            .events
            .iter()
            .all(|event| !matches!(event, StreamEvent::AttemptFailed { .. }))
    );
}

#[test]
fn desired_plan_is_versioned_and_promotes_the_existing_attempt() {
    let mut current = track("media-a");
    current.attempt_id = "entry-a".to_owned();
    let mut next = track("media-b");
    next.attempt_id = "entry-b".to_owned();
    let mut actor = actor("s1".to_owned(), Some(current), Some(next.clone()));
    actor.handle_command(StreamCommand::Play).expect("play");
    let next_generation = actor.next.as_ref().expect("next").generation;

    let output = actor
        .handle_command(StreamCommand::ReconcilePlan {
            version: 2,
            current: Some(next),
            next: Some(track("media-c")),
        })
        .expect("plan");
    assert_eq!(output.status.plan_version, 2);
    assert_eq!(
        output
            .status
            .current
            .as_ref()
            .map(|track| track.attempt_id.as_str()),
        Some("entry-b")
    );
    assert_eq!(output.status.generation, next_generation);
    assert!(output.actions.iter().any(|action| matches!(
        action,
        TaskAction::StartCurrent { generation, track, .. }
            if *generation == next_generation && track.attempt_key() == "entry-b"
    )));

    let stale = actor
        .handle_command(StreamCommand::ReconcilePlan {
            version: 1,
            current: Some({
                let mut stale = track("stale");
                stale.attempt_id = "stale-entry".to_owned();
                stale
            }),
            next: None,
        })
        .expect("stale plan");
    assert!(stale.actions.is_empty());
    assert_eq!(stale.status.plan_version, 2);
    assert_eq!(
        stale.status.current.expect("current").attempt_key(),
        "entry-b"
    );
}

#[test]
fn paused_next_failure_preserves_pause_while_requesting_replacement() {
    let mut actor = actor("s1".to_owned(), Some(track("a")), Some(track("b")));
    actor.handle_command(StreamCommand::Play).expect("play");
    let current_generation = actor.current_generation();
    let next_generation = actor.next.as_ref().expect("next").generation;
    actor.handle_worker_event(WorkerEvent::CurrentEnded {
        generation: current_generation,
    });
    actor.handle_command(StreamCommand::Pause).expect("pause");

    let output = actor.handle_worker_event(WorkerEvent::NextFailed {
        generation: next_generation,
        code: ErrorCode::SourceTimeout,
        message: "preload timed out".to_owned(),
    });

    assert_eq!(output.status.play_state, PlayState::Paused);
    assert!(output.events.iter().any(
        |event| matches!(event, StreamEvent::NextNeeded { stream_id } if stream_id == "s1")
    ));
}

#[test]
fn seek_requires_seekable_current_and_creates_generation() {
    let mut actor = actor("s1".to_owned(), Some(track("a")), None);
    let old_generation = actor.current_generation();
    let output = actor
        .handle_command(StreamCommand::Seek { seconds: 42 })
        .expect("seek should succeed");

    assert!(actor.current_generation() > old_generation);
    assert_eq!(output.status.time_played_ms, 42_000);
}

#[test]
fn generation_replacements_preserve_explicit_pause() {
    let mut actor = actor("s1".to_owned(), Some(track("a")), None);
    actor.handle_command(StreamCommand::Play).expect("play");
    actor.handle_command(StreamCommand::Pause).expect("pause");

    let seeked = actor
        .handle_command(StreamCommand::Seek { seconds: 7 })
        .expect("seek");
    assert_eq!(seeked.status.play_state, PlayState::Paused);
    assert!(
        !seeked
            .actions
            .iter()
            .any(|action| matches!(action, TaskAction::StartCurrent { .. }))
    );

    let switched = actor
        .handle_command(StreamCommand::ReconcilePlan {
            version: 1,
            current: Some(track("b")),
            next: None,
        })
        .expect("switch");
    assert_eq!(switched.status.play_state, PlayState::Paused);
    assert!(
        !switched
            .actions
            .iter()
            .any(|action| matches!(action, TaskAction::StartCurrent { .. }))
    );

    let refreshed = actor
        .handle_command(StreamCommand::RefreshCurrentSource {
            current: track("b"),
        })
        .expect("refresh");
    assert_eq!(refreshed.status.play_state, PlayState::Paused);
    assert!(
        !refreshed
            .actions
            .iter()
            .any(|action| matches!(action, TaskAction::StartCurrent { .. }))
    );

    let resumed = actor.handle_command(StreamCommand::Play).expect("resume");
    assert!(resumed.actions.iter().any(
        |action| matches!(action, TaskAction::StartCurrent { track, .. } if track.id == "b")
    ));
}

#[test]
fn bounded_url_tracks_are_seekable_by_default() {
    let mut actor = actor("s1".to_owned(), Some(url_track("url-a")), None);
    actor.handle_command(StreamCommand::Play).expect("play");

    let output = actor
        .handle_command(StreamCommand::Seek { seconds: 3 })
        .expect("URL seek");

    let status = output.status;
    assert_eq!(status.time_played_ms, 3_000);
    assert!(output.actions.iter().any(
        |action| matches!(action, TaskAction::StartCurrent { track, .. } if track.id == "url-a")
    ));
}

#[test]
fn live_pause_is_rejected_without_timeshift_storage() {
    let mut actor = actor(
        "s1".to_owned(),
        Some(live_track("live", "https://example.test/live")),
        None,
    );
    actor.handle_command(StreamCommand::Play).expect("play");

    let error = actor
        .handle_command(StreamCommand::Pause)
        .expect_err("live pause must fail");
    assert_eq!(error.code(), ErrorCode::Unsupported);
}

#[test]
fn live_next_is_rejected_without_a_timeshift_model() {
    let live = live_track("live-next", "https://example.test/live");
    let mut actor = actor("s1".to_owned(), Some(track("current")), None);
    actor.handle_command(StreamCommand::Play).expect("play");
    let error = actor
        .handle_command(StreamCommand::ReconcilePlan {
            version: 1,
            current: Some(track("current")),
            next: Some(live),
        })
        .expect_err("live next must be rejected");
    assert_eq!(error.code(), ErrorCode::Unsupported);
    assert!(actor.next.is_none());
}

#[test]
fn playing_with_only_a_pending_next_starts_its_preload() {
    let next = track("next");
    let mut actor = actor("s1".to_owned(), None, Some(next.clone()));
    let next_generation = actor.next.as_ref().expect("next").generation;

    let output = actor.handle_command(StreamCommand::Play).expect("play");

    assert_eq!(output.status.play_state, PlayState::Buffering);
    assert_eq!(
        output.actions,
        vec![TaskAction::PrepareNext {
            generation: next_generation,
            watchdog_epoch: 1,
            track: next,
        }]
    );
}

#[test]
fn set_volume_updates_status_and_current_slot_without_restarting_tasks() {
    let mut actor = actor("s1".to_owned(), Some(track("a")), Some(track("b")));
    let generation = actor.current_generation();
    let next_generation = actor.next.as_ref().expect("next").generation;
    actor.handle_command(StreamCommand::Play).expect("play");
    let volume = VolumeLevel::from_units(5_000).expect("volume");
    let output = actor
        .handle_command(StreamCommand::SetVolume { volume })
        .expect("set volume");

    assert_eq!(output.status.volume, volume);
    assert!(
        output
            .actions
            .contains(&TaskAction::SetCurrentVolume { generation, volume })
    );
    assert!(output.actions.contains(&TaskAction::SetNextVolume {
        generation: next_generation,
        volume
    }));
    assert!(
        output
            .actions
            .iter()
            .all(|action| !matches!(action, TaskAction::StartCurrent { .. }))
    );
}

#[test]
fn set_volume_before_play_updates_status_without_runtime_action() {
    let mut actor = actor("s1".to_owned(), Some(track("a")), None);
    let volume = VolumeLevel::from_units(2_500).expect("volume");

    let output = actor
        .handle_command(StreamCommand::SetVolume { volume })
        .expect("set volume");

    assert_eq!(output.status.volume, volume);
    assert!(output.actions.is_empty());
}

#[test]
fn set_gain_updates_status_and_current_slot_without_restarting_tasks() {
    let mut actor = actor("s1".to_owned(), Some(track("a")), None);
    actor.handle_command(StreamCommand::Play).expect("play");
    let generation = actor.current_generation();

    let output = actor
        .handle_command(StreamCommand::SetGain {
            gain: GainLevel::from_centibels(300).expect("gain"),
        })
        .expect("gain");

    assert_eq!(output.status.gain, GainLevel::from_centibels(300).expect("gain"));
    assert_eq!(
        output.actions,
        vec![TaskAction::SetCurrentGain {
            generation,
            gain: GainLevel::from_centibels(300).expect("gain"),
        }]
    );
}

#[test]
fn prebuffer_ready_while_paused_is_remembered_for_resume() {
    let mut actor = actor("s1".to_owned(), Some(track("a")), None);
    let generation = actor.current_generation();
    actor.handle_command(StreamCommand::Play).expect("play");
    let paused = actor.handle_command(StreamCommand::Pause).expect("pause");
    assert_eq!(paused.status.play_state, PlayState::Paused);
    assert_eq!(
        paused.actions,
        vec![TaskAction::PauseCurrent { generation }]
    );

    let ready = actor.handle_worker_event(WorkerEvent::CurrentPrebufferReady { generation });
    assert_eq!(ready.status.play_state, PlayState::Paused);

    let resumed = actor.handle_command(StreamCommand::Play).expect("resume");
    assert_eq!(resumed.status.play_state, PlayState::Playing);
    assert!(
        resumed
            .actions
            .iter()
            .all(|action| !matches!(action, TaskAction::StartCurrent { .. }))
    );
    assert!(
        resumed
            .actions
            .contains(&TaskAction::ResumeCurrent { generation })
    );
}

#[test]
fn current_network_quality_change_is_generation_filtered() {
    let mut actor = actor("s1".to_owned(), Some(track("a")), None);
    let generation = actor.current_generation();

    let stale = actor.handle_worker_event(WorkerEvent::CurrentNetworkQualityChanged {
        generation: generation + 1,
        quality: RtcpNetworkQualityLevel::Poor,
        snapshot: RtcpQualityWindowSnapshot::default(),
    });
    assert!(
        stale
            .events
            .iter()
            .all(|event| !matches!(event, StreamEvent::NetworkQualityChanged { .. }))
    );

    let current = actor.handle_worker_event(WorkerEvent::CurrentNetworkQualityChanged {
        generation,
        quality: RtcpNetworkQualityLevel::Degraded,
        snapshot: RtcpQualityWindowSnapshot {
            samples: 1,
            level: RtcpNetworkQualityLevel::Degraded,
            latest_fraction_lost: 13,
            fraction_lost_sum: 13,
            max_fraction_lost: 13,
            average_jitter_micros: 2_562,
            max_jitter_micros: 2_562,
            average_round_trip_time_micros: None,
            max_round_trip_time_micros: None,
        },
    });
    assert!(current.events.iter().any(|event| matches!(
        event,
        StreamEvent::NetworkQualityChanged {
            stream_id,
            quality: RtcpNetworkQualityLevel::Degraded,
            snapshot,
        } if stream_id == "s1"
            && snapshot.samples == 1
            && snapshot.latest_fraction_lost == 13
    )));
}

#[test]
fn current_auth_expiry_requests_source_refresh_with_stable_error_code() {
    let mut actor = actor("s1".to_owned(), Some(url_track("current")), None);
    let generation = actor.current_generation();

    let output = actor.handle_worker_event(WorkerEvent::CurrentFailed {
        generation,
        code: ErrorCode::SourceAuthExpired,
        message: "expired".to_owned(),
    });

    assert!(output.events.iter().any(|event| {
        matches!(
            event,
            StreamEvent::SourceRefreshNeeded { stream_id, track_id, source_role, .. }
                if stream_id == "s1"
                    && track_id == "current"
                    && *source_role == SourceRole::Current
        )
    }));
    assert!(output.events.iter().any(|event| {
        matches!(
            event,
            StreamEvent::AttemptFailed { code, message, .. }
                if *code == ErrorCode::SourceAuthExpired && message == "expired"
        )
    }));
    assert!(
        !output
            .events
            .iter()
            .any(|event| matches!(event, StreamEvent::NextNeeded { .. }))
    );
    let state_index = output
        .events
        .iter()
        .position(|event| matches!(event, StreamEvent::StateChanged { .. }))
        .expect("state event");
    let refresh_index = output
        .events
        .iter()
        .position(|event| matches!(event, StreamEvent::SourceRefreshNeeded { .. }))
        .expect("refresh request");
    assert!(state_index < refresh_index);
}

#[test]
fn current_source_failure_without_next_reports_error_and_next_needed() {
    let mut actor = actor("s1".to_owned(), Some(url_track("current")), None);
    let generation = actor.current_generation();

    let output = actor.handle_worker_event(WorkerEvent::CurrentFailed {
        generation,
        code: ErrorCode::InvalidSource,
        message: "retry exhausted".to_owned(),
    });

    let status = output.status;
    assert_eq!(status.play_state, PlayState::Idle);
    assert!(status.current.is_none());
    assert!(
        output
            .actions
            .contains(&TaskAction::CancelCurrent { generation })
    );
    assert!(output.events.iter().any(|event| {
        matches!(
            event,
            StreamEvent::AttemptFailed { code, message, .. }
                if *code == ErrorCode::InvalidSource && message == "retry exhausted"
        )
    }));
    assert!(output.events.iter().any(|event| {
        matches!(event, StreamEvent::NextNeeded { stream_id } if stream_id == "s1")
    }));
}

#[test]
fn refresh_current_source_rejects_track_id_change_after_current_was_cleared() {
    let mut actor = actor("s1".to_owned(), Some(url_track("current")), None);
    let generation = actor.current_generation();
    actor.handle_worker_event(WorkerEvent::CurrentFailed {
        generation,
        code: ErrorCode::InvalidSource,
        message: "retry exhausted".to_owned(),
    });

    let error = actor
        .handle_command(StreamCommand::RefreshCurrentSource {
            current: live_track("other", "https://new.example.test/live.wav"),
        })
        .expect_err("refresh must keep the cleared current identity");

    assert_eq!(error.code(), ErrorCode::InvalidSource);
    assert!(actor.status().current.is_none());
}

#[test]
fn refresh_current_source_requires_active_or_recent_current_identity() {
    let mut actor = actor("s1".to_owned(), None, None);

    let error = actor
        .handle_command(StreamCommand::RefreshCurrentSource {
            current: live_track("current", "https://new.example.test/live.wav"),
        })
        .expect_err("refresh without a current identity should be rejected");

    assert_eq!(error.code(), ErrorCode::InvalidSource);
    assert!(actor.status().current.is_none());
}

#[test]
fn next_auth_expiry_requests_source_refresh_for_next_track() {
    let mut actor = actor(
        "s1".to_owned(),
        Some(track("current")),
        Some(url_track("next")),
    );
    actor.handle_command(StreamCommand::Play).expect("play");
    let generation = actor.next.as_ref().expect("next").generation;

    let output = actor.handle_worker_event(WorkerEvent::NextFailed {
        generation,
        code: ErrorCode::SourceAuthExpired,
        message: "expired".to_owned(),
    });

    assert!(output.events.iter().any(|event| {
        matches!(
            event,
            StreamEvent::SourceRefreshNeeded { stream_id, track_id, source_role, .. }
                if stream_id == "s1"
                    && track_id == "next"
                    && *source_role == SourceRole::Next
        )
    }));
    assert!(actor.next.is_none());
}

#[test]
fn refresh_current_source_restarts_idle_stream_and_preserves_next() {
    let mut actor = actor(
        "s1".to_owned(),
        Some(live_track("current", "https://old.example.test/live.wav")),
        Some(track("next")),
    );
    let failed_generation = actor.current_generation();
    actor.handle_worker_event(WorkerEvent::CurrentFailed {
        generation: failed_generation,
        code: ErrorCode::SourceAuthExpired,
        message: "expired".to_owned(),
    });

    let output = actor
        .handle_command(StreamCommand::RefreshCurrentSource {
            current: live_track("current", "https://new.example.test/live.wav"),
        })
        .expect("refresh current source");

    let status = output.status;
    assert_eq!(status.play_state, PlayState::Buffering);
    assert_eq!(
        status.current.expect("current").url.as_deref(),
        Some("https://new.example.test/live.wav")
    );
    assert_eq!(status.next.expect("next").id, "next");
    assert!(output.actions.iter().any(
        |action| matches!(action, TaskAction::StartCurrent { track, .. } if track.url.as_deref() == Some("https://new.example.test/live.wav"))
    ));
}

#[test]
fn refresh_current_source_can_restart_same_track_after_current_end() {
    let mut actor = actor(
        "s1".to_owned(),
        Some(live_track("current", "https://old.example.test/live.wav")),
        None,
    );
    let ended_generation = actor.current_generation();
    actor.handle_worker_event(WorkerEvent::CurrentEnded {
        generation: ended_generation,
    });

    let output = actor
        .handle_command(StreamCommand::RefreshCurrentSource {
            current: live_track("current", "https://new.example.test/live.wav"),
        })
        .expect("same current identity can be refreshed after end");

    let status = output.status;
    assert_eq!(status.play_state, PlayState::Buffering);
    assert_eq!(
        status.current.expect("current").url.as_deref(),
        Some("https://new.example.test/live.wav")
    );
    assert!(output.actions.iter().any(
        |action| matches!(action, TaskAction::StartCurrent { track, .. } if track.id == "current")
    ));
}

#[test]
fn refresh_current_source_rejects_track_id_change_while_current_is_active() {
    let mut actor = actor(
        "s1".to_owned(),
        Some(live_track("current", "https://old.example.test/live.wav")),
        None,
    );

    let error = actor
        .handle_command(StreamCommand::RefreshCurrentSource {
            current: live_track("other", "https://new.example.test/live.wav"),
        })
        .expect_err("track id change should be rejected");

    assert_eq!(error.code(), ErrorCode::InvalidSource);
    assert_eq!(
        actor.status().current.expect("current").id,
        "current".to_owned()
    );
}

fn secret_track(id: &str) -> TrackSource {
    let mut source = url_track(id);
    source
        .headers
        .insert("authorization".to_owned(), "Bearer hidden".to_owned());
    source
}

#[test]
fn statuses_never_show_request_headers() {
    let mut actor = actor("s1".to_owned(), Some(secret_track("a")), Some(secret_track("b")));
    let status = actor.status();
    let shown = status.current.as_ref().expect("current");
    assert!(shown.headers.is_empty());
    assert_eq!(*shown, url_track("a"));
    assert_eq!(status.next, Some(url_track("b")));

    let output = actor.handle_command(StreamCommand::Play).expect("play");
    assert_eq!(output.status.current, Some(url_track("a")));
    assert!(output.events.iter().any(|event| matches!(
        event,
        StreamEvent::StateChanged { status } if status.current == Some(url_track("a"))
    )));
    // Whoever fetches the source still gets the headers.
    assert!(output.actions.iter().any(|action| matches!(
        action,
        TaskAction::StartCurrent { track, .. } if *track == secret_track("a")
    )));
    assert_eq!(actor.current.expect("current").source, secret_track("a"));
}

#[test]
fn every_transition_reports_the_state_once() {
    let changes = |events: &[StreamEvent]| {
        events
            .iter()
            .filter(|event| matches!(event, StreamEvent::StateChanged { .. }))
            .count()
    };
    let mut actor = actor("s1".to_owned(), Some(track("a")), Some(track("b")));
    let commands = [
        StreamCommand::Play,
        StreamCommand::Pause,
        StreamCommand::Seek { seconds: 3 },
        StreamCommand::ReconcilePlan { version: 1, current: Some(track("c")), next: None },
        StreamCommand::SetVolume { volume: VolumeLevel::default() },
        StreamCommand::Stop,
    ];
    for command in commands {
        let output = actor.handle_command(command).expect("accepted");
        assert_eq!(changes(&output.events), 1);
        assert_eq!(output.status, actor.status());
    }
    let output = actor.handle_worker_event(WorkerEvent::OutputFailed {
        code: ErrorCode::RtpSendError,
        message: "gone".to_owned(),
    });
    assert_eq!(changes(&output.events), 1);
}

#[test]
fn only_commands_that_hand_out_generations_need_room() {
    let mut actor = actor("s1".to_owned(), Some(track("a")), Some(track("b")));
    let plan = |version, current, next| StreamCommand::ReconcilePlan { version, current, next };
    let replace = || plan(1, Some(track("c")), Some(track("d")));
    actor.generation = u64::MAX - 1;
    assert!(actor.has_room_for(&StreamCommand::Seek { seconds: 1 }));
    assert!(actor.has_room_for(&plan(1, Some(track("c")), None)));
    assert!(!actor.has_room_for(&replace()));
    actor.generation = u64::MAX;
    assert!(!actor.has_room_for(&StreamCommand::Seek { seconds: 1 }));
    assert!(!actor.has_room_for(&StreamCommand::RefreshCurrentSource { current: track("a") }));
    assert!(!actor.has_room_for(&plan(1, Some(track("a")), Some(track("d")))));
    // Nothing is handed out by a command that is refused, by an old plan, by one
    // that keeps or promotes what is there, or by an empty one.
    assert!(actor.has_room_for(&StreamCommand::RefreshCurrentSource { current: track("c") }));
    let live = live_track("l", "http://example.test/live");
    for command in [
        plan(1, Some(track("c")), Some(live)),
        plan(0, Some(track("c")), None),
        plan(1, Some(track("a")), Some(track("b"))),
        plan(1, Some(track("b")), None),
        plan(1, None, None),
        StreamCommand::Play,
    ] {
        assert!(actor.has_room_for(&command));
        let mut copy = actor.clone();
        let _ = copy.handle_command(command);
        assert_eq!(copy.generation, u64::MAX);
    }
}
