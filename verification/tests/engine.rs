use music_stream::engine::Engine;
use music_stream::{
    ErrorCode, GainLevel, NetworkPolicy, PlayState, StreamCommand, TrackKind, TrackSource,
    VolumeLevel, WorkerEvent,
};

fn track(id: &str) -> TrackSource {
    TrackSource {
        attempt_id: format!("attempt-{id}"),
        id: id.to_owned(),
        kind: TrackKind::File,
        url: None,
        path: Some(format!("/tmp/{id}.mp3")),
        format_hint: None,
        seekable: Some(true),
        headers: Default::default(),
        network_policy: NetworkPolicy::Provider,
    }
}

#[test]
fn engine_routes_commands_through_actor() {
    let mut engine = Engine::new();
    let status = engine
        .create_stream("s1".to_owned(), Some(track("a")), None)
        .expect("create");
    assert_eq!(status.generation, 1);

    let output = engine.play("s1").expect("play");
    let status = output.status;
    assert_eq!(status.stream_id, "s1");
    assert!(matches!(
        status.play_state,
        PlayState::Buffering
    ));
}

#[test]
fn clear_removes_all_streams_and_returns_last_statuses() {
    let mut engine = Engine::new();
    engine
        .create_stream("s1".to_owned(), Some(track("a")), None)
        .expect("create s1");
    engine
        .create_stream("s2".to_owned(), Some(track("b")), None)
        .expect("create s2");

    let cleared = engine.clear();
    assert_eq!(cleared.len(), 2);
    assert!(engine.get_status("s1").is_err());
    assert!(engine.get_status("s2").is_err());
}

#[test]
fn streams_are_addressed_by_their_id_alone() {
    let mut engine = Engine::new();
    engine
        .insert_placeholder_stream("s1".to_owned(), Some(track("a")), Some(track("b")))
        .expect("create s1");
    engine
        .create_stream("s2".to_owned(), None, None)
        .expect("create s2");
    let taken = engine
        .create_stream("s1".to_owned(), None, None)
        .expect_err("taken");
    assert_eq!(taken.message(), "stream already exists: s1");

    engine.play("s1").expect("play");
    engine.pause("s1").expect("pause");
    engine.seek("s1", 5).expect("seek");
    let volume = VolumeLevel::from_units(1).expect("volume");
    engine.set_volume("s1", volume).expect("volume");
    let gain = GainLevel::from_centibels(7).expect("gain");
    engine.set_gain("s1", gain).expect("gain");
    let status = engine.get_status("s1").expect("status");
    assert_eq!(status.time_played_ms, 5_000);
    assert_eq!(status.volume, volume);
    assert_eq!(status.gain, gain);
    assert_eq!(status.play_state, PlayState::Paused);

    let other = engine.get_status("s2").expect("other");
    assert_eq!(other.play_state, PlayState::Idle);
    assert_eq!(
        engine.play("s3").expect_err("unknown").code(),
        ErrorCode::StreamNotFound
    );
    assert!(engine
        .worker_event("s3", WorkerEvent::CurrentEnded { generation: 1 })
        .is_err());
    engine
        .worker_event("s1", WorkerEvent::CurrentEnded { generation: 99 })
        .expect("stale event");

    assert_eq!(engine.stop("s1").expect("stop").status.play_state, PlayState::Stopped);
    assert_eq!(
        engine
            .command("s1", StreamCommand::Play)
            .expect_err("stopped")
            .code(),
        ErrorCode::Unsupported
    );
    assert_eq!(engine.remove_stream("s1").expect("removed").stream_id, "s1");
    assert!(engine.remove_stream("s1").is_none());
    assert!(engine.get_status("s2").is_ok());
}
