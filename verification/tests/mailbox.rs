use music_stream::session::mailbox::{
    check_mailbox_capacity, delivery_result, handle_mailbox_message, queue_depth, MailboxDelivery,
    MailboxReply, MailboxRequest, DEFAULT_STREAM_ACTOR_MAILBOX_CAPACITY,
};
use music_stream::{
    ActorOutput, ErrorCode, NetworkPolicy, PlayState, StreamActor, StreamCommand, StreamEvent,
    TaskAction, TrackKind, TrackSource, WorkerEvent,
};

fn track(id: &str) -> TrackSource {
    TrackSource {
        attempt_id: format!("attempt-{id}"),
        id: id.to_owned(),
        kind: TrackKind::File,
        url: None,
        path: Some(format!("/tmp/{id}.mp3")),
        format_hint: None,
        seekable: Some(true),
        headers: Default::default(),
        network_policy: NetworkPolicy::Provider,
    }
}

fn output(reply: MailboxReply) -> ActorOutput {
    match reply {
        MailboxReply::Output(Ok(output)) => output,
        other => panic!("expected an output, got {other:?}"),
    }
}

#[test]
fn bounded_command_queue_returns_busy_when_full() {
    let error = delivery_result("s1", MailboxDelivery::Full)
        .expect_err("full mailbox should reject immediately");

    assert_eq!(error.code(), ErrorCode::Busy);
    assert_eq!(
        error.message(),
        "operation is busy: stream actor mailbox is full: s1"
    );
    assert_eq!(
        delivery_result("s1", MailboxDelivery::Closed)
            .expect_err("closed mailbox")
            .message(),
        "stream is closed: stream actor mailbox is closed: s1"
    );
    assert!(delivery_result("s1", MailboxDelivery::Accepted).is_ok());
    assert_eq!(queue_depth(8, 5), 3);
    assert_eq!(queue_depth(8, 9), 0);
    assert!(check_mailbox_capacity(DEFAULT_STREAM_ACTOR_MAILBOX_CAPACITY).is_ok());
    assert_eq!(
        check_mailbox_capacity(0).expect_err("no room").code(),
        ErrorCode::InvalidConfig
    );
}

#[test]
fn commands_and_worker_events_are_processed_serially() {
    let mut actor = StreamActor::with_next("s1".to_owned(), Some(track("a")), None);

    let play = output(handle_mailbox_message(
        &mut actor,
        MailboxRequest::Command(StreamCommand::Play),
    ));
    let generation = play.status.generation;
    assert_eq!(
        play.actions,
        vec![TaskAction::StartCurrent {
            generation,
            watchdog_epoch: 1,
            track: track("a"),
        }]
    );
    assert_eq!(play.status.play_state, PlayState::Buffering);

    let ready = output(handle_mailbox_message(
        &mut actor,
        MailboxRequest::WorkerEvent(WorkerEvent::CurrentPrebufferReady { generation }),
    ));
    assert_eq!(ready.status.play_state, PlayState::Playing);
}

#[test]
fn worker_event_path_keeps_actor_generation_filtering() {
    let mut actor = StreamActor::with_next("s1".to_owned(), Some(track("a")), None);
    let generation = match handle_mailbox_message(&mut actor, MailboxRequest::Status) {
        MailboxReply::Status(status) => status.generation,
        other => panic!("expected a status, got {other:?}"),
    };

    let stale = output(handle_mailbox_message(
        &mut actor,
        MailboxRequest::WorkerEvent(WorkerEvent::CurrentEnded {
            generation: generation + 1,
        }),
    ));
    assert!(stale.events.iter().all(
        |event| !matches!(event, StreamEvent::NextNeeded { stream_id } if stream_id == "s1")
    ));
    assert_eq!(stale.status.current, Some(track("a")));

    let current = output(handle_mailbox_message(
        &mut actor,
        MailboxRequest::WorkerEvent(WorkerEvent::CurrentEnded { generation }),
    ));
    assert!(current.events.iter().any(
        |event| matches!(event, StreamEvent::NextNeeded { stream_id } if stream_id == "s1")
    ));
}
