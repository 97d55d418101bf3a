use music_stream::runtime::orchestration::{plan_action, step_context, RuntimeStep};
use music_stream::slot::RtpSlotDrainReport;
use music_stream::{
    ActorOutput, ErrorCode, GainLevel, NetworkPolicy, PlayState, SourceRole, StreamActor,
    StreamCommand, StreamEvent, TaskAction, TrackKind, TrackSource, VolumeLevel, WorkerEvent,
};

fn track(id: &str) -> TrackSource {
    TrackSource {
        attempt_id: format!("attempt-{id}"),
        id: id.to_owned(),
        kind: TrackKind::File,
        url: None,
        path: Some(format!("/tmp/{id}.mp3")),
        format_hint: None,
        seekable: Some(true),
        headers: Default::default(),
        network_policy: NetworkPolicy::Provider,
    }
}

fn pair() -> StreamActor {
    StreamActor::with_next("s".to_owned(), Some(track("a")), Some(track("b")))
}

fn plan(version: u64, current: Option<TrackSource>, next: Option<TrackSource>) -> StreamCommand {
    StreamCommand::ReconcilePlan { version, current, next }
}

#[test]
fn plans_decide_the_slots_and_are_followed_once() {
    let mut actor = pair();
    actor.handle_command(StreamCommand::Play).expect("play");
    let command = plan(3, Some(track("c")), Some(track("d")));
    let first = actor.handle_command(command.clone()).expect("plan");
    assert_eq!(first.status.current.expect("current").id, "c");
    assert_eq!(first.status.next.expect("next").id, "d");
    let before = actor.status();
    let again = actor.handle_command(command).expect("same plan");
    assert!(again.actions.is_empty());
    assert_eq!(actor.status(), before);
    let emptied = actor.handle_command(plan(4, None, Some(track("e")))).expect("empty plan");
    assert!(emptied.status.current.is_none() && emptied.status.next.is_none());
    assert_eq!(emptied.status.plan_version, 4);
    assert_eq!(emptied.status.play_state, PlayState::Idle);
}

#[test]
fn refused_commands_change_nothing() {
    let mut actor = pair();
    let before = actor.status();
    let mut live = track("x");
    live.kind = TrackKind::Live;
    for command in [
        plan(1, Some(track("a")), Some(live)),
        StreamCommand::RefreshCurrentSource { current: track("other") },
    ] {
        assert!(actor.handle_command(command).is_err());
        assert_eq!(actor.status(), before);
    }
}

#[test]
fn stopping_is_final() {
    let mut actor = pair();
    let stopped = actor.handle_command(StreamCommand::Stop).expect("stop");
    assert_eq!(stopped.actions, vec![TaskAction::StopSender]);
    assert!(matches!(stopped.events[0], StreamEvent::StreamStopped { .. }));
    let again = actor.handle_command(StreamCommand::Stop).expect("stop again");
    assert!(again.actions.is_empty());
    assert_eq!(again.events.len(), 1);
    assert_eq!(
        actor.handle_command(StreamCommand::Play).expect_err("stopped").message(),
        "operation is not supported: cannot play a stopped stream"
    );
}

#[test]
fn a_pause_outlasts_everything_but_play_and_stop() {
    let mut actor = pair();
    actor.handle_command(StreamCommand::Play).expect("play");
    actor.handle_command(StreamCommand::Pause).expect("pause");
    let volume = VolumeLevel::from_units(1).expect("volume");
    let gain = GainLevel::from_centibels(1).expect("gain");
    for command in [
        StreamCommand::Pause,
        StreamCommand::Seek { seconds: u64::MAX },
        StreamCommand::RefreshCurrentSource { current: track("a") },
        plan(1, Some(track("b")), Some(track("c"))),
        plan(2, Some(track("d")), None),
        plan(3, None, None),
        StreamCommand::SetVolume { volume },
        StreamCommand::SetGain { gain },
    ] {
        let output = actor.handle_command(command).expect("accepted");
        assert_eq!(output.status.play_state, PlayState::Paused);
    }
}

#[test]
fn failing_next_attempts_spare_the_current_track() {
    let mut actor = pair();
    actor.handle_command(StreamCommand::Play).expect("play");
    let before = actor.current.clone();
    let output = actor.handle_worker_event(WorkerEvent::NextFailed {
        generation: 2,
        code: ErrorCode::DecodeError,
        message: "bad".to_owned(),
    });
    assert_eq!(actor.current, before);
    assert_eq!(output.status.play_state, PlayState::Buffering);
    assert_eq!(output.actions, vec![TaskAction::CancelNext { generation: 2 }]);
}

#[test]
fn generations_are_handed_out_once() {
    let mut actor = pair();
    let mut seen = vec![1, 2];
    for round in 0..5_u64 {
        actor.handle_command(StreamCommand::Seek { seconds: round }).expect("seek");
        let generation = actor.current_generation();
        assert!(!seen.contains(&generation));
        seen.push(generation);
        let next = format!("n{round}");
        actor
            .handle_command(plan(round + 1, Some(track("a")), Some(track(&next))))
            .expect("plan");
        let generation = actor.next.as_ref().expect("next").generation;
        assert!(!seen.contains(&generation));
        seen.push(generation);
    }
    assert_eq!(actor.generation, 12);
}

#[derive(Default)]
struct Slots {
    current: Option<u64>,
    next: Option<u64>,
    at_hand: Option<u64>,
}

fn carry_out(slots: &mut Slots, actor: &StreamActor, output: &ActorOutput) {
    for action in output.actions.iter().cloned() {
        for step in plan_action(action, slots.next, step_context(&output.status)).steps {
            match step {
                RuntimeStep::PromoteNext { generation } => {
                    assert_eq!(slots.next.take(), Some(generation));
                    slots.at_hand = Some(generation);
                }
                RuntimeStep::Spawn { generation, .. } => slots.at_hand = Some(generation),
                RuntimeStep::Install { source_role: SourceRole::Current } => {
                    slots.current = slots.at_hand.take();
                }
                RuntimeStep::Install { source_role: SourceRole::Next } => {
                    slots.next = slots.at_hand.take();
                }
                RuntimeStep::StopProducer { source_role, generation } => {
                    let slot = match source_role {
                        SourceRole::Current => &mut slots.current,
                        SourceRole::Next => &mut slots.next,
                    };
                    if *slot == Some(generation) {
                        *slot = None;
                    }
                }
                RuntimeStep::StopAllProducers => {
                    slots.current = None;
                    slots.next = None;
                }
                _ => {}
            }
        }
    }
    for (attempt, slot) in [(&actor.current, slots.current), (&actor.next, slots.next)] {
        if let Some(attempt) = attempt {
            assert!(!attempt.is_active() || slot == Some(attempt.generation));
        }
    }
}

#[test]
fn every_running_attempt_has_its_producer() {
    let mut actor = pair();
    let mut slots = Slots::default();
    let commands = vec![
        StreamCommand::Play,
        StreamCommand::Seek { seconds: 3 },
        StreamCommand::Pause,
        StreamCommand::Seek { seconds: 4 },
        StreamCommand::Play,
        plan(1, Some(track("b")), Some(track("c"))),
        plan(2, Some(track("d")), Some(track("e"))),
    ];
    for command in commands {
        let output = actor.handle_command(command).expect("command");
        carry_out(&mut slots, &actor, &output);
    }
    let next = actor.next.as_ref().expect("next").generation;
    let current = actor.current_generation();
    for event in [
        WorkerEvent::CurrentPrebufferReady { generation: current },
        WorkerEvent::NextReady { generation: next },
        WorkerEvent::CurrentEnded { generation: current },
        WorkerEvent::CurrentFailed {
            generation: next,
            code: ErrorCode::DecodeError,
            message: "bad".to_owned(),
        },
    ] {
        let output = actor.handle_worker_event(event);
        carry_out(&mut slots, &actor, &output);
    }
    assert!(actor.current.is_none());
    let output = actor.handle_command(StreamCommand::Stop).expect("stop");
    carry_out(&mut slots, &actor, &output);
    assert!(slots.current.is_none() && slots.next.is_none());
}

#[test]
fn drain_reports_merge_in_any_grouping() {
    let report = |packets_sent, media_sent_ms, last_rtp_timestamp| RtpSlotDrainReport {
        packets_sent,
        media_sent_ms,
        last_rtp_timestamp,
        ..RtpSlotDrainReport::default()
    };
    let (a, b, c) = (report(1, u64::MAX, Some(1)), report(2, 5, None), report(3, 6, Some(3)));
    let mut left = a;
    left.merge(&b);
    left.merge(&c);
    let mut tail = b;
    tail.merge(&c);
    let mut right = a;
    right.merge(&tail);
    assert_eq!(left, right);
    assert_eq!(left.media_sent_ms, u64::MAX);
}
