use bytes::Bytes;
use music_stream::runtime::external_pull::{ExternalPull, PullCommand, PullReply};
use music_stream::runtime::opus_queue::{Offer, OpusQueue};
use music_stream::runtime::sender::{
    shutdown_result, supervised_failure, RtpSender, SenderCommand,
};
use music_stream::{
    ErrorCode, ExternalFrameAck, ExternalFrameOutcome, ExternalOpusFrame, MusicStreamError,
    OpusFrame, RtcpNetworkQualityLevel, RtcpReceiverReportSnapshot, WorkerEvent,
};

const MILLI: u128 = 1_000_000;

const SSRC: u32 = 0x5eed_0001;

fn frame(position: u64) -> OpusFrame {
    OpusFrame {
        generation: 1,
        payload: Bytes::from_static(b"opus"),
        samples_per_channel: 960,
        duration_ms: 20,
        marker: false,
        track_position_samples: position * 960,
    }
}

fn filled(frames: u64) -> OpusQueue {
    let mut queue = OpusQueue::bounded(400);
    for position in 0..frames {
        assert!(matches!(queue.offer(frame(position), false), Offer::Accepted));
    }
    queue
}

fn activate(paused: bool) -> SenderCommand {
    SenderCommand::Activate { generation: 1, start_position_ms: 0, paused }
}

#[test]
fn activating_paused_media_never_sends_before_resume() {
    let mut sender = RtpSender::start(SSRC, 20, 100);
    let queue = filled(1);
    sender.handle_command(activate(true), 0);
    let reports = sender.poll_media(queue.snapshot(), 5);
    assert_eq!(reports.ready, None);
    assert_eq!(sender.deadline(), None);

    sender.handle_command(SenderCommand::Resume { generation: 2 }, 10);
    assert_eq!(sender.deadline(), None);
    sender.handle_command(SenderCommand::Resume { generation: 1 }, 10);
    let reports = sender.poll_media(queue.snapshot(), 12);
    assert_eq!(
        reports.ready,
        Some(WorkerEvent::CurrentPrebufferReady { generation: 1 })
    );
    assert_eq!(sender.deadline(), Some(12));
    assert!(sender.handle_command(SenderCommand::Pause { generation: 1 }, 13));
    assert_eq!(sender.deadline(), None);
    assert!(!sender.handle_command(SenderCommand::Shutdown, 14));
}

fn send_one(sender: &mut RtpSender, queue: &mut OpusQueue, now: u128) -> (u16, u32, bool) {
    let mut turn = sender.begin_turn(now).expect("active media");
    while sender.drop_stale(&mut turn, queue, now) {}
    let packet = sender.take_packet(turn, queue).expect("due frame");
    assert_eq!(packet.ssrc, SSRC);
    let buffered = queue.snapshot().buffered_ms;
    let progress = sender
        .packet_sent(turn, &packet, 16, 16, buffered, now)
        .expect("sent in full");
    assert_eq!(progress.buffered_ms, buffered);
    (packet.sequence, packet.rtp_timestamp, packet.frame.marker)
}

#[test]
fn excessive_sender_lateness_drops_media_without_consuming_sequence_numbers() {
    let mut sender = RtpSender::new(SSRC, 20, 100, u16::MAX, u32::MAX - 100);
    let mut queue = filled(20);
    sender.handle_command(activate(false), 0);
    sender.poll_media(queue.snapshot(), 0);

    let first = send_one(&mut sender, &mut queue, 0);
    assert!(first.2);
    let late = 250 * MILLI;
    let second = send_one(&mut sender, &mut queue, late);
    assert!(!second.2);

    let dropped = sender.state.dropped_frames;
    assert!(dropped > 0);
    assert_eq!(second.0, first.0.wrapping_add(1));
    assert_eq!(
        second.1.wrapping_sub(first.1),
        u32::try_from(dropped + 1).expect("frame count") * 960
    );
    assert_eq!(sender.state.dropped_media_ms, dropped * 20);
    assert_eq!(sender.state.latency_recoveries, 1);
    assert_eq!(sender.state.max_lateness_ms, 230);
    assert_eq!(sender.state.packets_sent, 2);
    assert_eq!(sender.state.bytes_sent, 32);
    assert_eq!(sender.state.octets_sent, 8);
    // The frame was due 130 ms into the session; the next one is due at 150 ms,
    // which has passed, so it follows one frame after now.
    assert_eq!(sender.deadline(), Some(late + 20 * MILLI));
}

#[test]
fn track_changes_keep_the_packet_session() {
    let mut sender = RtpSender::new(SSRC, 20, 100, 7, 70);
    let mut queue = filled(2);
    sender.handle_command(activate(false), 0);
    sender.poll_media(queue.snapshot(), 0);
    send_one(&mut sender, &mut queue, 0);
    sender.handle_command(
        SenderCommand::Activate { generation: 2, start_position_ms: 5_000, paused: false },
        MILLI,
    );
    let mut other = filled(1);
    sender.poll_media(other.snapshot(), MILLI);
    let sent = send_one(&mut sender, &mut other, MILLI);
    assert_eq!(sent, (8, 1_030, true));
    assert_eq!(sender.active_generation(), 2);
    sender.handle_command(SenderCommand::Deactivate { generation: 1 }, MILLI);
    assert_eq!(sender.active_generation(), 2);
    sender.handle_command(SenderCommand::Deactivate { generation: 2 }, MILLI);
    assert_eq!(sender.active_generation(), 0);
    assert!(sender.begin_turn(2 * MILLI).is_none());
}

#[test]
fn drained_media_ends_and_starved_media_waits() {
    let mut sender = RtpSender::new(SSRC, 20, 100, 0, 0);
    let mut queue = filled(1);
    sender.handle_command(activate(false), 0);
    sender.poll_media(queue.snapshot(), 0);
    send_one(&mut sender, &mut queue, 0);
    let turn = sender.begin_turn(20 * MILLI).expect("active");
    assert!(sender.take_packet(turn, &mut queue).is_none());
    assert_eq!(sender.state.underruns, 1);
    assert_eq!(sender.deadline(), None);
    queue.drop_sender();
    let reports = sender.poll_media(queue.snapshot(), 21 * MILLI);
    assert_eq!(reports.ready, None);
    assert_eq!(reports.ended, Some(WorkerEvent::CurrentEnded { generation: 1 }));
    assert_eq!(sender.active_generation(), 0);
}

#[test]
fn a_closed_source_starts_below_the_prebuffer() {
    let mut sender = RtpSender::new(SSRC, 100, 100, 0, 0);
    let mut queue = filled(1);
    sender.handle_command(activate(false), 0);
    assert_eq!(sender.poll_media(queue.snapshot(), 1).ready, None);
    queue.drop_sender();
    assert!(sender.poll_media(queue.snapshot(), 1).ready.is_some());
}

#[test]
fn failed_sends_end_the_media_with_a_report() {
    let mut sender = RtpSender::new(SSRC, 20, 100, 0, 0);
    let mut queue = filled(2);
    sender.handle_command(activate(false), 0);
    sender.poll_media(queue.snapshot(), 0);
    let turn = sender.begin_turn(0).expect("active");
    let packet = sender.take_packet(turn, &mut queue).expect("frame");
    let event = sender
        .packet_sent(turn, &packet, 16, 15, 20, 0)
        .expect_err("partial send");
    assert_eq!(
        event,
        WorkerEvent::CurrentFailed {
            generation: 1,
            code: ErrorCode::RtpSendError,
            message: "rtp send error: partial UDP datagram send: 15 bytes".to_owned(),
        }
    );
    assert_eq!(sender.state.packets_sent, 0);
    assert!(sender
        .packet_failed(&MusicStreamError::Internal("x".to_owned()))
        .is_none());
    sender.handle_command(activate(false), 0);
    assert!(matches!(
        sender.packet_failed(&MusicStreamError::RtpSendError("x".to_owned())),
        Some(WorkerEvent::CurrentFailed { generation: 1, message, .. }) if message == "rtp send error: x"
    ));
}

#[test]
fn quality_is_reported_when_its_level_changes() {
    let mut sender = RtpSender::new(SSRC, 20, 100, 0, 0);
    let report = |fraction_lost| RtcpReceiverReportSnapshot {
        reports_received: 3,
        fraction_lost,
        jitter_micros: 0,
        round_trip_time_micros: None,
    };
    let idle = sender.receiver_report(report(0), 0);
    assert_eq!((idle.event, idle.progress), (None, None));
    sender.handle_command(activate(false), 0);
    let same = sender.receiver_report(report(0), 9);
    assert_eq!(same.event, None);
    assert_eq!(same.progress.expect("progress").buffered_ms, 9);
    let worse = sender.receiver_report(report(255), 0);
    assert!(matches!(
        worse.event,
        Some(WorkerEvent::CurrentNetworkQualityChanged {
            generation: 1,
            quality: RtcpNetworkQualityLevel::Poor,
            ..
        })
    ));
    assert_eq!(sender.state.receiver_reports, 3);
}

#[test]
fn sender_reports_begin_with_the_first_packet() {
    let mut sender = RtpSender::new(SSRC, 20, 100, 0, 40);
    assert!(sender.sender_report().is_none());
    let mut queue = filled(1);
    sender.handle_command(activate(false), 0);
    sender.poll_media(queue.snapshot(), 0);
    send_one(&mut sender, &mut queue, 0);
    let report = sender.sender_report().expect("report");
    assert_eq!((report.rtp_timestamp, report.packets, report.octets), (1_000, 1, 4));
    assert_eq!(report.ssrc, SSRC);
    sender.state.packets_sent = u64::MAX;
    assert_eq!(sender.sender_report().expect("report").packets, u32::MAX);
}

#[test]
fn sender_panic_is_published_for_the_active_generation() {
    let failed = Err(MusicStreamError::Internal("RTP sender task failed: panic".to_owned()));
    assert!(matches!(
        supervised_failure(&failed, 42),
        Some(WorkerEvent::CurrentFailed { generation: 42, code: ErrorCode::Internal, .. })
    ));
    assert!(supervised_failure(&failed, 0).is_none());
    assert!(supervised_failure(&Ok(()), 42).is_none());
    let error = |text: &str| Err(MusicStreamError::Internal(text.to_owned()));
    assert_eq!(
        shutdown_result(error("command"), error("task")).expect_err("failed").message(),
        "internal error: task"
    );
    assert_eq!(
        shutdown_result(error("command"), Ok(())).expect_err("failed").message(),
        "internal error: command"
    );
    assert!(shutdown_result(Ok(()), Ok(())).is_ok());
}

#[test]
fn random_sessions_start_idle() {
    let sender = RtpSender::start(SSRC, 20, 100);
    assert_eq!(sender.active_generation(), 0);
    let again = RtpSender::new(SSRC, 20, 100, sender.state.sequence, sender.state.rtp_timestamp);
    assert_eq!(sender.state, again.state);
    let starts: Vec<(u16, u32)> = (0..8)
        .map(|_| {
            let sender = RtpSender::start(SSRC, 20, 100);
            (sender.state.sequence, sender.state.rtp_timestamp)
        })
        .collect();
    assert!(starts.iter().any(|start| *start != starts[0]));
}

fn pulled(output: &mut ExternalPull, queue: &mut OpusQueue, now: u128) -> ExternalOpusFrame {
    let mut turn = output.begin_turn(now).expect("waiting pull");
    while output.drop_stale(&mut turn, queue, now) {}
    output.lease_frame(turn, queue, now).expect("frame")
}

fn playing(queue: &OpusQueue) -> ExternalPull {
    let mut output = ExternalPull::new(20, 100);
    let response = output.handle_command(
        PullCommand::Activate { generation: 1, start_position_ms: 1_000, paused: false },
        0,
    );
    assert!(matches!(response.reply, PullReply::Done(Ok(()))));
    output.poll_media(queue.snapshot(), 0);
    output
}

fn pull(output: &mut ExternalPull, previous: Option<ExternalFrameAck>, now: u128) -> PullReply {
    output.handle_command(PullCommand::Pull { previous }, now).reply
}

fn ack(lease_id: u32, outcome: ExternalFrameOutcome) -> ExternalFrameAck {
    ExternalFrameAck { lease_id, generation: 1, outcome }
}

#[test]
fn frames_are_leased_one_at_a_time_and_acknowledged_once() {
    let mut queue = filled(3);
    let mut output = playing(&queue);
    assert_eq!(output.delivery_deadline(), None);
    assert!(matches!(pull(&mut output, None, 0), PullReply::Parked));
    assert_eq!(output.delivery_deadline(), Some(0));
    assert!(matches!(
        pull(&mut output, None, 0),
        PullReply::PullRefused(MusicStreamError::Busy(text))
            if text == "only one external pull may be pending per stream"
    ));
    let first = pulled(&mut output, &mut queue, 0);
    assert_eq!((first.lease_id, first.generation), (1, 1));
    assert_eq!(first.media_position_ms, 1_020);
    assert_eq!(first.deadline_remaining(30 * MILLI), 70 * MILLI);
    assert_eq!(first.payload, Bytes::from_static(b"opus"));
    assert_eq!(output.lease_deadline(), Some(2_000 * MILLI));
    assert!(matches!(
        pull(&mut output, None, 0),
        PullReply::PullRefused(MusicStreamError::Busy(text))
            if text == "the previous external Opus frame is still outstanding"
    ));
    assert!(matches!(
        pull(&mut output, Some(ack(2, ExternalFrameOutcome::Sent)), 0),
        PullReply::PullRefused(MusicStreamError::InvalidConfig(text))
            if text == "external Opus frame ack does not match the outstanding lease"
    ));
    assert!(matches!(
        pull(&mut output, Some(ack(1, ExternalFrameOutcome::Sent)), MILLI),
        PullReply::Parked
    ));
    assert_eq!(output.frames_delivered, 1);
    assert_eq!(output.bytes_delivered, 4);
    let progress = output.progress(7).expect("progress");
    assert_eq!((progress.media_sent_ms, progress.buffered_ms), (20, 7));
    // The next frame follows on the media timeline.
    assert_eq!(output.delivery_deadline(), Some(20 * MILLI));
    let second = pulled(&mut output, &mut queue, 20 * MILLI);
    assert_eq!(second.lease_id, 2);
    let again = output.handle_command(
        PullCommand::Finish { ack: ack(2, ExternalFrameOutcome::Late) },
        21 * MILLI,
    );
    assert!(matches!(again.reply, PullReply::Done(Ok(()))));
    assert_eq!((output.dropped_frames, output.dropped_media_ms), (1, 20));
    let refused = output.handle_command(
        PullCommand::Finish { ack: ack(2, ExternalFrameOutcome::Late) },
        21 * MILLI,
    );
    assert!(matches!(
        refused.reply,
        PullReply::Done(Err(MusicStreamError::InvalidConfig(text)))
            if text == "external Opus frame ack has no outstanding lease"
    ));
}

#[test]
fn late_consumers_lose_stale_frames_and_prompt_ones_are_reanchored() {
    let mut queue = filled(20);
    let mut output = playing(&queue);
    pull(&mut output, None, 0);
    let first = pulled(&mut output, &mut queue, 0);
    // Held for longer than it plays: the lateness shows at the next pull.
    let late = 250 * MILLI;
    pull(&mut output, Some(ack(first.lease_id, ExternalFrameOutcome::Sent)), late);
    assert_eq!(output.delivery_deadline(), Some(20 * MILLI));
    let second = pulled(&mut output, &mut queue, late);
    assert_eq!(output.dropped_frames, 7);
    assert_eq!(output.latency_recoveries, 1);
    assert_eq!(output.max_lateness_ms, 230);
    // Prompt again: the timeline starts anew instead of catching up in a burst.
    pull(&mut output, Some(ack(second.lease_id, ExternalFrameOutcome::Sent)), late + MILLI);
    assert_eq!(output.delivery_deadline(), Some(late + 21 * MILLI));
}

#[test]
fn cancelled_frames_leave_the_position_alone() {
    let mut queue = filled(2);
    let mut output = playing(&queue);
    pull(&mut output, None, 0);
    pulled(&mut output, &mut queue, 0);
    let before = output;
    output.handle_command(
        PullCommand::Finish { ack: ack(1, ExternalFrameOutcome::Cancelled) },
        MILLI,
    );
    assert_eq!(output.lease, None);
    assert_eq!(output.active, before.active);
    assert_eq!(output.frames_delivered, 0);
}

#[test]
fn an_unavailable_output_fails_the_media() {
    let mut queue = filled(2);
    let mut output = playing(&queue);
    pull(&mut output, None, 0);
    pulled(&mut output, &mut queue, 0);
    let response = output.handle_command(
        PullCommand::Pull { previous: Some(ack(1, ExternalFrameOutcome::OutputUnavailable)) },
        MILLI,
    );
    assert!(matches!(response.reply, PullReply::NoFrame));
    assert!(matches!(
        response.event,
        Some(WorkerEvent::CurrentFailed { generation: 1, code: ErrorCode::StreamClosed, message })
            if message == "external Opus output is unavailable"
    ));
    assert_eq!(output.active, None);
}

#[test]
fn expired_leases_fail_the_media() {
    let mut queue = filled(2);
    let mut output = playing(&queue);
    pull(&mut output, None, 0);
    pulled(&mut output, &mut queue, 0);
    let (event, refuse_waiter) = output.lease_expired();
    assert!(!refuse_waiter);
    assert!(matches!(
        event,
        WorkerEvent::CurrentFailed { generation: 1, code: ErrorCode::StreamClosed, message }
            if message == "external Opus frame lease timed out"
    ));
    assert!(matches!(pull(&mut output, None, 0), PullReply::NoFrame));
}

#[test]
fn waiting_pulls_outlive_their_media_but_not_the_output() {
    let mut queue = filled(1);
    let mut output = playing(&queue);
    pull(&mut output, None, 0);
    pulled(&mut output, &mut queue, 0);
    queue.drop_sender();
    // The last frame is still out: the media has not ended yet.
    assert_eq!(output.poll_media(queue.snapshot(), 0).ended, None);
    pull(&mut output, Some(ack(1, ExternalFrameOutcome::Sent)), MILLI);
    assert_eq!(
        output.poll_media(queue.snapshot(), 0).ended,
        Some(WorkerEvent::CurrentEnded { generation: 1 })
    );
    assert!(output.pull_pending);
    let cancelled = output.handle_command(PullCommand::CancelPull, 0);
    assert!(cancelled.release_waiter);
    assert!(!output.handle_command(PullCommand::CancelPull, 0).release_waiter);
    assert!(!output.handle_command(PullCommand::Shutdown, 0).running);
}

#[test]
fn pausing_holds_a_waiting_pull() {
    let queue = filled(2);
    let mut output = playing(&queue);
    pull(&mut output, None, 0);
    output.handle_command(PullCommand::Pause { generation: 1 }, 1);
    assert_eq!(output.delivery_deadline(), None);
    output.handle_command(PullCommand::Resume { generation: 1 }, 9);
    assert_eq!(output.delivery_deadline(), Some(9));
    let gone = output.handle_command(PullCommand::Deactivate { generation: 1 }, 9);
    assert!(gone.release_waiter);
    assert_eq!(output.active, None);
}

#[test]
fn starved_pulls_stay_parked_and_lost_deliveries_free_the_lease() {
    let mut queue = filled(1);
    let mut output = playing(&queue);
    pull(&mut output, None, 0);
    pulled(&mut output, &mut queue, 0);
    output.delivery_failed();
    assert_eq!(output.lease, None);
    pull(&mut output, None, 0);
    let turn = output.begin_turn(0).expect("waiting");
    assert!(output.lease_frame(turn, &mut queue, 0).is_none());
    assert!(output.pull_pending);
    assert_eq!(output.underruns, 1);
}
