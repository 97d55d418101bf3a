//! An output from which a consumer pulls frames under leases.
//!
//! The surrounding task owns the reply channels, timers and the queue lock. At
//! most one pull waits and at most one frame is out on lease at any time.
use super::opus_queue::{OpusQueue, QueueSnapshot};
use super::progress::StreamRuntimeProgress;
use super::sender::{discardable, MediaReports, PlayoutTurn};
use super::time::{
    after, frame_span, from_millis, grew_by, larger, since, spec_after, spec_frame_span, spec_from_millis,
    spec_max, spec_since, spec_whole_millis, sum, whole_millis,
};
use super::worker_events::{answered, closed_down, deliver, filled_up, took_first, Delivery};
use crate::audio::frame::{payload_bytes, payload_len, OpusFrame};
use crate::error::{ErrorCode, MusicStreamError};
use crate::session::types::WorkerEvent;
use std::collections::VecDeque;
use tokio::sync::mpsc;
use vstd::prelude::*;
use vstd::std_specs::vecdeque::*;

verus! {

/// How long a consumer may hold a frame: two seconds.
pub const LEASE_TIMEOUT_NANOS: u128 = 2_000_000_000;

#[derive(Clone, Copy, Debug, PartialEq, Eq, Structural)]
pub enum ExternalFrameOutcome {
    Sent,
    Late,
    Cancelled,
    OutputUnavailable,
}

#[derive(Clone, Copy, Debug, PartialEq, Eq)]
pub struct ExternalFrameAck {
    pub lease_id: u32,
    pub generation: u64,
    pub outcome: ExternalFrameOutcome,
}

#[derive(Debug, PartialEq, Eq)]
pub struct ExternalOpusFrame {
    pub lease_id: u32,
    pub generation: u64,
    pub payload: bytes::Bytes,
    pub samples_per_channel: u32,
    pub media_position_ms: u64,
    pub deadline: u128,
}

impl ExternalOpusFrame {
    /// Time left on the playout deadline at the instant `now`.
    ///
    /// The deadline is absolute, so time that a frame spends on its way to the
    /// consumer is not added back.
    #[must_use]
    pub fn deadline_remaining(&self, now: u128) -> (left: u128)
        ensures
            left == spec_since(self.deadline, now),
    {
        since(self.deadline, now)
    }
}

#[derive(Clone, Copy, Debug, PartialEq, Eq)]
pub struct PulledMedia {
    pub generation: u64,
    pub start_position_ms: u64,
    pub started: bool,
    pub prebuffer_reported: bool,
    pub deadline: Option<u128>,
    pub media_sent_ms: u64,
}

/// A frame in the hands of the consumer.
#[derive(Clone, Copy, Debug, PartialEq, Eq)]
pub struct Lease {
    pub id: u32,
    pub generation: u64,
    pub duration_ms: u64,
    pub payload_len: usize,
    pub delivered_at: u128,
    pub expires_at: u128,
}

#[derive(Clone, Copy, Debug, PartialEq, Eq)]
pub enum PullCommand {
    Activate { generation: u64, start_position_ms: u64, paused: bool },
    Deactivate { generation: u64 },
    Pause { generation: u64 },
    Resume { generation: u64 },
    Pull { previous: Option<ExternalFrameAck> },
    Finish { ack: ExternalFrameAck },
    CancelPull,
    Shutdown,
}

/// The answer to the command itself.
pub enum PullReply {
    /// Done, or refused with an error.
    Done(Result<(), MusicStreamError>),
    /// A pull is told that there is no frame.
    NoFrame,
    /// A pull is refused.
    PullRefused(MusicStreamError),
    /// A pull waits for its frame.
    Parked,
}

/// What a command leads to.
pub struct PullResponse {
    pub reply: PullReply,
    /// The pull that was waiting is told that there is no frame.
    pub release_waiter: bool,
    pub event: Option<WorkerEvent>,
    /// Whether progress is to be published.
    pub publish: bool,
    /// Whether the output runs on.
    pub running: bool,
}

/// The output as plain data.
#[derive(Clone, Copy, Debug, PartialEq, Eq)]
pub struct ExternalPull {
    pub prebuffer_ms: u64,
    pub max_playout_lateness: u128,
    pub active: Option<PulledMedia>,
    pub paused: bool,
    pub pull_pending: bool,
    pub lease: Option<Lease>,
    pub next_lease_id: u32,
    pub frames_delivered: u64,
    pub bytes_delivered: u64,
    pub dropped_frames: u64,
    pub dropped_media_ms: u64,
    pub latency_recoveries: u64,
    pub underruns: u64,
    pub max_lateness_ms: u64,
}

/// The identifier after `id`; 0 is never used.
pub open spec fn following_lease_id(id: u32) -> u32 {
    if id == u32::MAX {
        1
    } else {
        (id + 1) as u32
    }
}

impl ExternalPull {
    /// Lease identifiers are never 0, and no pull waits while a frame is out.
    pub open spec fn wf(self) -> bool {
        &&& self.next_lease_id != 0
        &&& self.lease matches Some(lease) ==> lease.id != 0 && !self.pull_pending
    }

    pub open spec fn plays(self, generation: u64) -> bool {
        self.active matches Some(media) && media.generation == generation
    }

    pub open spec fn may_start(self, queue: QueueSnapshot) -> bool {
        self.active matches Some(media) && !media.started && !self.paused && (queue.buffered_ms
            >= self.prebuffer_ms || (!queue.sender_alive && queue.buffered_ms > 0))
    }

    /// The report that media can be played, the first time it can.
    pub open spec fn ready_report(self, queue: QueueSnapshot) -> Option<WorkerEvent> {
        match self.active {
            Some(media) => if self.may_start(queue) && !media.prebuffer_reported {
                Some(WorkerEvent::CurrentPrebufferReady { generation: media.generation })
            } else {
                None
            },
            None => None,
        }
    }

    /// The report that media was played to its end.
    pub open spec fn ended_report(self, queue: QueueSnapshot) -> Option<WorkerEvent> {
        match self.active {
            Some(media) => if queue.drained() && self.lease is None {
                Some(WorkerEvent::CurrentEnded { generation: media.generation })
            } else {
                None
            },
            None => None,
        }
    }

    pub open spec fn spec_delivery_deadline(self) -> Option<u128> {
        match self.active {
            Some(media) => if media.started && !self.paused && self.pull_pending
                && self.lease is None {
                media.deadline
            } else {
                None
            },
            None => None,
        }
    }

    /// When the due frame of active media was to be handed out.
    pub open spec fn scheduled(self, now: u128) -> u128 {
        match self.active->0.deadline {
            Some(deadline) => deadline,
            None => now,
        }
    }

    /// The state after the deadline of a waiting pull has come.
    pub open spec fn woken(self, now: u128) -> ExternalPull {
        ExternalPull {
            max_lateness_ms: spec_max(
                self.max_lateness_ms,
                spec_whole_millis(spec_since(now, self.scheduled(now))),
            ),
            ..self
        }
    }

    /// The state after a frame that is too late was discarded.
    pub open spec fn skipped(self, stale: OpusFrame) -> ExternalPull {
        ExternalPull {
            active: match self.active {
                Some(media) => Some(
                    PulledMedia {
                        media_sent_ms: sum(media.media_sent_ms, stale.duration_ms),
                        ..media
                    },
                ),
                None => None,
            },
            dropped_frames: sum(self.dropped_frames, 1),
            dropped_media_ms: sum(self.dropped_media_ms, stale.duration_ms),
            ..self
        }
    }

    pub open spec fn recovered(self, recovered: bool) -> ExternalPull {
        if recovered {
            ExternalPull { latency_recoveries: sum(self.latency_recoveries, 1), ..self }
        } else {
            self
        }
    }

    /// The frame that the waiting pull gets.
    pub open spec fn frame_for(self, turn: PlayoutTurn, due: OpusFrame) -> ExternalOpusFrame {
        let media = self.active->0;
        ExternalOpusFrame {
            lease_id: self.next_lease_id,
            generation: media.generation,
            payload: due.payload,
            samples_per_channel: due.samples_per_channel,
            media_position_ms: sum(
                sum(media.start_position_ms, media.media_sent_ms),
                due.duration_ms,
            ),
            deadline: spec_after(turn.scheduled, self.max_playout_lateness),
        }
    }

    /// The state after the frame that is due went out on lease.
    pub open spec fn leased(self, turn: PlayoutTurn, due: OpusFrame, now: u128) -> ExternalPull {
        let media = self.active->0;
        ExternalPull {
            active: Some(PulledMedia { deadline: Some(turn.scheduled), ..media }),
            pull_pending: false,
            lease: Some(
                Lease {
                    id: self.next_lease_id,
                    generation: media.generation,
                    duration_ms: due.duration_ms,
                    payload_len: payload_bytes(due.payload).len() as usize,
                    delivered_at: now,
                    expires_at: spec_after(now, LEASE_TIMEOUT_NANOS),
                },
            ),
            next_lease_id: following_lease_id(self.next_lease_id),
            ..self.recovered(turn.recovered)
        }
    }

    /// The state after there was no frame to lease.
    pub open spec fn starved(self, recovered: bool) -> ExternalPull {
        ExternalPull {
            active: Some(PulledMedia { started: false, deadline: None, ..self.active->0 }),
            underruns: sum(self.underruns, 1),
            ..self.recovered(recovered)
        }
    }

    /// The state after the lease that was out ended by itself.
    pub open spec fn expired(self) -> ExternalPull {
        ExternalPull { lease: None, active: None, pull_pending: false, ..self }
    }

    pub open spec fn spec_progress(self, buffered_ms: u64) -> Option<StreamRuntimeProgress> {
        match self.active {
            None => None,
            Some(media) => Some(
                StreamRuntimeProgress {
                    generation: media.generation,
                    start_position_ms: media.start_position_ms,
                    media_sent_ms: media.media_sent_ms,
                    packets_sent: self.frames_delivered,
                    bytes_sent: self.bytes_delivered,
                    dropped_frames: self.dropped_frames,
                    dropped_media_ms: self.dropped_media_ms,
                    latency_recoveries: self.latency_recoveries,
                    underruns: self.underruns,
                    buffered_ms,
                    max_lateness_ms: self.max_lateness_ms,
                    sequence: 0,
                    rtp_timestamp: 0,
                    latest_receiver_report: None,
                },
            ),
        }
    }

    /// Whether the pull that waits is told that there will be no frame for it.
    pub open spec fn releases_waiter(self, command: PullCommand) -> bool {
        self.pull_pending && match command {
            PullCommand::Deactivate { generation } => self.plays(generation),
            PullCommand::CancelPull | PullCommand::Shutdown => true,
            _ => false,
        }
    }

    /// The state after looking at the queue. Media whose last frame is still out
    /// on lease stays until the lease ends.
    pub open spec fn polled(self, queue: QueueSnapshot, now: u128) -> ExternalPull {
        if self.active is None {
            self
        } else if queue.drained() && self.lease is None {
            ExternalPull { active: None, ..self }
        } else if self.may_start(queue) {
            ExternalPull {
                active: Some(
                    PulledMedia {
                        started: true,
                        prebuffer_reported: true,
                        deadline: Some(now),
                        ..self.active->0
                    },
                ),
                ..self
            }
        } else {
            self
        }
    }

    /// Why an acknowledgement is refused, if it is.
    pub open spec fn ack_refusal(self, ack: ExternalFrameAck) -> Option<Seq<char>> {
        match self.lease {
            None => Some("external Opus frame ack has no outstanding lease"@),
            Some(lease) => if lease.id != ack.lease_id || lease.generation != ack.generation {
                Some("external Opus frame ack does not match the outstanding lease"@)
            } else {
                None
            },
        }
    }

    /// The deadline that follows a frame of `lease`, acknowledged at `now`. A
    /// delayed consumer exposes its accumulated lateness to the next pull so that
    /// stale queued media is discarded; a prompt one is re-anchored, to avoid a
    /// burst of catch-up frames.
    pub open spec fn deadline_after(media: PulledMedia, lease: Lease, now: u128) -> u128 {
        let span = spec_frame_span(lease.duration_ms);
        let anchored = spec_after(
            match media.deadline {
                Some(deadline) => deadline,
                None => now,
            },
            span,
        );
        if spec_since(now, lease.delivered_at) > span {
            anchored
        } else if anchored <= now {
            spec_after(now, span)
        } else {
            anchored
        }
    }

    /// The state after a valid acknowledgement.
    pub open spec fn acknowledged(self, ack: ExternalFrameAck, now: u128) -> ExternalPull {
        let lease = self.lease->0;
        let released = ExternalPull { lease: None, ..self };
        match ack.outcome {
            ExternalFrameOutcome::OutputUnavailable => ExternalPull { active: None, ..released },
            ExternalFrameOutcome::Cancelled => released,
            ExternalFrameOutcome::Sent | ExternalFrameOutcome::Late => if !self.plays(
                ack.generation,
            ) {
                released
            } else {
                let media = self.active->0;
                let played = ExternalPull {
                    active: Some(
                        PulledMedia {
                            media_sent_ms: sum(media.media_sent_ms, lease.duration_ms),
                            deadline: Some(ExternalPull::deadline_after(media, lease, now)),
                            ..media
                        },
                    ),
                    ..released
                };
                if ack.outcome == ExternalFrameOutcome::Late {
                    ExternalPull {
                        dropped_frames: sum(self.dropped_frames, 1),
                        dropped_media_ms: sum(self.dropped_media_ms, lease.duration_ms),
                        ..played
                    }
                } else {
                    ExternalPull {
                        frames_delivered: sum(self.frames_delivered, 1),
                        bytes_delivered: sum(self.bytes_delivered, lease.payload_len as u64),
                        ..played
                    }
                }
            },
        }
    }

    /// The state from which a pull is answered: after the acknowledgement that
    /// came with it, if that was valid.
    pub open spec fn before_pull(self, previous: Option<ExternalFrameAck>, now: u128) -> ExternalPull {
        match previous {
            Some(ack) => if !self.pull_pending && self.ack_refusal(ack) is None {
                self.acknowledged(ack, now)
            } else {
                self
            },
            None => self,
        }
    }

    pub open spec fn commanded(self, command: PullCommand, now: u128) -> ExternalPull {
        match command {
            PullCommand::Activate { generation, start_position_ms, paused } => ExternalPull {
                lease: None,
                active: Some(
                    PulledMedia {
                        generation,
                        start_position_ms,
                        started: false,
                        prebuffer_reported: false,
                        deadline: None,
                        media_sent_ms: 0,
                    },
                ),
                paused,
                ..self
            },
            PullCommand::Deactivate { generation } => if self.plays(generation) {
                ExternalPull { active: None, lease: None, pull_pending: false, ..self }
            } else {
                self
            },
            PullCommand::Pause { generation } => if self.plays(generation) {
                ExternalPull { paused: true, ..self }
            } else {
                self
            },
            PullCommand::Resume { generation } => if self.plays(generation) {
                ExternalPull {
                    paused: false,
                    active: Some(PulledMedia { deadline: Some(now), ..self.active->0 }),
                    ..self
                }
            } else {
                self
            },
            PullCommand::Pull { previous } => {
                let ready = self.before_pull(previous, now);
                if self.pull_parks(previous, now) {
                    ExternalPull { pull_pending: true, ..ready }
                } else {
                    ready
                }
            },
            PullCommand::Finish { ack } => if self.ack_refusal(ack) is None {
                self.acknowledged(ack, now)
            } else {
                self
            },
            PullCommand::CancelPull | PullCommand::Shutdown => ExternalPull {
                pull_pending: false,
                ..self
            },
        }
    }

    /// Whether a valid acknowledgement says that the consumer's output is gone.
    pub open spec fn loses_output(self, ack: ExternalFrameAck) -> bool {
        self.ack_refusal(ack) is None && ack.outcome == ExternalFrameOutcome::OutputUnavailable
    }

    /// Whether a pull is left waiting for a frame.
    pub open spec fn pull_parks(self, previous: Option<ExternalFrameAck>, now: u128) -> bool {
        let ready = self.before_pull(previous, now);
        &&& !self.pull_pending
        &&& previous matches Some(ack) ==> self.ack_refusal(ack) is None && !self.loses_output(ack)
        &&& ready.lease is None
        &&& ready.active is Some
    }

    /// What a pull is told.
    pub open spec fn pull_answered(
        self,
        previous: Option<ExternalFrameAck>,
        now: u128,
        reply: PullReply,
    ) -> bool {
        if self.pull_pending {
            reply matches PullReply::PullRefused(error) && (error matches MusicStreamError::Busy(
                text,
            ) && text@ == "only one external pull may be pending per stream"@)
        } else if previous is Some && self.ack_refusal(previous->0) is Some {
            reply matches PullReply::PullRefused(error) && (
            error matches MusicStreamError::InvalidConfig(text) && Some(text@) == self.ack_refusal(
                previous->0,
            ))
        } else if previous is Some && self.loses_output(previous->0) {
            reply is NoFrame
        } else if self.before_pull(previous, now).lease is Some {
            reply matches PullReply::PullRefused(error) && (error matches MusicStreamError::Busy(
                text,
            ) && text@ == "the previous external Opus frame is still outstanding"@)
        } else if self.before_pull(previous, now).active is None {
            reply is NoFrame
        } else {
            reply is Parked
        }
    }

    /// An idle output.
    #[must_use]
    pub fn new(prebuffer_ms: u64, max_playout_lateness_ms: u64) -> (output: Self)
        ensures
            output.wf(),
            output == (ExternalPull {
                prebuffer_ms,
                max_playout_lateness: spec_from_millis(max_playout_lateness_ms),
                active: None,
                paused: false,
                pull_pending: false,
                lease: None,
                next_lease_id: 1,
                frames_delivered: 0,
                bytes_delivered: 0,
                dropped_frames: 0,
                dropped_media_ms: 0,
                latency_recoveries: 0,
                underruns: 0,
                max_lateness_ms: 0,
            }),
    {
        ExternalPull {
            prebuffer_ms,
            max_playout_lateness: from_millis(max_playout_lateness_ms),
            active: None,
            paused: false,
            pull_pending: false,
            lease: None,
            next_lease_id: 1,
            frames_delivered: 0,
            bytes_delivered: 0,
            dropped_frames: 0,
            dropped_media_ms: 0,
            latency_recoveries: 0,
            underruns: 0,
            max_lateness_ms: 0,
        }
    }

    /// Looks at the queue of the active media. A waiting pull stays parked when
    /// media ends: the next generation may take over, and an answer without a
    /// frame would make the consumer stop pulling.
    pub fn poll_media(&mut self, queue: QueueSnapshot, now: u128) -> (reports: MediaReports)
        ensures
            *final(self) == old(self).polled(queue, now),
            old(self).wf() ==> final(self).wf(),
            reports.ready == old(self).ready_report(queue),
            reports.ended == old(self).ended_report(queue),
    {
        let mut reports = MediaReports { ready: None, ended: None };
        if let Some(active) = self.active {
            let mut media = active;
            if !media.started && !self.paused && (queue.buffered_ms >= self.prebuffer_ms || (
            queue.is_closed() && queue.buffered_ms > 0)) {
                if !media.prebuffer_reported {
                    reports.ready = Some(
                        WorkerEvent::CurrentPrebufferReady { generation: media.generation },
                    );
                }
                media.started = true;
                media.deadline = Some(now);
                media.prebuffer_reported = true;
                self.active = Some(media);
            }
            if queue.is_drained() && self.lease.is_none() {
                self.active = None;
                reports.ended = Some(WorkerEvent::CurrentEnded { generation: media.generation });
            }
        }
        reports
    }

    /// When a waiting pull is to be served, if one waits and can be.
    #[must_use]
    pub fn delivery_deadline(&self) -> (deadline: Option<u128>)
        ensures
            deadline == self.spec_delivery_deadline(),
    {
        match self.active {
            Some(media) => if media.started && !self.paused && self.pull_pending
                && self.lease.is_none() {
                media.deadline
            } else {
                None
            },
            None => None,
        }
    }

    /// When the lease that is out ends by itself.
    #[must_use]
    pub fn lease_deadline(&self) -> (deadline: Option<u128>)
        ensures
            deadline == match self.lease {
                Some(lease) => Some(lease.expires_at),
                None => None,
            },
    {
        match self.lease {
            Some(lease) => Some(lease.expires_at),
            None => None,
        }
    }

    /// Carries out a command.
    pub fn handle_command(&mut self, command: PullCommand, now: u128) -> (response: PullResponse)
        ensures
            *final(self) == old(self).commanded(command, now),
            old(self).wf() ==> final(self).wf(),
            response.running == !(command is Shutdown),
            response.release_waiter == old(self).releases_waiter(command),
            match command {
                PullCommand::Pull { previous } => {
                    &&& old(self).pull_answered(previous, now, response.reply)
                    &&& response.event is Some <==> !old(self).pull_pending && previous is Some
                        && old(self).loses_output(previous->0)
                    &&& response.event is Some ==> output_unavailable(
                        response.event->0,
                        previous->0.generation,
                    )
                    &&& response.publish == (old(self).pull_parks(previous, now)
                        || response.reply is NoFrame && response.event is None)
                },
                PullCommand::Finish { ack } => {
                    &&& response.reply is Done
                    &&& response.reply->Done_0 is Ok <==> old(self).ack_refusal(ack) is None
                    &&& response.reply->Done_0 matches Err(error) ==> (
                    error matches MusicStreamError::InvalidConfig(text) && Some(text@) == old(
                        self,
                    ).ack_refusal(ack))
                    &&& response.event is Some <==> old(self).loses_output(ack)
                    &&& response.event is Some ==> output_unavailable(
                        response.event->0,
                        ack.generation,
                    )
                    &&& response.publish
                },
                _ => {
                    &&& response.reply is Done
                    &&& response.reply->Done_0 is Ok
                    &&& response.event is None
                    &&& response.publish == !(command is Shutdown)
                },
            },
    {
        let mut response = PullResponse {
            reply: PullReply::Done(Ok(())),
            release_waiter: false,
            event: None,
            publish: true,
            running: true,
        };
        match command {
            PullCommand::Activate { generation, start_position_ms, paused } => {
                self.lease = None;
                self.active = Some(
                    PulledMedia {
                        generation,
                        start_position_ms,
                        started: false,
                        prebuffer_reported: false,
                        deadline: None,
                        media_sent_ms: 0,
                    },
                );
                self.paused = paused;
            },
            PullCommand::Deactivate { generation } => {
                if self.is_playing(generation) {
                    self.active = None;
                    self.lease = None;
                    response.release_waiter = self.pull_pending;
                    self.pull_pending = false;
                }
            },
            PullCommand::Pause { generation } => {
                if self.is_playing(generation) {
                    self.paused = true;
                }
            },
            PullCommand::Resume { generation } => {
                if let Some(active) = self.active {
                    let mut media = active;
                    if media.generation == generation {
                        self.paused = false;
                        media.deadline = Some(now);
                        self.active = Some(media);
                    }
                }
            },
            PullCommand::Pull { previous } => {
                if self.pull_pending {
                    response.publish = false;
                    response.reply = PullReply::PullRefused(
                        MusicStreamError::Busy(
                            "only one external pull may be pending per stream".to_owned(),
                        ),
                    );
                    return response;
                }
                if let Some(ack) = previous {
                    if let Err(error) = self.apply_ack(ack, now) {
                        response.publish = false;
                        response.reply = PullReply::PullRefused(error);
                        return response;
                    }
                    if ack.outcome == ExternalFrameOutcome::OutputUnavailable {
                        response.publish = false;
                        response.event = Some(unavailable_event(ack.generation));
                        response.reply = PullReply::NoFrame;
                        return response;
                    }
                }
                if self.lease.is_some() {
                    response.publish = false;
                    response.reply = PullReply::PullRefused(
                        MusicStreamError::Busy(
                            "the previous external Opus frame is still outstanding".to_owned(),
                        ),
                    );
                    return response;
                }
                if self.active.is_none() {
                    response.reply = PullReply::NoFrame;
                } else {
                    self.pull_pending = true;
                    response.reply = PullReply::Parked;
                }
            },
            PullCommand::Finish { ack } => {
                let result = self.apply_ack(ack, now);
                if ack.outcome == ExternalFrameOutcome::OutputUnavailable && result.is_ok() {
                    response.event = Some(unavailable_event(ack.generation));
                }
                response.reply = PullReply::Done(result);
            },
            PullCommand::CancelPull => {
                response.release_waiter = self.pull_pending;
                self.pull_pending = false;
            },
            PullCommand::Shutdown => {
                response.release_waiter = self.pull_pending;
                self.pull_pending = false;
                response.publish = false;
                response.running = false;
            },
        }
        response
    }

    fn is_playing(&self, generation: u64) -> (playing: bool)
        ensures
            playing == self.plays(generation),
    {
        match self.active {
            Some(media) => media.generation == generation,
            None => false,
        }
    }

    /// Ends the lease as its holder says it went.
    pub fn apply_ack(&mut self, ack: ExternalFrameAck, now: u128) -> (result: Result<
        (),
        MusicStreamError,
    >)
        ensures
            old(self).wf() ==> final(self).wf(),
            result is Ok <==> old(self).ack_refusal(ack) is None,
            match result {
                Ok(()) => *final(self) == old(self).acknowledged(ack, now),
                Err(error) => {
                    &&& *final(self) == *old(self)
                    &&& error matches MusicStreamError::InvalidConfig(text) && Some(text@) == old(
                        self,
                    ).ack_refusal(ack)
                },
            },
    {
        let lease = match self.lease {
            None => {
                return Err(
                    MusicStreamError::InvalidConfig(
                        "external Opus frame ack has no outstanding lease".to_owned(),
                    ),
                );
            },
            Some(lease) => lease,
        };
        if lease.id != ack.lease_id || lease.generation != ack.generation {
            return Err(
                MusicStreamError::InvalidConfig(
                    "external Opus frame ack does not match the outstanding lease".to_owned(),
                ),
            );
        }
        self.lease = None;
        match ack.outcome {
            ExternalFrameOutcome::OutputUnavailable => {
                self.active = None;
            },
            ExternalFrameOutcome::Cancelled => {},
            ExternalFrameOutcome::Sent | ExternalFrameOutcome::Late => {
                if let Some(active) = self.active {
                    let mut media = active;
                    if media.generation == ack.generation {
                        media.media_sent_ms = media.media_sent_ms.saturating_add(lease.duration_ms);
                        if ack.outcome == ExternalFrameOutcome::Late {
                            self.dropped_frames = self.dropped_frames.saturating_add(1);
                            self.dropped_media_ms = self.dropped_media_ms.saturating_add(
                                lease.duration_ms,
                            );
                        } else {
                            self.frames_delivered = self.frames_delivered.saturating_add(1);
                            self.bytes_delivered = self.bytes_delivered.saturating_add(
                                lease.payload_len as u64,
                            );
                        }
                        let span: u128 = frame_span(lease.duration_ms);
                        let base: u128 = match media.deadline {
                            Some(deadline) => deadline,
                            None => now,
                        };
                        let anchored: u128 = after(base, span);
                        let late = since(now, lease.delivered_at) > span;
                        media.deadline = Some(
                            if !late && anchored <= now {
                                after(now, span)
                            } else {
                                anchored
                            },
                        );
                        self.active = Some(media);
                    }
                }
            },
        }
        Ok(())
    }

    /// The deadline of a waiting pull has come.
    pub fn begin_turn(&mut self, now: u128) -> (turn: Option<PlayoutTurn>)
        ensures
            old(self).wf() ==> final(self).wf(),
            if old(self).active is Some && old(self).pull_pending {
                &&& turn == Some(
                    PlayoutTurn { scheduled: old(self).scheduled(now), recovered: false },
                )
                &&& *final(self) == old(self).woken(now)
            } else {
                turn is None && *final(self) == *old(self)
            },
    {
        if !self.pull_pending {
            return None;
        }
        match self.active {
            None => None,
            Some(media) => {
                let scheduled: u128 = match media.deadline {
                    Some(deadline) => deadline,
                    None => now,
                };
                let lateness: u128 = since(now, scheduled);
                self.max_lateness_ms = larger(self.max_lateness_ms, whole_millis(lateness));
                Some(PlayoutTurn { scheduled, recovered: false })
            },
        }
    }

    /// Discards the oldest frame if playout lags too far behind and another
    /// frame follows. Tells whether one was discarded.
    pub fn drop_stale(
        &mut self,
        turn: &mut PlayoutTurn,
        queue: &mut OpusQueue,
        now: u128,
    ) -> (dropped: bool)
        requires
            old(queue).wf(),
        ensures
            final(queue).wf(),
            final(queue).same_ends(*old(queue)),
            old(self).wf() ==> final(self).wf(),
            dropped == discardable(
                old(turn).scheduled,
                old(self).max_playout_lateness,
                old(queue).frames@.len(),
                now,
            ),
            if dropped {
                let stale = old(queue).frames@[0];
                &&& final(queue).frames@ == old(queue).frames@.subrange(
                    1,
                    old(queue).frames@.len() as int,
                )
                &&& *final(self) == old(self).skipped(stale)
                &&& *final(turn) == old(turn).caught_up(stale)
            } else {
                &&& *final(queue) == *old(queue)
                &&& *final(self) == *old(self)
                &&& *final(turn) == *old(turn)
            },
    {
        if since(now, turn.scheduled) <= self.max_playout_lateness {
            return false;
        }
        match queue.try_drop_oldest_if_followed() {
            None => false,
            Some(stale) => {
                turn.recovered = true;
                turn.scheduled = after(turn.scheduled, frame_span(stale.duration_ms));
                self.dropped_frames = self.dropped_frames.saturating_add(1);
                self.dropped_media_ms = self.dropped_media_ms.saturating_add(stale.duration_ms);
                if let Some(active) = self.active {
                    let mut media = active;
                    media.media_sent_ms = media.media_sent_ms.saturating_add(stale.duration_ms);
                    self.active = Some(media);
                }
                true
            },
        }
    }

    /// Leases the frame that is due to the waiting pull. Without a frame the pull
    /// stays parked and the media waits for its buffer to fill again.
    pub fn lease_frame(
        &mut self,
        turn: PlayoutTurn,
        queue: &mut OpusQueue,
        now: u128,
    ) -> (frame: Option<ExternalOpusFrame>)
        requires
            old(queue).wf(),
            old(self).active is Some,
        ensures
            final(queue).wf(),
            final(queue).same_ends(*old(queue)),
            old(self).wf() ==> final(self).wf(),
            frame is Some <==> old(queue).frames@.len() > 0,
            match frame {
                Some(frame) => {
                    let due = old(queue).frames@[0];
                    &&& final(queue).frames@ == old(queue).frames@.subrange(
                        1,
                        old(queue).frames@.len() as int,
                    )
                    &&& frame == old(self).frame_for(turn, due)
                    &&& *final(self) == old(self).leased(turn, due, now)
                    &&& final(self).lease->0.payload_len == payload_bytes(due.payload).len()
                },
                None => {
                    &&& *final(queue) == *old(queue)
                    &&& *final(self) == old(self).starved(turn.recovered)
                },
            },
    {
        if turn.recovered {
            self.latency_recoveries = self.latency_recoveries.saturating_add(1);
        }
        let mut media = self.active.unwrap();
        match queue.try_recv() {
            None => {
                self.underruns = self.underruns.saturating_add(1);
                media.started = false;
                media.deadline = None;
                self.active = Some(media);
                None
            },
            Some(due) => {
                let lease_id: u32 = self.next_lease_id;
                self.next_lease_id = if lease_id == u32::MAX {
                    1
                } else {
                    lease_id + 1
                };
                let payload_len: usize = payload_len(&due.payload);
                let position: u64 = media.start_position_ms.saturating_add(
                    media.media_sent_ms,
                ).saturating_add(due.duration_ms);
                self.lease = Some(
                    Lease {
                        id: lease_id,
                        generation: media.generation,
                        duration_ms: due.duration_ms,
                        payload_len,
                        delivered_at: now,
                        expires_at: after(now, LEASE_TIMEOUT_NANOS),
                    },
                );
                self.pull_pending = false;
                media.deadline = Some(turn.scheduled);
                self.active = Some(media);
                Some(
                    ExternalOpusFrame {
                        lease_id,
                        generation: media.generation,
                        payload: due.payload,
                        samples_per_channel: due.samples_per_channel,
                        media_position_ms: position,
                        deadline: after(turn.scheduled, self.max_playout_lateness),
                    },
                )
            },
        }
    }

    /// The consumer was gone when its frame arrived: there is nothing to acknowledge.
    pub fn delivery_failed(&mut self)
        ensures
            *final(self) == (ExternalPull { lease: None, ..*old(self) }),
            old(self).wf() ==> final(self).wf(),
    {
        self.lease = None;
    }

    /// The lease that was out ended by itself: the media failed. Tells the failure
    /// and whether a waiting pull is to be refused.
    pub fn lease_expired(&mut self) -> (outcome: (WorkerEvent, bool))
        ensures
            *final(self) == old(self).expired(),
            old(self).wf() ==> final(self).wf(),
            outcome.1 == old(self).pull_pending,
            outcome.0 matches WorkerEvent::CurrentFailed { generation, code, message }
                && generation == match old(self).lease {
                Some(lease) => lease.generation,
                None => 0,
            } && code == ErrorCode::StreamClosed && message@
                == "external Opus frame lease timed out"@,
    {
        let generation: u64 = match self.lease {
            Some(lease) => lease.generation,
            None => 0,
        };
        let waiting = self.pull_pending;
        self.lease = None;
        self.active = None;
        self.pull_pending = false;
        (
            WorkerEvent::CurrentFailed {
                generation,
                code: ErrorCode::StreamClosed,
                message: "external Opus frame lease timed out".to_owned(),
            },
            waiting,
        )
    }

    /// What observers are told while media is active.
    #[must_use]
    pub fn progress(&self, buffered_ms: u64) -> (progress: Option<StreamRuntimeProgress>)
        ensures
            progress == self.spec_progress(buffered_ms),
    {
        match self.active {
            None => None,
            Some(media) => Some(
                StreamRuntimeProgress {
                    generation: media.generation,
                    start_position_ms: media.start_position_ms,
                    media_sent_ms: media.media_sent_ms,
                    packets_sent: self.frames_delivered,
                    bytes_sent: self.bytes_delivered,
                    dropped_frames: self.dropped_frames,
                    dropped_media_ms: self.dropped_media_ms,
                    latency_recoveries: self.latency_recoveries,
                    underruns: self.underruns,
                    buffered_ms,
                    max_lateness_ms: self.max_lateness_ms,
                    sequence: 0,
                    rtp_timestamp: 0,
                    latest_receiver_report: None,
                },
            ),
        }
    }
}

pub open spec fn output_unavailable(event: WorkerEvent, failed: u64) -> bool {
    event matches WorkerEvent::CurrentFailed { generation, code, message } && generation == failed
        && code == ErrorCode::StreamClosed && message@ == "external Opus output is unavailable"@
}

fn unavailable_event(generation: u64) -> (event: WorkerEvent)
    ensures
        output_unavailable(event, generation),
{
    WorkerEvent::CurrentFailed {
        generation,
        code: ErrorCode::StreamClosed,
        message: "external Opus output is unavailable".to_owned(),
    }
}

/// The waiting events after a new one was offered to the channel.
pub open spec fn with_new(pending: Seq<WorkerEvent>, delivery: Delivery) -> Seq<WorkerEvent> {
    match delivery {
        Delivery::Full(event) => pending.push(event),
        _ => pending,
    }
}

/// The waiting events after the oldest one, which was taken out, was offered to the
/// channel.
pub open spec fn with_oldest(pending: Seq<WorkerEvent>, delivery: Delivery) -> Seq<WorkerEvent> {
    match delivery {
        Delivery::Full(event) => seq![event] + pending,
        _ => pending,
    }
}

/// Events that wait for room in the channel, oldest first.
#[derive(Debug)]
pub struct EventBacklog {
    pub pending: VecDeque<WorkerEvent>,
}

impl Default for EventBacklog {
    fn default() -> (backlog: Self)
        ensures
            backlog.pending@ == Seq::<WorkerEvent>::empty(),
    {
        EventBacklog { pending: VecDeque::new() }
    }
}

impl EventBacklog {
    /// Settles the delivery of a new event.
    pub fn settle_new(&mut self, delivery: Delivery)
        ensures
            final(self).pending@ == with_new(old(self).pending@, delivery),
    {
        if let Delivery::Full(event) = delivery {
            self.pending.push_back(event);
        }
    }

    /// Settles the delivery of the oldest event, which was taken out; tells
    /// whether to go on flushing.
    pub fn settle_oldest(&mut self, delivery: Delivery) -> (go_on: bool)
        ensures
            go_on == (delivery is Sent),
            final(self).pending@ == with_oldest(old(self).pending@, delivery),
    {
        match delivery {
            Delivery::Sent => true,
            Delivery::Full(event) => {
                self.pending.push_front(event);
                proof {
                    assert(self.pending@ =~= seq![event] + old(self).pending@);
                }
                false
            },
            Delivery::Closed(_) => false,
        }
    }

    /// Offers an event to the channel, and keeps it behind the others if the
    /// channel is full.
    pub fn emit(&mut self, sender: &mpsc::Sender<WorkerEvent>, event: WorkerEvent)
        ensures
            exists|delivery: Delivery| #[trigger]
                answered(sender, event, delivery) && final(self).pending@ == match delivery {
                    Delivery::Full(_) => old(self).pending@.push(event),
                    _ => old(self).pending@,
                },
    {
        let delivery = deliver(sender, event);
        self.settle_new(delivery);
    }

    /// Sends as many waiting events as the channel takes, oldest first.
    pub fn flush(&mut self, sender: &mpsc::Sender<WorkerEvent>)
        ensures
            ({
                let events = old(self).pending@;
                ||| took_first(sender, events, events.len() as int) && final(self).pending@.len()
                    == 0
                ||| exists|sent: int| #[trigger]
                    filled_up(sender, events, sent) && final(self).pending@ == events.skip(sent)
                ||| exists|sent: int| #[trigger]
                    closed_down(sender, events, sent) && final(self).pending@ == events.skip(
                        sent + 1,
                    )
            }),
    {
        let ghost all = self.pending@;
        let ghost mut sent: int = 0;
        proof {
            assert(all.skip(0) =~= all);
        }
        while self.pending.len() > 0
            invariant
                all == old(self).pending@,
                took_first(sender, all, sent),
                self.pending@ == all.skip(sent),
            decreases self.pending@.len(),
        {
            match self.pending.pop_front() {
                Some(event) => {
                    proof {
                        assert(self.pending@ =~= all.skip(sent + 1));
                        assert(event == all[sent]);
                        assert(seq![event] + all.skip(sent + 1) =~= all.skip(sent));
                    }
                    let delivery = deliver(sender, event);
                    let go_on = self.settle_oldest(delivery);
                    if !go_on {
                        proof {
                            if delivery is Full {
                                assert(filled_up(sender, all, sent));
                            } else {
                                assert(closed_down(sender, all, sent));
                            }
                        }
                        return ;
                    }
                    proof {
                        sent = sent + 1;
                    }
                },
                None => {
                    return ;
                },
            }
        }
        assert(sent == all.len());
    }
}

/// A frame is acknowledged once: after a valid acknowledgement any other is
/// refused until a new frame is leased.
pub proof fn leases_are_acknowledged_once(
    output: ExternalPull,
    ack: ExternalFrameAck,
    again: ExternalFrameAck,
    now: u128,
)
    requires
        output.ack_refusal(ack) is None,
    ensures
        output.acknowledged(ack, now).lease is None,
        output.acknowledged(ack, now).ack_refusal(again) is Some,
{
}

/// A consumer that could not use a frame gives it back without moving the media
/// position.
pub proof fn cancelled_frames_do_not_count(output: ExternalPull, ack: ExternalFrameAck, now: u128)
    requires
        output.ack_refusal(ack) is None,
        ack.outcome == ExternalFrameOutcome::Cancelled,
    ensures
        output.acknowledged(ack, now) == (ExternalPull { lease: None, ..output }),
{
}

/// A pull and a lease never coexist, whatever commands come.
pub proof fn pulls_and_leases_exclude_each_other(
    output: ExternalPull,
    command: PullCommand,
    now: u128,
)
    requires
        output.wf(),
    ensures
        output.commanded(command, now).wf(),
{
}

/// A pull that waits when its media ends keeps waiting for the media that
/// follows.
pub proof fn pulls_outlive_their_media(output: ExternalPull, queue: QueueSnapshot, now: u128)
    ensures
        output.polled(queue, now).pull_pending == output.pull_pending,
{
}

/// Time spent paused is not lateness: media that had begun and is resumed at `now`
/// is due at `now`, and a turn that begins then is on time and discards no frame.
pub proof fn pauses_cause_no_lateness(
    output: ExternalPull,
    generation: u64,
    now: u128,
    max_lateness: u128,
    held: nat,
)
    requires
        output.active is Some,
        output.active->0.generation == generation,
    ensures
        ({
            let resumed = output.commanded(PullCommand::Resume { generation }, now);
            &&& !resumed.paused
            &&& resumed.active is Some
            &&& resumed.active->0.generation == generation
            &&& resumed.active->0.start_position_ms == output.active->0.start_position_ms
            &&& resumed.active->0.media_sent_ms == output.active->0.media_sent_ms
            &&& resumed.active->0.started == output.active->0.started
            &&& resumed.active->0.prebuffer_reported == output.active->0.prebuffer_reported
            &&& resumed.lease == output.lease
            &&& resumed.pull_pending == output.pull_pending
            &&& output.active->0.started && output.pull_pending && output.lease is None
                ==> resumed.spec_delivery_deadline() == Some(now)
            &&& !output.active->0.started ==> resumed.spec_delivery_deadline() is None
            &&& resumed.scheduled(now) == now
            &&& resumed.woken(now).max_lateness_ms == resumed.max_lateness_ms
            &&& !discardable(resumed.scheduled(now), max_lateness, held, now)
        }),
{
}

/// What a command does not mention stays: a command that names media which is not
/// played changes nothing, and none but an acknowledgement touches the counters.
pub proof fn commands_concern_their_media(output: ExternalPull, command: PullCommand, now: u128)
    ensures
        ({
            let after = output.commanded(command, now);
            &&& after.prebuffer_ms == output.prebuffer_ms
            &&& after.max_playout_lateness == output.max_playout_lateness
            &&& after.next_lease_id == output.next_lease_id
            &&& after.latency_recoveries == output.latency_recoveries
            &&& after.underruns == output.underruns
            &&& after.max_lateness_ms == output.max_lateness_ms
            &&& !(command is Pull) && !(command is Finish) ==> after.frames_delivered
                == output.frames_delivered && after.bytes_delivered == output.bytes_delivered
                && after.dropped_frames == output.dropped_frames && after.dropped_media_ms
                == output.dropped_media_ms
            &&& match command {
                PullCommand::Deactivate { generation }
                | PullCommand::Pause { generation }
                | PullCommand::Resume { generation } => output.active is None
                    || output.active->0.generation != generation ==> after == output,
                _ => true,
            }
        }),
{
}

/// Media that is activated takes over at once: it starts at its own position with
/// nothing sent, waits for its buffer, and has yet to report that it is ready. The
/// frame that was out is forgotten, and a pull that waits goes on waiting.
pub proof fn activated_media_starts_over(
    output: ExternalPull,
    generation: u64,
    start_position_ms: u64,
    paused: bool,
    now: u128,
)
    ensures
        ({
            let after = output.commanded(
                PullCommand::Activate { generation, start_position_ms, paused },
                now,
            );
            &&& after.active is Some
            &&& after.active->0.generation == generation
            &&& after.active->0.start_position_ms == start_position_ms
            &&& after.active->0.media_sent_ms == 0
            &&& !after.active->0.started
            &&& !after.active->0.prebuffer_reported
            &&& after.paused == paused
            &&& after.lease is None
            &&& after.pull_pending == output.pull_pending
            &&& after.spec_delivery_deadline() is None
        }),
{
}

/// Media that is deactivated is played no more, and both a frame that is out and a
/// pull that waits are done with; media that is paused stays where it is and nothing
/// is due. A pull that is cancelled waits no more.
pub proof fn named_media_is_stopped_or_held(output: ExternalPull, generation: u64, now: u128)
    requires
        output.active is Some,
        output.active->0.generation == generation,
    ensures
        ({
            let command = PullCommand::Deactivate { generation };
            let after = output.commanded(command, now);
            &&& after.active is None
            &&& after.lease is None
            &&& !after.pull_pending
            &&& output.releases_waiter(command) == output.pull_pending
        }),
        ({
            let held = output.commanded(PullCommand::Pause { generation }, now);
            &&& held.paused
            &&& held.active == output.active
            &&& held.lease == output.lease
            &&& held.pull_pending == output.pull_pending
            &&& held.spec_delivery_deadline() is None
        }),
        ({
            let after = output.commanded(PullCommand::CancelPull, now);
            &&& !after.pull_pending
            &&& after.active == output.active
            &&& after.lease == output.lease
            &&& output.releases_waiter(PullCommand::CancelPull) == output.pull_pending
        }),
{
}

/// A pull that waits is told so whenever it is given up, and only then.
pub proof fn given_up_pulls_are_told(output: ExternalPull, command: PullCommand, now: u128)
    requires
        output.pull_pending,
    ensures
        output.releases_waiter(command) <==> !output.commanded(command, now).pull_pending,
{
}

/// Media begins to play as soon as, and not before, as much is buffered as it is to
/// wait for, or all that there will be; a pause puts it off. Media that plays is left
/// alone until its queue has run dry for good and its last frame is back, and then it
/// ends.
pub proof fn media_starts_when_buffered_and_ends_when_drained(
    output: ExternalPull,
    queue: QueueSnapshot,
    now: u128,
)
    requires
        output.active is Some,
    ensures
        ({
            let after = output.polled(queue, now);
            let generation = output.active->0.generation;
            let over = !queue.sender_alive && queue.buffered_ms == 0 && output.lease is None;
            &&& over ==> after.active is None && output.ended_report(queue) == Some(
                WorkerEvent::CurrentEnded { generation },
            )
            &&& over ==> (output.ready_report(queue) is Some <==> output.prebuffer_ms == 0
                && !output.active->0.started && !output.paused
                && !output.active->0.prebuffer_reported)
            &&& !over ==> output.ended_report(queue) is None && after.active is Some
                && after.active->0.generation == generation
            &&& !over && output.active->0.started ==> after == output && output.ready_report(
                queue,
            ) is None
            &&& !over && !output.active->0.started ==> {
                let enough = !output.paused && (queue.buffered_ms >= output.prebuffer_ms || (
                !queue.sender_alive && queue.buffered_ms > 0));
                &&& enough ==> after.active->0.started && after.active->0.deadline == Some(now)
                    && after.active->0.prebuffer_reported && after.active->0.media_sent_ms
                    == output.active->0.media_sent_ms && after.active->0.start_position_ms
                    == output.active->0.start_position_ms
                &&& !enough ==> after == output
                &&& enough && !output.active->0.prebuffer_reported <==> output.ready_report(queue)
                    == Some(WorkerEvent::CurrentPrebufferReady { generation })
                &&& enough && output.active->0.prebuffer_reported ==> output.ready_report(
                    queue,
                ) is None
            }
            &&& after.paused == output.paused
            &&& after.lease == output.lease
            &&& after.frames_delivered == output.frames_delivered
        }),
{
}

/// A frame that goes out on lease is the media's: it names the generation, where it
/// ends in the track, and how late it may be played. Its lease is good for two
/// seconds from now under a number that was not the one before, and the pull that
/// waited waits no more.
pub proof fn leased_frames_are_accounted_for(
    output: ExternalPull,
    turn: PlayoutTurn,
    due: OpusFrame,
    now: u128,
)
    requires
        output.wf(),
        output.active is Some,
        now + 2_000_000_000 <= u128::MAX,
        turn.scheduled + output.max_playout_lateness <= u128::MAX,
        output.active->0.start_position_ms + output.active->0.media_sent_ms + due.duration_ms
            <= u64::MAX,
    ensures
        ({
            let frame = output.frame_for(turn, due);
            let after = output.leased(turn, due, now);
            let lease = after.lease->0;
            &&& frame.generation == output.active->0.generation
            &&& frame.payload == due.payload
            &&& frame.samples_per_channel == due.samples_per_channel
            &&& frame.media_position_ms == output.active->0.start_position_ms
                + output.active->0.media_sent_ms + due.duration_ms
            &&& frame.deadline == turn.scheduled + output.max_playout_lateness
            &&& after.lease is Some
            &&& lease.id == frame.lease_id && lease.generation == frame.generation
            &&& lease.duration_ms == due.duration_ms
            &&& lease.delivered_at == now
            &&& lease.expires_at == now + 2_000_000_000
            &&& after.next_lease_id != frame.lease_id && after.next_lease_id != 0
            &&& output.next_lease_id < 4_294_967_295 ==> after.next_lease_id == output.next_lease_id
                + 1
            &&& !after.pull_pending
            &&& after.spec_delivery_deadline() is None
            &&& after.active is Some && after.active->0.deadline == Some(turn.scheduled)
            &&& after.active->0.media_sent_ms == output.active->0.media_sent_ms
            &&& after.frames_delivered == output.frames_delivered
            &&& grew_by(
                after.latency_recoveries,
                output.latency_recoveries,
                if turn.recovered {
                    1
                } else {
                    0
                },
            )
            &&& after.underruns == output.underruns
            &&& after.ack_refusal(
                ExternalFrameAck {
                    lease_id: frame.lease_id,
                    generation: frame.generation,
                    outcome: ExternalFrameOutcome::Sent,
                },
            ) is None
        }),
{
}

/// Without a frame the pull goes on waiting, the underrun is counted, and the media
/// waits for its buffer anew, where it was.
pub proof fn underruns_wait_for_the_buffer(output: ExternalPull, recovered: bool)
    requires
        output.active is Some,
    ensures
        ({
            let after = output.starved(recovered);
            &&& after.active is Some && !after.active->0.started
            &&& after.active->0.generation == output.active->0.generation
            &&& after.active->0.media_sent_ms == output.active->0.media_sent_ms
            &&& after.active->0.prebuffer_reported == output.active->0.prebuffer_reported
            &&& after.spec_delivery_deadline() is None
            &&& after.pull_pending == output.pull_pending
            &&& after.lease == output.lease
            &&& grew_by(after.underruns, output.underruns, 1)
            &&& grew_by(
                after.latency_recoveries,
                output.latency_recoveries,
                if recovered {
                    1
                } else {
                    0
                },
            )
        }),
{
}

/// An acknowledgement is for the frame that is out, by its number and generation;
/// any other is refused.
pub proof fn only_the_frame_that_is_out_is_acknowledged(
    output: ExternalPull,
    ack: ExternalFrameAck,
)
    ensures
        output.ack_refusal(ack) is None <==> output.lease is Some && output.lease->0.id
            == ack.lease_id && output.lease->0.generation == ack.generation,
{
}

/// A frame that was sent counts as delivered, with its bytes; one that came too late
/// counts as dropped, with its media. Either moves the position by its media, unless
/// other media plays by now; then neither counts.
pub proof fn acknowledged_frames_are_counted(
    output: ExternalPull,
    ack: ExternalFrameAck,
    now: u128,
)
    requires
        output.ack_refusal(ack) is None,
        ack.outcome == ExternalFrameOutcome::Sent || ack.outcome == ExternalFrameOutcome::Late,
    ensures
        ({
            let after = output.acknowledged(ack, now);
            let lease = output.lease->0;
            let playing = output.active is Some && output.active->0.generation == ack.generation;
            let sent = playing && ack.outcome == ExternalFrameOutcome::Sent;
            let late = playing && ack.outcome == ExternalFrameOutcome::Late;
            &&& after.lease is None
            &&& after.paused == output.paused && after.pull_pending == output.pull_pending
            &&& grew_by(
                after.frames_delivered,
                output.frames_delivered,
                if sent {
                    1
                } else {
                    0
                },
            )
            &&& grew_by(
                after.bytes_delivered,
                output.bytes_delivered,
                if sent {
                    lease.payload_len as int
                } else {
                    0
                },
            )
            &&& grew_by(
                after.dropped_frames,
                output.dropped_frames,
                if late {
                    1
                } else {
                    0
                },
            )
            &&& grew_by(
                after.dropped_media_ms,
                output.dropped_media_ms,
                if late {
                    lease.duration_ms as int
                } else {
                    0
                },
            )
            &&& !playing ==> after.active == output.active
            &&& playing ==> after.active is Some && after.active->0.generation == ack.generation
                && grew_by(
                after.active->0.media_sent_ms,
                output.active->0.media_sent_ms,
                lease.duration_ms as int,
            ) && after.active->0.started == output.active->0.started
        }),
{
}

/// A consumer that lost its output ends the media; one that keeps quiet does so when
/// its lease runs out, and its pull waits no more.
pub proof fn lost_outputs_end_the_media(output: ExternalPull, ack: ExternalFrameAck, now: u128)
    requires
        output.ack_refusal(ack) is None,
        ack.outcome == ExternalFrameOutcome::OutputUnavailable,
    ensures
        output.loses_output(ack),
        output.acknowledged(ack, now).active is None,
        output.acknowledged(ack, now).lease is None,
        output.acknowledged(ack, now).frames_delivered == output.frames_delivered,
        output.expired().active is None,
        output.expired().lease is None,
        !output.expired().pull_pending,
        output.expired().frames_delivered == output.frames_delivered,
        output.expired().dropped_frames == output.dropped_frames,
{
}

/// The frame behind one that its consumer gave back within its time is due one frame
/// after it, or one frame from now if that has passed. A consumer that held a frame
/// for longer gains nothing: the next one is due when it always was.
pub proof fn slow_consumers_expose_their_lateness(
    media: PulledMedia,
    lease: Lease,
    deadline: u128,
    now: u128,
)
    requires
        media.deadline == Some(deadline),
        0 < lease.duration_ms,
        deadline + lease.duration_ms * 1_000_000 <= u128::MAX,
        now + lease.duration_ms * 1_000_000 <= u128::MAX,
    ensures
        ({
            let step = lease.duration_ms * 1_000_000;
            let then = ExternalPull::deadline_after(media, lease, now);
            &&& now > lease.delivered_at + step ==> then == deadline + step
            &&& now <= lease.delivered_at + step && now < deadline + step ==> then == deadline + step
            &&& now <= lease.delivered_at + step && now >= deadline + step ==> then == now + step
        }),
{
}

/// A pull waits for a frame if it is the only one, what it acknowledges is what is
/// out, and media plays; the acknowledgement that comes with it counts either way.
pub proof fn pulls_wait_for_frames(output: ExternalPull, now: u128)
    ensures
        output.pull_parks(None, now) <==> !output.pull_pending && output.lease is None
            && output.active is Some,
        output.pull_parks(None, now) ==> output.commanded(PullCommand::Pull { previous: None }, now)
            == (ExternalPull { pull_pending: true, ..output }),
        !output.pull_parks(None, now) ==> output.commanded(
            PullCommand::Pull { previous: None },
            now,
        ) == output,
{
}

/// Pulling with an acknowledgement is acknowledging and then pulling, unless another
/// pull waits, the acknowledgement is refused, or it says that the output is lost.
pub proof fn pulling_acknowledges_first(output: ExternalPull, ack: ExternalFrameAck, now: u128)
    ensures
        ({
            let pulled = output.commanded(PullCommand::Pull { previous: Some(ack) }, now);
            let finished = output.commanded(PullCommand::Finish { ack }, now);
            &&& output.pull_pending || output.ack_refusal(ack) is Some ==> pulled == output
            &&& !output.pull_pending && output.ack_refusal(ack) is None && ack.outcome
                == ExternalFrameOutcome::OutputUnavailable ==> pulled == finished
            &&& !output.pull_pending && output.ack_refusal(ack) is None && ack.outcome
                != ExternalFrameOutcome::OutputUnavailable ==> pulled == finished.commanded(
                PullCommand::Pull { previous: None },
                now,
            )
        }),
{
}

/// Discarded media moves the position and is counted.
pub proof fn discarded_media_is_counted(output: ExternalPull, stale: OpusFrame)
    requires
        output.active is Some,
    ensures
        ({
            let after = output.skipped(stale);
            &&& after.active is Some
            &&& after.active->0.generation == output.active->0.generation
            &&& after.active->0.started == output.active->0.started
            &&& grew_by(
                after.active->0.media_sent_ms,
                output.active->0.media_sent_ms,
                stale.duration_ms as int,
            )
            &&& grew_by(after.dropped_frames, output.dropped_frames, 1)
            &&& grew_by(after.dropped_media_ms, output.dropped_media_ms, stale.duration_ms as int)
            &&& after.frames_delivered == output.frames_delivered
            &&& after.pull_pending == output.pull_pending
        }),
{
}

/// The largest lateness never falls, covers every turn, and was seen in one.
pub proof fn the_largest_lateness_is_kept(output: ExternalPull, deadline: u128, now: u128)
    requires
        output.active is Some,
        output.active->0.deadline == Some(deadline),
        now <= deadline + 1_000_000 * 18_446_744_073_709_551_615,
    ensures
        ({
            let after = output.woken(now).max_lateness_ms;
            let late = if now > deadline {
                (now - deadline) / 1_000_000
            } else {
                0int
            };
            &&& after >= output.max_lateness_ms
            &&& after >= late
            &&& after == output.max_lateness_ms || after == late
            &&& output.woken(now).active == output.active
            &&& output.woken(now).pull_pending == output.pull_pending
        }),
{
}

/// Progress is told while media plays; it tells where the media is and what was
/// counted. There is no packet session to tell of.
pub proof fn progress_tells_what_was_counted(output: ExternalPull, buffered_ms: u64)
    ensures
        output.spec_progress(buffered_ms) is Some <==> output.active is Some,
        output.spec_progress(buffered_ms) matches Some(progress) ==> {
            &&& progress.generation == output.active->0.generation
            &&& progress.start_position_ms == output.active->0.start_position_ms
            &&& progress.media_sent_ms == output.active->0.media_sent_ms
            &&& progress.packets_sent == output.frames_delivered
            &&& progress.bytes_sent == output.bytes_delivered
            &&& progress.dropped_frames == output.dropped_frames
            &&& progress.dropped_media_ms == output.dropped_media_ms
            &&& progress.latency_recoveries == output.latency_recoveries
            &&& progress.underruns == output.underruns
            &&& progress.buffered_ms == buffered_ms
            &&& progress.max_lateness_ms == output.max_lateness_ms
            &&& progress.sequence == 0 && progress.rtp_timestamp == 0
            &&& progress.latest_receiver_report is None
        },
{
}

/// What a pull hears: one that is left waiting nothing yet, a second one beside it that
/// there is one already, a wrong acknowledgement why it is wrong, one while a frame is
/// out that it is out, and without anything to play that there is no frame.
pub proof fn pulls_hear_how_they_fare(
    output: ExternalPull,
    previous: Option<ExternalFrameAck>,
    now: u128,
    reply: PullReply,
)
    requires
        output.pull_answered(previous, now, reply),
    ensures
        reply is Parked <==> output.pull_parks(previous, now),
        output.pull_pending ==> (reply matches PullReply::PullRefused(error) && error is Busy),
        !output.pull_pending && previous is Some && output.ack_refusal(previous->0) is Some ==> (
        reply matches PullReply::PullRefused(error) && error is InvalidConfig),
        !output.pull_pending && previous is Some && output.ack_refusal(previous->0) is None
            && previous->0.outcome == ExternalFrameOutcome::OutputUnavailable ==> reply is NoFrame,
        !output.pull_pending && previous is None && output.lease is Some ==> (
        reply matches PullReply::PullRefused(error) && error is Busy),
        !output.pull_pending && previous is None && output.lease is None ==> (output.active is Some
            <==> reply is Parked) && (output.active is None <==> reply is NoFrame),
{
}

/// An output that was just made plays nothing, owes nothing and has counted nothing.
pub proof fn new_pulled_outputs_are_idle(
    prebuffer_ms: u64,
    max_playout_lateness_ms: u64,
    output: ExternalPull,
)
    requires
        call_ensures(ExternalPull::new, (prebuffer_ms, max_playout_lateness_ms), output),
    ensures
        output.prebuffer_ms == prebuffer_ms,
        output.max_playout_lateness == max_playout_lateness_ms * 1_000_000,
        output.active is None && output.lease is None && !output.paused && !output.pull_pending,
        output.next_lease_id == 1,
        output.frames_delivered == 0 && output.bytes_delivered == 0,
        output.dropped_frames == 0 && output.dropped_media_ms == 0,
        output.latency_recoveries == 0 && output.underruns == 0 && output.max_lateness_ms == 0,
{
}

/// An event that found no room waits, behind the others if it is new and before them if it
/// was the oldest; one that was taken, or that nobody will take, does not wait.
pub proof fn refused_events_keep_their_place(pending: Seq<WorkerEvent>, event: WorkerEvent)
    ensures
        with_new(pending, Delivery::Full(event)).last() == event,
        with_new(pending, Delivery::Full(event)).drop_last() == pending,
        with_new(pending, Delivery::Sent) == pending,
        with_new(pending, Delivery::Closed(event)) == pending,
        with_oldest(pending, Delivery::Full(event))[0] == event,
        with_oldest(pending, Delivery::Full(event)).skip(1) == pending,
        with_oldest(pending, Delivery::Sent) == pending,
        with_oldest(pending, Delivery::Closed(event)) == pending,
{
    assert(with_new(pending, Delivery::Full(event)).drop_last() =~= pending);
    assert(with_oldest(pending, Delivery::Full(event)).skip(1) =~= pending);
}

/// The lease that is out ends by itself when its time is up.
pub proof fn leases_end_when_their_time_is_up(output: ExternalPull, deadline: Option<u128>)
    requires
        call_ensures(ExternalPull::lease_deadline, (&output,), deadline),
    ensures
        deadline is Some <==> output.lease is Some,
        deadline matches Some(at) ==> at == output.lease->0.expires_at,
{
}

} // verus!
