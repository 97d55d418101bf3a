//! The RTP output of one stream as a state machine.
//!
//! The surrounding task owns sockets, timers and the queue lock. It reports what
//! happened and performs what the state machine decides. One machine lives as
//! long as its stream: switching tracks, seeking and pausing never touch the
//! packet sequence or the RTP timeline.
use super::opus_queue::{OpusQueue, QueueSnapshot};
use super::progress::StreamRuntimeProgress;
use super::time::{
    after, frame_span, from_millis, grew_by, larger, since, spec_after, spec_frame_span, spec_from_millis,
    spec_max, spec_since, spec_whole_millis, sum, whole_millis,
};
use crate::audio::frame::{payload_bytes, payload_len, OpusFrame};
use crate::error::MusicStreamError;
use crate::quality::{
    newest, summary, RtcpNetworkQualityLevel, RtcpQualitySample, RtcpQualityWindow,
    RtcpQualityWindowSnapshot, DEFAULT_RTCP_QUALITY_WINDOW_REPORTS,
};
use crate::session::types::WorkerEvent;
use crate::text::{decimal, decimal_text};
use crate::transport::{sample_of, spec_sample_of, RtcpReceiverReportSnapshot};
use vstd::prelude::*;
use vstd::string::*;

verus! {

/// `rand::random` draws the first sequence number and timestamp; any values can
/// come out.
#[verifier::external_body]
fn random_start() -> (start: (u16, u32)) {
    rand::random::<(u16, u32)>()
}

/// A sequence number and a timestamp that were drawn to start with.
pub closed spec fn drawn(sequence: u16, rtp_timestamp: u32) -> bool {
    call_ensures(random_start, (), (sequence, rtp_timestamp))
}

/// The media that the output plays now.
#[derive(Clone, Copy, Debug, PartialEq, Eq)]
pub struct ActiveMedia {
    pub generation: u64,
    pub start_position_ms: u64,
    pub started: bool,
    pub prebuffer_reported: bool,
    pub first_packet: bool,
    pub deadline: Option<u128>,
    pub media_sent_ms: u64,
}

impl ActiveMedia {
    pub open spec fn fresh(generation: u64, start_position_ms: u64) -> ActiveMedia {
        ActiveMedia {
            generation,
            start_position_ms,
            started: false,
            prebuffer_reported: false,
            first_packet: true,
            deadline: None,
            media_sent_ms: 0,
        }
    }
}

/// Everything about the output that is plain data.
#[derive(Clone, Copy, Debug, PartialEq, Eq)]
pub struct SenderState {
    pub active: Option<ActiveMedia>,
    pub paused: bool,
    /// The synchronization source that every packet names.
    pub ssrc: u32,
    pub sequence: u16,
    pub rtp_timestamp: u32,
    pub packets_sent: u64,
    pub bytes_sent: u64,
    pub octets_sent: u64,
    pub dropped_frames: u64,
    pub dropped_media_ms: u64,
    pub latency_recoveries: u64,
    pub underruns: u64,
    pub max_lateness_ms: u64,
    pub receiver_reports: usize,
    pub latest_receiver_report: Option<RtcpReceiverReportSnapshot>,
    pub quality_level: Option<RtcpNetworkQualityLevel>,
}

#[derive(Clone, Copy, Debug, PartialEq, Eq)]
pub enum SenderCommand {
    Activate { generation: u64, start_position_ms: u64, paused: bool },
    Deactivate { generation: u64 },
    Pause { generation: u64 },
    Resume { generation: u64 },
    Shutdown,
}

/// What looking at the queue of the active media leads to, in this order.
#[derive(Debug, PartialEq)]
pub struct MediaReports {
    pub ready: Option<WorkerEvent>,
    pub ended: Option<WorkerEvent>,
}

/// One wake-up of the output at its deadline.
#[derive(Clone, Copy, Debug, PartialEq, Eq)]
pub struct PlayoutTurn {
    pub scheduled: u128,
    pub recovered: bool,
}

/// A frame that is due, with the header fields it is to carry.
#[derive(Debug, PartialEq, Eq)]
pub struct OutgoingPacket {
    pub frame: OpusFrame,
    pub ssrc: u32,
    pub sequence: u16,
    pub rtp_timestamp: u32,
    pub payload_len: usize,
}

/// The counters of a sender report.
#[derive(Clone, Copy, Debug, PartialEq, Eq)]
pub struct SenderReport {
    pub ssrc: u32,
    pub rtp_timestamp: u32,
    pub packets: u32,
    pub octets: u32,
}

/// What a receiver report leads to.
#[derive(Debug, PartialEq)]
pub struct ReceiverReportOutcome {
    pub event: Option<WorkerEvent>,
    pub progress: Option<StreamRuntimeProgress>,
}

pub open spec fn spec_saturating_u32(value: u64) -> u32 {
    if value > u32::MAX {
        u32::MAX
    } else {
        value as u32
    }
}

fn saturating_u32(value: u64) -> (capped: u32)
    ensures
        capped == spec_saturating_u32(value),
{
    if value > u32::MAX as u64 {
        u32::MAX
    } else {
        value as u32
    }
}

impl SenderState {
    /// Nothing plays, and nothing was sent yet.
    pub open spec fn idle(ssrc: u32, sequence: u16, rtp_timestamp: u32) -> SenderState {
        SenderState {
            active: None,
            paused: false,
            ssrc,
            sequence,
            rtp_timestamp,
            packets_sent: 0,
            bytes_sent: 0,
            octets_sent: 0,
            dropped_frames: 0,
            dropped_media_ms: 0,
            latency_recoveries: 0,
            underruns: 0,
            max_lateness_ms: 0,
            receiver_reports: 0,
            latest_receiver_report: None,
            quality_level: None,
        }
    }

    pub open spec fn plays(self, generation: u64) -> bool {
        self.active matches Some(media) && media.generation == generation
    }

    pub open spec fn with_media(self, media: ActiveMedia) -> SenderState {
        SenderState { active: Some(media), ..self }
    }

    /// Whether waiting media may begin to play.
    pub open spec fn may_start(self, prebuffer_ms: u64, queue: QueueSnapshot) -> bool {
        self.active matches Some(media) && !media.started && !self.paused && (queue.buffered_ms
            >= prebuffer_ms || (!queue.sender_alive && queue.buffered_ms > 0))
    }

    /// The report that media begins to play, the first time it does.
    pub open spec fn ready_report(self, prebuffer_ms: u64, queue: QueueSnapshot) -> Option<
        WorkerEvent,
    > {
        match self.active {
            Some(media) => if self.may_start(prebuffer_ms, queue) && !media.prebuffer_reported {
                Some(WorkerEvent::CurrentPrebufferReady { generation: media.generation })
            } else {
                None
            },
            None => None,
        }
    }

    /// The report that media was played to its end.
    pub open spec fn ended_report(self, queue: QueueSnapshot) -> Option<WorkerEvent> {
        match self.active {
            Some(media) => if queue.drained() {
                Some(WorkerEvent::CurrentEnded { generation: media.generation })
            } else {
                None
            },
            None => None,
        }
    }

    /// The report that the network quality is another than before.
    pub open spec fn quality_report(self, quality: RtcpQualityWindowSnapshot) -> Option<
        WorkerEvent,
    > {
        match self.active {
            Some(media) => if self.quality_level != Some(quality.level) {
                Some(
                    WorkerEvent::CurrentNetworkQualityChanged {
                        generation: media.generation,
                        quality: quality.level,
                        snapshot: quality,
                    },
                )
            } else {
                None
            },
            None => None,
        }
    }

    pub open spec fn spec_sender_report(self) -> Option<SenderReport> {
        if self.packets_sent > 0 {
            Some(
                SenderReport {
                    ssrc: self.ssrc,
                    rtp_timestamp: self.rtp_timestamp,
                    packets: spec_saturating_u32(self.packets_sent),
                    octets: spec_saturating_u32(self.octets_sent),
                },
            )
        } else {
            None
        }
    }

    /// The packet in which the frame that is due goes out.
    pub open spec fn packet_for(self, due: OpusFrame) -> OutgoingPacket {
        OutgoingPacket {
            frame: OpusFrame { marker: due.marker || self.active->0.first_packet, ..due },
            ssrc: self.ssrc,
            sequence: self.sequence,
            rtp_timestamp: self.rtp_timestamp,
            payload_len: payload_bytes(due.payload).len() as usize,
        }
    }

    /// The state after looking at the queue: media starts once enough is
    /// buffered, and leaves once its queue is drained.
    pub open spec fn polled(self, prebuffer_ms: u64, queue: QueueSnapshot, now: u128) -> SenderState {
        if self.active is None {
            self
        } else if queue.drained() {
            SenderState { active: None, ..self }
        } else if self.may_start(prebuffer_ms, queue) {
            self.with_media(
                ActiveMedia {
                    started: true,
                    prebuffer_reported: true,
                    deadline: Some(now),
                    ..self.active->0
                },
            )
        } else {
            self
        }
    }

    pub open spec fn commanded(self, command: SenderCommand, now: u128) -> SenderState {
        match command {
            SenderCommand::Activate { generation, start_position_ms, paused } => SenderState {
                active: Some(ActiveMedia::fresh(generation, start_position_ms)),
                paused,
                ..self
            },
            SenderCommand::Deactivate { generation } => if self.plays(generation) {
                SenderState { active: None, ..self }
            } else {
                self
            },
            SenderCommand::Pause { generation } => if self.plays(generation) {
                SenderState { paused: true, ..self }
            } else {
                self
            },
            SenderCommand::Resume { generation } => if self.plays(generation) {
                SenderState {
                    active: Some(ActiveMedia { deadline: Some(now), ..self.active->0 }),
                    paused: false,
                    ..self
                }
            } else {
                self
            },
            SenderCommand::Shutdown => self,
        }
    }

    pub open spec fn spec_deadline(self) -> Option<u128> {
        match self.active {
            Some(media) => if media.started && !self.paused {
                media.deadline
            } else {
                None
            },
            None => None,
        }
    }

    /// Moves the timeline past a frame that is too late to be played.
    pub open spec fn skipped(self, frame: OpusFrame) -> SenderState {
        SenderState {
            active: match self.active {
                Some(media) => Some(
                    ActiveMedia {
                        media_sent_ms: sum(media.media_sent_ms, frame.duration_ms),
                        ..media
                    },
                ),
                None => None,
            },
            dropped_frames: sum(self.dropped_frames, 1),
            dropped_media_ms: sum(self.dropped_media_ms, frame.duration_ms),
            rtp_timestamp: advance_timestamp(self.rtp_timestamp, frame.samples_per_channel),
            ..self
        }
    }

    /// When the due frame of active media was to go out.
    pub open spec fn scheduled(self, now: u128) -> u128 {
        match self.active->0.deadline {
            Some(deadline) => deadline,
            None => now,
        }
    }

    /// The state after waking up at `now` for a due frame.
    pub open spec fn woken(self, now: u128) -> SenderState {
        if self.active is None {
            self
        } else {
            SenderState {
                max_lateness_ms: spec_max(
                    self.max_lateness_ms,
                    spec_whole_millis(spec_since(now, self.scheduled(now))),
                ),
                ..self
            }
        }
    }

    /// The state with one more recovery counted if there was one.
    pub open spec fn recovered(self, recovered: bool) -> SenderState {
        if recovered {
            SenderState { latency_recoveries: sum(self.latency_recoveries, 1), ..self }
        } else {
            self
        }
    }

    /// The state after the due frame was taken out of the queue.
    pub open spec fn taken(self, recovered: bool) -> SenderState {
        self.recovered(recovered).with_media(
            ActiveMedia { first_packet: false, ..self.active->0 },
        )
    }

    /// The state after there was no frame to take.
    pub open spec fn starved(self, recovered: bool) -> SenderState {
        SenderState {
            underruns: sum(self.underruns, 1),
            ..self.recovered(recovered).with_media(
                ActiveMedia { started: false, deadline: None, ..self.active->0 },
            )
        }
    }

    /// The state after the active media failed.
    pub open spec fn failed(self) -> SenderState {
        SenderState { active: None, ..self }
    }

    /// The state after a receiver report that puts the quality at `level`.
    pub open spec fn reported(
        self,
        snapshot: RtcpReceiverReportSnapshot,
        level: RtcpNetworkQualityLevel,
    ) -> SenderState {
        SenderState {
            receiver_reports: snapshot.reports_received,
            latest_receiver_report: Some(snapshot),
            quality_level: Some(level),
            ..self
        }
    }

    pub open spec fn progress_of(self, media: ActiveMedia, buffered_ms: u64) -> StreamRuntimeProgress {
        StreamRuntimeProgress {
            generation: media.generation,
            start_position_ms: media.start_position_ms,
            media_sent_ms: media.media_sent_ms,
            packets_sent: self.packets_sent,
            bytes_sent: self.bytes_sent,
            dropped_frames: self.dropped_frames,
            dropped_media_ms: self.dropped_media_ms,
            latency_recoveries: self.latency_recoveries,
            underruns: self.underruns,
            buffered_ms,
            max_lateness_ms: self.max_lateness_ms,
            sequence: self.sequence,
            rtp_timestamp: self.rtp_timestamp,
            latest_receiver_report: self.latest_receiver_report,
        }
    }

    /// The state after a datagram of `sent` bytes went out for a frame that was
    /// due at `scheduled`.
    pub open spec fn delivered(
        self,
        scheduled: u128,
        duration_ms: u64,
        samples: u32,
        payload_len: usize,
        sent: usize,
        now: u128,
    ) -> SenderState {
        SenderState {
            active: match self.active {
                Some(media) => Some(
                    ActiveMedia {
                        media_sent_ms: sum(media.media_sent_ms, duration_ms),
                        deadline: Some(following_deadline(scheduled, duration_ms, now)),
                        ..media
                    },
                ),
                None => None,
            },
            packets_sent: sum(self.packets_sent, 1),
            bytes_sent: sum(self.bytes_sent, sent as u64),
            octets_sent: sum(self.octets_sent, payload_len as u64),
            sequence: if self.sequence == u16::MAX {
                0
            } else {
                (self.sequence + 1) as u16
            },
            rtp_timestamp: advance_timestamp(self.rtp_timestamp, samples),
            ..self
        }
    }
}

impl PlayoutTurn {
    /// The turn after a frame was discarded to catch up.
    pub open spec fn caught_up(self, stale: OpusFrame) -> PlayoutTurn {
        PlayoutTurn {
            scheduled: spec_after(self.scheduled, spec_frame_span(stale.duration_ms)),
            recovered: true,
        }
    }
}

/// Whether the oldest of so many frames, due at `scheduled`, is to be discarded: it
/// is later than tolerated, and another frame follows.
pub open spec fn discardable(scheduled: u128, max_lateness: u128, held: nat, now: u128) -> bool {
    spec_since(now, scheduled) > max_lateness && held >= 2
}

/// RTP timestamps count samples modulo 2^32.
pub open spec fn advance_timestamp(timestamp: u32, samples: u32) -> u32 {
    ((timestamp + samples) % 0x1_0000_0000) as u32
}

/// When the frame after one due at `scheduled` is due: on the media timeline, or,
/// if that has passed already, one frame from now, so that no burst follows a
/// delay.
pub open spec fn following_deadline(scheduled: u128, duration_ms: u64, now: u128) -> u128 {
    let span = spec_frame_span(duration_ms);
    if spec_after(scheduled, span) <= now {
        spec_after(now, span)
    } else {
        spec_after(scheduled, span)
    }
}

/// The failure report for `generation`, worded as `error`.
pub open spec fn reports_failure(event: WorkerEvent, generation: u64, error: MusicStreamError) -> bool {
    event matches WorkerEvent::CurrentFailed { generation: failed, code, message } && failed
        == generation && code == error.spec_code() && message@ == error.prefix() + error.detail()
}

#[derive(Debug)]
pub struct RtpSender {
    pub prebuffer_ms: u64,
    pub max_playout_lateness: u128,
    pub state: SenderState,
    pub quality_window: RtcpQualityWindow,
}

impl RtpSender {
    pub open spec fn wf(self) -> bool {
        self.quality_window.wf()
    }

    /// Everything but the state is as in `other`.
    pub open spec fn same_setup(self, other: RtpSender) -> bool {
        &&& self.prebuffer_ms == other.prebuffer_ms
        &&& self.max_playout_lateness == other.max_playout_lateness
        &&& self.quality_window == other.quality_window
    }

    /// `self` is an idle output whose packets name `ssrc` and are numbered from the
    /// given values on.
    pub open spec fn is_new(
        self,
        ssrc: u32,
        prebuffer_ms: u64,
        max_playout_lateness_ms: u64,
        sequence: u16,
        rtp_timestamp: u32,
    ) -> bool {
        &&& self.wf()
        &&& self.prebuffer_ms == prebuffer_ms
        &&& self.max_playout_lateness == spec_from_millis(max_playout_lateness_ms)
        &&& self.quality_window.limit() == DEFAULT_RTCP_QUALITY_WINDOW_REPORTS
        &&& self.quality_window@ == Seq::<RtcpQualitySample>::empty()
        &&& self.state == SenderState::idle(ssrc, sequence, rtp_timestamp)
    }

    /// An idle output whose packet numbering starts at the given values.
    #[must_use]
    pub fn new(
        ssrc: u32,
        prebuffer_ms: u64,
        max_playout_lateness_ms: u64,
        sequence: u16,
        rtp_timestamp: u32,
    ) -> (sender: Self)
        ensures
            sender.is_new(ssrc, prebuffer_ms, max_playout_lateness_ms, sequence, rtp_timestamp),
    {
        RtpSender {
            prebuffer_ms,
            max_playout_lateness: from_millis(max_playout_lateness_ms),
            state: SenderState {
                active: None,
                paused: false,
                ssrc,
                sequence,
                rtp_timestamp,
                packets_sent: 0,
                bytes_sent: 0,
                octets_sent: 0,
                dropped_frames: 0,
                dropped_media_ms: 0,
                latency_recoveries: 0,
                underruns: 0,
                max_lateness_ms: 0,
                receiver_reports: 0,
                latest_receiver_report: None,
                quality_level: None,
            },
            quality_window: RtcpQualityWindow::default(),
        }
    }

    /// An idle output whose packet numbering starts at random.
    #[must_use]
    pub fn start(ssrc: u32, prebuffer_ms: u64, max_playout_lateness_ms: u64) -> (sender: Self)
        ensures
            exists|sequence: u16, rtp_timestamp: u32|
                #![trigger drawn(sequence, rtp_timestamp)]
                drawn(sequence, rtp_timestamp) && sender.is_new(
                    ssrc,
                    prebuffer_ms,
                    max_playout_lateness_ms,
                    sequence,
                    rtp_timestamp,
                ),
    {
        let (sequence, rtp_timestamp): (u16, u32) = random_start();
        assert(drawn(sequence, rtp_timestamp));
        RtpSender::new(ssrc, prebuffer_ms, max_playout_lateness_ms, sequence, rtp_timestamp)
    }

    /// Looks at the queue of the active media.
    pub fn poll_media(&mut self, queue: QueueSnapshot, now: u128) -> (reports: MediaReports)
        ensures
            final(self).same_setup(*old(self)),
            final(self).state == old(self).state.polled(old(self).prebuffer_ms, queue, now),
            reports.ready == old(self).state.ready_report(old(self).prebuffer_ms, queue),
            reports.ended == old(self).state.ended_report(queue),
    {
        let mut reports = MediaReports { ready: None, ended: None };
        if let Some(active) = self.state.active {
            let mut media = active;
            if !media.started && !self.state.paused && (queue.buffered_ms >= self.prebuffer_ms || (
            queue.is_closed() && queue.buffered_ms > 0)) {
                if !media.prebuffer_reported {
                    reports.ready = Some(
                        WorkerEvent::CurrentPrebufferReady { generation: media.generation },
                    );
                }
                media.started = true;
                media.deadline = Some(now);
                media.prebuffer_reported = true;
                self.state.active = Some(media);
            }
            if queue.is_drained() {
                self.state.active = None;
                reports.ended = Some(WorkerEvent::CurrentEnded { generation: media.generation });
            }
        }
        reports
    }

    /// When the next frame is due, if any is.
    #[must_use]
    pub fn deadline(&self) -> (deadline: Option<u128>)
        ensures
            deadline == self.state.spec_deadline(),
    {
        match self.state.active {
            Some(media) => if media.started && !self.state.paused {
                media.deadline
            } else {
                None
            },
            None => None,
        }
    }

    /// The generation being played, 0 for none.
    #[must_use]
    pub fn active_generation(&self) -> (generation: u64)
        ensures
            generation == match self.state.active {
                Some(media) => media.generation,
                None => 0,
            },
    {
        match self.state.active {
            Some(media) => media.generation,
            None => 0,
        }
    }

    /// Carries out a command; tells whether the output runs on.
    pub fn handle_command(&mut self, command: SenderCommand, now: u128) -> (running: bool)
        ensures
            running == !(command is Shutdown),
            final(self).same_setup(*old(self)),
            final(self).state == old(self).state.commanded(command, now),
    {
        match command {
            SenderCommand::Activate { generation, start_position_ms, paused } => {
                self.state.active = Some(
                    ActiveMedia {
                        generation,
                        start_position_ms,
                        started: false,
                        prebuffer_reported: false,
                        first_packet: true,
                        deadline: None,
                        media_sent_ms: 0,
                    },
                );
                self.state.paused = paused;
                true
            },
            SenderCommand::Deactivate { generation } => {
                if let Some(media) = self.state.active {
                    if media.generation == generation {
                        self.state.active = None;
                    }
                }
                true
            },
            SenderCommand::Pause { generation } => {
                if let Some(media) = self.state.active {
                    if media.generation == generation {
                        self.state.paused = true;
                    }
                }
                true
            },
            SenderCommand::Resume { generation } => {
                if let Some(active) = self.state.active {
                    let mut media = active;
                    if media.generation == generation {
                        self.state.paused = false;
                        media.deadline = Some(now);
                        self.state.active = Some(media);
                    }
                }
                true
            },
            SenderCommand::Shutdown => false,
        }
    }

    /// The output woke up at its deadline.
    pub fn begin_turn(&mut self, now: u128) -> (turn: Option<PlayoutTurn>)
        ensures
            final(self).same_setup(*old(self)),
            final(self).state == old(self).state.woken(now),
            turn == if old(self).state.active is None {
                None
            } else {
                Some(PlayoutTurn { scheduled: old(self).state.scheduled(now), recovered: false })
            },
    {
        match self.state.active {
            None => None,
            Some(media) => {
                let scheduled: u128 = match media.deadline {
                    Some(deadline) => deadline,
                    None => now,
                };
                let lateness: u128 = since(now, scheduled);
                self.state.max_lateness_ms = larger(
                    self.state.max_lateness_ms,
                    whole_millis(lateness),
                );
                Some(PlayoutTurn { scheduled, recovered: false })
            },
        }
    }

    /// Discards the oldest frame if playout lags too far behind and another
    /// frame follows. Tells whether one was discarded.
    pub fn drop_stale(
        &mut self,
        turn: &mut PlayoutTurn,
        queue: &mut OpusQueue,
        now: u128,
    ) -> (dropped: bool)
        requires
            old(queue).wf(),
        ensures
            final(queue).wf(),
            final(queue).same_ends(*old(queue)),
            final(self).same_setup(*old(self)),
            dropped == discardable(
                old(turn).scheduled,
                old(self).max_playout_lateness,
                old(queue).frames@.len(),
                now,
            ),
            if dropped {
                let stale = old(queue).frames@[0];
                &&& final(queue).frames@ == old(queue).frames@.subrange(
                    1,
                    old(queue).frames@.len() as int,
                )
                &&& final(self).state == old(self).state.skipped(stale)
                &&& *final(turn) == old(turn).caught_up(stale)
            } else {
                &&& *final(queue) == *old(queue)
                &&& final(self).state == old(self).state
                &&& *final(turn) == *old(turn)
            },
    {
        if since(now, turn.scheduled) <= self.max_playout_lateness {
            return false;
        }
        match queue.try_drop_oldest_if_followed() {
            None => false,
            Some(stale) => {
                turn.recovered = true;
                turn.scheduled = after(turn.scheduled, frame_span(stale.duration_ms));
                self.state.dropped_frames = self.state.dropped_frames.saturating_add(1);
                self.state.dropped_media_ms = self.state.dropped_media_ms.saturating_add(
                    stale.duration_ms,
                );
                self.state.rtp_timestamp = self.state.rtp_timestamp.wrapping_add(
                    stale.samples_per_channel,
                );
                if let Some(active) = self.state.active {
                    let mut media = active;
                    media.media_sent_ms = media.media_sent_ms.saturating_add(stale.duration_ms);
                    self.state.active = Some(media);
                }
                true
            },
        }
    }

    /// Takes the frame that is due. Without one the media waits for its buffer
    /// to fill again.
    pub fn take_packet(&mut self, turn: PlayoutTurn, queue: &mut OpusQueue) -> (packet: Option<
        OutgoingPacket,
    >)
        requires
            old(queue).wf(),
            old(self).state.active is Some,
        ensures
            final(queue).wf(),
            final(queue).same_ends(*old(queue)),
            final(self).same_setup(*old(self)),
            packet is Some <==> old(queue).frames@.len() > 0,
            match packet {
                Some(packet) => {
                    let due = old(queue).frames@[0];
                    &&& final(queue).frames@ == old(queue).frames@.subrange(
                        1,
                        old(queue).frames@.len() as int,
                    )
                    &&& packet == old(self).state.packet_for(due)
                    &&& packet.payload_len == payload_bytes(due.payload).len()
                    &&& final(self).state == old(self).state.taken(turn.recovered)
                },
                None => {
                    &&& *final(queue) == *old(queue)
                    &&& final(self).state == old(self).state.starved(turn.recovered)
                },
            },
    {
        if turn.recovered {
            self.state.latency_recoveries = self.state.latency_recoveries.saturating_add(1);
        }
        let mut media = self.state.active.unwrap();
        match queue.try_recv() {
            None => {
                self.state.underruns = self.state.underruns.saturating_add(1);
                media.started = false;
                media.deadline = None;
                self.state.active = Some(media);
                None
            },
            Some(due) => {
                let mut frame = due;
                if media.first_packet {
                    frame.marker = true;
                    media.first_packet = false;
                }
                self.state.active = Some(media);
                let payload_len: usize = payload_len(&frame.payload);
                Some(
                    OutgoingPacket {
                        frame,
                        ssrc: self.state.ssrc,
                        sequence: self.state.sequence,
                        rtp_timestamp: self.state.rtp_timestamp,
                        payload_len,
                    },
                )
            },
        }
    }

    /// The datagram of a packet was handed to the network, which took `sent` of
    /// its `datagram_len` bytes. A full send advances the timeline; a partial one
    /// fails the media.
    pub fn packet_sent(
        &mut self,
        turn: PlayoutTurn,
        packet: &OutgoingPacket,
        datagram_len: usize,
        sent: usize,
        buffered_ms: u64,
        now: u128,
    ) -> (result: Result<StreamRuntimeProgress, WorkerEvent>)
        requires
            old(self).state.active is Some,
        ensures
            final(self).same_setup(*old(self)),
            result is Ok <==> sent == datagram_len,
            match result {
                Ok(progress) => {
                    &&& final(self).state == old(self).state.delivered(
                        turn.scheduled,
                        packet.frame.duration_ms,
                        packet.frame.samples_per_channel,
                        packet.payload_len,
                        sent,
                        now,
                    )
                    &&& progress == final(self).state.progress_of(
                        final(self).state.active->0,
                        buffered_ms,
                    )
                },
                Err(event) => {
                    &&& final(self).state == old(self).state.failed()
                    &&& event matches WorkerEvent::CurrentFailed { generation, code, message }
                        && generation == old(self).state.active->0.generation && code
                        == crate::error::ErrorCode::RtpSendError && message@
                        == "rtp send error: "@ + ("partial UDP datagram send: "@ + decimal(
                        sent as nat,
                    ) + " bytes"@)
                },
            },
    {
        if sent != datagram_len {
            let text = "partial UDP datagram send: ".to_owned().concat(
                decimal_text(sent as u64).as_str(),
            ).concat(" bytes");
            let error = MusicStreamError::RtpSendError(text);
            let generation: u64 = self.active_generation();
            self.state.active = None;
            return Err(
                WorkerEvent::CurrentFailed {
                    generation,
                    code: error.code(),
                    message: error.message(),
                },
            );
        }
        self.state.packets_sent = self.state.packets_sent.saturating_add(1);
        self.state.bytes_sent = self.state.bytes_sent.saturating_add(sent as u64);
        self.state.octets_sent = self.state.octets_sent.saturating_add(packet.payload_len as u64);
        self.state.sequence = self.state.sequence.wrapping_add(1);
        self.state.rtp_timestamp = self.state.rtp_timestamp.wrapping_add(
            packet.frame.samples_per_channel,
        );
        let span: u128 = frame_span(packet.frame.duration_ms);
        let anchored: u128 = after(turn.scheduled, span);
        let deadline: u128 = if anchored <= now {
            after(now, span)
        } else {
            anchored
        };
        let mut media = self.state.active.unwrap();
        media.media_sent_ms = media.media_sent_ms.saturating_add(packet.frame.duration_ms);
        media.deadline = Some(deadline);
        self.state.active = Some(media);
        Ok(self.progress(media, buffered_ms))
    }

    /// The active media failed for good: its packet could not be built or sent.
    pub fn packet_failed(&mut self, error: &MusicStreamError) -> (event: Option<WorkerEvent>)
        ensures
            final(self).same_setup(*old(self)),
            final(self).state == old(self).state.failed(),
            event is Some <==> old(self).state.active is Some,
            event matches Some(event) ==> reports_failure(
                event,
                old(self).state.active->0.generation,
                *error,
            ),
    {
        match self.state.active {
            None => None,
            Some(media) => {
                self.state.active = None;
                Some(
                    WorkerEvent::CurrentFailed {
                        generation: media.generation,
                        code: error.code(),
                        message: error.message(),
                    },
                )
            },
        }
    }

    /// The counters to report to receivers, once anything was sent.
    #[must_use]
    pub fn sender_report(&self) -> (report: Option<SenderReport>)
        ensures
            report == self.state.spec_sender_report(),
    {
        if self.state.packets_sent > 0 {
            Some(
                SenderReport {
                    ssrc: self.state.ssrc,
                    rtp_timestamp: self.state.rtp_timestamp,
                    packets: saturating_u32(self.state.packets_sent),
                    octets: saturating_u32(self.state.octets_sent),
                },
            )
        } else {
            None
        }
    }

    /// Takes in a receiver report. The owner hears of the network quality only
    /// when its level changes.
    pub fn receiver_report(
        &mut self,
        snapshot: RtcpReceiverReportSnapshot,
        buffered_ms: u64,
    ) -> (outcome: ReceiverReportOutcome)
        requires
            old(self).wf(),
        ensures
            final(self).wf(),
            final(self).prebuffer_ms == old(self).prebuffer_ms,
            final(self).max_playout_lateness == old(self).max_playout_lateness,
            final(self).quality_window.limit() == old(self).quality_window.limit(),
            final(self).quality_window@ == newest(
                old(self).quality_window@.push(spec_sample_of(snapshot)),
                old(self).quality_window.limit() as nat,
            ),
            ({
                let quality = summary(final(self).quality_window@);
                &&& final(self).state == old(self).state.reported(snapshot, quality.level)
                &&& outcome.event == old(self).state.quality_report(quality)
                &&& outcome.progress == match old(self).state.active {
                    Some(media) => Some(final(self).state.progress_of(media, buffered_ms)),
                    None => None,
                }
            }),
    {
        self.state.receiver_reports = snapshot.reports_received;
        self.state.latest_receiver_report = Some(snapshot);
        let quality = self.quality_window.observe(sample_of(snapshot));
        let changed = match self.state.quality_level {
            Some(level) => level != quality.level,
            None => true,
        };
        self.state.quality_level = Some(quality.level);
        match self.state.active {
            None => ReceiverReportOutcome { event: None, progress: None },
            Some(media) => {
                let event = if changed {
                    Some(
                        WorkerEvent::CurrentNetworkQualityChanged {
                            generation: media.generation,
                            quality: quality.level,
                            snapshot: quality,
                        },
                    )
                } else {
                    None
                };
                ReceiverReportOutcome { event, progress: Some(self.progress(media, buffered_ms)) }
            },
        }
    }

    fn progress(&self, media: ActiveMedia, buffered_ms: u64) -> (progress: StreamRuntimeProgress)
        ensures
            progress == self.state.progress_of(media, buffered_ms),
    {
        StreamRuntimeProgress {
            generation: media.generation,
            start_position_ms: media.start_position_ms,
            media_sent_ms: media.media_sent_ms,
            packets_sent: self.state.packets_sent,
            bytes_sent: self.state.bytes_sent,
            dropped_frames: self.state.dropped_frames,
            dropped_media_ms: self.state.dropped_media_ms,
            latency_recoveries: self.state.latency_recoveries,
            underruns: self.state.underruns,
            buffered_ms,
            max_lateness_ms: self.state.max_lateness_ms,
            sequence: self.state.sequence,
            rtp_timestamp: self.state.rtp_timestamp,
            latest_receiver_report: self.state.latest_receiver_report,
        }
    }
}

/// The report about an output task that ended with an error while it played.
pub fn supervised_failure(result: &Result<(), MusicStreamError>, active_generation: u64) -> (event:
    Option<WorkerEvent>)
    ensures
        event is Some <==> result is Err && active_generation != 0,
        event matches Some(event) ==> reports_failure(event, active_generation, result->Err_0),
{
    match result {
        Ok(()) => None,
        Err(error) => if active_generation != 0 {
            Some(
                WorkerEvent::CurrentFailed {
                    generation: active_generation,
                    code: error.code(),
                    message: error.message(),
                },
            )
        } else {
            None
        },
    }
}

/// The result of shutting an output down: a failure of its task weighs more than
/// a failure of the request.
pub fn shutdown_result(
    command: Result<(), MusicStreamError>,
    task: Result<(), MusicStreamError>,
) -> (result: Result<(), MusicStreamError>)
    ensures
        result == if task is Err {
            task
        } else {
            command
        },
{
    match task {
        Err(error) => Err(error),
        Ok(()) => command,
    }
}

/// One step in the life of an output.
pub enum SessionStep {
    Poll { prebuffer_ms: u64, queue: QueueSnapshot, now: u128 },
    Command { command: SenderCommand, now: u128 },
    Wake { now: u128 },
    Skip { frame: OpusFrame },
    Take { recovered: bool },
    Starve { recovered: bool },
    Deliver {
        scheduled: u128,
        duration_ms: u64,
        samples: u32,
        payload_len: usize,
        sent: usize,
        now: u128,
    },
    Fail,
    Report { snapshot: RtcpReceiverReportSnapshot, level: RtcpNetworkQualityLevel },
}

impl SessionStep {
    pub open spec fn from(self, state: SenderState) -> SenderState {
        match self {
            SessionStep::Poll { prebuffer_ms, queue, now } => state.polled(prebuffer_ms, queue, now),
            SessionStep::Command { command, now } => state.commanded(command, now),
            SessionStep::Wake { now } => state.woken(now),
            SessionStep::Skip { frame } => state.skipped(frame),
            SessionStep::Take { recovered } => state.taken(recovered),
            SessionStep::Starve { recovered } => state.starved(recovered),
            SessionStep::Deliver { scheduled, duration_ms, samples, payload_len, sent, now } =>
                state.delivered(scheduled, duration_ms, samples, payload_len, sent, now),
            SessionStep::Fail => state.failed(),
            SessionStep::Report { snapshot, level } => state.reported(snapshot, level),
        }
    }

    /// Packets that the step puts on the wire.
    pub open spec fn packets(self) -> nat {
        if self is Deliver {
            1
        } else {
            0
        }
    }

    /// Media samples that the step puts behind.
    pub open spec fn media(self) -> nat {
        match self {
            SessionStep::Deliver { samples, .. } => samples as nat,
            SessionStep::Skip { frame } => frame.samples_per_channel as nat,
            _ => 0,
        }
    }
}

/// The state after steps in a row.
pub open spec fn after_steps(state: SenderState, steps: Seq<SessionStep>) -> SenderState
    decreases steps.len(),
{
    if steps.len() == 0 {
        state
    } else {
        steps.last().from(after_steps(state, steps.drop_last()))
    }
}

pub open spec fn packets_in(steps: Seq<SessionStep>) -> nat
    decreases steps.len(),
{
    if steps.len() == 0 {
        0
    } else {
        packets_in(steps.drop_last()) + steps.last().packets()
    }
}

pub open spec fn media_in(steps: Seq<SessionStep>) -> nat
    decreases steps.len(),
{
    if steps.len() == 0 {
        0
    } else {
        media_in(steps.drop_last()) + steps.last().media()
    }
}

/// One packet session lasts as long as the output. Whatever happens in between,
/// be it a track change, a seek, a pause, an underrun or a failure, sequence
/// numbers count the packets that went out and timestamps count the media samples
/// that were sent or skipped, and the synchronization source stays.
#[verifier::spinoff_prover]
pub proof fn the_packet_session_never_restarts(state: SenderState, steps: Seq<SessionStep>)
    ensures
        after_steps(state, steps).ssrc == state.ssrc,
        after_steps(state, steps).sequence == (state.sequence + packets_in(steps)) % 0x1_0000,
        after_steps(state, steps).rtp_timestamp == (state.rtp_timestamp + media_in(steps))
            % 0x1_0000_0000,
    decreases steps.len(),
{
    if steps.len() > 0 {
        let front = steps.drop_last();
        the_packet_session_never_restarts(state, front);
        steps_use_up_numbers(after_steps(state, front), steps.last());
        counts_wrap(
            state.sequence + packets_in(front),
            steps.last().packets() as int,
            state.rtp_timestamp + media_in(front),
            steps.last().media() as int,
        );
    }
}

/// Counting modulo a size and then further is counting further modulo that size.
proof fn counts_wrap(number: int, packets: int, timestamp: int, media: int)
    ensures
        (number % 0x1_0000 + packets) % 0x1_0000 == (number + packets) % 0x1_0000,
        (timestamp % 0x1_0000_0000 + media) % 0x1_0000_0000 == (timestamp + media) % 0x1_0000_0000,
{
}

/// One step uses up as many numbers as it sends packets, and as much of the timeline
/// as it puts media behind.
proof fn steps_use_up_numbers(state: SenderState, step: SessionStep)
    ensures
        step.from(state).ssrc == state.ssrc,
        step.from(state).sequence == (state.sequence + step.packets()) % 0x1_0000,
        step.from(state).rtp_timestamp == (state.rtp_timestamp + step.media()) % 0x1_0000_0000,
{
}

/// A packet follows the one before it: whatever happens between them, its number
/// is the next one, and its timestamp lies further by the samples of the packet
/// before it and of the media that was skipped in between.
pub proof fn packets_follow_each_other(
    state: SenderState,
    sent: SessionStep,
    between: Seq<SessionStep>,
)
    requires
        sent is Deliver,
        packets_in(between) == 0,
    ensures
        ({
            let then = after_steps(sent.from(state), between);
            &&& then.ssrc == state.ssrc
            &&& then.sequence == (state.sequence + 1) % 0x1_0000
            &&& then.rtp_timestamp == (state.rtp_timestamp + sent.media() + media_in(between))
                % 0x1_0000_0000
        }),
{
    the_packet_session_never_restarts(sent.from(state), between);
}

/// Only packets that went out use up sequence numbers and counters: late media
/// that is skipped leaves a gap in time and none in the numbering.
pub proof fn late_media_uses_no_sequence_numbers(state: SenderState, frame: OpusFrame)
    ensures
        state.skipped(frame).sequence == state.sequence,
        state.skipped(frame).packets_sent == state.packets_sent,
        state.skipped(frame).bytes_sent == state.bytes_sent,
        state.skipped(frame).octets_sent == state.octets_sent,
        state.skipped(frame).rtp_timestamp == advance_timestamp(
            state.rtp_timestamp,
            frame.samples_per_channel,
        ),
{
}

/// Media that was activated paused, or paused since, is due at no time until it
/// is resumed.
pub proof fn paused_media_is_never_due(state: SenderState, prebuffer_ms: u64, queue: QueueSnapshot, now: u128)
    requires
        state.paused,
    ensures
        state.spec_deadline() is None,
        state.polled(prebuffer_ms, queue, now).paused,
        state.polled(prebuffer_ms, queue, now).spec_deadline() is None,
{
}

/// The next deadline never lies in the past, so a delay causes no burst.
pub proof fn deadlines_lie_ahead(scheduled: u128, duration_ms: u64, now: u128)
    requires
        now + spec_frame_span(duration_ms) <= u128::MAX,
    ensures
        following_deadline(scheduled, duration_ms, now) > now,
{
}

/// Time spent paused is not lateness: media that had begun and is resumed at `now`
/// is due at `now`. A turn that begins then is on time, counts no lateness and
/// discards no frame, however long the pause was and however little lateness is
/// tolerated. Media that had not begun still waits for its buffer.
pub proof fn pauses_cause_no_lateness(
    state: SenderState,
    generation: u64,
    now: u128,
    max_lateness: u128,
    held: nat,
)
    requires
        state.active is Some,
        state.active->0.generation == generation,
    ensures
        ({
            let resumed = state.commanded(SenderCommand::Resume { generation }, now);
            &&& !resumed.paused
            &&& resumed.active is Some
            &&& resumed.active->0.generation == generation
            &&& resumed.active->0.start_position_ms == state.active->0.start_position_ms
            &&& resumed.active->0.media_sent_ms == state.active->0.media_sent_ms
            &&& resumed.active->0.started == state.active->0.started
            &&& resumed.active->0.first_packet == state.active->0.first_packet
            &&& resumed.active->0.prebuffer_reported == state.active->0.prebuffer_reported
            &&& state.active->0.started ==> resumed.spec_deadline() == Some(now)
            &&& !state.active->0.started ==> resumed.spec_deadline() is None
            &&& resumed.scheduled(now) == now
            &&& resumed.woken(now).max_lateness_ms == resumed.max_lateness_ms
            &&& !discardable(resumed.scheduled(now), max_lateness, held, now)
        }),
{
}

/// What a command does not mention stays: no command touches the counters, and one
/// that names media which is not played changes nothing.
pub proof fn commands_concern_their_media(state: SenderState, command: SenderCommand, now: u128)
    ensures
        ({
            let after = state.commanded(command, now);
            &&& after.packets_sent == state.packets_sent && after.bytes_sent == state.bytes_sent
            &&& after.octets_sent == state.octets_sent
            &&& after.dropped_frames == state.dropped_frames
            &&& after.dropped_media_ms == state.dropped_media_ms
            &&& after.latency_recoveries == state.latency_recoveries
            &&& after.underruns == state.underruns
            &&& after.max_lateness_ms == state.max_lateness_ms
            &&& after.receiver_reports == state.receiver_reports
            &&& after.latest_receiver_report == state.latest_receiver_report
            &&& after.quality_level == state.quality_level
            &&& match command {
                SenderCommand::Deactivate { generation }
                | SenderCommand::Pause { generation }
                | SenderCommand::Resume { generation } => state.active is None
                    || state.active->0.generation != generation ==> after == state,
                SenderCommand::Shutdown => after == state,
                SenderCommand::Activate { .. } => true,
            }
        }),
{
}

/// Media that is activated takes over at once, whatever was played before: it starts
/// at its own position with nothing sent, waits for its buffer, has yet to report
/// that it is ready, and its first packet is marked.
pub proof fn activated_media_starts_over(
    state: SenderState,
    generation: u64,
    start_position_ms: u64,
    paused: bool,
    now: u128,
)
    ensures
        ({
            let after = state.commanded(
                SenderCommand::Activate { generation, start_position_ms, paused },
                now,
            );
            &&& after.active is Some
            &&& after.active->0.generation == generation
            &&& after.active->0.start_position_ms == start_position_ms
            &&& after.active->0.media_sent_ms == 0
            &&& !after.active->0.started
            &&& !after.active->0.prebuffer_reported
            &&& after.active->0.first_packet
            &&& after.paused == paused
            &&& after.spec_deadline() is None
        }),
{
}

/// Media that is deactivated is played no more; media that is paused stays where it
/// is and is not due.
pub proof fn named_media_is_stopped_or_held(state: SenderState, generation: u64, now: u128)
    requires
        state.active is Some,
        state.active->0.generation == generation,
    ensures
        state.commanded(SenderCommand::Deactivate { generation }, now).active is None,
        ({
            let held = state.commanded(SenderCommand::Pause { generation }, now);
            &&& held.paused
            &&& held.active == state.active
            &&& held.spec_deadline() is None
        }),
{
}

/// Media begins to play as soon as, and not before, as much is buffered as it is to
/// wait for, or all that there will be; a pause puts it off. It is due at once.
/// Media that plays is left alone until its queue has run dry for good, and then it
/// ends.
pub proof fn media_starts_when_buffered_and_ends_when_drained(
    state: SenderState,
    prebuffer_ms: u64,
    queue: QueueSnapshot,
    now: u128,
)
    requires
        state.active is Some,
    ensures
        ({
            let after = state.polled(prebuffer_ms, queue, now);
            let generation = state.active->0.generation;
            let dry = !queue.sender_alive && queue.buffered_ms == 0;
            &&& dry ==> after.active is None && state.ended_report(queue) == Some(
                WorkerEvent::CurrentEnded { generation },
            )
            &&& dry ==> (state.ready_report(prebuffer_ms, queue) is Some <==> prebuffer_ms == 0
                && !state.active->0.started && !state.paused
                && !state.active->0.prebuffer_reported)
            &&& !dry ==> state.ended_report(queue) is None && after.active is Some
                && after.active->0.generation == generation
            &&& !dry && state.active->0.started ==> after == state && state.ready_report(
                prebuffer_ms,
                queue,
            ) is None
            &&& !dry && !state.active->0.started ==> {
                let enough = !state.paused && (queue.buffered_ms >= prebuffer_ms
                    || !queue.sender_alive);
                &&& enough ==> after.spec_deadline() == Some(now) && after.active->0.started
                &&& !enough ==> after == state
                &&& enough && !state.active->0.prebuffer_reported <==> state.ready_report(
                    prebuffer_ms,
                    queue,
                ) == Some(WorkerEvent::CurrentPrebufferReady { generation })
                &&& enough && state.active->0.prebuffer_reported ==> state.ready_report(
                    prebuffer_ms,
                    queue,
                ) is None
            }
            &&& after.paused == state.paused
            &&& after.underruns == state.underruns && after.packets_sent == state.packets_sent
            &&& after.active is Some ==> after.active->0.media_sent_ms
                == state.active->0.media_sent_ms && after.active->0.start_position_ms
                == state.active->0.start_position_ms
        }),
{
}

/// Whether a step brings in media.
pub open spec fn brings_media(step: SessionStep) -> bool {
    step matches SessionStep::Command { command, .. } && command is Activate
}

/// Media reports that it is ready once: when it has, it does not again, through
/// underruns and pauses, until other media is activated.
pub proof fn readiness_is_reported_once(
    state: SenderState,
    steps: Seq<SessionStep>,
    prebuffer_ms: u64,
    queue: QueueSnapshot,
)
    requires
        state.active matches Some(media) ==> media.prebuffer_reported,
        forall|i: int|
            0 <= i < steps.len() ==> !brings_media(#[trigger] steps[i]) && (steps[i] is Take
                || steps[i] is Starve ==> after_steps(state, steps.take(i)).active is Some),
    ensures
        after_steps(state, steps).active matches Some(media) ==> media.prebuffer_reported,
        after_steps(state, steps).ready_report(prebuffer_ms, queue) is None,
    decreases steps.len(),
{
    if steps.len() > 0 {
        let front = steps.drop_last();
        assert forall|i: int| 0 <= i < front.len() implies !brings_media(#[trigger] front[i]) && (
        front[i] is Take || front[i] is Starve ==> after_steps(
            state,
            front.take(i),
        ).active is Some) by {
            assert(front[i] == steps[i]);
            assert(front.take(i) =~= steps.take(i));
        }
        readiness_is_reported_once(state, front, prebuffer_ms, queue);
        let last = steps[steps.len() - 1];
        assert(steps.take(steps.len() - 1) =~= front);
    }
}

/// A frame is discarded when it is later than tolerated and another follows it, and
/// at no other time: the last frame is never discarded, and neither is one that is
/// just as late as tolerated.
pub proof fn only_late_media_is_discarded(
    scheduled: u128,
    max_lateness: u128,
    held: nat,
    now: u128,
)
    ensures
        discardable(scheduled, max_lateness, held, now) <==> now > scheduled + max_lateness && held
            >= 2,
{
}

/// Discarding a frame brings the turn forward by the time of that frame, and moves
/// the position by its media.
pub proof fn discarding_catches_up(state: SenderState, turn: PlayoutTurn, frame: OpusFrame)
    requires
        state.active is Some,
        0 < frame.duration_ms,
        turn.scheduled + frame.duration_ms * 1_000_000 <= u128::MAX,
    ensures
        turn.caught_up(frame).scheduled == turn.scheduled + frame.duration_ms * 1_000_000,
        turn.caught_up(frame).recovered,
        ({
            let after = state.skipped(frame);
            &&& after.active is Some
            &&& grew_by(
                after.active->0.media_sent_ms,
                state.active->0.media_sent_ms,
                frame.duration_ms as int,
            )
            &&& after.active->0.deadline == state.active->0.deadline
            &&& after.active->0.started == state.active->0.started
            &&& after.active->0.first_packet == state.active->0.first_packet
            &&& after.active->0.generation == state.active->0.generation
            &&& grew_by(after.dropped_frames, state.dropped_frames, 1)
            &&& grew_by(after.dropped_media_ms, state.dropped_media_ms, frame.duration_ms as int)
            &&& after.underruns == state.underruns
            &&& after.latency_recoveries == state.latency_recoveries
        }),
{
}

/// A turn that caught up counts as one recovery, whether or not a frame was left to
/// play. An underrun is counted, and the media waits for its buffer anew, where it
/// was; it is not due meanwhile.
pub proof fn underruns_wait_for_the_buffer(state: SenderState, recovered: bool)
    requires
        state.active is Some,
    ensures
        ({
            let taken = state.taken(recovered);
            let starved = state.starved(recovered);
            let by = if recovered {
                1int
            } else {
                0int
            };
            &&& grew_by(taken.latency_recoveries, state.latency_recoveries, by)
            &&& grew_by(starved.latency_recoveries, state.latency_recoveries, by)
            &&& grew_by(starved.underruns, state.underruns, 1)
            &&& taken.underruns == state.underruns
            &&& starved.spec_deadline() is None
            &&& starved.active is Some && !starved.active->0.started
            &&& starved.active->0.generation == state.active->0.generation
            &&& starved.active->0.media_sent_ms == state.active->0.media_sent_ms
            &&& starved.active->0.first_packet == state.active->0.first_packet
            &&& starved.paused == state.paused
            &&& taken.active is Some && taken.active->0.started == state.active->0.started
            &&& taken.active->0.deadline == state.active->0.deadline
            &&& taken.active->0.media_sent_ms == state.active->0.media_sent_ms
        }),
{
}

/// The first packet of media is marked, and later ones only if their frame is. A
/// packet carries its frame unchanged otherwise, and the numbers that are next.
pub proof fn first_packets_are_marked(state: SenderState, due: OpusFrame, recovered: bool)
    requires
        state.active is Some,
    ensures
        state.active->0.first_packet ==> state.packet_for(due).frame.marker,
        !state.active->0.first_packet ==> state.packet_for(due).frame == due,
        state.packet_for(due).frame.payload == due.payload,
        state.packet_for(due).frame.duration_ms == due.duration_ms,
        state.packet_for(due).frame.samples_per_channel == due.samples_per_channel,
        state.packet_for(due).ssrc == state.ssrc,
        state.packet_for(due).sequence == state.sequence,
        state.packet_for(due).rtp_timestamp == state.rtp_timestamp,
        !state.taken(recovered).active->0.first_packet,
{
}

/// Between its activation and its end media keeps its name and where it started, and
/// its position moves only by what is sent or skipped.
pub proof fn positions_move_by_what_is_played(state: SenderState, step: SessionStep)
    requires
        state.active is Some,
        !brings_media(step),
        step.from(state).active is Some,
    ensures
        ({
            let old = state.active->0;
            let new = step.from(state).active->0;
            let by = match step {
                SessionStep::Deliver { duration_ms, .. } => duration_ms as int,
                SessionStep::Skip { frame } => frame.duration_ms as int,
                _ => 0int,
            };
            &&& new.generation == old.generation
            &&& new.start_position_ms == old.start_position_ms
            &&& grew_by(new.media_sent_ms, old.media_sent_ms, by)
            &&& !(step is Take) ==> new.first_packet == old.first_packet
        }),
{
}

/// The frame behind one that went out in time is due one frame after it, to the
/// nanosecond, so that small delays do not add up. Behind one that went out too late
/// for that, it is due one frame from now.
pub proof fn frames_keep_their_pace(scheduled: u128, duration_ms: u64, now: u128)
    requires
        0 < duration_ms,
        scheduled + duration_ms * 1_000_000 <= u128::MAX,
        now + duration_ms * 1_000_000 <= u128::MAX,
    ensures
        now < scheduled + duration_ms * 1_000_000 ==> following_deadline(scheduled, duration_ms, now)
            == scheduled + duration_ms * 1_000_000,
        now >= scheduled + duration_ms * 1_000_000 ==> following_deadline(
            scheduled,
            duration_ms,
            now,
        ) == now + duration_ms * 1_000_000,
{
}

/// A datagram that went out is counted: one packet, the bytes on the wire, the bytes
/// of media, and the time of its frame.
pub proof fn delivered_packets_are_counted(
    state: SenderState,
    scheduled: u128,
    duration_ms: u64,
    samples: u32,
    payload_len: usize,
    sent: usize,
    now: u128,
)
    requires
        state.active is Some,
    ensures
        ({
            let after = state.delivered(scheduled, duration_ms, samples, payload_len, sent, now);
            &&& grew_by(after.packets_sent, state.packets_sent, 1)
            &&& grew_by(after.bytes_sent, state.bytes_sent, sent as int)
            &&& grew_by(after.octets_sent, state.octets_sent, payload_len as int)
            &&& after.active is Some
            &&& after.active->0.deadline == Some(following_deadline(scheduled, duration_ms, now))
            &&& after.active->0.started == state.active->0.started
            &&& after.paused == state.paused
            &&& after.dropped_frames == state.dropped_frames
            &&& after.dropped_media_ms == state.dropped_media_ms
            &&& after.underruns == state.underruns
            &&& after.latency_recoveries == state.latency_recoveries
            &&& after.max_lateness_ms == state.max_lateness_ms
        }),
{
}

/// The largest lateness never falls, covers every turn, and was seen in one.
pub proof fn the_largest_lateness_is_kept(state: SenderState, deadline: u128, now: u128)
    requires
        state.active is Some,
        state.active->0.deadline == Some(deadline),
        now <= deadline + 1_000_000 * 18_446_744_073_709_551_615,
    ensures
        ({
            let after = state.woken(now).max_lateness_ms;
            let late = if now > deadline {
                (now - deadline) / 1_000_000
            } else {
                0int
            };
            &&& after >= state.max_lateness_ms
            &&& after >= late
            &&& after == state.max_lateness_ms || after == late
            &&& state.woken(now).active == state.active
            &&& state.scheduled(now) == deadline
        }),
{
}

/// The owner hears of the network quality when it is first known and when it is
/// another than before, and not otherwise.
pub proof fn quality_is_reported_when_it_changes(
    state: SenderState,
    snapshot: RtcpReceiverReportSnapshot,
    first: RtcpNetworkQualityLevel,
    then: RtcpQualityWindowSnapshot,
)
    requires
        state.active is Some,
    ensures
        state.quality_level is None ==> state.quality_report(then) is Some,
        state.reported(snapshot, first).quality_report(then) is Some <==> then.level != first,
        state.quality_report(then) matches Some(event) ==> event == (
        WorkerEvent::CurrentNetworkQualityChanged {
            generation: state.active->0.generation,
            quality: then.level,
            snapshot: then,
        }),
        state.reported(snapshot, first).receiver_reports == snapshot.reports_received,
        state.reported(snapshot, first).latest_receiver_report == Some(snapshot),
        state.reported(snapshot, first).active == state.active,
        state.reported(snapshot, first).paused == state.paused,
{
}

/// Receivers are told how much was sent, as far as a report can count it, and
/// nothing before anything was.
pub proof fn sender_reports_tell_what_was_sent(state: SenderState)
    ensures
        state.packets_sent == 0 <==> state.spec_sender_report() is None,
        state.spec_sender_report() matches Some(report) ==> {
            &&& report.ssrc == state.ssrc
            &&& report.rtp_timestamp == state.rtp_timestamp
            &&& state.packets_sent <= 4_294_967_295 ==> report.packets == state.packets_sent
            &&& state.packets_sent > 4_294_967_295 ==> report.packets == 4_294_967_295
            &&& state.octets_sent <= 4_294_967_295 ==> report.octets == state.octets_sent
            &&& state.octets_sent > 4_294_967_295 ==> report.octets == 4_294_967_295
        },
{
}

/// Media that failed is played no more; the output itself goes on as it was.
pub proof fn failed_media_leaves_the_output(state: SenderState)
    ensures
        state.failed().active is None,
        state.failed().paused == state.paused,
        state.failed().sequence == state.sequence,
        state.failed().packets_sent == state.packets_sent,
        state.failed().underruns == state.underruns,
{
}

/// Progress tells where the media is and what was counted.
pub proof fn progress_tells_what_was_counted(
    state: SenderState,
    media: ActiveMedia,
    buffered_ms: u64,
)
    ensures
        ({
            let progress = state.progress_of(media, buffered_ms);
            &&& progress.generation == media.generation
            &&& progress.start_position_ms == media.start_position_ms
            &&& progress.media_sent_ms == media.media_sent_ms
            &&& progress.packets_sent == state.packets_sent
            &&& progress.bytes_sent == state.bytes_sent
            &&& progress.dropped_frames == state.dropped_frames
            &&& progress.dropped_media_ms == state.dropped_media_ms
            &&& progress.latency_recoveries == state.latency_recoveries
            &&& progress.underruns == state.underruns
            &&& progress.buffered_ms == buffered_ms
            &&& progress.max_lateness_ms == state.max_lateness_ms
            &&& progress.sequence == state.sequence
            &&& progress.rtp_timestamp == state.rtp_timestamp
            &&& progress.latest_receiver_report == state.latest_receiver_report
        }),
{
}

/// An output task that ended with an error while it played fails what it played; one
/// that ended well, or played nothing, fails nothing.
pub proof fn broken_outputs_fail_what_they_play(
    result: Result<(), MusicStreamError>,
    active_generation: u64,
    event: Option<WorkerEvent>,
)
    requires
        call_ensures(supervised_failure, (&result, active_generation), event),
    ensures
        result is Ok || active_generation == 0 <==> event is None,
        event matches Some(event) ==> event is CurrentFailed && event->CurrentFailed_generation
            == active_generation && event->CurrentFailed_code == result->Err_0.spec_code(),
{
}

/// Shutting down succeeds only if both the request and the task did; of two failures
/// that of the task is told.
pub proof fn task_failures_weigh_more(
    command: Result<(), MusicStreamError>,
    task: Result<(), MusicStreamError>,
    result: Result<(), MusicStreamError>,
)
    requires
        call_ensures(shutdown_result, (command, task), result),
    ensures
        result is Ok <==> command is Ok && task is Ok,
        task is Err ==> result == task,
        task is Ok ==> result == command,
{
}

/// An output that was just made plays nothing and has counted nothing; its packets name
/// its source and are numbered from where it was told.
pub proof fn new_outputs_are_idle(
    sender: RtpSender,
    ssrc: u32,
    prebuffer_ms: u64,
    max_playout_lateness_ms: u64,
    sequence: u16,
    rtp_timestamp: u32,
)
    requires
        sender.is_new(ssrc, prebuffer_ms, max_playout_lateness_ms, sequence, rtp_timestamp),
    ensures
        sender.prebuffer_ms == prebuffer_ms,
        sender.max_playout_lateness == max_playout_lateness_ms * 1_000_000,
        sender.quality_window@.len() == 0,
        ({
            let state = sender.state;
            &&& state.active is None && !state.paused
            &&& state.ssrc == ssrc && state.sequence == sequence && state.rtp_timestamp
                == rtp_timestamp
            &&& state.packets_sent == 0 && state.bytes_sent == 0 && state.octets_sent == 0
            &&& state.dropped_frames == 0 && state.dropped_media_ms == 0
            &&& state.latency_recoveries == 0 && state.underruns == 0 && state.max_lateness_ms == 0
            &&& state.receiver_reports == 0 && state.latest_receiver_report is None
            &&& state.quality_level is None
        }),
{
}

/// Whoever hears of a failure hears of the media that failed, with the code and the words
/// of the error.
pub proof fn failures_are_told_as_they_are(
    event: WorkerEvent,
    failed: u64,
    error: MusicStreamError,
)
    requires
        reports_failure(event, failed, error),
    ensures
        event matches WorkerEvent::CurrentFailed { generation, code, message } && generation
            == failed && code == error.spec_code() && message@ == error.prefix() + error.detail(),
{
}

} // verus!
