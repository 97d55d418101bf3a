//! The driver of one playout slot: it turns pipeline progress into worker
//! events and adds up what was sent.
use crate::audio::format::AudioFormat;
use crate::audio::opus::LibOpusEncoderConfig;
use crate::audio::pipeline::{PipelineConfig, WorkerTurnReport};
use crate::audio::resample::{
    RubatoResamplerConfig, SincInterpolationType, WindowFunction, DEFAULT_CHUNK_FRAMES,
};
use crate::error::MusicStreamError;
use crate::model::{url_extension, url_format, TrackSource};
use crate::runtime::time::{larger, spec_max, sum};
use crate::session::types::WorkerEvent;
use vstd::prelude::*;

verus! {

#[derive(Clone, Copy, Debug, PartialEq, Eq, Structural)]
pub enum SlotRole {
    Current,
    Next,
}

/// What a worker turn found out about the media of a slot.
#[derive(Clone, Copy, Debug, PartialEq, Eq, Structural)]
pub struct SlotReadiness {
    pub prebuffer_ready: bool,
    pub next_prime_ready: bool,
    pub playout_drained: bool,
}

/// Reports each milestone of a slot once.
#[derive(Clone, Copy, Debug, PartialEq, Eq, Structural)]
pub struct SlotDriver {
    pub role: SlotRole,
    pub generation: u64,
    pub ready_reported: bool,
    pub ended_reported: bool,
}

impl SlotDriver {
    #[must_use]
    pub fn new(role: SlotRole, generation: u64) -> (driver: Self)
        ensures
            driver == (SlotDriver {
                role,
                generation,
                ready_reported: false,
                ended_reported: false,
            }),
    {
        SlotDriver { role, generation, ready_reported: false, ended_reported: false }
    }

    #[must_use]
    pub fn role(&self) -> (role: SlotRole)
        ensures
            role == self.role,
    {
        self.role
    }

    #[must_use]
    pub fn generation(&self) -> (generation: u64)
        ensures
            generation == self.generation,
    {
        self.generation
    }

    /// The driver in another role, with nothing reported yet.
    #[must_use]
    pub fn into_role(self, role: SlotRole) -> (driver: Self)
        ensures
            driver == (SlotDriver { role, ready_reported: false, ended_reported: false, ..self }),
    {
        SlotDriver { role, generation: self.generation, ready_reported: false, ended_reported: false }
    }

    #[must_use]
    pub fn ready_reported(&self) -> (reported: bool)
        ensures
            reported == self.ready_reported,
    {
        self.ready_reported
    }

    #[must_use]
    pub fn ended_reported(&self) -> (reported: bool)
        ensures
            reported == self.ended_reported,
    {
        self.ended_reported
    }

    pub open spec fn is_ready(self, readiness: SlotReadiness) -> bool {
        !self.ready_reported && match self.role {
            SlotRole::Current => readiness.prebuffer_ready,
            SlotRole::Next => readiness.next_prime_ready,
        }
    }

    pub open spec fn has_ended(self, readiness: SlotReadiness) -> bool {
        self.role == SlotRole::Current && !self.ended_reported && readiness.playout_drained
    }

    /// The event that a turn leads to.
    pub open spec fn spec_event(self, readiness: SlotReadiness) -> Option<WorkerEvent> {
        if self.is_ready(readiness) {
            Some(
                match self.role {
                    SlotRole::Current => WorkerEvent::CurrentPrebufferReady {
                        generation: self.generation,
                    },
                    SlotRole::Next => WorkerEvent::NextReady { generation: self.generation },
                },
            )
        } else if self.has_ended(readiness) {
            Some(WorkerEvent::CurrentEnded { generation: self.generation })
        } else {
            None
        }
    }

    /// The driver after that turn.
    pub open spec fn reported(self, readiness: SlotReadiness) -> SlotDriver {
        if self.is_ready(readiness) {
            SlotDriver { ready_reported: true, ..self }
        } else if self.has_ended(readiness) {
            SlotDriver { ended_reported: true, ..self }
        } else {
            self
        }
    }

    /// The event that a turn leads to: readiness first, the end of a current
    /// track in a later turn, and each only once.
    pub fn event_for_report(&mut self, readiness: SlotReadiness) -> (event: Option<WorkerEvent>)
        ensures
            *final(self) == old(self).reported(readiness),
            event == old(self).spec_event(readiness),
    {
        if !self.ready_reported {
            let ready = match self.role {
                SlotRole::Current => readiness.prebuffer_ready,
                SlotRole::Next => readiness.next_prime_ready,
            };
            if ready {
                self.ready_reported = true;
                return Some(
                    match self.role {
                        SlotRole::Current => WorkerEvent::CurrentPrebufferReady {
                            generation: self.generation,
                        },
                        SlotRole::Next => WorkerEvent::NextReady { generation: self.generation },
                    },
                );
            }
        }
        if self.role == SlotRole::Current && !self.ended_reported && readiness.playout_drained {
            self.ended_reported = true;
            return Some(WorkerEvent::CurrentEnded { generation: self.generation });
        }
        None
    }
}

/// What a worker turn of a slot did, and the event it leads to.
#[derive(Debug)]
pub struct SlotTurnReport {
    pub worker: WorkerTurnReport,
    pub event: Option<WorkerEvent>,
}

impl SlotTurnReport {
    /// The report of a tick: the turn and then the packets that went out.
    #[must_use]
    pub fn with_drain(self, drain: RtpSlotDrainReport) -> (tick: RtpSlotTickReport)
        ensures
            tick.worker == self.worker,
            tick.drain == drain,
            tick.events@ == match self.event {
                Some(event) => seq![event],
                None => Seq::empty(),
            },
    {
        let mut events: Vec<WorkerEvent> = Vec::new();
        if let Some(event) = self.event {
            events.push(event);
        }
        proof {
            assert(events@ =~= match self.event {
                Some(event) => seq![event],
                None => Seq::empty(),
            });
        }
        RtpSlotTickReport { worker: self.worker, events, drain }
    }
}

/// What a run over the ready packets of a slot did.
#[derive(Clone, Copy, Debug, PartialEq, Eq)]
pub struct RtpSlotDrainReport {
    pub packets_sent: usize,
    pub bytes_sent: usize,
    pub payload_bytes_sent: usize,
    pub media_sent_ms: u64,
    pub max_pacing_late_ms: u64,
    pub last_rtp_timestamp: Option<u32>,
    pub stopped_on_prebuffer: bool,
    pub stopped_on_underrun: bool,
    pub stopped_on_pacing: bool,
}

impl Default for RtpSlotDrainReport {
    fn default() -> (report: Self)
        ensures
            report == RtpSlotDrainReport::empty(),
    {
        RtpSlotDrainReport {
            packets_sent: 0,
            bytes_sent: 0,
            payload_bytes_sent: 0,
            media_sent_ms: 0,
            max_pacing_late_ms: 0,
            last_rtp_timestamp: None,
            stopped_on_prebuffer: false,
            stopped_on_underrun: false,
            stopped_on_pacing: false,
        }
    }
}

/// What the next step of a run over ready packets found.
#[derive(Clone, Copy, Debug, PartialEq, Eq)]
pub enum DrainStep {
    Sent {
        bytes: usize,
        payload_bytes: usize,
        duration_ms: u64,
        rtp_timestamp: u32,
        /// How late the packet was, in a paced run.
        late_ms: Option<u64>,
    },
    WaitPrebuffer,
    Underrun,
    /// The pacer says that nothing is due.
    WaitPacing,
}

impl RtpSlotDrainReport {
    pub open spec fn empty() -> RtpSlotDrainReport {
        RtpSlotDrainReport {
            packets_sent: 0,
            bytes_sent: 0,
            payload_bytes_sent: 0,
            media_sent_ms: 0,
            max_pacing_late_ms: 0,
            last_rtp_timestamp: None,
            stopped_on_prebuffer: false,
            stopped_on_underrun: false,
            stopped_on_pacing: false,
        }
    }

    /// Both reports taken together, the other one being the later.
    pub open spec fn merged(self, other: RtpSlotDrainReport) -> RtpSlotDrainReport {
        RtpSlotDrainReport {
            packets_sent: (self.packets_sent + other.packets_sent) as usize,
            bytes_sent: (self.bytes_sent + other.bytes_sent) as usize,
            payload_bytes_sent: (self.payload_bytes_sent + other.payload_bytes_sent) as usize,
            media_sent_ms: sum(self.media_sent_ms, other.media_sent_ms),
            max_pacing_late_ms: spec_max(self.max_pacing_late_ms, other.max_pacing_late_ms),
            last_rtp_timestamp: if other.last_rtp_timestamp is Some {
                other.last_rtp_timestamp
            } else {
                self.last_rtp_timestamp
            },
            stopped_on_prebuffer: self.stopped_on_prebuffer || other.stopped_on_prebuffer,
            stopped_on_underrun: self.stopped_on_underrun || other.stopped_on_underrun,
            stopped_on_pacing: self.stopped_on_pacing || other.stopped_on_pacing,
        }
    }

    /// Whether the counts of both reports together can be represented.
    pub open spec fn fits(self, other: RtpSlotDrainReport) -> bool {
        &&& self.packets_sent + other.packets_sent <= usize::MAX
        &&& self.bytes_sent + other.bytes_sent <= usize::MAX
        &&& self.payload_bytes_sent + other.payload_bytes_sent <= usize::MAX
    }

    pub fn merge(&mut self, other: &RtpSlotDrainReport)
        requires
            old(self).fits(*other),
        ensures
            *final(self) == old(self).merged(*other),
    {
        self.packets_sent = self.packets_sent + other.packets_sent;
        self.bytes_sent = self.bytes_sent + other.bytes_sent;
        self.payload_bytes_sent = self.payload_bytes_sent + other.payload_bytes_sent;
        self.media_sent_ms = self.media_sent_ms.saturating_add(other.media_sent_ms);
        self.max_pacing_late_ms = larger(self.max_pacing_late_ms, other.max_pacing_late_ms);
        if other.last_rtp_timestamp.is_some() {
            self.last_rtp_timestamp = other.last_rtp_timestamp;
        }
        self.stopped_on_prebuffer = self.stopped_on_prebuffer || other.stopped_on_prebuffer;
        self.stopped_on_underrun = self.stopped_on_underrun || other.stopped_on_underrun;
        self.stopped_on_pacing = self.stopped_on_pacing || other.stopped_on_pacing;
    }

    /// What one step adds to the report.
    pub open spec fn of_step(step: DrainStep) -> RtpSlotDrainReport {
        match step {
            DrainStep::Sent { bytes, payload_bytes, duration_ms, rtp_timestamp, late_ms } =>
                RtpSlotDrainReport {
                packets_sent: 1,
                bytes_sent: bytes,
                payload_bytes_sent: payload_bytes,
                media_sent_ms: duration_ms,
                max_pacing_late_ms: match late_ms {
                    Some(late) => late,
                    None => 0,
                },
                last_rtp_timestamp: Some(rtp_timestamp),
                ..RtpSlotDrainReport::empty()
            },
            DrainStep::WaitPrebuffer => RtpSlotDrainReport {
                stopped_on_prebuffer: true,
                ..RtpSlotDrainReport::empty()
            },
            DrainStep::Underrun => RtpSlotDrainReport {
                stopped_on_underrun: true,
                ..RtpSlotDrainReport::empty()
            },
            DrainStep::WaitPacing => RtpSlotDrainReport {
                stopped_on_pacing: true,
                ..RtpSlotDrainReport::empty()
            },
        }
    }

    /// Adds a step; tells whether the run goes on.
    pub fn record(&mut self, step: DrainStep) -> (go_on: bool)
        requires
            old(self).fits(RtpSlotDrainReport::of_step(step)),
        ensures
            go_on == (step is Sent),
            *final(self) == old(self).merged(RtpSlotDrainReport::of_step(step)),
    {
        match step {
            DrainStep::Sent { bytes, payload_bytes, duration_ms, rtp_timestamp, late_ms } => {
                self.packets_sent = self.packets_sent + 1;
                self.bytes_sent = self.bytes_sent + bytes;
                self.payload_bytes_sent = self.payload_bytes_sent + payload_bytes;
                self.media_sent_ms = self.media_sent_ms.saturating_add(duration_ms);
                if let Some(late) = late_ms {
                    self.max_pacing_late_ms = larger(self.max_pacing_late_ms, late);
                }
                self.last_rtp_timestamp = Some(rtp_timestamp);
                true
            },
            DrainStep::WaitPrebuffer => {
                self.stopped_on_prebuffer = true;
                false
            },
            DrainStep::Underrun => {
                self.stopped_on_underrun = true;
                false
            },
            DrainStep::WaitPacing => {
                self.stopped_on_pacing = true;
                false
            },
        }
    }
}

/// What one tick of a slot did.
#[derive(Debug)]
pub struct RtpSlotTickReport {
    pub worker: WorkerTurnReport,
    pub events: Vec<WorkerEvent>,
    pub drain: RtpSlotDrainReport,
}

impl RtpSlotTickReport {
    pub open spec fn spec_made_progress(self) -> bool {
        self.worker.decoded_chunks > 0 || self.worker.pcm_frames > 0 || self.worker.opus_frames > 0
            || self.events@.len() > 0 || self.drain.packets_sent > 0
    }

    /// Whether another tick is worth while after this one.
    pub open spec fn is_worth_another(self, ended_reported: bool) -> bool {
        !ended_reported && self.spec_made_progress()
    }

    #[must_use]
    pub fn made_progress(&self) -> (progress: bool)
        ensures
            progress == self.spec_made_progress(),
    {
        self.worker.decoded_chunks > 0 || self.worker.pcm_frames > 0 || self.worker.opus_frames > 0
            || self.events.len() > 0 || self.drain.packets_sent > 0
    }
}

/// What a run of ticks did.
#[derive(Debug)]
pub struct RtpSlotRunReport {
    pub ticks: usize,
    pub events: Vec<WorkerEvent>,
    pub drain: RtpSlotDrainReport,
    pub completed: bool,
    pub stopped_on_limit: bool,
}

impl Default for RtpSlotRunReport {
    fn default() -> (report: Self)
        ensures
            report.ticks == 0,
            report.events@ == Seq::<WorkerEvent>::empty(),
            report.drain == RtpSlotDrainReport::empty(),
            !report.completed,
            !report.stopped_on_limit,
    {
        RtpSlotRunReport {
            ticks: 0,
            events: Vec::new(),
            drain: RtpSlotDrainReport::default(),
            completed: false,
            stopped_on_limit: false,
        }
    }
}

impl RtpSlotRunReport {
    /// Adds a tick; tells whether another one is worth while. A run is complete
    /// once the end of its track was reported.
    pub fn absorb(&mut self, tick: RtpSlotTickReport, ended_reported: bool) -> (go_on: bool)
        requires
            old(self).ticks < usize::MAX,
            old(self).drain.fits(tick.drain),
        ensures
            final(self).ticks == old(self).ticks + 1,
            final(self).events@ == old(self).events@ + tick.events@,
            final(self).drain == old(self).drain.merged(tick.drain),
            final(self).completed == (old(self).completed || ended_reported),
            final(self).stopped_on_limit == old(self).stopped_on_limit,
            go_on == tick.is_worth_another(ended_reported),
    {
        let progress = tick.made_progress();
        self.ticks = self.ticks + 1;
        let mut events = tick.events;
        self.events.append(&mut events);
        self.drain.merge(&tick.drain);
        if ended_reported {
            self.completed = true;
            return false;
        }
        progress
    }

    /// The report of a run that used up its ticks.
    pub open spec fn at_limit(self, ended_reported: bool) -> RtpSlotRunReport {
        RtpSlotRunReport {
            stopped_on_limit: !ended_reported,
            completed: ended_reported,
            ..self
        }
    }

    /// The run used up its ticks.
    pub fn reach_limit(&mut self, ended_reported: bool)
        ensures
            *final(self) == old(self).at_limit(ended_reported),
    {
        self.stopped_on_limit = !ended_reported;
        self.completed = ended_reported;
    }
}

/// Settings of a slot that plays a local file.
#[derive(Clone, Copy, Debug, PartialEq, Eq)]
pub struct LocalFileSlotConfig {
    pub pipeline: PipelineConfig,
    pub opus: LibOpusEncoderConfig,
    pub resampler: RubatoResamplerConfig,
    pub start_position_ms: u64,
}

impl LocalFileSlotConfig {
    /// Encoder and resampler follow the format of the pipeline.
    #[must_use]
    pub fn new(pipeline: PipelineConfig) -> (config: Self)
        ensures
            config.pipeline == pipeline,
            config.start_position_ms == 0,
            config.opus == (LibOpusEncoderConfig {
                sample_rate: pipeline.sample_rate,
                channels: pipeline.channels,
                max_packet_bytes: 1_500,
                bitrate_bps: Some(128_000),
                complexity: 10,
                vbr: true,
                constrained_vbr: true,
            }),
            config.resampler == (RubatoResamplerConfig {
                target: AudioFormat {
                    sample_rate: pipeline.sample_rate,
                    channels: pipeline.channels,
                },
                chunk_frames: DEFAULT_CHUNK_FRAMES,
                max_resample_ratio_permille: 1_100,
                sinc_len: 128,
                oversampling_factor: 256,
                interpolation: SincInterpolationType::Quadratic,
                window: WindowFunction::Blackman2,
            }),
    {
        let target = AudioFormat {
            sample_rate: pipeline.sample_rate,
            channels: pipeline.channels,
        };
        let mut opus = LibOpusEncoderConfig::default();
        opus.sample_rate = pipeline.sample_rate;
        opus.channels = pipeline.channels;
        LocalFileSlotConfig {
            pipeline,
            opus,
            resampler: RubatoResamplerConfig::new(target),
            start_position_ms: 0,
        }
    }
}

/// Only live tracks play in a live slot.
pub fn check_live_slot(source: &TrackSource) -> (result: Result<(), MusicStreamError>)
    ensures
        result is Ok <==> source.spec_is_live(),
        result matches Err(error) ==> (error matches MusicStreamError::InvalidSource(text) && text@
            == "live stream slot requires a live track source"@),
{
    if !source.is_live() {
        return Err(
            MusicStreamError::InvalidSource(
                "live stream slot requires a live track source".to_owned(),
            ),
        );
    }
    Ok(())
}

/// The format hint that the URL of a live source gives.
pub fn live_hint_extension(source: &TrackSource) -> (hint: Option<&str>)
    ensures
        match hint {
            Some(hint) => source.url matches Some(url) && url_extension(url@) == Some(hint@),
            None => source.url matches Some(url) ==> url_extension(url@) is None,
        },
{
    match &source.url {
        Some(url) => url_format(url.as_str()),
        None => None,
    }
}

/// A milestone that was reported is not reported again in the same role.
pub proof fn milestones_are_reported_once(driver: SlotDriver, readiness: SlotReadiness)
    ensures
        driver.ready_reported ==> !driver.is_ready(readiness),
        driver.ended_reported ==> !driver.has_ended(readiness),
{
}

/// Merging is associative, so a run may be added up in any grouping.
pub proof fn merging_is_associative(
    a: RtpSlotDrainReport,
    b: RtpSlotDrainReport,
    c: RtpSlotDrainReport,
)
    requires
        a.fits(b),
        a.merged(b).fits(c),
    ensures
        b.fits(c),
        a.fits(b.merged(c)),
        a.merged(b).merged(c) == a.merged(b.merged(c)),
{
}

/// A current slot is ready once its media is buffered, a next one once it is primed,
/// and a current one has ended once it is drained; readiness is told first. Each is
/// told when it comes about and not again.
pub proof fn milestones_come_in_order(
    driver: SlotDriver,
    readiness: SlotReadiness,
    later: SlotReadiness,
)
    ensures
        ({
            let generation = driver.generation;
            let event = driver.spec_event(readiness);
            let then = driver.reported(readiness);
            &&& driver.role == SlotRole::Current && !driver.ready_reported ==> (event == Some(
                WorkerEvent::CurrentPrebufferReady { generation },
            ) <==> readiness.prebuffer_ready)
            &&& driver.role == SlotRole::Next && !driver.ready_reported ==> (event == Some(
                WorkerEvent::NextReady { generation },
            ) <==> readiness.next_prime_ready)
            &&& driver.role == SlotRole::Current && (driver.ready_reported
                || !readiness.prebuffer_ready) && !driver.ended_reported ==> (event == Some(
                WorkerEvent::CurrentEnded { generation },
            ) <==> readiness.playout_drained)
            &&& driver.role == SlotRole::Next ==> !(event matches Some(told)
                && told is CurrentEnded)
            &&& event is None ==> then == driver
            &&& event is Some ==> then.spec_event(later) != event
            &&& then.role == driver.role && then.generation == generation
        }),
{
}

/// Reports add up: what was sent in both is sent in all, the latest timestamp is that
/// of the later one that sent anything, and the largest lateness is that of either.
/// An empty report adds nothing.
pub proof fn reports_add_up(a: RtpSlotDrainReport, b: RtpSlotDrainReport)
    requires
        a.fits(b),
    ensures
        a.merged(b).packets_sent == a.packets_sent + b.packets_sent,
        a.merged(b).bytes_sent == a.bytes_sent + b.bytes_sent,
        a.merged(b).payload_bytes_sent == a.payload_bytes_sent + b.payload_bytes_sent,
        a.media_sent_ms + b.media_sent_ms <= u64::MAX ==> a.merged(b).media_sent_ms
            == a.media_sent_ms + b.media_sent_ms,
        a.merged(b).max_pacing_late_ms >= a.max_pacing_late_ms,
        a.merged(b).max_pacing_late_ms >= b.max_pacing_late_ms,
        a.merged(b).max_pacing_late_ms == a.max_pacing_late_ms || a.merged(b).max_pacing_late_ms
            == b.max_pacing_late_ms,
        b.last_rtp_timestamp is Some ==> a.merged(b).last_rtp_timestamp == b.last_rtp_timestamp,
        b.last_rtp_timestamp is None ==> a.merged(b).last_rtp_timestamp == a.last_rtp_timestamp,
        a.merged(RtpSlotDrainReport::empty()) == a,
        RtpSlotDrainReport::empty().merged(b) == b,
        a.merged(b).stopped_on_prebuffer <==> a.stopped_on_prebuffer || b.stopped_on_prebuffer,
        a.merged(b).stopped_on_underrun <==> a.stopped_on_underrun || b.stopped_on_underrun,
        a.merged(b).stopped_on_pacing <==> a.stopped_on_pacing || b.stopped_on_pacing,
{
}

/// A packet that was sent counts as one, with its bytes, its media and its lateness;
/// a step that sent none counts nothing and says why the run stopped.
pub proof fn steps_count_what_they_send(step: DrainStep)
    ensures
        ({
            let report = RtpSlotDrainReport::of_step(step);
            &&& step matches DrainStep::Sent {
                bytes,
                payload_bytes,
                duration_ms,
                rtp_timestamp,
                late_ms,
            } ==> report.packets_sent == 1 && report.bytes_sent == bytes
                && report.payload_bytes_sent == payload_bytes && report.media_sent_ms == duration_ms
                && report.last_rtp_timestamp == Some(rtp_timestamp) && (late_ms matches Some(late)
                ==> report.max_pacing_late_ms == late) && !report.stopped_on_prebuffer
                && !report.stopped_on_underrun && !report.stopped_on_pacing
            &&& !(step is Sent) ==> report.packets_sent == 0 && report.bytes_sent == 0
                && report.payload_bytes_sent == 0 && report.media_sent_ms == 0
                && report.last_rtp_timestamp is None
            &&& report.stopped_on_prebuffer <==> step is WaitPrebuffer
            &&& report.stopped_on_underrun <==> step is Underrun
            &&& report.stopped_on_pacing <==> step is WaitPacing
        }),
{
}

/// A run goes on as long as ticks do anything, be it to decode, to encode, to report or
/// to send, and no longer than the track.
pub proof fn idle_ticks_end_the_run(tick: RtpSlotTickReport)
    ensures
        !tick.is_worth_another(true),
        !tick.is_worth_another(false) <==> tick.worker.decoded_chunks == 0 && tick.worker.pcm_frames
            == 0 && tick.worker.opus_frames == 0 && tick.events@.len() == 0
            && tick.drain.packets_sent == 0,
{
}

/// A local file is encoded and resampled in the format of its pipeline, from the
/// beginning.
pub proof fn local_files_follow_the_pipeline(
    pipeline: PipelineConfig,
    config: LocalFileSlotConfig,
)
    requires
        call_ensures(LocalFileSlotConfig::new, (pipeline,), config),
    ensures
        config.pipeline == pipeline,
        config.start_position_ms == 0,
        config.opus.sample_rate == pipeline.sample_rate,
        config.opus.channels == pipeline.channels,
        config.resampler.target.sample_rate == pipeline.sample_rate,
        config.resampler.target.channels == pipeline.channels,
{
}

/// A run that used up its ticks either came to the end of its track or was cut short; what
/// it did before is kept.
pub proof fn limited_runs_are_complete_or_cut_short(run: RtpSlotRunReport, ended_reported: bool)
    ensures
        run.at_limit(ended_reported).completed <==> ended_reported,
        run.at_limit(ended_reported).stopped_on_limit <==> !ended_reported,
        run.at_limit(ended_reported).ticks == run.ticks,
        run.at_limit(ended_reported).events == run.events,
        run.at_limit(ended_reported).drain == run.drain,
{
}

} // verus!
