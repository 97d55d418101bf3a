//! Decisions of the tasks that turn a source into encoded frames.
use super::time::sum;
use crate::audio::format::capped_usize;
use crate::audio::pipeline::WorkerTurnReport;
use crate::control::PauseGate;
use crate::error::{ErrorCode, MusicStreamError};
use crate::model::{
    url_extension, GainLevel, MediaBufferConfig, TrackKind, TrackSource, VolumeLevel,
};
use crate::session::types::WorkerEvent;
use crate::text::{ascii_lowercase, decimal, decimal_text, lower, same_text};
use vstd::prelude::*;
use vstd::string::*;

verus! {

#[derive(Clone, Copy, Debug, PartialEq, Eq, Structural)]
pub enum ProducerRole {
    Current,
    Next,
}

pub open spec fn spec_role_name(role: ProducerRole) -> Seq<char> {
    match role {
        ProducerRole::Current => "current"@,
        ProducerRole::Next => "next"@,
    }
}

/// The name of a role in measurements.
pub fn role_name(role: ProducerRole) -> (name: &'static str)
    ensures
        name@ == spec_role_name(role),
{
    match role {
        ProducerRole::Current => "current",
        ProducerRole::Next => "next",
    }
}

pub open spec fn spec_source_kind_name(source: TrackSource) -> Seq<char> {
    if source.spec_is_hls() {
        "hls"@
    } else {
        match source.kind {
            TrackKind::File => "file"@,
            TrackKind::Url => "url"@,
            TrackKind::Live => "live"@,
        }
    }
}

/// The name of a kind of source in measurements.
pub fn source_kind_name(source: &TrackSource) -> (name: &'static str)
    ensures
        name@ == spec_source_kind_name(*source),
{
    if source.is_hls() {
        return "hls";
    }
    match source.kind {
        TrackKind::File => "file",
        TrackKind::Url => "url",
        TrackKind::Live => "live",
    }
}

/// The format that a source claims to have: its own hint, or else the extension
/// of its URL.
pub open spec fn format_claim(source: TrackSource) -> Option<Seq<char>> {
    match source.format_hint {
        Some(hint) => Some(hint@),
        None => match source.url {
            Some(url) => url_extension(url@),
            None => None,
        },
    }
}

/// The hint for opening a decoder, in lower case.
pub fn decoder_hint(source: &TrackSource) -> (hint: Option<String>)
    ensures
        match hint {
            Some(hint) => format_claim(*source) matches Some(claim) && hint@ == lower(claim),
            None => format_claim(*source) is None,
        },
{
    match source.media_format_hint() {
        Some(claim) => Some(ascii_lowercase(claim.as_str())),
        None => None,
    }
}

/// Formats that can be decoded while they are still being downloaded.
pub open spec fn progressive_format(format: Seq<char>) -> bool {
    format == "mp3"@ || format == "flac"@ || format == "m4a"@ || format == "mp4"@
}

/// Whether a URL source can be played while it is still being downloaded. An
/// explicit hint counts more than the spelling of the URL.
pub fn supports_progressive_url(source: &TrackSource) -> (progressive: bool)
    ensures
        progressive == (format_claim(*source) matches Some(claim) && progressive_format(
            lower(claim),
        )),
{
    match decoder_hint(source) {
        Some(hint) => same_text(hint.as_str(), "mp3") || same_text(hint.as_str(), "flac")
            || same_text(hint.as_str(), "m4a") || same_text(hint.as_str(), "mp4"),
        None => false,
    }
}

// ---- CPU admission ----

/// What a producer that wants a CPU slot does next.
#[derive(Clone, Copy, Debug, PartialEq, Eq, Structural)]
pub enum CpuStep {
    Granted,
    Wait,
    GiveUp,
}

/// Shares a fixed number of CPU slots. Current tracks come before next tracks.
#[derive(Clone, Copy, Debug, PartialEq, Eq, Structural)]
pub struct CpuScheduler {
    pub active: usize,
    pub current_waiters: usize,
    pub next_waiters: usize,
    pub maximum: usize,
}

pub open spec fn less_one(count: usize) -> usize {
    if count == 0 {
        0
    } else {
        (count - 1) as usize
    }
}

impl CpuScheduler {
    pub open spec fn wf(self) -> bool {
        1 <= self.maximum && self.active <= self.maximum
    }

    /// How many slots next tracks may fill: all but one, yet at least one.
    pub open spec fn next_limit(self) -> int {
        if self.maximum <= 1 {
            1
        } else {
            self.maximum - 1
        }
    }

    /// Whether a slot is free for a role.
    pub open spec fn allows(self, role: ProducerRole) -> bool {
        match role {
            ProducerRole::Current => self.active < self.maximum,
            ProducerRole::Next => self.current_waiters == 0 && self.active < self.next_limit(),
        }
    }

    /// The scheduler with one waiter less in a role.
    pub open spec fn left(self, role: ProducerRole) -> CpuScheduler {
        match role {
            ProducerRole::Current => CpuScheduler {
                current_waiters: less_one(self.current_waiters),
                ..self
            },
            ProducerRole::Next => CpuScheduler {
                next_waiters: less_one(self.next_waiters),
                ..self
            },
        }
    }

    /// The scheduler with one waiter more in a role.
    pub open spec fn entered(self, role: ProducerRole) -> CpuScheduler {
        match role {
            ProducerRole::Current => CpuScheduler {
                current_waiters: capped_usize(self.current_waiters + 1),
                ..self
            },
            ProducerRole::Next => CpuScheduler {
                next_waiters: capped_usize(self.next_waiters + 1),
                ..self
            },
        }
    }

    pub open spec fn spec_step(self, role: ProducerRole, cancelled: bool) -> CpuStep {
        if cancelled {
            CpuStep::GiveUp
        } else if self.allows(role) {
            CpuStep::Granted
        } else {
            CpuStep::Wait
        }
    }

    /// The scheduler after a waiting producer took that step.
    pub open spec fn stepped(self, role: ProducerRole, step: CpuStep) -> CpuScheduler {
        match step {
            CpuStep::GiveUp => self.left(role),
            CpuStep::Granted => CpuScheduler {
                active: (self.active + 1) as usize,
                ..self.left(role)
            },
            CpuStep::Wait => self,
        }
    }

    /// The scheduler with one slot given back.
    pub open spec fn released(self) -> CpuScheduler {
        CpuScheduler { active: less_one(self.active), ..self }
    }

    #[must_use]
    pub fn with_maximum(maximum: usize) -> (scheduler: Self)
        ensures
            scheduler.wf(),
            scheduler == (CpuScheduler {
                active: 0,
                current_waiters: 0,
                next_waiters: 0,
                maximum: if maximum == 0 {
                    1
                } else {
                    maximum
                },
            }),
    {
        CpuScheduler {
            active: 0,
            current_waiters: 0,
            next_waiters: 0,
            maximum: if maximum == 0 {
                1
            } else {
                maximum
            },
        }
    }

    /// A producer begins to wait.
    pub fn enter(&mut self, role: ProducerRole)
        requires
            old(self).wf(),
        ensures
            final(self).wf(),
            *final(self) == old(self).entered(role),
    {
        match role {
            ProducerRole::Current => {
                self.current_waiters = self.current_waiters.saturating_add(1);
            },
            ProducerRole::Next => {
                self.next_waiters = self.next_waiters.saturating_add(1);
            },
        }
    }

    fn leave(&mut self, role: ProducerRole)
        ensures
            *final(self) == old(self).left(role),
    {
        match role {
            ProducerRole::Current => {
                self.current_waiters = self.current_waiters.saturating_sub(1);
            },
            ProducerRole::Next => {
                self.next_waiters = self.next_waiters.saturating_sub(1);
            },
        }
    }

    /// One look by a waiting producer: it gives up if cancelled, takes a slot if
    /// its role may, and waits on otherwise.
    pub fn step(&mut self, role: ProducerRole, cancelled: bool) -> (step: CpuStep)
        requires
            old(self).wf(),
        ensures
            final(self).wf(),
            step == old(self).spec_step(role, cancelled),
            *final(self) == old(self).stepped(role, step),
    {
        if cancelled {
            self.leave(role);
            return CpuStep::GiveUp;
        }
        let limit: usize = if self.maximum <= 1 {
            1
        } else {
            self.maximum - 1
        };
        let allowed = match role {
            ProducerRole::Current => self.active < self.maximum,
            ProducerRole::Next => self.current_waiters == 0 && self.active < limit,
        };
        if allowed {
            self.leave(role);
            self.active = self.active + 1;
            CpuStep::Granted
        } else {
            CpuStep::Wait
        }
    }

    /// A slot is given back.
    pub fn release(&mut self)
        requires
            old(self).wf(),
        ensures
            final(self).wf(),
            *final(self) == old(self).released(),
    {
        self.active = self.active.saturating_sub(1);
    }
}

/// While a current track waits for a slot, no next track gets one.
pub proof fn current_tracks_come_first(scheduler: CpuScheduler)
    requires
        scheduler.wf(),
        scheduler.current_waiters > 0,
    ensures
        !scheduler.allows(ProducerRole::Next),
{
}

/// Next tracks leave one slot to current tracks wherever there is more than one,
/// so a current track is never kept out by next tracks alone.
pub proof fn next_tracks_leave_a_slot(scheduler: CpuScheduler)
    requires
        scheduler.wf(),
        scheduler.maximum > 1,
        scheduler.allows(ProducerRole::Next),
    ensures
        scheduler.active + 1 < scheduler.maximum,
        (CpuScheduler { active: (scheduler.active + 1) as usize, ..scheduler }).allows(
            ProducerRole::Current,
        ),
{
}

/// A current track gets a slot whenever one is free. A next track gets one while no
/// current track waits and, where there is more than one, another stays free behind
/// it. Whoever is cancelled gets none.
pub proof fn slots_are_granted_in_order(scheduler: CpuScheduler)
    requires
        scheduler.wf(),
    ensures
        scheduler.spec_step(ProducerRole::Current, false) == CpuStep::Granted <==> scheduler.active
            < scheduler.maximum,
        scheduler.maximum > 1 ==> (scheduler.spec_step(ProducerRole::Next, false)
            == CpuStep::Granted <==> scheduler.current_waiters == 0 && scheduler.active + 1
            < scheduler.maximum),
        scheduler.maximum == 1 ==> (scheduler.spec_step(ProducerRole::Next, false)
            == CpuStep::Granted <==> scheduler.current_waiters == 0 && scheduler.active == 0),
        scheduler.spec_step(ProducerRole::Current, false) != CpuStep::GiveUp,
        scheduler.spec_step(ProducerRole::Next, false) != CpuStep::GiveUp,
        scheduler.spec_step(ProducerRole::Current, true) == CpuStep::GiveUp,
        scheduler.spec_step(ProducerRole::Next, true) == CpuStep::GiveUp,
{
}

/// A slot that is granted is taken until it is given back, and a producer counts as
/// waiting exactly until it gets a slot or gives up.
pub proof fn slots_and_waiters_balance(
    scheduler: CpuScheduler,
    role: ProducerRole,
    step: CpuStep,
)
    requires
        scheduler.wf(),
        scheduler.active < scheduler.maximum,
        scheduler.current_waiters < usize::MAX,
        scheduler.next_waiters < usize::MAX,
    ensures
        ({
            let waiting = scheduler.entered(role);
            let then = waiting.stepped(role, step);
            &&& waiting.active == scheduler.active
            &&& role == ProducerRole::Current ==> waiting.current_waiters
                == scheduler.current_waiters + 1 && waiting.next_waiters == scheduler.next_waiters
            &&& role == ProducerRole::Next ==> waiting.next_waiters == scheduler.next_waiters + 1
                && waiting.current_waiters == scheduler.current_waiters
            &&& step == CpuStep::Wait ==> then == waiting
            &&& step == CpuStep::GiveUp ==> then == scheduler
            &&& step == CpuStep::Granted ==> then.active == scheduler.active + 1
                && then.released() == scheduler
            &&& then.maximum == scheduler.maximum
        }),
{
}

// ---- control of one producer ----

/// What a producer is told from outside while it works.
#[derive(Debug)]
pub struct MediaControl<P> {
    pub volume: VolumeLevel,
    pub gain: GainLevel,
    pub gate: PauseGate,
    /// Holds a primed next track until it becomes the current one.
    pub promotion_gate: PauseGate,
    pub current_role: bool,
    pub preload_admission: Option<P>,
    /// A download that is shared with other producers is attached.
    pub shared_url: bool,
}

/// How a shared download is set up for the producer that attaches to it.
#[derive(Clone, Copy, Debug, PartialEq, Eq, Structural)]
pub struct SharedUrlSetup {
    pub promote: bool,
    pub paused: bool,
}

/// What follows when a producer is promoted.
#[derive(Debug)]
pub struct Promotion<P> {
    /// The producer was not the current one before.
    pub changed: bool,
    /// The preload permit that is given back.
    pub released: Option<P>,
    /// The shared download is to be promoted too.
    pub promote_shared_url: bool,
}

impl<P> MediaControl<P> {
    #[must_use]
    pub fn new(volume: VolumeLevel, gain: GainLevel, role: ProducerRole) -> (control: Self)
        ensures
            control.volume == volume,
            control.gain == gain,
            !control.gate.paused,
            control.promotion_gate.paused == (role == ProducerRole::Next),
            control.current_role == (role == ProducerRole::Current),
            control.preload_admission is None,
            !control.shared_url,
    {
        let current_role = match role {
            ProducerRole::Current => true,
            ProducerRole::Next => false,
        };
        MediaControl {
            volume,
            gain,
            gate: PauseGate::default(),
            promotion_gate: PauseGate { paused: !current_role },
            current_role,
            preload_admission: None,
            shared_url: false,
        }
    }

    pub open spec fn spec_role(self) -> ProducerRole {
        if self.current_role {
            ProducerRole::Current
        } else {
            ProducerRole::Next
        }
    }

    /// The control with the permit of a preload kept, if it needs one.
    pub open spec fn with_admission(self, permit: P) -> MediaControl<P> {
        if self.current_role {
            self
        } else {
            MediaControl { preload_admission: Some(permit), ..self }
        }
    }

    /// The permit that is not needed then.
    pub open spec fn spared_admission(self, permit: P) -> Option<P> {
        if self.current_role {
            Some(permit)
        } else {
            self.preload_admission
        }
    }

    /// The control of a producer that was made the current one.
    pub open spec fn promoted(self) -> MediaControl<P> {
        if self.current_role {
            self
        } else {
            MediaControl {
                current_role: true,
                preload_admission: None,
                promotion_gate: PauseGate { paused: false },
                ..self
            }
        }
    }

    /// What follows from making it the current one.
    pub open spec fn promotion(self) -> Promotion<P> {
        Promotion {
            changed: !self.current_role,
            released: if self.current_role {
                None
            } else {
                self.preload_admission
            },
            promote_shared_url: !self.current_role && self.shared_url,
        }
    }

    #[must_use]
    pub fn role(&self) -> (role: ProducerRole)
        ensures
            role == self.spec_role(),
    {
        if self.current_role {
            ProducerRole::Current
        } else {
            ProducerRole::Next
        }
    }

    /// Keeps the permit of a preload and returns one that is not needed: the one
    /// kept before, or the new one if the producer is the current one already.
    pub fn attach_preload_admission(&mut self, permit: P) -> (released: Option<P>)
        ensures
            *final(self) == old(self).with_admission(permit),
            released == old(self).spared_admission(permit),
    {
        if self.current_role {
            return Some(permit);
        }
        let earlier = self.preload_admission.take();
        self.preload_admission = Some(permit);
        earlier
    }

    /// Makes the producer the current one. A second time nothing happens.
    pub fn promote_to_current(&mut self) -> (promotion: Promotion<P>)
        ensures
            *final(self) == old(self).promoted(),
            promotion == old(self).promotion(),
    {
        if self.current_role {
            return Promotion { changed: false, released: None, promote_shared_url: false };
        }
        self.current_role = true;
        let released = self.preload_admission.take();
        self.promotion_gate.resume();
        Promotion { changed: true, released, promote_shared_url: self.shared_url }
    }

    /// A shared download is attached; tells how it is to be set up.
    pub fn attach_shared_url(&mut self) -> (setup: SharedUrlSetup)
        ensures
            setup == (SharedUrlSetup {
                promote: old(self).current_role,
                paused: old(self).gate.paused,
            }),
            *final(self) == (MediaControl { shared_url: true, ..*old(self) }),
    {
        self.shared_url = true;
        SharedUrlSetup { promote: self.current_role, paused: self.gate.paused }
    }

    pub fn detach_shared_url(&mut self)
        ensures
            *final(self) == (MediaControl { shared_url: false, ..*old(self) }),
    {
        self.shared_url = false;
    }

    pub fn set_volume(&mut self, volume: VolumeLevel)
        ensures
            *final(self) == (MediaControl { volume, ..*old(self) }),
    {
        self.volume = volume;
    }

    pub fn set_gain(&mut self, gain: GainLevel)
        ensures
            *final(self) == (MediaControl { gain, ..*old(self) }),
    {
        self.gain = gain;
    }

    /// Holds the producer; tells whether a shared download is to be held too.
    pub fn pause(&mut self) -> (shared: bool)
        ensures
            shared == old(self).shared_url,
            *final(self) == (MediaControl { gate: PauseGate { paused: true }, ..*old(self) }),
    {
        self.gate.pause();
        self.shared_url
    }

    /// Lets the producer go on; tells whether a shared download is to go on too.
    pub fn resume(&mut self) -> (shared: bool)
        ensures
            shared == old(self).shared_url,
            *final(self) == (MediaControl { gate: PauseGate { paused: false }, ..*old(self) }),
    {
        self.gate.resume();
        self.shared_url
    }
}

/// A producer is promoted once. It is the current one from then on, nothing holds it
/// back but a pause, the permit of its preload is given back, and a download that it
/// shares is promoted with it. A second promotion does nothing.
pub proof fn promotion_happens_once<P>(control: MediaControl<P>)
    ensures
        ({
            let after = control.promoted();
            &&& after.current_role && after.spec_role() == ProducerRole::Current
            &&& after.volume == control.volume && after.gain == control.gain
            &&& after.gate == control.gate && after.shared_url == control.shared_url
            &&& after.promoted() == after
            &&& !after.promotion().changed && after.promotion().released is None
                && !after.promotion().promote_shared_url
            &&& control.spec_role() == ProducerRole::Next ==> {
                &&& control.promotion().changed
                &&& control.promotion().released == control.preload_admission
                &&& control.promotion().promote_shared_url == control.shared_url
                &&& after.preload_admission is None
                &&& !after.promotion_gate.paused
            }
        }),
{
}

// ---- routing of one job ----

/// How a source is fetched.
#[derive(Clone, Copy, Debug, PartialEq, Eq, Structural)]
pub enum SourceRoute {
    Hls,
    Live,
    Artifact,
}

/// How a source that is not live is fetched.
#[derive(Clone, Copy, Debug, PartialEq, Eq, Structural)]
pub enum ArtifactRoute {
    /// Decode while downloading.
    Progressive,
    /// Have the whole source first.
    Complete,
}

#[derive(Clone, Copy, Debug, PartialEq, Eq, Structural)]
pub enum HlsPlaylistKind {
    Vod,
    Live,
}

/// What follows when a source was looked up.
#[derive(Debug)]
pub enum ResolveStep<A> {
    Ready(A),
    /// The source turned out to be live.
    RunLive,
    /// The source turned out to be a playlist.
    RunHls,
    Fail(MusicStreamError),
}

/// Decides about the result of looking a source up.
pub fn resolve_step<A>(result: Result<A, MusicStreamError>) -> (step: ResolveStep<A>)
    ensures
        step == match result {
            Ok(artifact) => ResolveStep::Ready(artifact),
            Err(MusicStreamError::DetectedLiveSource(_)) => ResolveStep::RunLive,
            Err(MusicStreamError::DetectedHlsSource(_)) => ResolveStep::RunHls,
            Err(error) => ResolveStep::Fail(error),
        },
{
    match result {
        Ok(artifact) => ResolveStep::Ready(artifact),
        Err(MusicStreamError::DetectedLiveSource(_)) => ResolveStep::RunLive,
        Err(MusicStreamError::DetectedHlsSource(_)) => ResolveStep::RunHls,
        Err(error) => ResolveStep::Fail(error),
    }
}

/// The part of a producer's work order that may change on the way.
#[derive(Debug)]
pub struct ProducerJob {
    pub generation: u64,
    pub track: TrackSource,
    pub start_position_ms: u64,
    pub role: ProducerRole,
    /// How much media a next track prepares before it waits.
    pub next_prime_ms: Option<u64>,
}

pub open spec fn refused_preload(error: MusicStreamError, why: Seq<char>) -> bool {
    error matches MusicStreamError::Unsupported(text) && text@ == why
}

/// The kind of track that a playlist amounts to.
pub open spec fn playlist_track(playlist: HlsPlaylistKind) -> TrackKind {
    match playlist {
        HlsPlaylistKind::Vod => TrackKind::Url,
        HlsPlaylistKind::Live => TrackKind::Live,
    }
}

impl ProducerJob {
    /// The job of a current track that turned out to be live.
    pub open spec fn gone_live(self) -> ProducerJob {
        ProducerJob {
            track: TrackSource { kind: TrackKind::Live, seekable: Some(false), ..self.track },
            role: ProducerRole::Current,
            next_prime_ms: None,
            ..self
        }
    }

    /// `after` is the job of a current track that turned out to be a playlist.
    pub open spec fn is_playlist_in(self, after: ProducerJob) -> bool {
        &&& after.track.format_hint matches Some(hint) && hint@ == "m3u8"@
        &&& after == (ProducerJob {
            track: TrackSource {
                seekable: Some(false),
                format_hint: after.track.format_hint,
                ..self.track
            },
            role: ProducerRole::Current,
            next_prime_ms: None,
            ..self
        })
    }

    /// The job of a playlist that turned out to be of a kind.
    pub open spec fn opened_as(self, kind: TrackKind) -> ProducerJob {
        ProducerJob {
            track: TrackSource { kind, seekable: Some(false), ..self.track },
            ..self
        }
    }

    /// What the owner is told of that.
    pub open spec fn classified(self, kind: TrackKind) -> WorkerEvent {
        WorkerEvent::CurrentSourceClassified { generation: self.generation, kind, seekable: false }
    }

    pub open spec fn spec_route(self) -> SourceRoute {
        if self.track.spec_is_hls() {
            SourceRoute::Hls
        } else if self.track.spec_is_live() {
            SourceRoute::Live
        } else {
            SourceRoute::Artifact
        }
    }

    pub open spec fn spec_artifact_route(self) -> ArtifactRoute {
        if self.track.kind == TrackKind::Url && self.start_position_ms == 0 && (format_claim(
            self.track,
        ) matches Some(claim) && progressive_format(lower(claim))) {
            ArtifactRoute::Progressive
        } else {
            ArtifactRoute::Complete
        }
    }

    #[must_use]
    pub fn new(
        role: ProducerRole,
        generation: u64,
        track: TrackSource,
        start_position_ms: u64,
        buffer: &MediaBufferConfig,
    ) -> (job: Self)
        ensures
            job == (ProducerJob {
                generation,
                track,
                start_position_ms,
                role,
                next_prime_ms: match role {
                    ProducerRole::Current => None,
                    ProducerRole::Next => Some(buffer.next_prime_ms),
                },
            }),
    {
        let next_prime_ms: Option<u64> = match role {
            ProducerRole::Current => None,
            ProducerRole::Next => Some(buffer.next_prime_ms),
        };
        ProducerJob { generation, track, start_position_ms, role, next_prime_ms }
    }

    #[must_use]
    pub fn route(&self) -> (route: SourceRoute)
        ensures
            route == self.spec_route(),
    {
        if self.track.is_hls() {
            SourceRoute::Hls
        } else if self.track.is_live() {
            SourceRoute::Live
        } else {
            SourceRoute::Artifact
        }
    }

    /// Only a URL that is played from its beginning can be decoded while it is
    /// downloaded.
    #[must_use]
    pub fn artifact_route(&self) -> (route: ArtifactRoute)
        ensures
            route == self.spec_artifact_route(),
    {
        if self.track.kind == TrackKind::Url && self.start_position_ms == 0
            && supports_progressive_url(&self.track) {
            ArtifactRoute::Progressive
        } else {
            ArtifactRoute::Complete
        }
    }

    /// The source turned out to be live. A next track cannot be; a current one
    /// goes on as live, and the owner is told.
    pub fn detected_live(&mut self, role: ProducerRole) -> (result: Result<
        WorkerEvent,
        MusicStreamError,
    >)
        ensures
            match role {
                ProducerRole::Next => {
                    &&& *final(self) == *old(self)
                    &&& result matches Err(error) && refused_preload(
                        error,
                        "detected live HTTP source cannot be preloaded as next without a timeshift model"@,
                    )
                },
                ProducerRole::Current => {
                    &&& *final(self) == old(self).gone_live()
                    &&& result == Ok::<_, MusicStreamError>(
                        old(self).classified(TrackKind::Live),
                    )
                },
            },
    {
        match role {
            ProducerRole::Next => Err(
                MusicStreamError::Unsupported(
                    "detected live HTTP source cannot be preloaded as next without a timeshift model".to_owned(),
                ),
            ),
            ProducerRole::Current => {
                self.track.kind = TrackKind::Live;
                self.track.seekable = Some(false);
                self.role = ProducerRole::Current;
                self.next_prime_ms = None;
                Ok(
                    WorkerEvent::CurrentSourceClassified {
                        generation: self.generation,
                        kind: TrackKind::Live,
                        seekable: false,
                    },
                )
            },
        }
    }

    /// The source turned out to be a playlist.
    pub fn detected_hls(&mut self, role: ProducerRole) -> (result: Result<(), MusicStreamError>)
        ensures
            match role {
                ProducerRole::Next => {
                    &&& *final(self) == *old(self)
                    &&& result matches Err(error) && refused_preload(
                        error,
                        "detected HLS source cannot be preloaded as next yet"@,
                    )
                },
                ProducerRole::Current => result is Ok && old(self).is_playlist_in(*final(self)),
            },
    {
        match role {
            ProducerRole::Next => Err(
                MusicStreamError::Unsupported(
                    "detected HLS source cannot be preloaded as next yet".to_owned(),
                ),
            ),
            ProducerRole::Current => {
                self.track.seekable = Some(false);
                self.track.format_hint = Some("m3u8".to_owned());
                self.role = ProducerRole::Current;
                self.next_prime_ms = None;
                Ok(())
            },
        }
    }

    /// Whether the job may fetch from a live route.
    pub fn check_live_route(&self, route: SourceRoute) -> (result: Result<(), MusicStreamError>)
        ensures
            result is Err <==> self.role == ProducerRole::Next && route != SourceRoute::Artifact,
            result matches Err(error) ==> refused_preload(
                error,
                if route == SourceRoute::Hls {
                    "HLS sources cannot run as preload producers yet"@
                } else {
                    "live sources cannot run as preload producers"@
                },
            ),
    {
        match (self.role, route) {
            (ProducerRole::Next, SourceRoute::Live) => Err(
                MusicStreamError::Unsupported(
                    "live sources cannot run as preload producers".to_owned(),
                ),
            ),
            (ProducerRole::Next, SourceRoute::Hls) => Err(
                MusicStreamError::Unsupported(
                    "HLS sources cannot run as preload producers yet".to_owned(),
                ),
            ),
            _ => Ok(()),
        }
    }

    /// A playlist was opened: its kind decides that of the track.
    pub fn playlist_opened(&mut self, playlist: HlsPlaylistKind) -> (event: WorkerEvent)
        ensures
            *final(self) == old(self).opened_as(playlist_track(playlist)),
            event == old(self).classified(playlist_track(playlist)),
    {
        let kind = match playlist {
            HlsPlaylistKind::Vod => TrackKind::Url,
            HlsPlaylistKind::Live => TrackKind::Live,
        };
        self.track.kind = kind;
        self.track.seekable = Some(false);
        WorkerEvent::CurrentSourceClassified {
            generation: self.generation,
            kind,
            seekable: false,
        }
    }
}

// ---- how the two halves of a job end ----

/// How the fetching half of a job ended, seen after the decoding half.
#[derive(Debug)]
pub enum SourceEnd {
    /// It ended well, or has not ended yet.
    Quiet,
    Failed(MusicStreamError),
    /// Its task broke down.
    Crashed(String),
}

/// The result of a job whose decoding half ended first. A failed source explains
/// more than what the decoder made of it, unless it was only closed.
pub fn decoding_ended(cpu: Result<(), MusicStreamError>, source: SourceEnd) -> (result: Result<
    (),
    MusicStreamError,
>)
    ensures
        match source {
            SourceEnd::Quiet => result == cpu,
            SourceEnd::Failed(error) => result == if error.spec_code() != ErrorCode::StreamClosed {
                Err::<(), _>(error)
            } else {
                cpu
            },
            SourceEnd::Crashed(why) => result matches Err(error) && (
            error matches MusicStreamError::Internal(text) && text@ == "live HTTP task failed: "@
                + why@),
        },
{
    match source {
        SourceEnd::Quiet => cpu,
        SourceEnd::Failed(error) => if error.code() != ErrorCode::StreamClosed {
            Err(error)
        } else {
            cpu
        },
        SourceEnd::Crashed(why) => Err(
            MusicStreamError::Internal(
                "live HTTP task failed: ".to_owned().concat(why.as_str()),
            ),
        ),
    }
}

/// What follows when the fetching half ends first.
#[derive(Debug)]
pub enum SourceFirst {
    /// Everything is fetched: the decoder finishes by itself.
    AwaitDecoder,
    /// The decoder is stopped and the job fails.
    StopDecoder(MusicStreamError),
}

pub fn fetching_ended(result: Result<(), MusicStreamError>) -> (step: SourceFirst)
    ensures
        step == match result {
            Ok(()) => SourceFirst::AwaitDecoder,
            Err(error) => SourceFirst::StopDecoder(error),
        },
{
    match result {
        Ok(()) => SourceFirst::AwaitDecoder,
        Err(error) => SourceFirst::StopDecoder(error),
    }
}

/// The report about a producer that ended with an error. Its role at that moment
/// counts, not the one it started with; a cancelled producer reports nothing.
pub fn producer_failure(
    result: &Result<(), MusicStreamError>,
    cancelled: bool,
    role: ProducerRole,
    generation: u64,
) -> (event: Option<WorkerEvent>)
    ensures
        event is Some <==> result is Err && !cancelled,
        event matches Some(event) ==> match role {
            ProducerRole::Current => event matches WorkerEvent::CurrentFailed {
                generation: failed,
                code,
                message,
            } && failed == generation && code == result->Err_0.spec_code() && message@
                == result->Err_0.prefix() + result->Err_0.detail(),
            ProducerRole::Next => event matches WorkerEvent::NextFailed {
                generation: failed,
                code,
                message,
            } && failed == generation && code == result->Err_0.spec_code() && message@
                == result->Err_0.prefix() + result->Err_0.detail(),
        },
{
    match result {
        Ok(()) => None,
        Err(error) => {
            if cancelled {
                return None;
            }
            match role {
                ProducerRole::Current => Some(
                    WorkerEvent::CurrentFailed {
                        generation,
                        code: error.code(),
                        message: error.message(),
                    },
                ),
                ProducerRole::Next => Some(
                    WorkerEvent::NextFailed {
                        generation,
                        code: error.code(),
                        message: error.message(),
                    },
                ),
            }
        },
    }
}

pub open spec fn role_title(role: ProducerRole) -> Seq<char> {
    match role {
        ProducerRole::Current => "Current producer "@,
        ProducerRole::Next => "Next producer "@,
    }
}

/// How a producer failed to end.
#[derive(Debug)]
pub enum StopProblem {
    TaskFailed(String),
    SupervisorFailed(String),
    TimedOut,
}

pub open spec fn stop_text(problem: StopProblem) -> Seq<char> {
    match problem {
        StopProblem::TaskFailed(why) => " task failed: "@ + why@,
        StopProblem::SupervisorFailed(why) => " supervisor failed: "@ + why@,
        StopProblem::TimedOut => " did not stop within 2 seconds"@,
    }
}

/// The error about a producer that did not end as it should.
pub fn stop_error(role: ProducerRole, generation: u64, problem: StopProblem) -> (error:
    MusicStreamError)
    ensures
        error matches MusicStreamError::Internal(text) && text@ == role_title(role) + decimal(
            generation as nat,
        ) + stop_text(problem),
{
    let title = match role {
        ProducerRole::Current => "Current producer ",
        ProducerRole::Next => "Next producer ",
    };
    let named = title.to_owned().concat(decimal_text(generation).as_str());
    let ending = match problem {
        StopProblem::TaskFailed(why) => " task failed: ".to_owned().concat(why.as_str()),
        StopProblem::SupervisorFailed(why) => " supervisor failed: ".to_owned().concat(
            why.as_str(),
        ),
        StopProblem::TimedOut => " did not stop within 2 seconds".to_owned(),
    };
    MusicStreamError::Internal(named.concat(ending.as_str()))
}

// ---- admission ----

/// What happened to a job that waits for a slot.
#[derive(Clone, Copy, Debug, PartialEq, Eq, Structural)]
pub enum SlotWait {
    Cancelled,
    Paused,
    RoleChanged,
    /// Nobody can change the role any more.
    RoleLost,
    Granted,
    /// The slots were closed.
    Closed,
}

/// What a waiting job does next.
#[derive(Debug)]
pub enum SlotStep {
    /// Wait for the end of the pause and try again.
    Retry,
    /// Go on with the slot.
    Admitted,
    /// Go on without a slot: none is needed any more.
    NotNeeded,
    Fail(MusicStreamError),
}

pub open spec fn closed_with(step: SlotStep, why: Seq<char>) -> bool {
    step matches SlotStep::Fail(error) && (error matches MusicStreamError::StreamClosed(text)
        && text@ == why)
}

/// Decides about the wait for a producer slot.
pub fn job_slot_step(wait: SlotWait) -> (step: SlotStep)
    ensures
        match wait {
            SlotWait::Cancelled => closed_with(
                step,
                "producer cancelled before blocking admission"@,
            ),
            SlotWait::Closed => closed_with(step, "blocking producer admission was closed"@),
            SlotWait::Granted => step is Admitted,
            SlotWait::Paused | SlotWait::RoleChanged | SlotWait::RoleLost => step is Retry,
        },
{
    match wait {
        SlotWait::Cancelled => SlotStep::Fail(
            MusicStreamError::StreamClosed(
                "producer cancelled before blocking admission".to_owned(),
            ),
        ),
        SlotWait::Closed => SlotStep::Fail(
            MusicStreamError::StreamClosed("blocking producer admission was closed".to_owned()),
        ),
        SlotWait::Granted => SlotStep::Admitted,
        SlotWait::Paused | SlotWait::RoleChanged | SlotWait::RoleLost => SlotStep::Retry,
    }
}

/// Decides about the wait for a preload slot. A current track needs none, not
/// even one it was just granted.
pub fn preload_slot_step(wait: SlotWait, role: ProducerRole) -> (step: SlotStep)
    ensures
        match wait {
            SlotWait::Cancelled => closed_with(step, "producer cancelled before preload admission"@),
            SlotWait::Closed => closed_with(step, "blocking preload admission was closed"@),
            SlotWait::RoleLost => closed_with(step, "producer role state closed"@),
            SlotWait::Granted => match role {
                ProducerRole::Current => step is NotNeeded,
                ProducerRole::Next => step is Admitted,
            },
            SlotWait::Paused | SlotWait::RoleChanged => match role {
                ProducerRole::Current => step is NotNeeded,
                ProducerRole::Next => step is Retry,
            },
        },
{
    match wait {
        SlotWait::Cancelled => SlotStep::Fail(
            MusicStreamError::StreamClosed("producer cancelled before preload admission".to_owned()),
        ),
        SlotWait::Closed => SlotStep::Fail(
            MusicStreamError::StreamClosed("blocking preload admission was closed".to_owned()),
        ),
        SlotWait::RoleLost => SlotStep::Fail(
            MusicStreamError::StreamClosed("producer role state closed".to_owned()),
        ),
        SlotWait::Granted => match role {
            ProducerRole::Current => SlotStep::NotNeeded,
            ProducerRole::Next => SlotStep::Admitted,
        },
        SlotWait::Paused | SlotWait::RoleChanged => match role {
            ProducerRole::Current => SlotStep::NotNeeded,
            ProducerRole::Next => SlotStep::Retry,
        },
    }
}

// ---- the decoding half ----

/// Why a frame could not be handed to the output.
#[derive(Clone, Copy, Debug, PartialEq, Eq, Structural)]
pub enum EmitStop {
    WhilePaused,
    WaitingForCpu,
    BeforePromotion,
    EventLoopClosed,
}

pub open spec fn emit_stop_text(stop: EmitStop) -> Seq<char> {
    match stop {
        EmitStop::WhilePaused => "producer cancelled while paused"@,
        EmitStop::WaitingForCpu => "producer cancelled while waiting for CPU"@,
        EmitStop::BeforePromotion => "preloaded producer was cancelled before promotion"@,
        EmitStop::EventLoopClosed => "worker event loop closed"@,
    }
}

pub fn emit_stop_error(stop: EmitStop) -> (error: MusicStreamError)
    ensures
        error matches MusicStreamError::StreamClosed(text) && text@ == emit_stop_text(stop),
{
    MusicStreamError::StreamClosed(
        match stop {
            EmitStop::WhilePaused => "producer cancelled while paused".to_owned(),
            EmitStop::WaitingForCpu => "producer cancelled while waiting for CPU".to_owned(),
            EmitStop::BeforePromotion => "preloaded producer was cancelled before promotion".to_owned(),
            EmitStop::EventLoopClosed => "worker event loop closed".to_owned(),
        },
    )
}

/// Where the decoding half stands with the frame it hands on.
#[derive(Clone, Copy, Debug, PartialEq, Eq, Structural)]
pub enum EmitPhase {
    /// No frame is on its way.
    Idle,
    /// A frame waits for a pause to end.
    Paused,
    /// The frame goes into the queue.
    Queueing,
    /// The frame is in the queue; the CPU slot is to be taken back.
    Returning,
    /// Enough of a next track is queued, which is being reported.
    Reporting,
    /// A next track that was reported waits for its promotion.
    AwaitingPromotion,
    /// The track was promoted; the CPU slot is to be taken back.
    Resuming,
    /// A step failed. No frame follows.
    Stopped,
}

/// What came of the last step.
#[derive(Debug)]
pub enum EmitEvent {
    /// A frame of so much media was encoded.
    Encoded(u64),
    /// The pause is over, or the job was cancelled in it.
    Unpaused(bool),
    /// The frame is in the queue, or could not be put there.
    Queued(Result<(), MusicStreamError>),
    /// The CPU slot was taken, or the job was cancelled while waiting for it.
    CpuTaken(bool),
    /// The event was taken, or nobody is there to take it.
    Reported(bool),
    /// The track was promoted, or the job was cancelled before.
    Promoted(bool),
}

/// What to do next with a frame.
#[derive(Debug)]
pub enum EmitAction {
    /// Give up the CPU slot and wait while paused.
    WaitWhilePaused,
    /// Put the frame into the queue, waiting for room.
    Queue,
    TakeCpu,
    /// Give up the CPU slot and report.
    Report(WorkerEvent),
    WaitForPromotion,
    /// The frame is settled: go on with the next one.
    Done,
    Fail(MusicStreamError),
}

/// What follows a worker turn.
#[derive(Debug)]
pub enum TurnOutcome {
    Continue,
    /// Nothing moved: let others run first.
    Yield,
    /// The producer is done, after the event if there is one.
    Finish(Option<WorkerEvent>),
    Fail(MusicStreamError),
}

/// Progress of the decoding half of a job.
#[derive(Debug)]
pub struct CpuRun {
    pub generation: u64,
    pub next_prime_ms: Option<u64>,
    pub produced_ms: u64,
    pub ready_sent: bool,
    pub levels: Option<(VolumeLevel, GainLevel)>,
    pub phase: EmitPhase,
    /// How much media the frame on its way holds.
    pub frame_ms: u64,
    /// Whether any frame was queued.
    pub queued_any: bool,
    pub promoted: bool,
}

impl CpuRun {
    #[must_use]
    pub fn new(job: &ProducerJob) -> (run: Self)
        ensures
            run == (CpuRun {
                generation: job.generation,
                next_prime_ms: job.next_prime_ms,
                produced_ms: 0,
                ready_sent: false,
                levels: None,
                phase: EmitPhase::Idle,
                frame_ms: 0,
                queued_any: false,
                promoted: false,
            }),
    {
        CpuRun {
            generation: job.generation,
            next_prime_ms: job.next_prime_ms,
            produced_ms: 0,
            ready_sent: false,
            levels: None,
            phase: EmitPhase::Idle,
            frame_ms: 0,
            queued_any: false,
            promoted: false,
        }
    }

    /// Whether the levels differ from those that were noted last.
    pub open spec fn is_news(self, volume: VolumeLevel, gain: GainLevel) -> bool {
        self.levels != Some((volume, gain))
    }

    pub open spec fn noting(self, volume: VolumeLevel, gain: GainLevel) -> CpuRun {
        CpuRun { levels: Some((volume, gain)), ..self }
    }

    /// Takes note of the levels in force; tells whether they changed.
    pub fn levels_changed(&mut self, volume: VolumeLevel, gain: GainLevel) -> (changed: bool)
        ensures
            changed == old(self).is_news(volume, gain),
            *final(self) == old(self).noting(volume, gain),
    {
        let changed = match self.levels {
            Some((last_volume, last_gain)) => last_volume != volume || last_gain != gain,
            None => true,
        };
        self.levels = Some((volume, gain));
        changed
    }

    /// Whether a next track is to be reported ready once `produced_ms` are there.
    pub open spec fn is_primed(self, produced_ms: u64) -> bool {
        !self.ready_sent && (self.next_prime_ms matches Some(prime) && produced_ms >= prime)
    }

    /// Whether `event` can come of the step that was taken last.
    pub open spec fn expects(self, event: EmitEvent) -> bool {
        match self.phase {
            EmitPhase::Idle => event is Encoded,
            EmitPhase::Paused => event is Unpaused,
            EmitPhase::Queueing => event is Queued,
            EmitPhase::Returning | EmitPhase::Resuming => event is CpuTaken,
            EmitPhase::Reporting => event is Reported,
            EmitPhase::AwaitingPromotion => event is Promoted,
            EmitPhase::Stopped => false,
        }
    }

    pub open spec fn in_phase(self, phase: EmitPhase) -> CpuRun {
        CpuRun { phase, ..self }
    }

    /// The run with the frame on its way counted as queued.
    pub open spec fn counted(self) -> CpuRun {
        CpuRun { produced_ms: sum(self.produced_ms, self.frame_ms), queued_any: true, ..self }
    }

    /// The run after `event`. A frame is queued, the CPU slot taken back, and a
    /// next track that has prepared enough is reported, once, and then waits for
    /// its promotion.
    pub open spec fn after(self, event: EmitEvent) -> CpuRun {
        match event {
            EmitEvent::Encoded(frame_ms) => CpuRun { frame_ms, ..self }.in_phase(EmitPhase::Paused),
            EmitEvent::Unpaused(true) => self.in_phase(EmitPhase::Queueing),
            EmitEvent::Queued(Ok(())) => self.in_phase(EmitPhase::Returning),
            EmitEvent::CpuTaken(true) => if self.phase == EmitPhase::Resuming {
                self.in_phase(EmitPhase::Idle)
            } else if self.is_primed(self.counted().produced_ms) {
                self.counted().in_phase(EmitPhase::Reporting)
            } else {
                self.counted().in_phase(EmitPhase::Idle)
            },
            EmitEvent::Reported(true) => CpuRun { ready_sent: true, ..self }.in_phase(
                EmitPhase::AwaitingPromotion,
            ),
            EmitEvent::Promoted(true) => CpuRun { promoted: true, ..self }.in_phase(
                EmitPhase::Resuming,
            ),
            _ => self.in_phase(EmitPhase::Stopped),
        }
    }

    /// `action` is what a run that comes into its phase by `event` does next.
    pub open spec fn calls_for(self, event: EmitEvent, action: EmitAction) -> bool {
        match self.phase {
            EmitPhase::Idle => action is Done,
            EmitPhase::Paused => action is WaitWhilePaused,
            EmitPhase::Queueing => action is Queue,
            EmitPhase::Returning | EmitPhase::Resuming => action is TakeCpu,
            EmitPhase::Reporting => action == EmitAction::Report(
                WorkerEvent::NextReady { generation: self.generation },
            ),
            EmitPhase::AwaitingPromotion => action is WaitForPromotion,
            EmitPhase::Stopped => match event {
                EmitEvent::Queued(Err(error)) => action == EmitAction::Fail(error),
                EmitEvent::Unpaused(_) => stops_with(action, EmitStop::WhilePaused),
                EmitEvent::Reported(_) => stops_with(action, EmitStop::EventLoopClosed),
                EmitEvent::Promoted(_) => stops_with(action, EmitStop::BeforePromotion),
                _ => stops_with(action, EmitStop::WaitingForCpu),
            },
        }
    }

    /// Takes in what came of the last step and decides on the next one.
    pub fn emit_step(&mut self, event: EmitEvent) -> (action: EmitAction)
        requires
            old(self).expects(event),
        ensures
            *final(self) == old(self).after(event),
            final(self).calls_for(event, action),
    {
        match event {
            EmitEvent::Encoded(frame_ms) => {
                self.frame_ms = frame_ms;
                self.phase = EmitPhase::Paused;
                EmitAction::WaitWhilePaused
            },
            EmitEvent::Unpaused(true) => {
                self.phase = EmitPhase::Queueing;
                EmitAction::Queue
            },
            EmitEvent::Queued(Ok(())) => {
                self.phase = EmitPhase::Returning;
                EmitAction::TakeCpu
            },
            EmitEvent::CpuTaken(true) => {
                if self.phase == EmitPhase::Resuming {
                    self.phase = EmitPhase::Idle;
                    return EmitAction::Done;
                }
                self.produced_ms = self.produced_ms.saturating_add(self.frame_ms);
                self.queued_any = true;
                let primed = match self.next_prime_ms {
                    Some(prime) => !self.ready_sent && self.produced_ms >= prime,
                    None => false,
                };
                if primed {
                    self.phase = EmitPhase::Reporting;
                    EmitAction::Report(WorkerEvent::NextReady { generation: self.generation })
                } else {
                    self.phase = EmitPhase::Idle;
                    EmitAction::Done
                }
            },
            EmitEvent::Reported(true) => {
                self.ready_sent = true;
                self.phase = EmitPhase::AwaitingPromotion;
                EmitAction::WaitForPromotion
            },
            EmitEvent::Promoted(true) => {
                self.promoted = true;
                self.phase = EmitPhase::Resuming;
                EmitAction::TakeCpu
            },
            EmitEvent::Queued(Err(error)) => {
                self.phase = EmitPhase::Stopped;
                EmitAction::Fail(error)
            },
            EmitEvent::Unpaused(false) => {
                self.phase = EmitPhase::Stopped;
                EmitAction::Fail(emit_stop_error(EmitStop::WhilePaused))
            },
            EmitEvent::Reported(false) => {
                self.phase = EmitPhase::Stopped;
                EmitAction::Fail(emit_stop_error(EmitStop::EventLoopClosed))
            },
            EmitEvent::Promoted(false) => {
                self.phase = EmitPhase::Stopped;
                EmitAction::Fail(emit_stop_error(EmitStop::BeforePromotion))
            },
            EmitEvent::CpuTaken(false) => {
                self.phase = EmitPhase::Stopped;
                EmitAction::Fail(emit_stop_error(EmitStop::WaitingForCpu))
            },
        }
    }

    /// Decides what follows a turn. A closed stream ends the producer quietly; a
    /// source without any sound is an error; a short next track is ready once it
    /// has ended.
    pub fn turn_ended(&self, result: Result<WorkerTurnReport, MusicStreamError>) -> (outcome:
        TurnOutcome)
        ensures
            match result {
                Err(MusicStreamError::StreamClosed(_)) => outcome == TurnOutcome::Finish(None),
                Err(error) => outcome == TurnOutcome::Fail(error),
                Ok(report) => if report.source_ended {
                    if self.produced_ms == 0 {
                        outcome matches TurnOutcome::Fail(error) && (
                        error matches MusicStreamError::DecodeError(text) && text@
                            == "source ended without decodable PCM samples"@)
                    } else if !self.ready_sent && self.next_prime_ms is Some {
                        outcome == TurnOutcome::Finish(
                            Some(WorkerEvent::NextReady { generation: self.generation }),
                        )
                    } else {
                        outcome == TurnOutcome::Finish(None)
                    }
                } else if report.decoded_chunks > 0 || report.pcm_frames > 0 || report.opus_frames
                    > 0 {
                    outcome is Continue
                } else {
                    outcome is Yield
                },
            },
    {
        let report = match result {
            Ok(report) => report,
            Err(MusicStreamError::StreamClosed(_)) => {
                return TurnOutcome::Finish(None);
            },
            Err(error) => {
                return TurnOutcome::Fail(error);
            },
        };
        if report.source_ended {
            if self.produced_ms == 0 {
                return TurnOutcome::Fail(
                    MusicStreamError::DecodeError(
                        "source ended without decodable PCM samples".to_owned(),
                    ),
                );
            }
            if !self.ready_sent && self.next_prime_ms.is_some() {
                return TurnOutcome::Finish(
                    Some(WorkerEvent::NextReady { generation: self.generation }),
                );
            }
            return TurnOutcome::Finish(None);
        }
        if report.made_progress() {
            TurnOutcome::Continue
        } else {
            TurnOutcome::Yield
        }
    }
}

/// `action` fails as `stop` says.
pub open spec fn stops_with(action: EmitAction, stop: EmitStop) -> bool {
    action matches EmitAction::Fail(error) && (error matches MusicStreamError::StreamClosed(text)
        && text@ == emit_stop_text(stop))
}

/// The run after what came of its steps in a row.
pub open spec fn run_through(run: CpuRun, events: Seq<EmitEvent>) -> CpuRun
    decreases events.len(),
{
    if events.len() == 0 {
        run
    } else {
        run_through(run, events.drop_last()).after(events.last())
    }
}

/// Each of `events` can come of the step before it.
pub open spec fn runs(run: CpuRun, events: Seq<EmitEvent>) -> bool
    decreases events.len(),
{
    events.len() > 0 ==> runs(run, events.drop_last()) && run_through(
        run,
        events.drop_last(),
    ).expects(events.last())
}

/// How often the run reported that a next track is ready.
pub open spec fn reports_in(events: Seq<EmitEvent>) -> nat
    decreases events.len(),
{
    if events.len() == 0 {
        0
    } else {
        reports_in(events.drop_last()) + if events.last() == EmitEvent::Reported(true) {
            1nat
        } else {
            0nat
        }
    }
}

/// Nothing was queued yet.
pub open spec fn is_fresh(run: CpuRun) -> bool {
    run.phase == EmitPhase::Idle && run.produced_ms == 0 && !run.queued_any && !run.ready_sent
        && !run.promoted
}

/// A next track that has queued what it is to prepare queues no further frame
/// until it is promoted: whenever a frame goes into the queue, less than that is
/// queued, or nothing at all. It is reported ready no more than once, and only
/// when enough is queued.
pub proof fn next_tracks_stop_at_their_prime(run: CpuRun, events: Seq<EmitEvent>)
    requires
        is_fresh(run),
        runs(run, events),
    ensures
        ({
            let then = run_through(run, events);
            &&& then.phase == EmitPhase::Queueing && !then.promoted ==> (
            then.next_prime_ms matches Some(prime) ==> then.produced_ms < prime
                || !then.queued_any)
            &&& then.phase == EmitPhase::Reporting ==> (then.next_prime_ms matches Some(prime)
                && then.produced_ms >= prime) && reports_in(events) == 0
            &&& reports_in(events) <= 1
            &&& then.ready_sent == (reports_in(events) == 1)
            &&& then.ready_sent && !then.promoted ==> then.phase == EmitPhase::AwaitingPromotion
                || then.phase == EmitPhase::Stopped
        }),
{
    runs_keep_the_order(run, events);
}

/// The order that every run keeps.
spec fn in_order(run: CpuRun) -> bool {
    &&& run.phase is Idle || run.phase is Paused || run.phase is Queueing || run.phase is Returning
        ==> run.promoted || (!run.ready_sent && (run.next_prime_ms matches Some(prime) ==>
        run.produced_ms < prime || !run.queued_any))
    &&& run.phase is Reporting ==> !run.ready_sent && (run.next_prime_ms matches Some(prime)
        && run.produced_ms >= prime)
    &&& run.phase is AwaitingPromotion ==> run.ready_sent
    &&& run.phase is Resuming ==> run.promoted
    &&& run.promoted ==> run.ready_sent
}

proof fn runs_keep_the_order(run: CpuRun, events: Seq<EmitEvent>)
    requires
        is_fresh(run),
        runs(run, events),
    ensures
        in_order(run_through(run, events)),
        run_through(run, events).next_prime_ms == run.next_prime_ms,
        reports_in(events) <= 1,
        run_through(run, events).ready_sent == (reports_in(events) == 1),
    decreases events.len(),
{
    if events.len() > 0 {
        runs_keep_the_order(run, events.drop_last());
    }
}

/// A run that waits for its promotion goes on with that alone.
pub proof fn promotion_is_waited_for(run: CpuRun, event: EmitEvent, action: EmitAction)
    requires
        run.phase == EmitPhase::AwaitingPromotion,
        run.expects(event),
        run.after(event).calls_for(event, action),
    ensures
        !(action is Queue),
        event == EmitEvent::Promoted(true) || run.after(event).phase == EmitPhase::Stopped,
{
}

/// A playlist is fetched as one whatever it is called, other live sources as they
/// come, and everything else as a whole or, from its beginning and in a format that
/// allows it, while it is being fetched. The format that a source names itself
/// counts more than its URL.
pub proof fn sources_are_fetched_by_what_they_are(job: ProducerJob)
    ensures
        job.track.spec_is_hls() <==> job.spec_route() == SourceRoute::Hls,
        !job.track.spec_is_hls() ==> (job.track.kind == TrackKind::Live <==> job.spec_route()
            == SourceRoute::Live),
        job.track.kind == TrackKind::File ==> job.spec_route() == SourceRoute::Artifact
            && job.spec_artifact_route() == ArtifactRoute::Complete,
        job.start_position_ms > 0 ==> job.spec_artifact_route() == ArtifactRoute::Complete,
        job.track.format_hint matches Some(hint) ==> format_claim(job.track) == Some(hint@),
        job.track.format_hint is None ==> format_claim(job.track) == match job.track.url {
            Some(url) => url_extension(url@),
            None => None,
        },
        job.track.kind == TrackKind::Url && job.start_position_ms == 0 ==> (
        job.spec_artifact_route() == ArtifactRoute::Progressive <==> (format_claim(
            job.track,
        ) matches Some(claim) && (lower(claim) == "mp3"@ || lower(claim) == "flac"@ || lower(claim)
            == "m4a"@ || lower(claim) == "mp4"@))),
{
}

/// A job keeps what it was ordered with. A next track prepares as much as the buffers
/// say before it waits; a current one does not wait.
pub proof fn next_tracks_prepare_what_the_buffers_say(
    role: ProducerRole,
    generation: u64,
    track: TrackSource,
    start_position_ms: u64,
    buffer: MediaBufferConfig,
    job: ProducerJob,
)
    requires
        call_ensures(
            ProducerJob::new,
            (role, generation, track, start_position_ms, &buffer),
            job,
        ),
    ensures
        job.generation == generation && job.track == track && job.start_position_ms
            == start_position_ms && job.role == role,
        role == ProducerRole::Next ==> job.next_prime_ms == Some(buffer.next_prime_ms),
        role == ProducerRole::Current ==> job.next_prime_ms is None,
{
}

/// A turn of a producer: one that is closed ends it quietly, any other error fails it.
/// A source that ended fails it if nothing came of it; it makes a next track ready
/// that was too short to be so before. Otherwise it goes on, at once if anything
/// moved.
pub proof fn turns_lead_on_or_out(
    run: CpuRun,
    result: Result<WorkerTurnReport, MusicStreamError>,
    outcome: TurnOutcome,
)
    requires
        call_ensures(CpuRun::turn_ended, (&run, result), outcome),
    ensures
        result matches Err(error) ==> if error is StreamClosed {
            outcome == TurnOutcome::Finish(None)
        } else {
            outcome == TurnOutcome::Fail(error)
        },
        result matches Ok(report) ==> {
            &&& report.source_ended && run.produced_ms == 0 ==> outcome is Fail
            &&& report.source_ended && run.produced_ms > 0 ==> outcome is Finish && (
            outcome->Finish_0 is Some <==> run.next_prime_ms is Some && !run.ready_sent)
            &&& report.source_ended && outcome is Finish && outcome->Finish_0 is Some
                ==> outcome->Finish_0 == Some(WorkerEvent::NextReady { generation: run.generation })
            &&& !report.source_ended ==> (outcome is Yield <==> report.decoded_chunks == 0
                && report.pcm_frames == 0 && report.opus_frames == 0)
            &&& !report.source_ended ==> outcome is Yield || outcome is Continue
        },
{
}

/// A preload slot is for next tracks: a track that became the current one goes on
/// without, and one that is still next goes on with a slot alone. Whoever is
/// cancelled, or finds the slots closed, fails.
pub proof fn preload_slots_are_for_next_tracks(wait: SlotWait, role: ProducerRole, step: SlotStep)
    requires
        call_ensures(preload_slot_step, (wait, role), step),
    ensures
        step is Fail <==> wait == SlotWait::Cancelled || wait == SlotWait::Closed || wait
            == SlotWait::RoleLost,
        role == ProducerRole::Current ==> !(step is Admitted) && !(step is Retry),
        step is Admitted <==> role == ProducerRole::Next && wait == SlotWait::Granted,
        step is NotNeeded ==> role == ProducerRole::Current,
{
}

/// Any track needs a producer slot, and waits for it until it gets one, is cancelled
/// or finds the slots closed.
pub proof fn producer_slots_are_for_all(wait: SlotWait, step: SlotStep)
    requires
        call_ensures(job_slot_step, (wait,), step),
    ensures
        step is Admitted <==> wait == SlotWait::Granted,
        step is Fail <==> wait == SlotWait::Cancelled || wait == SlotWait::Closed,
        !(step is NotNeeded),
{
}

/// A frame counts once it is in the queue and the slot is back: the media produced
/// grows by the frame and nothing else. A next track that has produced what it is to
/// prepare, and has not said so, says so then; any other goes on with the next frame.
pub proof fn queued_frames_are_counted(run: CpuRun)
    requires
        run.phase == EmitPhase::Returning,
    ensures
        ({
            let then = run.after(EmitEvent::CpuTaken(true));
            &&& run.produced_ms + run.frame_ms <= u64::MAX ==> then.produced_ms == run.produced_ms
                + run.frame_ms
            &&& then.queued_any
            &&& then.ready_sent == run.ready_sent && then.promoted == run.promoted
            &&& then.phase == EmitPhase::Reporting <==> !run.ready_sent && (
            run.next_prime_ms matches Some(prime) && then.produced_ms >= prime)
            &&& then.phase != EmitPhase::Reporting ==> then.phase == EmitPhase::Idle
            &&& run.next_prime_ms is None ==> then.phase == EmitPhase::Idle
        }),
{
}

/// No other step counts media; a step that was cancelled or failed is the last.
pub proof fn only_queued_frames_are_counted(run: CpuRun, event: EmitEvent)
    requires
        run.expects(event),
        run.phase != EmitPhase::Returning,
    ensures
        run.after(event).produced_ms == run.produced_ms,
        run.after(event).queued_any == run.queued_any,
        run.after(event).generation == run.generation,
        event matches EmitEvent::Queued(result) ==> (result is Err <==> run.after(event).phase
            == EmitPhase::Stopped),
        event matches EmitEvent::Unpaused(ok) ==> (!ok <==> run.after(event).phase
            == EmitPhase::Stopped),
        event matches EmitEvent::CpuTaken(ok) ==> (!ok <==> run.after(event).phase
            == EmitPhase::Stopped),
        event matches EmitEvent::Reported(ok) ==> (!ok <==> run.after(event).phase
            == EmitPhase::Stopped),
        event matches EmitEvent::Promoted(ok) ==> (!ok <==> run.after(event).phase
            == EmitPhase::Stopped),
{
}

/// A producer that failed is reported in the role it has, under its generation; one
/// that was cancelled, or ended well, is not.
pub proof fn failures_are_reported_in_their_role(
    result: Result<(), MusicStreamError>,
    cancelled: bool,
    role: ProducerRole,
    generation: u64,
    event: Option<WorkerEvent>,
)
    requires
        call_ensures(producer_failure, (&result, cancelled, role, generation), event),
    ensures
        cancelled || result is Ok <==> event is None,
        event matches Some(event) ==> {
            &&& role == ProducerRole::Current ==> event is CurrentFailed
                && event->CurrentFailed_generation == generation && event->CurrentFailed_code
                == result->Err_0.spec_code()
            &&& role == ProducerRole::Next ==> event is NextFailed && event->NextFailed_generation
                == generation && event->NextFailed_code == result->Err_0.spec_code()
        },
{
}

/// A source that was looked up is used, or run as what it turned out to be, or fails
/// the job.
pub proof fn lookups_are_used_or_rerouted<A>(
    result: Result<A, MusicStreamError>,
    step: ResolveStep<A>,
)
    requires
        call_ensures(resolve_step::<A>, (result,), step),
    ensures
        result matches Ok(artifact) ==> step == ResolveStep::Ready(artifact),
        result matches Err(error) ==> {
            &&& error is DetectedLiveSource <==> step is RunLive
            &&& error is DetectedHlsSource <==> step is RunHls
            &&& !(error is DetectedLiveSource) && !(error is DetectedHlsSource) ==> step
                == ResolveStep::<A>::Fail(error)
        },
{
}

/// A job whose decoder ended first succeeds only if the decoder did and the source did
/// not fail, unless the source was only closed.
pub proof fn sources_explain_failures(
    cpu: Result<(), MusicStreamError>,
    source: SourceEnd,
    result: Result<(), MusicStreamError>,
)
    requires
        call_ensures(decoding_ended, (cpu, source), result),
    ensures
        source is Quiet ==> result == cpu,
        source matches SourceEnd::Failed(error) ==> if error is StreamClosed {
            result == cpu
        } else {
            result == Err::<(), MusicStreamError>(error)
        },
        source is Crashed ==> result is Err,
{
}

/// A source that was fetched whole leaves the decoder to finish; one that failed stops
/// it.
pub proof fn fetched_sources_are_decoded_to_the_end(
    result: Result<(), MusicStreamError>,
    step: SourceFirst,
)
    requires
        call_ensures(fetching_ended, (result,), step),
    ensures
        result is Ok <==> step is AwaitDecoder,
        result matches Err(error) ==> step == SourceFirst::StopDecoder(error),
{
}

/// What follows each phase of a frame: it is held while paused, queued, the slot is
/// taken back, and a next track that is ready says so under its own generation and
/// waits. A frame that is settled makes way for the next one.
pub proof fn phases_call_for_their_action(run: CpuRun, event: EmitEvent, action: EmitAction)
    requires
        run.calls_for(event, action),
    ensures
        run.phase == EmitPhase::Idle <==> action is Done,
        run.phase == EmitPhase::Paused <==> action is WaitWhilePaused,
        run.phase == EmitPhase::Queueing <==> action is Queue,
        run.phase == EmitPhase::Returning || run.phase == EmitPhase::Resuming <==> action is TakeCpu,
        run.phase == EmitPhase::Reporting <==> action is Report,
        run.phase == EmitPhase::AwaitingPromotion <==> action is WaitForPromotion,
        run.phase == EmitPhase::Stopped <==> action is Fail,
        action matches EmitAction::Report(told) ==> told == (WorkerEvent::NextReady {
            generation: run.generation,
        }),
        event matches EmitEvent::Queued(Err(error)) ==> run.phase == EmitPhase::Stopped ==> action
            == EmitAction::Fail(error),
{
}

/// A source that turned out to be something else is played as that, and nobody seeks
/// in it: what the owner is told is what the job goes by. Everything else about the
/// job stays, but a live one does not wait to be promoted. A finite playlist is not
/// live.
pub proof fn sources_are_played_as_they_turn_out(job: ProducerJob, playlist: HlsPlaylistKind)
    ensures
        ({
            let live = job.gone_live();
            &&& live.track.kind == TrackKind::Live && live.track.seekable == Some(false)
            &&& live.generation == job.generation && live.start_position_ms == job.start_position_ms
            &&& live.role == ProducerRole::Current && live.next_prime_ms is None
            &&& live.track.url == job.track.url && live.track.attempt_id == job.track.attempt_id
            &&& live.track.headers == job.track.headers
        }),
        ({
            let kind = playlist_track(playlist);
            let opened = job.opened_as(kind);
            &&& kind == TrackKind::Live <==> playlist == HlsPlaylistKind::Live
            &&& kind != TrackKind::File
            &&& opened.track.kind == kind && opened.track.seekable == Some(false)
            &&& opened.generation == job.generation && opened.role == job.role
                && opened.next_prime_ms == job.next_prime_ms
            &&& opened.track.url == job.track.url && opened.track.attempt_id == job.track.attempt_id
            &&& job.classified(kind) == (WorkerEvent::CurrentSourceClassified {
                generation: job.generation,
                kind: opened.track.kind,
                seekable: false,
            })
        }),
{
}

/// No permit is lost: of the one that comes and the one that was kept, one is kept and
/// the other given back, and a current track keeps none.
pub proof fn permits_are_kept_or_given_back<P>(control: MediaControl<P>, permit: P)
    ensures
        control.spec_role() == ProducerRole::Current ==> control.with_admission(permit) == control
            && control.spared_admission(permit) == Some(permit),
        control.spec_role() == ProducerRole::Next ==> {
            &&& control.with_admission(permit).preload_admission == Some(permit)
            &&& control.spared_admission(permit) == control.preload_admission
            &&& control.with_admission(permit).promotion().released == Some(permit)
        },
        control.with_admission(permit).volume == control.volume,
        control.with_admission(permit).gate == control.gate,
{
}

/// A source that turned out to be a playlist is fetched as one, and nobody seeks in it.
/// It stays the same track otherwise.
pub proof fn detected_playlists_are_fetched_as_such(job: ProducerJob, after: ProducerJob)
    requires
        job.is_playlist_in(after),
        job.track.kind != TrackKind::File,
    ensures
        after.spec_route() == SourceRoute::Hls,
        after.track.seekable == Some(false),
        after.track.kind == job.track.kind,
        after.track.url == job.track.url && after.track.attempt_id == job.track.attempt_id
            && after.track.headers == job.track.headers,
        after.generation == job.generation && after.start_position_ms == job.start_position_ms,
        after.role == ProducerRole::Current && after.next_prime_ms is None,
{
    reveal_strlit("m3u8");
    assert(crate::text::lower("m3u8"@) =~= seq!['m', '3', 'u', '8']);
}

/// Only what can be fetched ahead of time is preloaded: neither live media nor a
/// playlist. A current track may be any.
pub proof fn only_artifacts_are_preloaded(
    job: ProducerJob,
    route: SourceRoute,
    result: Result<(), MusicStreamError>,
)
    requires
        call_ensures(ProducerJob::check_live_route, (&job, route), result),
    ensures
        job.role == ProducerRole::Current ==> result is Ok,
        job.role == ProducerRole::Next ==> (result is Ok <==> route == SourceRoute::Artifact),
        result matches Err(error) ==> error is Unsupported,
{
}

/// Levels are news once: noted ones are not, any others are, and at the beginning all
/// are.
pub proof fn noted_levels_are_no_news(
    run: CpuRun,
    volume: VolumeLevel,
    gain: GainLevel,
    other_volume: VolumeLevel,
    other_gain: GainLevel,
)
    ensures
        run.levels is None ==> run.is_news(volume, gain),
        !run.noting(volume, gain).is_news(volume, gain),
        run.noting(volume, gain).is_news(other_volume, other_gain) <==> other_volume != volume
            || other_gain != gain,
        run.noting(volume, gain).phase == run.phase,
{
}

} // verus!
