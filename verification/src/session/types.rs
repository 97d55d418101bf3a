//! Values that go into and come out of a stream actor.
use crate::error::ErrorCode;
use crate::event::{SourceRole, StreamEvent};
use crate::model::{copy_text, GainLevel, PlayState, StreamStatus, TrackKind, TrackSource, VolumeLevel};
use crate::quality::{RtcpNetworkQualityLevel, RtcpQualityWindowSnapshot};
use vstd::prelude::*;

verus! {

#[derive(Clone, Debug, PartialEq, Eq)]
pub enum StreamCommand {
    Play,
    Pause,
    Stop,
    Seek { seconds: u64 },
    RefreshCurrentSource { current: TrackSource },
    ReconcilePlan { version: u64, current: Option<TrackSource>, next: Option<TrackSource> },
    SetVolume { volume: VolumeLevel },
    SetGain { gain: GainLevel },
}

#[derive(Clone, Debug, PartialEq)]
pub enum WorkerEvent {
    CurrentSourceClassified { generation: u64, kind: TrackKind, seekable: bool },
    CurrentPrebufferReady { generation: u64 },
    CurrentEnded { generation: u64 },
    CurrentFailed { generation: u64, code: ErrorCode, message: String },
    OutputFailed { code: ErrorCode, message: String },
    CurrentNetworkQualityChanged {
        generation: u64,
        quality: RtcpNetworkQualityLevel,
        snapshot: RtcpQualityWindowSnapshot,
    },
    NextReady { generation: u64 },
    NextFailed { generation: u64, code: ErrorCode, message: String },
    StartupTimedOut { source_role: SourceRole, generation: u64, watchdog_epoch: u64 },
}

#[derive(Clone, Debug, PartialEq, Eq)]
pub enum TaskAction {
    StartCurrent { generation: u64, watchdog_epoch: u64, track: TrackSource },
    CancelCurrent { generation: u64 },
    PrepareNext { generation: u64, watchdog_epoch: u64, track: TrackSource },
    CancelNext { generation: u64 },
    PauseCurrent { generation: u64 },
    PauseNext { generation: u64 },
    ResumeCurrent { generation: u64 },
    ResumeNext { generation: u64 },
    ArmStartupDeadline { source_role: SourceRole, generation: u64, watchdog_epoch: u64 },
    SetCurrentVolume { generation: u64, volume: VolumeLevel },
    SetNextVolume { generation: u64, volume: VolumeLevel },
    SetCurrentGain { generation: u64, gain: GainLevel },
    SetNextGain { generation: u64, gain: GainLevel },
    StopSender,
}

#[derive(Clone, Debug, PartialEq)]
pub struct ActorOutput {
    pub actions: Vec<TaskAction>,
    pub events: Vec<StreamEvent>,
    pub status: StreamStatus,
}

#[derive(Clone, Copy, Debug, PartialEq, Eq, Structural)]
pub enum AttemptState {
    Dormant,
    Starting,
    Ready,
}

/// One try at playing a source in a slot. Its generation names it for good.
#[derive(Debug, PartialEq, Eq)]
pub struct PlaybackAttempt {
    pub source: TrackSource,
    pub generation: u64,
    pub state: AttemptState,
    /// Counts how often the startup deadline was set or set aside.
    pub watchdog_epoch: u64,
}

impl Clone for PlaybackAttempt {
    fn clone(&self) -> (copy: Self)
        ensures
            copy == *self,
    {
        PlaybackAttempt {
            source: self.source.clone(),
            generation: self.generation,
            state: self.state,
            watchdog_epoch: self.watchdog_epoch,
        }
    }
}

pub(crate) fn copy_attempt(attempt: &Option<PlaybackAttempt>) -> (copy: Option<PlaybackAttempt>)
    ensures
        copy == *attempt,
{
    match attempt {
        Some(attempt) => Some(attempt.clone()),
        None => None,
    }
}

/// The epoch after `epoch`; the last one stays.
pub open spec fn next_epoch(epoch: u64) -> u64 {
    if epoch == u64::MAX {
        u64::MAX
    } else {
        (epoch + 1) as u64
    }
}

impl PlaybackAttempt {
    pub open spec fn dormant(source: TrackSource, generation: u64) -> PlaybackAttempt {
        PlaybackAttempt { source, generation, state: AttemptState::Dormant, watchdog_epoch: 0 }
    }

    pub open spec fn started(self) -> PlaybackAttempt {
        PlaybackAttempt {
            state: AttemptState::Starting,
            watchdog_epoch: next_epoch(self.watchdog_epoch),
            ..self
        }
    }

    /// The attempt with any deadline set so far made void.
    pub open spec fn rearmed(self) -> PlaybackAttempt {
        if self.state == AttemptState::Starting {
            PlaybackAttempt { watchdog_epoch: next_epoch(self.watchdog_epoch), ..self }
        } else {
            self
        }
    }

    pub open spec fn active(self) -> bool {
        self.state != AttemptState::Dormant
    }

    pub open spec fn ready(self) -> bool {
        self.state == AttemptState::Ready
    }

    /// Whether a deadline set for `generation` in `epoch` still binds this attempt.
    pub open spec fn awaits(self, generation: u64, epoch: u64) -> bool {
        self.generation == generation && self.state == AttemptState::Starting
            && self.watchdog_epoch == epoch
    }

    pub fn new(source: TrackSource, generation: u64) -> (attempt: Self)
        ensures
            attempt == PlaybackAttempt::dormant(source, generation),
    {
        PlaybackAttempt { source, generation, state: AttemptState::Dormant, watchdog_epoch: 0 }
    }

    /// Begins startup and returns the epoch of its deadline.
    pub fn start(&mut self) -> (epoch: u64)
        ensures
            *final(self) == old(self).started(),
            epoch == final(self).watchdog_epoch,
    {
        self.state = AttemptState::Starting;
        self.watchdog_epoch = self.watchdog_epoch.saturating_add(1);
        self.watchdog_epoch
    }

    /// Makes the pending deadline of a starting attempt void.
    pub fn suspend_watchdog(&mut self)
        ensures
            *final(self) == old(self).rearmed(),
    {
        if self.state == AttemptState::Starting {
            self.watchdog_epoch = self.watchdog_epoch.saturating_add(1);
        }
    }

    /// Opens a new deadline epoch for a starting attempt.
    pub fn resume_watchdog(&mut self) -> (epoch: Option<u64>)
        ensures
            *final(self) == old(self).rearmed(),
            epoch == if old(self).state == AttemptState::Starting {
                Some(final(self).watchdog_epoch)
            } else {
                None
            },
    {
        if self.state == AttemptState::Starting {
            self.watchdog_epoch = self.watchdog_epoch.saturating_add(1);
            Some(self.watchdog_epoch)
        } else {
            None
        }
    }

    pub fn is_active(&self) -> (active: bool)
        ensures
            active == self.active(),
    {
        self.state != AttemptState::Dormant
    }

    pub fn is_ready(&self) -> (ready: bool)
        ensures
            ready == self.ready(),
    {
        self.state == AttemptState::Ready
    }
}

/// The state of one stream: two playout slots and what surrounds them.
#[derive(Debug)]
pub struct StreamActor {
    pub stream_id: String,
    pub current: Option<PlaybackAttempt>,
    pub next: Option<PlaybackAttempt>,
    /// Attempt key of a current track that may still be refreshed after it left its slot.
    pub refreshable_current_key: Option<String>,
    pub play_state: PlayState,
    /// The newest generation handed out.
    pub generation: u64,
    pub plan_version: u64,
    pub time_played_ms: u64,
    pub volume: VolumeLevel,
    pub gain: GainLevel,
}

impl Clone for StreamActor {
    fn clone(&self) -> (copy: Self)
        ensures
            copy == *self,
    {
        StreamActor {
            stream_id: self.stream_id.clone(),
            current: copy_attempt(&self.current),
            next: copy_attempt(&self.next),
            refreshable_current_key: copy_text(&self.refreshable_current_key),
            play_state: self.play_state,
            generation: self.generation,
            plan_version: self.plan_version,
            time_played_ms: self.time_played_ms,
            volume: self.volume,
            gain: self.gain,
        }
    }
}

/// Starting an attempt opens a new deadline epoch, and so does setting a deadline
/// aside or anew while it starts, as long as epochs can be counted. An attempt that
/// is not starting has no deadline to set aside. What is tried, and under which
/// generation, stays.
pub proof fn epochs_move_on(attempt: PlaybackAttempt)
    ensures
        attempt.started().state == AttemptState::Starting,
        attempt.watchdog_epoch < u64::MAX ==> attempt.started().watchdog_epoch
            == attempt.watchdog_epoch + 1,
        attempt.started().source == attempt.source && attempt.started().generation
            == attempt.generation,
        attempt.rearmed().state == attempt.state,
        attempt.state == AttemptState::Starting && attempt.watchdog_epoch < u64::MAX
            ==> attempt.rearmed().watchdog_epoch == attempt.watchdog_epoch + 1,
        attempt.state != AttemptState::Starting ==> attempt.rearmed() == attempt,
        attempt.rearmed().source == attempt.source && attempt.rearmed().generation
            == attempt.generation,
{
}

/// An attempt begins dormant.
pub proof fn attempts_begin_dormant(source: TrackSource, generation: u64)
    ensures
        PlaybackAttempt::dormant(source, generation).state == AttemptState::Dormant,
        PlaybackAttempt::dormant(source, generation).source == source,
        PlaybackAttempt::dormant(source, generation).generation == generation,
        PlaybackAttempt::dormant(source, generation).watchdog_epoch == 0,
{
}

} // verus!
