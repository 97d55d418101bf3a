//! What each command and event does to a stream actor.
use super::types::{
    ActorOutput, AttemptState, PlaybackAttempt, StreamActor, StreamCommand, TaskAction, WorkerEvent,
};
use crate::error::{ErrorCode, MusicStreamError};
use crate::event::{SourceRole, StreamEvent};
use crate::model::{PlayState, StreamStatus, TrackSource};
use vstd::prelude::*;

verus! {

/// An actor together with the actions and events that a transition has produced
/// so far.
pub struct Step {
    pub actor: StreamActor,
    pub actions: Seq<TaskAction>,
    pub events: Seq<StreamEvent>,
}

impl Step {
    pub open spec fn still(actor: StreamActor) -> Step {
        Step { actor, actions: Seq::empty(), events: Seq::empty() }
    }

    pub open spec fn with(self, actor: StreamActor) -> Step {
        Step { actor, ..self }
    }

    pub open spec fn act(self, action: TaskAction) -> Step {
        Step { actions: self.actions.push(action), ..self }
    }

    pub open spec fn tell(self, event: StreamEvent) -> Step {
        Step { events: self.events.push(event), ..self }
    }

    pub open spec fn in_state(self, play_state: PlayState) -> Step {
        self.with(StreamActor { play_state, ..self.actor })
    }

    pub open spec fn with_current(self, current: Option<PlaybackAttempt>) -> Step {
        self.with(StreamActor { current, ..self.actor })
    }

    pub open spec fn with_next(self, next: Option<PlaybackAttempt>) -> Step {
        self.with(StreamActor { next, ..self.actor })
    }

    pub open spec fn ask_for_next(self) -> Step {
        self.tell(StreamEvent::NextNeeded { stream_id: self.actor.stream_id })
    }
}

impl StreamActor {
    pub open spec fn paused(self) -> bool {
        self.play_state == PlayState::Paused
    }

    /// The state of an actor that waits for media: an explicit pause is kept.
    pub open spec fn waiting(self) -> PlayState {
        if self.paused() {
            PlayState::Paused
        } else {
            PlayState::Buffering
        }
    }

    pub open spec fn plays(self, generation: u64) -> bool {
        self.current matches Some(attempt) && attempt.generation == generation
    }

    pub open spec fn newer_generation(self) -> u64 {
        (self.generation + 1) as u64
    }

    pub open spec fn spec_current_generation(self) -> u64 {
        match self.current {
            Some(attempt) => attempt.generation,
            None => self.generation,
        }
    }

    /// What the stream shows of itself. The request headers of its sources stay
    /// inside.
    pub open spec fn spec_status(self) -> StreamStatus {
        StreamStatus {
            stream_id: self.stream_id,
            current: match self.current {
                Some(attempt) => Some(attempt.source.spec_shown()),
                None => None,
            },
            next: match self.next {
                Some(attempt) => Some(attempt.source.spec_shown()),
                None => None,
            },
            play_state: self.play_state,
            time_played_ms: self.time_played_ms,
            generation: self.spec_current_generation(),
            plan_version: self.plan_version,
            volume: self.volume,
            gain: self.gain,
        }
    }

    /// Whether the actor remembers `source` as a current track that may be refreshed.
    pub open spec fn remembers(self, source: TrackSource) -> bool {
        self.refreshable_current_key matches Some(key) && key@ == source.attempt_id@
    }

    /// The slots hold attempts of distinct generations that were handed out, and
    /// a stopped stream holds none.
    pub open spec fn wf(self) -> bool {
        &&& self.current matches Some(current) ==> current.generation <= self.generation
        &&& self.next matches Some(next) ==> next.generation <= self.generation
        &&& self.current is Some && self.next is Some ==> self.current->0.generation
            != self.next->0.generation
        &&& self.play_state == PlayState::Stopped ==> self.current is None && self.next is None
            && self.refreshable_current_key is None
    }
}

// ---- what leaves the actor ----

/// Whether an event asks the owner for something; all others state facts.
pub open spec fn is_request(event: StreamEvent) -> bool {
    event is NextNeeded || event is SourceRefreshNeeded
}

/// Facts first, then the new state, then requests.
pub open spec fn ordered(events: Seq<StreamEvent>, status: StreamStatus) -> Seq<StreamEvent> {
    events.filter(|event: StreamEvent| !is_request(event)).push(
        StreamEvent::StateChanged { status: Box::new(status) },
    ) + events.filter(|event: StreamEvent| is_request(event))
}

/// `output` reports `step`, and `actor` is the state it leads to.
pub open spec fn reports(step: Step, actor: StreamActor, output: ActorOutput) -> bool {
    &&& actor == step.actor
    &&& output.actions@ == step.actions
    &&& output.status == actor.spec_status()
    &&& output.events@ == ordered(step.events, actor.spec_status())
}

// ---- pieces of transitions ----

/// Starts the attempt in the current slot.
pub open spec fn start_current(s: Step) -> Step {
    let attempt = s.actor.current->0.started();
    s.with_current(Some(attempt)).act(
        TaskAction::StartCurrent {
            generation: attempt.generation,
            watchdog_epoch: attempt.watchdog_epoch,
            track: attempt.source,
        },
    )
}

/// Starts the attempt in the next slot.
pub open spec fn start_next(s: Step) -> Step {
    let attempt = s.actor.next->0.started();
    s.with_next(Some(attempt)).act(
        TaskAction::PrepareNext {
            generation: attempt.generation,
            watchdog_epoch: attempt.watchdog_epoch,
            track: attempt.source,
        },
    )
}

pub open spec fn prepare_next(s: Step) -> Step {
    if s.actor.next matches Some(next) && !next.active() {
        start_next(s)
    } else {
        s
    }
}

pub open spec fn rearm_current(s: Step) -> Step {
    match s.actor.current {
        Some(attempt) if attempt.state == AttemptState::Starting => s.with_current(
            Some(attempt.rearmed()),
        ).act(
            TaskAction::ArmStartupDeadline {
                source_role: SourceRole::Current,
                generation: attempt.generation,
                watchdog_epoch: attempt.rearmed().watchdog_epoch,
            },
        ),
        _ => s,
    }
}

pub open spec fn rearm_next(s: Step) -> Step {
    match s.actor.next {
        Some(attempt) if attempt.state == AttemptState::Starting => s.with_next(
            Some(attempt.rearmed()),
        ).act(
            TaskAction::ArmStartupDeadline {
                source_role: SourceRole::Next,
                generation: attempt.generation,
                watchdog_epoch: attempt.rearmed().watchdog_epoch,
            },
        ),
        _ => s,
    }
}

/// Sets new deadlines for whatever is still starting.
pub open spec fn rearm(s: Step) -> Step {
    rearm_next(rearm_current(s))
}

pub open spec fn remember_current(s: Step) -> Step {
    s.with(
        StreamActor {
            refreshable_current_key: match s.actor.current {
                Some(attempt) => Some(attempt.source.attempt_id),
                None => None,
            },
            ..s.actor
        },
    )
}

/// Moves a ready next attempt into the current slot and starts its playout.
pub open spec fn promote_ready(s: Step) -> Step {
    start_current(
        s.with(
            StreamActor {
                current: s.actor.next,
                next: None,
                refreshable_current_key: None,
                time_played_ms: 0,
                play_state: s.actor.waiting(),
                ..s.actor
            },
        ),
    )
}

pub open spec fn next_is_ready(actor: StreamActor) -> bool {
    actor.next matches Some(next) && next.ready()
}

/// What follows when the current slot runs out: a ready next attempt is
/// promoted; one that is still starting is waited for; with none the stream
/// idles, and asks for one if `ask`.
pub open spec fn promote_or_wait(s: Step, ask: bool) -> Step {
    if next_is_ready(s.actor) {
        promote_ready(s)
    } else {
        let emptied = remember_current(s).with_current(None);
        if s.actor.next is Some {
            emptied.in_state(s.actor.waiting())
        } else if ask {
            emptied.in_state(PlayState::Idle).ask_for_next()
        } else {
            emptied.in_state(PlayState::Idle)
        }
    }
}

pub open spec fn refresh_request(
    actor: StreamActor,
    attempt: PlaybackAttempt,
    source_role: SourceRole,
) -> StreamEvent {
    StreamEvent::SourceRefreshNeeded {
        stream_id: actor.stream_id,
        attempt_id: attempt.source.attempt_id,
        track_id: attempt.source.id,
        source_role,
        generation: attempt.generation,
    }
}

pub open spec fn attempt_failure(
    actor: StreamActor,
    attempt: PlaybackAttempt,
    source_role: SourceRole,
    code: ErrorCode,
    message: String,
) -> StreamEvent {
    StreamEvent::AttemptFailed {
        stream_id: actor.stream_id,
        attempt_id: attempt.source.attempt_id,
        track_id: attempt.source.id,
        source_role,
        generation: attempt.generation,
        code,
        message,
    }
}

/// The current attempt failed. An expired authorisation with nothing queued
/// asks for a refreshed source instead of a next track.
pub open spec fn fail_current(s: Step, code: ErrorCode, message: String) -> Step {
    let attempt = s.actor.current->0;
    let refresh = code == ErrorCode::SourceAuthExpired && s.actor.next is None;
    let cancelled = s.act(TaskAction::CancelCurrent { generation: attempt.generation });
    let asked = if refresh {
        cancelled.tell(refresh_request(s.actor, attempt, SourceRole::Current))
    } else {
        cancelled
    };
    promote_or_wait(
        asked.tell(attempt_failure(s.actor, attempt, SourceRole::Current, code, message)),
        !refresh,
    )
}

/// The next attempt failed: its slot empties. A playing current track is not
/// disturbed; without one the stream asks for a next track.
pub open spec fn fail_next(s: Step, code: ErrorCode, message: String) -> Step {
    let attempt = s.actor.next->0;
    let asked = if code == ErrorCode::SourceAuthExpired && s.actor.current is Some {
        s.tell(refresh_request(s.actor, attempt, SourceRole::Next))
    } else {
        s
    };
    let emptied = asked.act(TaskAction::CancelNext { generation: attempt.generation }).with_next(
        None,
    );
    let settled = if s.actor.current is None {
        emptied.in_state(
            if s.actor.paused() {
                PlayState::Paused
            } else {
                PlayState::Idle
            },
        ).ask_for_next()
    } else {
        emptied
    };
    settled.tell(attempt_failure(s.actor, attempt, SourceRole::Next, code, message))
}

// ---- commands ----

pub enum Refusal {
    Unsupported(Seq<char>),
    NotSeekable(Seq<char>),
    InvalidSource(Seq<char>),
}

pub open spec fn refused_with(error: MusicStreamError, refusal: Refusal) -> bool {
    match refusal {
        Refusal::Unsupported(text) => error matches MusicStreamError::Unsupported(m) && m@ == text,
        Refusal::NotSeekable(text) => error matches MusicStreamError::NotSeekable(m) && m@ == text,
        Refusal::InvalidSource(text) => error matches MusicStreamError::InvalidSource(m) && m@
            == text,
    }
}

/// Why `actor` refuses `command`, if it does.
pub open spec fn refusal(actor: StreamActor, command: StreamCommand) -> Option<Refusal> {
    match command {
        StreamCommand::Play => if actor.play_state == PlayState::Stopped {
            Some(Refusal::Unsupported("cannot play a stopped stream"@))
        } else {
            None
        },
        StreamCommand::Pause => if actor.current matches Some(attempt)
            && attempt.source.spec_is_live() {
            Some(
                Refusal::Unsupported("live sources cannot be paused without a timeshift store"@),
            )
        } else {
            None
        },
        StreamCommand::Seek { .. } => match actor.current {
            None => Some(Refusal::Unsupported("cannot seek without a current track"@)),
            Some(attempt) => if attempt.source.spec_is_seekable() {
                None
            } else {
                Some(Refusal::NotSeekable(attempt.source.id@))
            },
        },
        StreamCommand::RefreshCurrentSource { current } => {
            let known = match actor.current {
                Some(attempt) => attempt.source.spec_same_attempt_as(current),
                None => actor.remembers(current),
            };
            if known {
                None
            } else {
                Some(
                    Refusal::InvalidSource(
                        "refreshed current source must keep the current track id"@,
                    ),
                )
            }
        },
        StreamCommand::ReconcilePlan { version, current, next } => if version > actor.plan_version
            && (next matches Some(source) && source.spec_is_live()) {
            Some(
                Refusal::Unsupported(
                    "live sources cannot be preloaded as next without a timeshift model"@,
                ),
            )
        } else {
            None
        },
        StreamCommand::Stop | StreamCommand::SetVolume { .. } | StreamCommand::SetGain {
            ..
        } => None,
    }
}

/// How many generations bringing a next slot that holds `slot` to hold `next`
/// hands out.
pub open spec fn generations_for_next(
    slot: Option<PlaybackAttempt>,
    next: Option<TrackSource>,
) -> int {
    match next {
        Some(source) => if holds_attempt(slot, source) {
            0
        } else {
            1
        },
        None => 0,
    }
}

/// How many generations an accepted command hands out.
pub open spec fn generations_for(actor: StreamActor, command: StreamCommand) -> int {
    match command {
        StreamCommand::Seek { .. } | StreamCommand::RefreshCurrentSource { .. } => 1,
        StreamCommand::ReconcilePlan { version, current, next } => match current {
            Some(source) => if version <= actor.plan_version {
                0
            } else if holds_attempt(actor.current, source) {
                generations_for_next(actor.next, next)
            } else if holds_attempt(actor.next, source) {
                generations_for_next(None, next)
            } else {
                1 + generations_for_next(None, next)
            },
            None => 0,
        },
        _ => 0,
    }
}

/// Whether the generations that `command` hands out, unless it is refused, can
/// still be counted.
pub open spec fn room_for(actor: StreamActor, command: StreamCommand) -> bool {
    refusal(actor, command) is None ==> actor.generation + generations_for(actor, command)
        <= u64::MAX
}

/// Playing resumes a pause, starts what is dormant, and without anything to
/// play asks for a next track.
pub open spec fn play(s: Step) -> Step {
    let was_paused = s.actor.paused();
    let moved = match s.actor.current {
        None => match s.actor.next {
            Some(next) => if was_paused && next.active() {
                s.act(TaskAction::ResumeNext { generation: next.generation }).in_state(
                    PlayState::Buffering,
                )
            } else {
                s.in_state(PlayState::Buffering)
            },
            None => s.in_state(PlayState::Idle).ask_for_next(),
        },
        Some(current) => {
            let running = if was_paused && current.ready() {
                s.in_state(PlayState::Playing)
            } else if s.actor.play_state == PlayState::Playing {
                s
            } else if current.active() {
                s.in_state(PlayState::Buffering)
            } else {
                start_current(s.in_state(PlayState::Buffering))
            };
            if was_paused && current.active() {
                running.act(TaskAction::ResumeCurrent { generation: current.generation })
            } else {
                running
            }
        },
    };
    prepare_next(
        if was_paused {
            rearm(moved)
        } else {
            moved
        },
    )
}

/// Pausing holds the media task and sets the startup deadlines aside.
pub open spec fn pause(s: Step) -> Step {
    if s.actor.play_state == PlayState::Playing || s.actor.play_state == PlayState::Buffering {
        let held = if s.actor.current matches Some(current) && current.active() {
            s.act(TaskAction::PauseCurrent { generation: s.actor.current->0.generation })
        } else if s.actor.next matches Some(next) && next.active() {
            s.act(TaskAction::PauseNext { generation: s.actor.next->0.generation })
        } else {
            s
        };
        held.with(
            StreamActor {
                current: match s.actor.current {
                    Some(attempt) => Some(attempt.rearmed()),
                    None => None,
                },
                next: match s.actor.next {
                    Some(attempt) => Some(attempt.rearmed()),
                    None => None,
                },
                play_state: PlayState::Paused,
                ..s.actor
            },
        )
    } else {
        s
    }
}

/// The slots are emptied for good.
pub open spec fn emptied_and_stopped(actor: StreamActor) -> StreamActor {
    StreamActor {
        current: None,
        next: None,
        refreshable_current_key: None,
        play_state: PlayState::Stopped,
        ..actor
    }
}

pub open spec fn stop(s: Step) -> Step {
    if s.actor.play_state == PlayState::Stopped {
        s
    } else {
        s.with(emptied_and_stopped(s.actor)).act(TaskAction::StopSender).tell(
            StreamEvent::StreamStopped { stream_id: s.actor.stream_id },
        )
    }
}

pub open spec fn millis_of(seconds: u64) -> u64 {
    if seconds * 1_000 > u64::MAX {
        u64::MAX
    } else {
        (seconds * 1_000) as u64
    }
}

/// Puts a fresh attempt at `source` into the current slot at `time_played_ms`.
/// A paused stream only drops the attempt of `replaced`, if there is one.
pub open spec fn restart_current(
    s: Step,
    source: TrackSource,
    time_played_ms: u64,
    replaced: Option<u64>,
) -> Step {
    let generation = s.actor.newer_generation();
    let seated = s.with(
        StreamActor {
            current: Some(PlaybackAttempt::dormant(source, generation)),
            generation,
            time_played_ms,
            play_state: s.actor.waiting(),
            ..s.actor
        },
    );
    if !s.actor.paused() {
        start_current(seated)
    } else {
        match replaced {
            Some(old) => seated.act(TaskAction::CancelCurrent { generation: old }),
            None => seated,
        }
    }
}

pub open spec fn generation_of(attempt: Option<PlaybackAttempt>) -> Option<u64> {
    match attempt {
        Some(attempt) => Some(attempt.generation),
        None => None,
    }
}

/// Seeking replaces the current attempt by a fresh one at the new position.
pub open spec fn seek(s: Step, seconds: u64) -> Step {
    restart_current(
        s,
        s.actor.current->0.source,
        millis_of(seconds),
        generation_of(s.actor.current),
    )
}

pub open spec fn refresh_current(s: Step, source: TrackSource) -> Step {
    restart_current(
        s.with(StreamActor { refreshable_current_key: None, ..s.actor }),
        source,
        0,
        generation_of(s.actor.current),
    )
}

/// Brings the next slot to hold `next`: the same attempt keeps its progress,
/// another one takes its place.
pub open spec fn reconcile_next(s: Step, next: Option<TrackSource>) -> Step {
    match next {
        None => match s.actor.next {
            None => s,
            Some(old) => s.act(TaskAction::CancelNext { generation: old.generation }).with_next(
                None,
            ),
        },
        Some(source) => match s.actor.next {
            Some(old) if old.source.spec_same_attempt_as(source) => s.with_next(
                Some(PlaybackAttempt { source, ..old }),
            ),
            _ => {
                let generation = s.actor.newer_generation();
                let seated = s.with(
                    StreamActor {
                        next: Some(PlaybackAttempt::dormant(source, generation)),
                        generation,
                        ..s.actor
                    },
                );
                if !s.actor.paused() {
                    start_next(seated)
                } else {
                    match s.actor.next {
                        Some(old) => seated.act(
                            TaskAction::CancelNext { generation: old.generation },
                        ),
                        None => seated,
                    }
                }
            },
        },
    }
}

/// Both slots are taken over by a new plan.
pub open spec fn replace_current(
    s: Step,
    current: TrackSource,
    next: Option<TrackSource>,
) -> Step {
    let cleared = s.with(
        StreamActor { current: None, next: None, refreshable_current_key: None, ..s.actor },
    );
    let playing = restart_current(cleared, current, 0, generation_of(s.actor.current));
    match next {
        Some(_) => reconcile_next(playing, next),
        None => match s.actor.next {
            Some(old) => playing.act(TaskAction::CancelNext { generation: old.generation }),
            None => playing,
        },
    }
}

/// An empty plan drops both slots.
pub open spec fn drop_plan(s: Step) -> Step {
    let first = match s.actor.current {
        Some(old) => s.act(TaskAction::CancelCurrent { generation: old.generation }),
        None => s,
    };
    let second = match s.actor.next {
        Some(old) => first.act(TaskAction::CancelNext { generation: old.generation }),
        None => first,
    };
    second.with(
        StreamActor {
            current: None,
            next: None,
            refreshable_current_key: None,
            time_played_ms: 0,
            play_state: if s.actor.paused() {
                PlayState::Paused
            } else {
                PlayState::Idle
            },
            ..s.actor
        },
    )
}

/// The planned current track sits in the next slot: it moves over, keeping its
/// generation, whether or not it is ready.
pub open spec fn promote_planned(s: Step, current: TrackSource) -> Step {
    let remembered = remember_current(s);
    start_current(
        remembered.with(
            StreamActor {
                current: Some(PlaybackAttempt { source: current, ..s.actor.next->0 }),
                next: None,
                time_played_ms: 0,
                play_state: s.actor.waiting(),
                ..remembered.actor
            },
        ),
    )
}

pub open spec fn holds_attempt(slot: Option<PlaybackAttempt>, source: TrackSource) -> bool {
    slot matches Some(attempt) && attempt.source.spec_same_attempt_as(source)
}

/// Follows a plan that is newer than the one in force; any other is ignored.
pub open spec fn reconcile(
    s: Step,
    version: u64,
    current: Option<TrackSource>,
    next: Option<TrackSource>,
) -> Step {
    if version <= s.actor.plan_version {
        s
    } else {
        let followed = match current {
            None => drop_plan(s),
            Some(source) => if holds_attempt(s.actor.current, source) {
                reconcile_next(
                    s.with_current(Some(PlaybackAttempt { source, ..s.actor.current->0 })),
                    next,
                )
            } else if holds_attempt(s.actor.next, source) {
                reconcile_next(promote_planned(s, source), next)
            } else {
                replace_current(s, source, next)
            },
        };
        followed.with(StreamActor { plan_version: version, ..followed.actor })
    }
}

/// Hands a level to the attempts that are running.
pub open spec fn level_actions(
    actor: StreamActor,
    for_current: spec_fn(u64) -> TaskAction,
    for_next: spec_fn(u64) -> TaskAction,
) -> Seq<TaskAction> {
    let first = match actor.current {
        Some(attempt) if attempt.active() => seq![for_current(attempt.generation)],
        _ => Seq::empty(),
    };
    let second = match actor.next {
        Some(attempt) if attempt.active() => seq![for_next(attempt.generation)],
        _ => Seq::empty(),
    };
    first + second
}

/// What an accepted command does.
pub open spec fn obey(actor: StreamActor, command: StreamCommand) -> Step {
    let s = Step::still(actor);
    match command {
        StreamCommand::Play => play(s),
        StreamCommand::Pause => pause(s),
        StreamCommand::Stop => stop(s),
        StreamCommand::Seek { seconds } => seek(s, seconds),
        StreamCommand::RefreshCurrentSource { current } => refresh_current(s, current),
        StreamCommand::ReconcilePlan { version, current, next } => reconcile(
            s,
            version,
            current,
            next,
        ),
        StreamCommand::SetVolume { volume } => Step {
            actor: StreamActor { volume, ..actor },
            actions: level_actions(
                actor,
                |generation: u64| TaskAction::SetCurrentVolume { generation, volume },
                |generation: u64| TaskAction::SetNextVolume { generation, volume },
            ),
            events: Seq::empty(),
        },
        StreamCommand::SetGain { gain } => Step {
            actor: StreamActor { gain, ..actor },
            actions: level_actions(
                actor,
                |generation: u64| TaskAction::SetCurrentGain { generation, gain },
                |generation: u64| TaskAction::SetNextGain { generation, gain },
            ),
            events: Seq::empty(),
        },
    }
}

// ---- events ----

/// The words with which a missed startup deadline is reported.
pub open spec fn deadline_text(source_role: SourceRole) -> Seq<char> {
    match source_role {
        SourceRole::Current => "playback attempt did not become ready before its startup deadline"@,
        SourceRole::Next => "preload attempt did not become ready before its startup deadline"@,
    }
}

/// `text` is the message that `event` itself does not carry.
pub open spec fn supplies_text(event: WorkerEvent, text: String) -> bool {
    event matches WorkerEvent::StartupTimedOut { source_role, .. } ==> text@ == deadline_text(
        source_role,
    )
}

/// The stream as a whole failed: nothing is left to run.
pub open spec fn fail_output(s: Step, code: ErrorCode, message: String) -> Step {
    s.with(emptied_and_stopped(s.actor)).tell(
        StreamEvent::Error { stream_id: s.actor.stream_id, code, message },
    ).tell(StreamEvent::StreamStopped { stream_id: s.actor.stream_id })
}

pub open spec fn time_out(
    s: Step,
    source_role: SourceRole,
    generation: u64,
    epoch: u64,
    text: String,
) -> Step {
    if s.actor.paused() {
        s
    } else {
        match source_role {
            SourceRole::Current => if s.actor.current matches Some(attempt) && attempt.awaits(
                generation,
                epoch,
            ) {
                fail_current(s, ErrorCode::SourceTimeout, text)
            } else {
                s
            },
            SourceRole::Next => if s.actor.next matches Some(attempt) && attempt.awaits(
                generation,
                epoch,
            ) {
                fail_next(s, ErrorCode::SourceTimeout, text)
            } else {
                s
            },
        }
    }
}

/// What a worker event does; `text` words a missed deadline.
pub open spec fn react(actor: StreamActor, event: WorkerEvent, text: String) -> Step {
    let s = Step::still(actor);
    match event {
        WorkerEvent::CurrentSourceClassified { generation, kind, seekable } => if actor.plays(
            generation,
        ) {
            s.with_current(
                Some(
                    PlaybackAttempt {
                        source: TrackSource {
                            kind,
                            seekable: Some(seekable),
                            ..actor.current->0.source
                        },
                        ..actor.current->0
                    },
                ),
            )
        } else {
            s
        },
        WorkerEvent::CurrentPrebufferReady { generation } => if actor.plays(generation) {
            s.with_current(
                Some(PlaybackAttempt { state: AttemptState::Ready, ..actor.current->0 }),
            ).in_state(
                if actor.paused() {
                    PlayState::Paused
                } else {
                    PlayState::Playing
                },
            )
        } else {
            s
        },
        WorkerEvent::CurrentEnded { generation } => if actor.plays(generation) {
            promote_or_wait(s, true)
        } else {
            s
        },
        WorkerEvent::CurrentFailed { generation, code, message } => if actor.plays(generation) {
            fail_current(s, code, message)
        } else {
            s
        },
        WorkerEvent::OutputFailed { code, message } => fail_output(s, code, message),
        WorkerEvent::CurrentNetworkQualityChanged { generation, quality, snapshot } => if actor.plays(
            generation,
        ) {
            s.tell(
                StreamEvent::NetworkQualityChanged { stream_id: actor.stream_id, quality, snapshot },
            )
        } else {
            s
        },
        WorkerEvent::NextReady { generation } => if actor.next matches Some(next)
            && next.generation == generation && next.active() {
            let readied = s.with_next(
                Some(PlaybackAttempt { state: AttemptState::Ready, ..actor.next->0 }),
            );
            if actor.current is None {
                promote_ready(readied)
            } else {
                readied
            }
        } else {
            s
        },
        WorkerEvent::NextFailed { generation, code, message } => if actor.next matches Some(next)
            && next.generation == generation && next.active() {
            fail_next(s, code, message)
        } else {
            s
        },
        WorkerEvent::StartupTimedOut { source_role, generation, watchdog_epoch } => time_out(
            s,
            source_role,
            generation,
            watchdog_epoch,
            text,
        ),
    }
}

} // verus!
