//! The actor of one stream: commands and worker events in, actions and events out.
use super::spec::{
    fail_current, fail_next, fail_output, generations_for, generations_for_next, holds_attempt,
    is_request, next_is_ready, obey, ordered, pause, play, prepare_next, promote_or_wait,
    promote_ready, react, rearm, rearm_current, reconcile, reconcile_next, refresh_current,
    refusal, refused_with, remember_current, replace_current, reports, room_for, seek, stop,
    supplies_text, time_out, Step,
};
use super::types::{
    ActorOutput, AttemptState, PlaybackAttempt, StreamActor, StreamCommand, TaskAction, WorkerEvent,
};
use crate::error::{ErrorCode, MusicStreamError};
use crate::event::{SourceRole, StreamEvent};
use crate::headers::SourceHeader;
use crate::model::{GainLevel, PlayState, StreamStatus, TrackSource, VolumeLevel};
use vstd::prelude::*;

verus! {

/// Actions and events gathered by one transition.
struct ActorEffects {
    actions: Vec<TaskAction>,
    events: Vec<StreamEvent>,
}

spec fn step(actor: StreamActor, effects: ActorEffects) -> Step {
    Step { actor, actions: effects.actions@, events: effects.events@ }
}

/// `actor` holds dormant attempts at the given sources, numbered from 1, at
/// full volume and without gain.
pub open spec fn newly_made(
    actor: StreamActor,
    stream_id: String,
    current: Option<TrackSource>,
    next: Option<TrackSource>,
) -> bool {
    let first: u64 = if current is Some {
        1
    } else {
        0
    };
    let second: u64 = if next is Some {
        (first + 1) as u64
    } else {
        first
    };
    &&& actor.stream_id == stream_id
    &&& actor.current == match current {
        Some(source) => Some(PlaybackAttempt::dormant(source, first)),
        None => None,
    }
    &&& actor.next == match next {
        Some(source) => Some(PlaybackAttempt::dormant(source, second)),
        None => None,
    }
    &&& actor.generation == second
    &&& actor.refreshable_current_key is None
    &&& actor.play_state == PlayState::Idle
    &&& actor.plan_version == 0
    &&& actor.time_played_ms == 0
    &&& actor.volume@ == VolumeLevel::SCALE
    &&& actor.gain@ == 0
}

/// Whether a slot holds an attempt at `source`.
fn occupies(slot: &Option<PlaybackAttempt>, source: &TrackSource) -> (same: bool)
    ensures
        same == holds_attempt(*slot, *source),
{
    match slot {
        Some(attempt) => attempt.source.same_attempt_as(source),
        None => false,
    }
}

impl ActorEffects {
    fn none() -> (effects: Self)
        ensures
            effects.actions@ == Seq::<TaskAction>::empty(),
            effects.events@ == Seq::<StreamEvent>::empty(),
    {
        ActorEffects { actions: Vec::new(), events: Vec::new() }
    }

    /// Orders the events and closes the transition.
    fn into_output(self, status: StreamStatus) -> (output: ActorOutput)
        ensures
            output.actions@ == self.actions@,
            output.status == status,
            output.events@ == ordered(self.events@, status),
    {
        let ActorEffects { actions, events } = self;
        let ghost all = events@;
        let ghost fact = |event: StreamEvent| !is_request(event);
        let ghost request = |event: StreamEvent| is_request(event);
        let mut rest = events;
        let mut facts: Vec<StreamEvent> = Vec::new();
        let mut requests: Vec<StreamEvent> = Vec::new();
        let ghost mut taken: int = 0;
        proof {
            reveal(Seq::filter);
            assert(all.skip(0) =~= all);
            assert(all.take(0).filter(fact) =~= Seq::empty());
            assert(all.take(0).filter(request) =~= Seq::empty());
        }
        while rest.len() > 0
            invariant
                0 <= taken <= all.len(),
                rest@ == all.skip(taken),
                facts@ == all.take(taken).filter(fact),
                requests@ == all.take(taken).filter(request),
                fact == (|event: StreamEvent| !is_request(event)),
                request == (|event: StreamEvent| is_request(event)),
            decreases rest.len(),
        {
            let event = rest.remove(0);
            proof {
                reveal(Seq::filter);
                assert(all.take(taken + 1).drop_last() =~= all.take(taken));
                assert(rest@ =~= all.skip(taken + 1));
                taken = taken + 1;
            }
            let asks = match &event {
                StreamEvent::NextNeeded { .. } | StreamEvent::SourceRefreshNeeded { .. } => true,
                _ => false,
            };
            if asks {
                requests.push(event);
            } else {
                facts.push(event);
            }
        }
        proof {
            assert(all.take(taken) =~= all);
        }
        facts.push(StreamEvent::StateChanged { status: Box::new(status.clone()) });
        facts.append(&mut requests);
        ActorOutput { actions, events: facts, status }
    }
}

impl StreamActor {
    /// A stream that holds `current`, not yet playing.
    #[must_use]
    pub fn new(stream_id: String, current: Option<TrackSource>) -> (actor: Self)
        ensures
            actor.wf(),
            newly_made(actor, stream_id, current, None),
    {
        StreamActor::with_next(stream_id, current, None)
    }

    /// A stream that holds `current` and `next`, neither started.
    #[must_use]
    pub fn with_next(
        stream_id: String,
        current: Option<TrackSource>,
        next: Option<TrackSource>,
    ) -> (actor: Self)
        ensures
            actor.wf(),
            newly_made(actor, stream_id, current, next),
    {
        let mut generation: u64 = 0;
        let current = match current {
            Some(source) => {
                generation = generation + 1;
                Some(PlaybackAttempt::new(source, generation))
            },
            None => None,
        };
        let next = match next {
            Some(source) => {
                generation = generation + 1;
                Some(PlaybackAttempt::new(source, generation))
            },
            None => None,
        };
        StreamActor {
            stream_id,
            current,
            next,
            refreshable_current_key: None,
            play_state: PlayState::Idle,
            generation,
            plan_version: 0,
            time_played_ms: 0,
            volume: VolumeLevel::default(),
            gain: GainLevel::default(),
        }
    }

    #[must_use]
    pub fn status(&self) -> (status: StreamStatus)
        ensures
            status == self.spec_status(),
            status.current matches Some(source) ==> source.headers@ == Seq::<SourceHeader>::empty(),
            status.next matches Some(source) ==> source.headers@ == Seq::<SourceHeader>::empty(),
    {
        StreamStatus {
            stream_id: self.stream_id.clone(),
            current: match &self.current {
                Some(attempt) => Some(attempt.source.shown()),
                None => None,
            },
            next: match &self.next {
                Some(attempt) => Some(attempt.source.shown()),
                None => None,
            },
            play_state: self.play_state,
            time_played_ms: self.time_played_ms,
            generation: self.current_generation(),
            plan_version: self.plan_version,
            volume: self.volume,
            gain: self.gain,
        }
    }

    #[must_use]
    pub fn current_generation(&self) -> (generation: u64)
        ensures
            generation == self.spec_current_generation(),
    {
        match &self.current {
            Some(attempt) => attempt.generation,
            None => self.generation,
        }
    }

    fn refuses(&self, command: &StreamCommand) -> (refused: bool)
        ensures
            refused == (refusal(*self, *command) is Some),
    {
        match command {
            StreamCommand::Play => self.play_state == PlayState::Stopped,
            StreamCommand::Pause => match &self.current {
                Some(attempt) => attempt.source.is_live(),
                None => false,
            },
            StreamCommand::Seek { .. } => match &self.current {
                Some(attempt) => !attempt.source.is_seekable(),
                None => true,
            },
            StreamCommand::RefreshCurrentSource { current } => match &self.current {
                Some(attempt) => !attempt.source.same_attempt_as(current),
                None => !self.can_refresh_current_source(current),
            },
            StreamCommand::ReconcilePlan { version, next, .. } => *version > self.plan_version
                && match next {
                Some(source) => source.is_live(),
                None => false,
            },
            _ => false,
        }
    }

    fn generations_for(&self, command: &StreamCommand) -> (count: u64)
        ensures
            count == generations_for(*self, *command),
    {
        match command {
            StreamCommand::Seek { .. } | StreamCommand::RefreshCurrentSource { .. } => 1,
            StreamCommand::ReconcilePlan { version, current: Some(source), next } => {
                if *version <= self.plan_version {
                    return 0;
                }
                let kept = occupies(&self.current, source);
                let for_next: u64 = match next {
                    None => 0,
                    Some(next) => if kept && occupies(&self.next, next) {
                        0
                    } else {
                        1
                    },
                };
                if kept || occupies(&self.next, source) {
                    for_next
                } else {
                    1 + for_next
                }
            },
            _ => 0,
        }
    }

    /// Whether the generations that `command` hands out can still be counted.
    #[must_use]
    pub fn has_room_for(&self, command: &StreamCommand) -> (room: bool)
        ensures
            room == room_for(*self, *command),
    {
        self.refuses(command) || self.generation <= u64::MAX - self.generations_for(command)
    }

    /// Carries out a command, or refuses it and changes nothing.
    pub fn handle_command(&mut self, command: StreamCommand) -> (result: Result<
        ActorOutput,
        MusicStreamError,
    >)
        requires
            room_for(*old(self), command),
        ensures
            old(self).wf() ==> final(self).wf(),
            match result {
                Ok(output) => {
                    &&& refusal(*old(self), command) is None
                    &&& reports(obey(*old(self), command), *final(self), output)
                },
                Err(error) => {
                    &&& *final(self) == *old(self)
                    &&& refusal(*old(self), command) matches Some(reason) && refused_with(
                        error,
                        reason,
                    )
                },
            },
    {
        let mut output = ActorEffects::none();
        let outcome = match command {
            StreamCommand::Play => self.play(&mut output),
            StreamCommand::Pause => self.pause(&mut output),
            StreamCommand::Stop => {
                self.stop(&mut output);
                Ok(())
            },
            StreamCommand::Seek { seconds } => self.seek(seconds, &mut output),
            StreamCommand::RefreshCurrentSource { current } => self.refresh_current_source(
                current,
                &mut output,
            ),
            StreamCommand::ReconcilePlan { version, current, next } => self.reconcile_plan(
                version,
                current,
                next,
                &mut output,
            ),
            StreamCommand::SetVolume { volume } => {
                self.set_volume(volume, &mut output);
                Ok(())
            },
            StreamCommand::SetGain { gain } => {
                self.set_gain(gain, &mut output);
                Ok(())
            },
        };
        match outcome {
            Ok(()) => Ok(output.into_output(self.status())),
            Err(error) => Err(error),
        }
    }

    /// Takes note of what a worker reports. Reports about attempts that are no
    /// longer in their slot change nothing.
    pub fn handle_worker_event(&mut self, event: WorkerEvent) -> (output: ActorOutput)
        ensures
            old(self).wf() ==> final(self).wf(),
            exists|text: String| #[trigger]
                supplies_text(event, text) && reports(
                    react(*old(self), event, text),
                    *final(self),
                    output,
                ),
    {
        let mut output = ActorEffects::none();
        let ghost mut text: String = arbitrary();
        match event {
            WorkerEvent::CurrentSourceClassified { generation, kind, seekable } => {
                if self.is_current_generation(generation) {
                    if let Some(current) = &mut self.current {
                        current.source.kind = kind;
                        current.source.seekable = Some(seekable);
                    }
                }
            },
            WorkerEvent::CurrentPrebufferReady { generation } => {
                if self.is_current_generation(generation) {
                    if let Some(current) = &mut self.current {
                        current.state = AttemptState::Ready;
                    }
                    if self.play_state != PlayState::Paused {
                        self.play_state = PlayState::Playing;
                    }
                }
            },
            WorkerEvent::CurrentEnded { generation } => {
                if self.is_current_generation(generation) {
                    self.promote_next_or_wait(&mut output, true);
                }
            },
            WorkerEvent::CurrentFailed { generation, code, message } => {
                if self.is_current_generation(generation) {
                    self.handle_track_failure(code, message, &mut output);
                }
            },
            WorkerEvent::OutputFailed { code, message } => {
                let failed = self.handle_output_failure(code, message);
                assert(supplies_text(event, text));
                return failed;
            },
            WorkerEvent::CurrentNetworkQualityChanged { generation, quality, snapshot } => {
                if self.is_current_generation(generation) {
                    output.events.push(
                        StreamEvent::NetworkQualityChanged {
                            stream_id: self.stream_id.clone(),
                            quality,
                            snapshot,
                        },
                    );
                }
            },
            WorkerEvent::NextReady { generation } => {
                let mut readied = false;
                if let Some(next) = &mut self.next {
                    if next.generation == generation && next.is_active() {
                        next.state = AttemptState::Ready;
                        readied = true;
                    }
                }
                if readied && self.current.is_none() {
                    let _ = self.promote_ready_next(&mut output);
                }
            },
            WorkerEvent::NextFailed { generation, code, message } => {
                self.handle_next_failure(generation, code, message, &mut output);
            },
            WorkerEvent::StartupTimedOut { source_role, generation, watchdog_epoch } => {
                let message = match source_role {
                    SourceRole::Current => "playback attempt did not become ready before its startup deadline".to_owned(),
                    SourceRole::Next => "preload attempt did not become ready before its startup deadline".to_owned(),
                };
                proof {
                    text = message;
                }
                self.handle_startup_timeout(
                    source_role,
                    generation,
                    watchdog_epoch,
                    message,
                    &mut output,
                );
            },
        }
        assert(supplies_text(event, text));
        assert(step(*self, output) == react(*old(self), event, text));
        output.into_output(self.status())
    }

    /// Moves the state machine to its only safe state after orchestration has
    /// partially failed. Runtime actions are not generally reversible (a
    /// receiver or producer may already have been replaced), so pretending the
    /// previous logical state is still operational would leave a stuck stream.
    pub fn handle_runtime_failure(&mut self, error: &MusicStreamError) -> (output: ActorOutput)
        ensures
            exists|message: String| #[trigger]
                message@ == error.prefix() + error.detail() && reports(
                    fail_output(Step::still(*old(self)), error.spec_code(), message),
                    *final(self),
                    output,
                ),
    {
        let message = error.message();
        let ghost shown = message;
        let output = self.handle_output_failure(error.code(), message);
        assert(shown@ == error.prefix() + error.detail());
        output
    }

    /// Ends the stream because its output failed as a whole.
    pub fn handle_output_failure(&mut self, code: ErrorCode, message: String) -> (output:
        ActorOutput)
        ensures
            reports(
                fail_output(Step::still(*old(self)), code, message),
                *final(self),
                output,
            ),
    {
        let mut output = ActorEffects::none();
        self.current = None;
        self.next = None;
        self.refreshable_current_key = None;
        self.play_state = PlayState::Stopped;
        output.events.push(
            StreamEvent::Error { stream_id: self.stream_id.clone(), code, message },
        );
        output.events.push(StreamEvent::StreamStopped { stream_id: self.stream_id.clone() });
        output.into_output(self.status())
    }

    fn play(&mut self, output: &mut ActorEffects) -> (result: Result<(), MusicStreamError>)
        ensures
            match result {
                Ok(()) => {
                    &&& refusal(*old(self), StreamCommand::Play) is None
                    &&& step(*final(self), *final(output)) == play(step(*old(self), *old(output)))
                },
                Err(error) => {
                    &&& *final(self) == *old(self)
                    &&& refusal(*old(self), StreamCommand::Play) matches Some(reason)
                        && refused_with(error, reason)
                },
            },
    {
        if self.play_state == PlayState::Stopped {
            return Err(MusicStreamError::Unsupported("cannot play a stopped stream".to_owned()));
        }
        let was_paused = self.play_state == PlayState::Paused;
        if self.current.is_none() {
            if let Some(next) = &self.next {
                if was_paused && next.is_active() {
                    output.actions.push(TaskAction::ResumeNext { generation: next.generation });
                }
                self.play_state = PlayState::Buffering;
            } else {
                self.play_state = PlayState::Idle;
                output.events.push(StreamEvent::NextNeeded { stream_id: self.stream_id.clone() });
            }
            if was_paused {
                self.arm_resumed_watchdogs(output);
            }
            self.prepare_next_if_needed(output);
            return Ok(());
        }
        let (active, ready, generation): (bool, bool, u64) = match &self.current {
            Some(current) => (current.is_active(), current.is_ready(), current.generation),
            None => (false, false, 0),
        };
        if was_paused && ready {
            self.play_state = PlayState::Playing;
        } else if self.play_state != PlayState::Playing {
            self.play_state = PlayState::Buffering;
            if let Some(current) = &mut self.current {
                if !current.is_active() {
                    let watchdog_epoch: u64 = current.start();
                    output.actions.push(
                        TaskAction::StartCurrent {
                            generation: current.generation,
                            watchdog_epoch,
                            track: current.source.clone(),
                        },
                    );
                }
            }
        }
        if was_paused && active {
            output.actions.push(TaskAction::ResumeCurrent { generation });
        }
        if was_paused {
            self.arm_resumed_watchdogs(output);
        }
        self.prepare_next_if_needed(output);
        Ok(())
    }

    fn pause(&mut self, output: &mut ActorEffects) -> (result: Result<(), MusicStreamError>)
        ensures
            match result {
                Ok(()) => {
                    &&& refusal(*old(self), StreamCommand::Pause) is None
                    &&& step(*final(self), *final(output)) == pause(step(*old(self), *old(output)))
                },
                Err(error) => {
                    &&& *final(self) == *old(self)
                    &&& refusal(*old(self), StreamCommand::Pause) matches Some(reason)
                        && refused_with(error, reason)
                },
            },
    {
        let live = match &self.current {
            Some(current) => current.source.is_live(),
            None => false,
        };
        if live {
            return Err(
                MusicStreamError::Unsupported(
                    "live sources cannot be paused without a timeshift store".to_owned(),
                ),
            );
        }
        if self.play_state == PlayState::Playing || self.play_state == PlayState::Buffering {
            let mut held = false;
            if let Some(current) = &self.current {
                if current.is_active() {
                    output.actions.push(
                        TaskAction::PauseCurrent { generation: current.generation },
                    );
                    held = true;
                }
            }
            if !held {
                if let Some(next) = &self.next {
                    if next.is_active() {
                        output.actions.push(TaskAction::PauseNext { generation: next.generation });
                    }
                }
            }
            if let Some(current) = &mut self.current {
                current.suspend_watchdog();
            }
            if let Some(next) = &mut self.next {
                next.suspend_watchdog();
            }
            self.play_state = PlayState::Paused;
        }
        Ok(())
    }

    fn stop(&mut self, output: &mut ActorEffects)
        ensures
            step(*final(self), *final(output)) == stop(step(*old(self), *old(output))),
    {
        if self.play_state == PlayState::Stopped {
            return ;
        }
        self.current = None;
        self.next = None;
        output.actions.push(TaskAction::StopSender);
        self.refreshable_current_key = None;
        self.play_state = PlayState::Stopped;
        output.events.push(StreamEvent::StreamStopped { stream_id: self.stream_id.clone() });
    }

    fn waiting_state(&self) -> (play_state: PlayState)
        ensures
            play_state == self.waiting(),
    {
        if self.play_state == PlayState::Paused {
            PlayState::Paused
        } else {
            PlayState::Buffering
        }
    }

    fn seek(&mut self, seconds: u64, output: &mut ActorEffects) -> (result: Result<
        (),
        MusicStreamError,
    >)
        requires
            room_for(*old(self), StreamCommand::Seek { seconds }),
        ensures
            match result {
                Ok(()) => {
                    &&& refusal(*old(self), StreamCommand::Seek { seconds }) is None
                    &&& step(*final(self), *final(output)) == seek(
                        step(*old(self), *old(output)),
                        seconds,
                    )
                },
                Err(error) => {
                    &&& *final(self) == *old(self)
                    &&& refusal(*old(self), StreamCommand::Seek { seconds }) matches Some(reason)
                        && refused_with(error, reason)
                },
            },
    {
        let preserve_pause = self.play_state == PlayState::Paused;
        let play_state = self.waiting_state();
        let position: u64 = match seconds.checked_mul(1_000) {
            Some(millis) => millis,
            None => u64::MAX,
        };
        match &mut self.current {
            None => {
                return Err(
                    MusicStreamError::Unsupported("cannot seek without a current track".to_owned()),
                );
            },
            Some(current) => {
                if !current.source.is_seekable() {
                    return Err(MusicStreamError::NotSeekable(current.source.id.clone()));
                }
                let old_generation: u64 = current.generation;
                self.generation = self.generation + 1;
                current.generation = self.generation;
                current.state = AttemptState::Dormant;
                current.watchdog_epoch = 0;
                if !preserve_pause {
                    let watchdog_epoch: u64 = current.start();
                    output.actions.push(
                        TaskAction::StartCurrent {
                            generation: current.generation,
                            watchdog_epoch,
                            track: current.source.clone(),
                        },
                    );
                } else {
                    output.actions.push(TaskAction::CancelCurrent { generation: old_generation });
                }
            },
        }
        self.time_played_ms = position;
        self.play_state = play_state;
        Ok(())
    }

    fn reconcile_next_attempt(&mut self, next: Option<TrackSource>, output: &mut ActorEffects)
        requires
            old(self).generation + generations_for_next(old(self).next, next) <= u64::MAX,
        ensures
            step(*final(self), *final(output)) == reconcile_next(
                step(*old(self), *old(output)),
                next,
            ),
    {
        let old_generation: Option<u64> = match &self.next {
            Some(old) => Some(old.generation),
            None => None,
        };
        match next {
            None => {
                if let Some(generation) = old_generation {
                    output.actions.push(TaskAction::CancelNext { generation });
                    self.next = None;
                }
            },
            Some(new_source) => {
                let same = match &self.next {
                    Some(old) => old.source.same_attempt_as(&new_source),
                    None => false,
                };
                if same {
                    if let Some(next) = &mut self.next {
                        next.source = new_source;
                    }
                } else {
                    self.generation = self.generation + 1;
                    let mut slot = PlaybackAttempt::new(new_source.clone(), self.generation);
                    if self.play_state != PlayState::Paused {
                        let watchdog_epoch: u64 = slot.start();
                        output.actions.push(
                            TaskAction::PrepareNext {
                                generation: slot.generation,
                                watchdog_epoch,
                                track: new_source,
                            },
                        );
                    } else if let Some(generation) = old_generation {
                        output.actions.push(TaskAction::CancelNext { generation });
                    }
                    self.next = Some(slot);
                }
            },
        }
    }

    /// Seats a fresh attempt at `source` in the current slot. The generation of
    /// the attempt it replaces, if any, is cancelled while paused.
    fn restart_current(
        &mut self,
        source: TrackSource,
        replaced: Option<u64>,
        output: &mut ActorEffects,
    )
        requires
            old(self).generation <= u64::MAX - 1,
        ensures
            step(*final(self), *final(output)) == super::spec::restart_current(
                step(*old(self), *old(output)),
                source,
                0,
                replaced,
            ),
    {
        let preserve_pause = self.play_state == PlayState::Paused;
        let play_state = self.waiting_state();
        self.generation = self.generation + 1;
        let mut attempt = PlaybackAttempt::new(source.clone(), self.generation);
        if !preserve_pause {
            let watchdog_epoch: u64 = attempt.start();
            output.actions.push(
                TaskAction::StartCurrent {
                    generation: attempt.generation,
                    watchdog_epoch,
                    track: source,
                },
            );
        } else if let Some(generation) = replaced {
            output.actions.push(TaskAction::CancelCurrent { generation });
        }
        self.current = Some(attempt);
        self.time_played_ms = 0;
        self.play_state = play_state;
    }

    fn refresh_current_source(
        &mut self,
        current: TrackSource,
        output: &mut ActorEffects,
    ) -> (result: Result<(), MusicStreamError>)
        requires
            room_for(*old(self), StreamCommand::RefreshCurrentSource { current }),
        ensures
            match result {
                Ok(()) => {
                    &&& refusal(*old(self), StreamCommand::RefreshCurrentSource { current }) is None
                    &&& step(*final(self), *final(output)) == refresh_current(
                        step(*old(self), *old(output)),
                        current,
                    )
                },
                Err(error) => {
                    &&& *final(self) == *old(self)
                    &&& refusal(
                        *old(self),
                        StreamCommand::RefreshCurrentSource { current },
                    ) matches Some(reason) && refused_with(error, reason)
                },
            },
    {
        let (known, old_generation): (bool, Option<u64>) = match &self.current {
            Some(old) => (old.source.same_attempt_as(&current), Some(old.generation)),
            None => (self.can_refresh_current_source(&current), None),
        };
        if !known {
            return Err(
                MusicStreamError::InvalidSource(
                    "refreshed current source must keep the current track id".to_owned(),
                ),
            );
        }
        self.refreshable_current_key = None;
        self.restart_current(current, old_generation, output);
        Ok(())
    }

    fn reconcile_plan(
        &mut self,
        version: u64,
        current: Option<TrackSource>,
        next: Option<TrackSource>,
        output: &mut ActorEffects,
    ) -> (result: Result<(), MusicStreamError>)
        requires
            room_for(*old(self), StreamCommand::ReconcilePlan { version, current, next }),
        ensures
            match result {
                Ok(()) => {
                    &&& refusal(
                        *old(self),
                        StreamCommand::ReconcilePlan { version, current, next },
                    ) is None
                    &&& step(*final(self), *final(output)) == reconcile(
                        step(*old(self), *old(output)),
                        version,
                        current,
                        next,
                    )
                },
                Err(error) => {
                    &&& *final(self) == *old(self)
                    &&& refusal(
                        *old(self),
                        StreamCommand::ReconcilePlan { version, current, next },
                    ) matches Some(reason) && refused_with(error, reason)
                },
            },
    {
        if version <= self.plan_version {
            return Ok(());
        }
        let next_is_live = match &next {
            Some(source) => source.is_live(),
            None => false,
        };
        if next_is_live {
            return Err(
                MusicStreamError::Unsupported(
                    "live sources cannot be preloaded as next without a timeshift model".to_owned(),
                ),
            );
        }
        let current = match current {
            Some(source) => source,
            None => {
                if let Some(old) = self.current.take() {
                    output.actions.push(TaskAction::CancelCurrent { generation: old.generation });
                }
                if let Some(old) = self.next.take() {
                    output.actions.push(TaskAction::CancelNext { generation: old.generation });
                }
                self.refreshable_current_key = None;
                self.time_played_ms = 0;
                if self.play_state != PlayState::Paused {
                    self.play_state = PlayState::Idle;
                }
                self.plan_version = version;
                return Ok(());
            },
        };
        let current_unchanged = match &self.current {
            Some(attempt) => attempt.source.same_attempt_as(&current),
            None => false,
        };
        if current_unchanged {
            if let Some(active) = &mut self.current {
                active.source = current;
            }
            self.reconcile_next_attempt(next, output);
            self.plan_version = version;
            return Ok(());
        }
        let promote_planned_next = match &self.next {
            Some(attempt) => attempt.source.same_attempt_as(&current),
            None => false,
        };
        if promote_planned_next {
            let play_state = self.waiting_state();
            self.remember_refreshable_current();
            if let Some(planned) = self.next.take() {
                let mut promoted = planned;
                promoted.source = current;
                let watchdog_epoch: u64 = promoted.start();
                output.actions.push(
                    TaskAction::StartCurrent {
                        generation: promoted.generation,
                        watchdog_epoch,
                        track: promoted.source.clone(),
                    },
                );
                self.current = Some(promoted);
            }
            self.time_played_ms = 0;
            self.play_state = play_state;
            self.reconcile_next_attempt(next, output);
            self.plan_version = version;
            return Ok(());
        }
        self.replace_current(current, next, output);
        self.plan_version = version;
        Ok(())
    }

    fn replace_current(
        &mut self,
        current: TrackSource,
        next: Option<TrackSource>,
        output: &mut ActorEffects,
    )
        requires
            old(self).generation + 1 + generations_for_next(None, next) <= u64::MAX,
        ensures
            step(*final(self), *final(output)) == replace_current(
                step(*old(self), *old(output)),
                current,
                next,
            ),
    {
        let old_current_generation: Option<u64> = match self.current.take() {
            Some(attempt) => Some(attempt.generation),
            None => None,
        };
        let old_next_generation: Option<u64> = match self.next.take() {
            Some(attempt) => Some(attempt.generation),
            None => None,
        };
        self.refreshable_current_key = None;
        self.restart_current(current, old_current_generation, output);
        if next.is_some() {
            self.reconcile_next_attempt(next, output);
        } else if let Some(generation) = old_next_generation {
            output.actions.push(TaskAction::CancelNext { generation });
        }
    }

    fn set_volume(&mut self, volume: VolumeLevel, output: &mut ActorEffects)
        requires
            old(output).actions@ == Seq::<TaskAction>::empty(),
            old(output).events@ == Seq::<StreamEvent>::empty(),
        ensures
            step(*final(self), *final(output)) == obey(
                *old(self),
                StreamCommand::SetVolume { volume },
            ),
    {
        self.volume = volume;
        if let Some(current) = &self.current {
            if current.is_active() {
                output.actions.push(
                    TaskAction::SetCurrentVolume { generation: current.generation, volume },
                );
            }
        }
        if let Some(next) = &self.next {
            if next.is_active() {
                output.actions.push(
                    TaskAction::SetNextVolume { generation: next.generation, volume },
                );
            }
        }
        assert(output.actions@ =~= obey(
            *old(self),
            StreamCommand::SetVolume { volume },
        ).actions);
    }

    fn set_gain(&mut self, gain: GainLevel, output: &mut ActorEffects)
        requires
            old(output).actions@ == Seq::<TaskAction>::empty(),
            old(output).events@ == Seq::<StreamEvent>::empty(),
        ensures
            step(*final(self), *final(output)) == obey(*old(self), StreamCommand::SetGain { gain }),
    {
        self.gain = gain;
        if let Some(current) = &self.current {
            if current.is_active() {
                output.actions.push(
                    TaskAction::SetCurrentGain { generation: current.generation, gain },
                );
            }
        }
        if let Some(next) = &self.next {
            if next.is_active() {
                output.actions.push(
                    TaskAction::SetNextGain { generation: next.generation, gain },
                );
            }
        }
        assert(output.actions@ =~= obey(*old(self), StreamCommand::SetGain { gain }).actions);
    }

    fn promote_next_or_wait(&mut self, output: &mut ActorEffects, request_next_when_empty: bool)
        ensures
            step(*final(self), *final(output)) == promote_or_wait(
                step(*old(self), *old(output)),
                request_next_when_empty,
            ),
    {
        let waiting = self.waiting_state();
        if self.promote_ready_next(output) {
            return ;
        }
        self.remember_refreshable_current();
        self.current = None;
        if self.next.is_some() {
            self.play_state = waiting;
        } else {
            self.play_state = PlayState::Idle;
            if request_next_when_empty {
                output.events.push(StreamEvent::NextNeeded { stream_id: self.stream_id.clone() });
            }
        }
    }

    fn promote_ready_next(&mut self, output: &mut ActorEffects) -> (promoted: bool)
        ensures
            promoted == next_is_ready(*old(self)),
            step(*final(self), *final(output)) == if promoted {
                promote_ready(step(*old(self), *old(output)))
            } else {
                step(*old(self), *old(output))
            },
    {
        let ready = match &self.next {
            Some(next) => next.is_ready(),
            None => false,
        };
        if !ready {
            return false;
        }
        let play_state = self.waiting_state();
        match self.next.take() {
            None => false,
            Some(next) => {
                let mut current = next;
                let watchdog_epoch: u64 = current.start();
                output.actions.push(
                    TaskAction::StartCurrent {
                        generation: current.generation,
                        watchdog_epoch,
                        track: current.source.clone(),
                    },
                );
                self.refreshable_current_key = None;
                self.current = Some(current);
                self.time_played_ms = 0;
                self.play_state = play_state;
                true
            },
        }
    }

    fn handle_track_failure(
        &mut self,
        code: ErrorCode,
        message: String,
        output: &mut ActorEffects,
    )
        requires
            old(self).current is Some,
        ensures
            step(*final(self), *final(output)) == fail_current(
                step(*old(self), *old(output)),
                code,
                message,
            ),
    {
        let refresh_current = code == ErrorCode::SourceAuthExpired && self.next.is_none();
        if let Some(current) = &self.current {
            output.actions.push(TaskAction::CancelCurrent { generation: current.generation });
            if refresh_current {
                output.events.push(
                    StreamEvent::SourceRefreshNeeded {
                        stream_id: self.stream_id.clone(),
                        attempt_id: current.source.attempt_key().clone(),
                        track_id: current.source.id.clone(),
                        source_role: SourceRole::Current,
                        generation: current.generation,
                    },
                );
            }
            output.events.push(
                StreamEvent::AttemptFailed {
                    stream_id: self.stream_id.clone(),
                    attempt_id: current.source.attempt_key().clone(),
                    track_id: current.source.id.clone(),
                    source_role: SourceRole::Current,
                    generation: current.generation,
                    code,
                    message,
                },
            );
        }
        self.promote_next_or_wait(output, !refresh_current);
    }

    fn handle_next_failure(
        &mut self,
        generation: u64,
        code: ErrorCode,
        message: String,
        output: &mut ActorEffects,
    )
        ensures
            step(*final(self), *final(output)) == if old(self).next matches Some(next)
                && next.generation == generation && next.active() {
                fail_next(step(*old(self), *old(output)), code, message)
            } else {
                step(*old(self), *old(output))
            },
    {
        let (attempt_id, track_id) = match &self.next {
            Some(attempt) => {
                if attempt.generation != generation || !attempt.is_active() {
                    return ;
                }
                (attempt.source.attempt_key().clone(), attempt.source.id.clone())
            },
            None => {
                return ;
            },
        };
        if code == ErrorCode::SourceAuthExpired && self.current.is_some() {
            output.events.push(
                StreamEvent::SourceRefreshNeeded {
                    stream_id: self.stream_id.clone(),
                    attempt_id: attempt_id.clone(),
                    track_id: track_id.clone(),
                    source_role: SourceRole::Next,
                    generation,
                },
            );
        }
        output.actions.push(TaskAction::CancelNext { generation });
        self.next = None;
        if self.current.is_none() {
            if self.play_state != PlayState::Paused {
                self.play_state = PlayState::Idle;
            }
            output.events.push(StreamEvent::NextNeeded { stream_id: self.stream_id.clone() });
        }
        output.events.push(
            StreamEvent::AttemptFailed {
                stream_id: self.stream_id.clone(),
                attempt_id,
                track_id,
                source_role: SourceRole::Next,
                generation,
                code,
                message,
            },
        );
    }

    fn handle_startup_timeout(
        &mut self,
        source_role: SourceRole,
        generation: u64,
        watchdog_epoch: u64,
        message: String,
        output: &mut ActorEffects,
    )
        ensures
            step(*final(self), *final(output)) == time_out(
                step(*old(self), *old(output)),
                source_role,
                generation,
                watchdog_epoch,
                message,
            ),
    {
        if self.play_state == PlayState::Paused {
            return ;
        }
        let slot = match source_role {
            SourceRole::Current => &self.current,
            SourceRole::Next => &self.next,
        };
        let timed_out = match slot {
            Some(attempt) => attempt.generation == generation && attempt.state
                == AttemptState::Starting && attempt.watchdog_epoch == watchdog_epoch,
            None => false,
        };
        if timed_out {
            match source_role {
                SourceRole::Current => self.handle_track_failure(
                    ErrorCode::SourceTimeout,
                    message,
                    output,
                ),
                SourceRole::Next => self.handle_next_failure(
                    generation,
                    ErrorCode::SourceTimeout,
                    message,
                    output,
                ),
            }
        }
    }

    fn arm_resumed_watchdogs(&mut self, output: &mut ActorEffects)
        ensures
            step(*final(self), *final(output)) == rearm(step(*old(self), *old(output))),
    {
        if let Some(attempt) = &mut self.current {
            if let Some(watchdog_epoch) = attempt.resume_watchdog() {
                output.actions.push(
                    TaskAction::ArmStartupDeadline {
                        source_role: SourceRole::Current,
                        generation: attempt.generation,
                        watchdog_epoch,
                    },
                );
            }
        }
        assert(step(*self, *output) == rearm_current(step(*old(self), *old(output))));
        if let Some(attempt) = &mut self.next {
            if let Some(watchdog_epoch) = attempt.resume_watchdog() {
                output.actions.push(
                    TaskAction::ArmStartupDeadline {
                        source_role: SourceRole::Next,
                        generation: attempt.generation,
                        watchdog_epoch,
                    },
                );
            }
        }
    }

    pub fn is_current_generation(&self, generation: u64) -> (same: bool)
        ensures
            same == self.plays(generation),
    {
        match &self.current {
            Some(attempt) => attempt.generation == generation,
            None => false,
        }
    }

    pub fn remember_refreshable_current(&mut self)
        ensures
            *final(self) == remember_current(Step::still(*old(self))).actor,
    {
        self.refreshable_current_key = match &self.current {
            Some(attempt) => Some(attempt.source.attempt_key().clone()),
            None => None,
        };
    }

    pub fn can_refresh_current_source(&self, current: &TrackSource) -> (known: bool)
        ensures
            known == self.remembers(*current),
    {
        match &self.refreshable_current_key {
            Some(key) => *key == *current.attempt_key(),
            None => false,
        }
    }

    fn prepare_next_if_needed(&mut self, output: &mut ActorEffects)
        ensures
            step(*final(self), *final(output)) == prepare_next(step(*old(self), *old(output))),
    {
        if let Some(next) = &mut self.next {
            if !next.is_active() {
                let watchdog_epoch: u64 = next.start();
                output.actions.push(
                    TaskAction::PrepareNext {
                        generation: next.generation,
                        watchdog_epoch,
                        track: next.source.clone(),
                    },
                );
            }
        }
    }
}

} // verus!
