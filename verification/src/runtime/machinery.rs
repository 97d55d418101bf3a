//! What the actions of a stream do to the machinery that plays it, and how that
//! machinery follows the stream.
use super::orchestration::{spec_context, steps_of, RuntimeStep, StepContext};
use crate::event::SourceRole;
use crate::model::{GainLevel, PlayState, TrackSource, VolumeLevel};
use crate::session::spec::{holds_attempt, obey, react, refusal, room_for};
use crate::session::types::{
    AttemptState, PlaybackAttempt, StreamActor, StreamCommand, TaskAction, WorkerEvent,
};
use vstd::prelude::*;

verus! {

/// A producer of media.
pub struct Worker {
    pub generation: u64,
    pub track: TrackSource,
    pub start_position_ms: u64,
    pub volume: VolumeLevel,
    pub gain: GainLevel,
    pub paused: bool,
}

/// What the output plays.
pub struct Playout {
    pub generation: u64,
    pub start_position_ms: u64,
    pub paused: bool,
}

/// A startup deadline that was set.
pub struct Alarm {
    pub source_role: SourceRole,
    pub generation: u64,
    pub watchdog_epoch: u64,
}

/// Everything that runs for one stream.
pub struct Machinery {
    pub current: Option<Worker>,
    pub next: Option<Worker>,
    pub at_hand: Option<Worker>,
    pub playout: Option<Playout>,
    pub alarms: Set<Alarm>,
    pub down: bool,
}

pub open spec fn holds(slot: Option<Worker>, generation: u64) -> bool {
    slot matches Some(worker) && worker.generation == generation
}

pub open spec fn concerns(worker: Worker, generation: Option<u64>) -> bool {
    generation is None || generation == Some(worker.generation)
}

/// A slot in which the worker that is meant, if it is there, is held or let go.
pub open spec fn set_pause(slot: Option<Worker>, generation: Option<u64>, paused: bool) -> Option<
    Worker,
> {
    match slot {
        Some(worker) if concerns(worker, generation) => Some(Worker { paused, ..worker }),
        _ => slot,
    }
}

pub open spec fn set_volume(slot: Option<Worker>, generation: u64, volume: VolumeLevel) -> Option<
    Worker,
> {
    match slot {
        Some(worker) if worker.generation == generation => Some(Worker { volume, ..worker }),
        _ => slot,
    }
}

pub open spec fn set_gain(slot: Option<Worker>, generation: u64, gain: GainLevel) -> Option<Worker> {
    match slot {
        Some(worker) if worker.generation == generation => Some(Worker { gain, ..worker }),
        _ => slot,
    }
}

pub open spec fn without(slot: Option<Worker>, generation: u64) -> Option<Worker> {
    if holds(slot, generation) {
        None
    } else {
        slot
    }
}

impl Machinery {
    /// What one step does.
    pub open spec fn worked(self, step: RuntimeStep) -> Machinery {
        match step {
            RuntimeStep::CancelDeadlines { source_role, generation } => Machinery {
                alarms: self.alarms.filter(
                    |alarm: Alarm|
                        alarm.source_role != source_role || (generation is Some && generation
                            != Some(alarm.generation)),
                ),
                ..self
            },
            RuntimeStep::CancelAllDeadlines => Machinery { alarms: Set::empty(), ..self },
            RuntimeStep::ArmDeadline { source_role, generation, watchdog_epoch } => Machinery {
                alarms: self.alarms.insert(Alarm { source_role, generation, watchdog_epoch }),
                ..self
            },
            RuntimeStep::PromoteNext { .. } => Machinery {
                next: None,
                at_hand: self.next,
                ..self
            },
            RuntimeStep::Spawn {
                source_role,
                generation,
                track,
                start_position_ms,
                volume,
                gain,
                paused,
            } => Machinery {
                at_hand: Some(
                    Worker { generation, track, start_position_ms, volume, gain, paused },
                ),
                ..self
            },
            RuntimeStep::Activate { generation, start_position_ms, paused } => Machinery {
                playout: Some(Playout { generation, start_position_ms, paused }),
                ..self
            },
            RuntimeStep::Install { source_role } => match source_role {
                SourceRole::Current => Machinery { current: self.at_hand, at_hand: None, ..self },
                SourceRole::Next => Machinery { next: self.at_hand, at_hand: None, ..self },
            },
            RuntimeStep::Deactivate { generation } => if self.playout matches Some(playout)
                && playout.generation == generation {
                Machinery { playout: None, ..self }
            } else {
                self
            },
            RuntimeStep::StopProducer { source_role, generation } => match source_role {
                SourceRole::Current => Machinery {
                    current: without(self.current, generation),
                    ..self
                },
                SourceRole::Next => Machinery { next: without(self.next, generation), ..self },
            },
            RuntimeStep::PauseProducer { source_role, generation } => self.paused_in(
                source_role,
                generation,
                true,
            ),
            RuntimeStep::ResumeProducer { source_role, generation } => self.paused_in(
                source_role,
                generation,
                false,
            ),
            RuntimeStep::PauseOutput { generation } => self.output_paused(generation, true),
            RuntimeStep::ResumeOutput { generation } => self.output_paused(generation, false),
            RuntimeStep::SetVolume { source_role, generation, volume } => match source_role {
                SourceRole::Current => Machinery {
                    current: set_volume(self.current, generation, volume),
                    ..self
                },
                SourceRole::Next => Machinery {
                    next: set_volume(self.next, generation, volume),
                    ..self
                },
            },
            RuntimeStep::SetGain { source_role, generation, gain } => match source_role {
                SourceRole::Current => Machinery {
                    current: set_gain(self.current, generation, gain),
                    ..self
                },
                SourceRole::Next => Machinery {
                    next: set_gain(self.next, generation, gain),
                    ..self
                },
            },
            RuntimeStep::StopAllProducers => Machinery { current: None, next: None, ..self },
            RuntimeStep::ShutdownOutput => Machinery { playout: None, ..self },
            RuntimeStep::ReleasePermit => Machinery { down: true, ..self },
        }
    }

    pub open spec fn paused_in(
        self,
        source_role: SourceRole,
        generation: Option<u64>,
        paused: bool,
    ) -> Machinery {
        match source_role {
            SourceRole::Current => Machinery {
                current: set_pause(self.current, generation, paused),
                ..self
            },
            SourceRole::Next => Machinery {
                next: set_pause(self.next, generation, paused),
                ..self
            },
        }
    }

    pub open spec fn output_paused(self, generation: u64, paused: bool) -> Machinery {
        match self.playout {
            Some(playout) if playout.generation == generation => Machinery {
                playout: Some(Playout { paused, ..playout }),
                ..self
            },
            _ => self,
        }
    }

    pub open spec fn next_generation(self) -> Option<u64> {
        match self.next {
            Some(worker) => Some(worker.generation),
            None => None,
        }
    }
}

pub open spec fn worked_through(machinery: Machinery, steps: Seq<RuntimeStep>) -> Machinery
    decreases steps.len(),
{
    if steps.len() == 0 {
        machinery
    } else {
        worked_through(machinery, steps.drop_last()).worked(steps.last())
    }
}

/// What carrying out one action does.
pub open spec fn carried_out(
    machinery: Machinery,
    action: TaskAction,
    context: StepContext,
) -> Machinery {
    worked_through(machinery, steps_of(action, machinery.next_generation(), context))
}

/// What carrying out actions one after the other does.
pub open spec fn all_carried_out(
    machinery: Machinery,
    actions: Seq<TaskAction>,
    context: StepContext,
) -> Machinery
    decreases actions.len(),
{
    if actions.len() == 0 {
        machinery
    } else {
        carried_out(
            all_carried_out(machinery, actions.drop_last(), context),
            actions.last(),
            context,
        )
    }
}

proof fn worked_step_by_step(machinery: Machinery, steps: Seq<RuntimeStep>)
    ensures
        steps.len() == 1 ==> worked_through(machinery, steps) == machinery.worked(steps[0]),
        steps.len() == 2 ==> worked_through(machinery, steps) == machinery.worked(steps[0]).worked(
            steps[1],
        ),
        steps.len() == 3 ==> worked_through(machinery, steps) == machinery.worked(steps[0]).worked(
            steps[1],
        ).worked(steps[2]),
        steps.len() == 4 ==> worked_through(machinery, steps) == machinery.worked(steps[0]).worked(
            steps[1],
        ).worked(steps[2]).worked(steps[3]),
        steps.len() == 5 ==> worked_through(machinery, steps) == machinery.worked(steps[0]).worked(
            steps[1],
        ).worked(steps[2]).worked(steps[3]).worked(steps[4]),
        steps.len() == 6 ==> worked_through(machinery, steps) == machinery.worked(steps[0]).worked(
            steps[1],
        ).worked(steps[2]).worked(steps[3]).worked(steps[4]).worked(steps[5]),
{
    reveal_with_fuel(worked_through, 8);
}

proof fn all_carried_out_unfolds(
    machinery: Machinery,
    actions: Seq<TaskAction>,
    context: StepContext,
)
    ensures
        actions.len() == 0 ==> all_carried_out(machinery, actions, context) == machinery,
        actions.len() == 1 ==> all_carried_out(machinery, actions, context) == carried_out(
            machinery,
            actions[0],
            context,
        ),
        actions.len() == 2 ==> all_carried_out(machinery, actions, context) == carried_out(
            carried_out(machinery, actions[0], context),
            actions[1],
            context,
        ),
        actions.len() == 3 ==> all_carried_out(machinery, actions, context) == carried_out(
            carried_out(carried_out(machinery, actions[0], context), actions[1], context),
            actions[2],
            context,
        ),
        actions.len() == 4 ==> all_carried_out(machinery, actions, context) == carried_out(
            carried_out(
                carried_out(carried_out(machinery, actions[0], context), actions[1], context),
                actions[2],
                context,
            ),
            actions[3],
            context,
        ),
{
    reveal_with_fuel(all_carried_out, 6);
}

/// An attempt that was started and did not fail.
pub open spec fn runs(slot: Option<PlaybackAttempt>) -> bool {
    slot matches Some(attempt) && attempt.state != AttemptState::Dormant
}

/// `worker` works for `attempt` of a stream with these levels.
pub open spec fn works_for(
    slot: Option<Worker>,
    attempt: PlaybackAttempt,
    volume: VolumeLevel,
    gain: GainLevel,
) -> bool {
    slot matches Some(worker) && worker.generation == attempt.generation && worker.volume == volume
        && worker.gain == gain
}

/// The machinery plays the current attempt as the stream says: one that runs has
/// its worker, at the levels of the stream, and the output plays it; both are held
/// exactly while the stream is paused; and nothing else is played.
pub open spec fn follows_current(machinery: Machinery, actor: StreamActor) -> bool {
    let paused = actor.play_state == PlayState::Paused;
    &&& runs(actor.current) ==> {
        &&& works_for(machinery.current, actor.current->0, actor.volume, actor.gain)
        &&& machinery.current->0.paused == paused
        &&& machinery.playout matches Some(playout) && playout.generation
            == actor.current->0.generation && playout.paused == paused
    }
    &&& !runs(actor.current) ==> machinery.current is None && machinery.playout is None
}

/// The machinery prepares the next attempt as the stream says.
pub open spec fn follows_next(machinery: Machinery, actor: StreamActor) -> bool {
    &&& runs(actor.next) ==> {
        &&& works_for(machinery.next, actor.next->0, actor.volume, actor.gain)
        &&& machinery.next->0.paused == (actor.play_state == PlayState::Paused)
    }
    &&& !runs(actor.next) ==> machinery.next is None
}

pub open spec fn follows(machinery: Machinery, actor: StreamActor) -> bool {
    machinery.at_hand is None && follows_current(machinery, actor) && follows_next(machinery, actor)
}

/// A pause in which the current track was restarted while a next one was being
/// prepared. When it ends, the worker of the next track stays held.
pub open spec fn resumes_over_a_restart(actor: StreamActor, command: StreamCommand) -> bool {
    command is Play && actor.play_state == PlayState::Paused && runs(actor.next) && (
    actor.current matches Some(attempt) && attempt.state == AttemptState::Dormant)
}

/// A plan that names two tracks, takes over neither slot, and comes during a pause.
/// The worker of the old next track is displaced only when the new one starts.
pub open spec fn replaces_both_in_a_pause(actor: StreamActor, command: StreamCommand) -> bool {
    command matches StreamCommand::ReconcilePlan { version, current: Some(current), next: Some(_) }
        && version > actor.plan_version && actor.play_state == PlayState::Paused && runs(actor.next)
        && !(actor.current matches Some(attempt) && attempt.source.attempt_id@
        == current.attempt_id@) && !(actor.next matches Some(attempt) && attempt.source.attempt_id@
        == current.attempt_id@)
}

proof fn unfold_actions(machinery: Machinery, actions: Seq<TaskAction>, context: StepContext)
    ensures
        actions.len() == 0 ==> all_carried_out(machinery, actions, context) == machinery,
        actions.len() == 1 ==> all_carried_out(machinery, actions, context) == amounts(
            machinery,
            actions[0],
            context,
        ),
        actions.len() == 2 ==> all_carried_out(machinery, actions, context) == amounts(
            amounts(machinery, actions[0], context),
            actions[1],
            context,
        ),
        actions.len() == 3 ==> all_carried_out(machinery, actions, context) == amounts(
            amounts(amounts(machinery, actions[0], context), actions[1], context),
            actions[2],
            context,
        ),
        actions.len() == 4 ==> all_carried_out(machinery, actions, context) == amounts(
            amounts(
                amounts(amounts(machinery, actions[0], context), actions[1], context),
                actions[2],
                context,
            ),
            actions[3],
            context,
        ),
{
    all_carried_out_unfolds(machinery, actions, context);
    if 0 < actions.len() <= 4 {
        let first = amounts(machinery, actions[0], context);
        action_amounts(machinery, actions[0], context);
        if actions.len() > 1 {
            let second = amounts(first, actions[1], context);
            action_amounts(first, actions[1], context);
            if actions.len() > 2 {
                let third = amounts(second, actions[2], context);
                action_amounts(second, actions[2], context);
                if actions.len() > 3 {
                    action_amounts(third, actions[3], context);
                }
            }
        }
    }
}

/// What carrying out one action amounts to.
spec fn amounts(m: Machinery, action: TaskAction, context: StepContext) -> Machinery {
    let done = carried_out(m, action, context);
    match action {
        TaskAction::StartCurrent { generation, track, .. } => Machinery {
            current: if holds(m.next, generation) {
                m.next
            } else {
                Some(
                    Worker {
                        generation,
                        track,
                        start_position_ms: context.start_position_ms,
                        volume: context.volume,
                        gain: context.gain,
                        paused: context.paused,
                    },
                )
            },
            next: without(m.next, generation),
            at_hand: None,
            playout: Some(
                Playout {
                    generation,
                    start_position_ms: context.start_position_ms,
                    paused: context.paused,
                },
            ),
            alarms: done.alarms,
            down: m.down,
        },
        TaskAction::PrepareNext { generation, track, .. } => Machinery {
            next: Some(
                Worker {
                    generation,
                    track,
                    start_position_ms: 0,
                    volume: context.volume,
                    gain: context.gain,
                    paused: context.paused,
                },
            ),
            at_hand: None,
            alarms: done.alarms,
            ..m
        },
        TaskAction::CancelCurrent { generation } => Machinery {
            current: without(m.current, generation),
            playout: if m.playout matches Some(playout) && playout.generation == generation {
                None
            } else {
                m.playout
            },
            alarms: done.alarms,
            ..m
        },
        TaskAction::CancelNext { generation } => Machinery {
            next: without(m.next, generation),
            alarms: done.alarms,
            ..m
        },
        TaskAction::PauseCurrent { generation } => Machinery {
            current: set_pause(m.current, Some(generation), true),
            next: set_pause(m.next, None, true),
            playout: m.output_paused(generation, true).playout,
            alarms: done.alarms,
            ..m
        },
        TaskAction::ResumeCurrent { generation } => Machinery {
            current: set_pause(m.current, Some(generation), false),
            next: set_pause(m.next, None, false),
            playout: m.output_paused(generation, false).playout,
            alarms: done.alarms,
            ..m
        },
        TaskAction::PauseNext { generation } => Machinery {
            next: set_pause(m.next, Some(generation), true),
            alarms: done.alarms,
            ..m
        },
        TaskAction::ResumeNext { generation } => Machinery {
            next: set_pause(m.next, Some(generation), false),
            ..m
        },
        TaskAction::ArmStartupDeadline { .. } => Machinery { alarms: done.alarms, ..m },
        TaskAction::SetCurrentVolume { generation, volume } => Machinery {
            current: set_volume(m.current, generation, volume),
            ..m
        },
        TaskAction::SetNextVolume { generation, volume } => Machinery {
            next: set_volume(m.next, generation, volume),
            ..m
        },
        TaskAction::SetCurrentGain { generation, gain } => Machinery {
            current: set_gain(m.current, generation, gain),
            ..m
        },
        TaskAction::SetNextGain { generation, gain } => Machinery {
            next: set_gain(m.next, generation, gain),
            ..m
        },
        TaskAction::StopSender => Machinery {
            current: None,
            next: None,
            playout: None,
            alarms: Set::empty(),
            down: true,
            ..m
        },
    }
}

proof fn action_amounts(m: Machinery, action: TaskAction, context: StepContext)
    ensures
        carried_out(m, action, context) == amounts(m, action, context),
{
    worked_step_by_step(m, steps_of(action, m.next_generation(), context));
}

#[verifier::spinoff_prover]
#[verifier::rlimit(60)]
proof fn plans_are_followed(
    machinery: Machinery,
    actor: StreamActor,
    version: u64,
    current: Option<TrackSource>,
    next: Option<TrackSource>,
)
    requires
        actor.wf(),
        room_for(actor, StreamCommand::ReconcilePlan { version, current, next }),
        refusal(actor, StreamCommand::ReconcilePlan { version, current, next }) is None,
        follows(machinery, actor),
        version > actor.plan_version,
    ensures
        ({
            let command = StreamCommand::ReconcilePlan { version, current, next };
            let after = obey(actor, command);
            let then = all_carried_out(
                machinery,
                after.actions,
                spec_context(after.actor.spec_status()),
            );
            &&& then.at_hand is None
            &&& follows_current(then, after.actor)
            &&& !replaces_both_in_a_pause(actor, command) ==> follows_next(then, after.actor)
        }),
{
    let command = StreamCommand::ReconcilePlan { version, current, next };
    let after = obey(actor, command);
    let then = all_carried_out(machinery, after.actions, spec_context(after.actor.spec_status()));
    unfold_actions(machinery, after.actions, spec_context(after.actor.spec_status()));
    match current {
        None => {
            assert(follows(then, after.actor));
        },
        Some(source) => {
            if holds_attempt(actor.current, source) {
                assert(after.actions.len() <= 1);
                assert(follows(then, after.actor));
            } else if holds_attempt(actor.next, source) {
                assert(after.actions.len() <= 2);
                assert(after.actions[0] is StartCurrent);
                assert(follows(then, after.actor));
            } else {
                assert(after.actions.len() <= 2);
                assert(follows_current(then, after.actor));
            }
        },
    }
}

/// After any accepted command, once its actions are carried out, the machinery
/// does what the stream says: what was dropped is stopped, what is paused is held,
/// what plays on is let go, and what was replaced is replaced. The worker of the
/// next track lags behind in two kinds of commands, and nowhere else.
#[verifier::spinoff_prover]
#[verifier::rlimit(60)]
pub proof fn commands_are_followed(
    machinery: Machinery,
    actor: StreamActor,
    command: StreamCommand,
)
    requires
        actor.wf(),
        room_for(actor, command),
        refusal(actor, command) is None,
        follows(machinery, actor),
    ensures
        ({
            let after = obey(actor, command);
            let then = all_carried_out(
                machinery,
                after.actions,
                spec_context(after.actor.spec_status()),
            );
            &&& then.at_hand is None
            &&& follows_current(then, after.actor)
            &&& !resumes_over_a_restart(actor, command) && !replaces_both_in_a_pause(actor, command)
                ==> follows_next(then, after.actor)
        }),
{
    let after = obey(actor, command);
    unfold_actions(machinery, after.actions, spec_context(after.actor.spec_status()));
    match command {
        StreamCommand::ReconcilePlan { version, current, next } => {
            if version > actor.plan_version {
                plans_are_followed(machinery, actor, version, current, next);
            }
        },
        _ => {},
    }
}

/// So it does after any report of a worker, as long as nothing is reported ready
/// that was never started. A track that ended leaves its worker and the output to
/// themselves until another takes over, and so does an output that failed.
#[verifier::spinoff_prover]
#[verifier::rlimit(60)]
pub proof fn reports_are_followed(
    machinery: Machinery,
    actor: StreamActor,
    event: WorkerEvent,
    text: String,
)
    requires
        actor.wf(),
        follows(machinery, actor),
        event matches WorkerEvent::CurrentPrebufferReady { generation } ==> actor.plays(generation)
            ==> runs(actor.current),
        !(event is OutputFailed),
        event matches WorkerEvent::CurrentEnded { generation } ==> actor.plays(generation) ==> (
        actor.next matches Some(next) && next.state == AttemptState::Ready),
    ensures
        ({
            let after = react(actor, event, text);
            follows(
                all_carried_out(
                    machinery,
                    after.actions,
                    spec_context(after.actor.spec_status()),
                ),
                after.actor,
            )
        }),
{
    let after = react(actor, event, text);
    unfold_actions(machinery, after.actions, spec_context(after.actor.spec_status()));
}

/// A worker that is new to the machinery makes the track of its attempt: for the
/// current slot from the position of the stream on, for the next slot from the
/// beginning. What the output begins to play it counts from the position of the
/// stream.
pub open spec fn begins_right(before: Machinery, then: Machinery, actor: StreamActor) -> bool {
    &&& then.current matches Some(worker) ==> !holds(before.current, worker.generation) && !holds(
        before.next,
        worker.generation,
    ) ==> (actor.current matches Some(attempt) && worker.track == attempt.source
        && worker.start_position_ms == actor.time_played_ms)
    &&& then.next matches Some(worker) ==> !holds(before.next, worker.generation) ==> (
    actor.next matches Some(attempt) && worker.track == attempt.source && worker.start_position_ms
        == 0)
    &&& then.playout matches Some(playout) ==> !(before.playout matches Some(old)
        && old.generation == playout.generation) ==> playout.start_position_ms
        == actor.time_played_ms
}

/// Commands start the right media at the right position.
#[verifier::spinoff_prover]
#[verifier::rlimit(60)]
pub proof fn commands_begin_the_right_media(
    machinery: Machinery,
    actor: StreamActor,
    command: StreamCommand,
)
    requires
        actor.wf(),
        room_for(actor, command),
        refusal(actor, command) is None,
        follows(machinery, actor),
    ensures
        ({
            let after = obey(actor, command);
            begins_right(
                machinery,
                all_carried_out(
                    machinery,
                    after.actions,
                    spec_context(after.actor.spec_status()),
                ),
                after.actor,
            )
        }),
{
    let after = obey(actor, command);
    unfold_actions(machinery, after.actions, spec_context(after.actor.spec_status()));
}

/// Reports of workers start the right media at the right position.
#[verifier::spinoff_prover]
#[verifier::rlimit(60)]
pub proof fn reports_begin_the_right_media(
    machinery: Machinery,
    actor: StreamActor,
    event: WorkerEvent,
    text: String,
)
    requires
        actor.wf(),
        follows(machinery, actor),
    ensures
        ({
            let after = react(actor, event, text);
            begins_right(
                machinery,
                all_carried_out(
                    machinery,
                    after.actions,
                    spec_context(after.actor.spec_status()),
                ),
                after.actor,
            )
        }),
{
    let after = react(actor, event, text);
    unfold_actions(machinery, after.actions, spec_context(after.actor.spec_status()));
}

/// An attempt that is starting has a deadline set for its epoch, unless the stream
/// is paused.
pub open spec fn watched(machinery: Machinery, actor: StreamActor) -> bool {
    actor.play_state != PlayState::Paused ==> {
        &&& actor.current matches Some(attempt) ==> attempt.state == AttemptState::Starting
            ==> machinery.alarms.contains(
            Alarm {
                source_role: SourceRole::Current,
                generation: attempt.generation,
                watchdog_epoch: attempt.watchdog_epoch,
            },
        )
        &&& actor.next matches Some(attempt) ==> attempt.state == AttemptState::Starting
            ==> machinery.alarms.contains(
            Alarm {
                source_role: SourceRole::Next,
                generation: attempt.generation,
                watchdog_epoch: attempt.watchdog_epoch,
            },
        )
    }
}

/// Which deadlines are set after an action.
spec fn alarms_left(alarms: Set<Alarm>, action: TaskAction, alarm: Alarm) -> bool {
    match action {
        TaskAction::StartCurrent { generation, watchdog_epoch, .. } => alarm == (Alarm {
            source_role: SourceRole::Current,
            generation,
            watchdog_epoch,
        }) || (alarms.contains(alarm) && alarm.source_role == SourceRole::Next && alarm.generation
            != generation),
        TaskAction::PrepareNext { generation, watchdog_epoch, .. } => alarm == (Alarm {
            source_role: SourceRole::Next,
            generation,
            watchdog_epoch,
        }) || (alarms.contains(alarm) && alarm.source_role == SourceRole::Current),
        TaskAction::CancelCurrent { generation } => alarms.contains(alarm) && !(alarm.source_role
            == SourceRole::Current && alarm.generation == generation),
        TaskAction::CancelNext { generation } | TaskAction::PauseNext { generation } =>
            alarms.contains(alarm) && !(alarm.source_role == SourceRole::Next && alarm.generation
            == generation),
        TaskAction::PauseCurrent { generation } => alarms.contains(alarm) && alarm.source_role
            == SourceRole::Current && alarm.generation != generation,
        TaskAction::ArmStartupDeadline { source_role, generation, watchdog_epoch } => alarm == (
        Alarm { source_role, generation, watchdog_epoch }) || alarms.contains(alarm),
        TaskAction::StopSender => false,
        _ => alarms.contains(alarm),
    }
}

proof fn alarms_after(m: Machinery, action: TaskAction, context: StepContext)
    ensures
        forall|alarm: Alarm| #[trigger]
            carried_out(m, action, context).alarms.contains(alarm) == alarms_left(
                m.alarms,
                action,
                alarm,
            ),
{
    worked_step_by_step(m, steps_of(action, m.next_generation(), context));
}

/// Which deadlines are set after actions in a row.
spec fn alarms_left_by(alarms: Set<Alarm>, actions: Seq<TaskAction>, alarm: Alarm) -> bool {
    if actions.len() == 0 {
        alarms.contains(alarm)
    } else {
        let first = Set::new(|a: Alarm| alarms_left(alarms, actions[0], a));
        if actions.len() == 1 {
            first.contains(alarm)
        } else {
            let second = Set::new(|a: Alarm| alarms_left(first, actions[1], a));
            if actions.len() == 2 {
                second.contains(alarm)
            } else {
                let third = Set::new(|a: Alarm| alarms_left(second, actions[2], a));
                if actions.len() == 3 {
                    third.contains(alarm)
                } else {
                    alarms_left(third, actions[3], alarm)
                }
            }
        }
    }
}

proof fn unfold_alarms(machinery: Machinery, actions: Seq<TaskAction>, context: StepContext)
    requires
        actions.len() <= 4,
    ensures
        forall|alarm: Alarm| #[trigger]
            all_carried_out(machinery, actions, context).alarms.contains(alarm) == alarms_left_by(
                machinery.alarms,
                actions,
                alarm,
            ),
{
    all_carried_out_unfolds(machinery, actions, context);
    if actions.len() > 0 {
        let first = carried_out(machinery, actions[0], context);
        alarms_after(machinery, actions[0], context);
        assert(first.alarms =~= Set::new(
            |a: Alarm| alarms_left(machinery.alarms, actions[0], a),
        ));
        if actions.len() > 1 {
            let second = carried_out(first, actions[1], context);
            alarms_after(first, actions[1], context);
            assert(second.alarms =~= Set::new(
                |a: Alarm| alarms_left(first.alarms, actions[1], a),
            ));
            if actions.len() > 2 {
                let third = carried_out(second, actions[2], context);
                alarms_after(second, actions[2], context);
                assert(third.alarms =~= Set::new(
                    |a: Alarm| alarms_left(second.alarms, actions[2], a),
                ));
                if actions.len() > 3 {
                    alarms_after(third, actions[3], context);
                }
            }
        }
    }
}

/// After any accepted command whatever is starting has its deadline set, unless
/// the stream is paused.
#[verifier::spinoff_prover]
#[verifier::rlimit(60)]
pub proof fn commands_watch_what_starts(
    machinery: Machinery,
    actor: StreamActor,
    command: StreamCommand,
)
    requires
        actor.wf(),
        room_for(actor, command),
        refusal(actor, command) is None,
        watched(machinery, actor),
    ensures
        ({
            let after = obey(actor, command);
            watched(
                all_carried_out(
                    machinery,
                    after.actions,
                    spec_context(after.actor.spec_status()),
                ),
                after.actor,
            )
        }),
{
    let after = obey(actor, command);
    assert(after.actions.len() <= 4);
    unfold_alarms(machinery, after.actions, spec_context(after.actor.spec_status()));
}

/// So it has after any report of a worker.
#[verifier::spinoff_prover]
#[verifier::rlimit(60)]
pub proof fn reports_watch_what_starts(
    machinery: Machinery,
    actor: StreamActor,
    event: WorkerEvent,
    text: String,
)
    requires
        actor.wf(),
        watched(machinery, actor),
    ensures
        ({
            let after = react(actor, event, text);
            watched(
                all_carried_out(
                    machinery,
                    after.actions,
                    spec_context(after.actor.spec_status()),
                ),
                after.actor,
            )
        }),
{
    let after = react(actor, event, text);
    assert(after.actions.len() <= 4);
    unfold_alarms(machinery, after.actions, spec_context(after.actor.spec_status()));
}

} // verus!
