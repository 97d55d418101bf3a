//! From actor decisions to work on producers, deadlines and the output.
//!
//! A command is planned on a copy of the actor. Only when all its steps have
//! been carried out does the copy take the place of the original, so a failed
//! step never leaves a state that was not reached.
use super::config::{stream_id_ok, validate_stream_id, ConfigComplaint, StreamRuntimeConfig};
use super::progress::StreamRuntimeProgress;
use super::time::sum;
use crate::error::MusicStreamError;
use crate::event::SourceRole;
use crate::model::{GainLevel, PlayState, StreamStatus, TrackSource, VolumeLevel};
use crate::session::spec::{obey, react, refusal, refused_with, reports, room_for, supplies_text};
use crate::session::types::{ActorOutput, StreamActor, StreamCommand, TaskAction, WorkerEvent};
use vstd::prelude::*;

verus! {

// ---- before the actor ----

/// A command with the kinds of its sources corrected.
pub open spec fn normalized_command(command: StreamCommand) -> StreamCommand {
    match command {
        StreamCommand::RefreshCurrentSource { current } => StreamCommand::RefreshCurrentSource {
            current: current.normalized(),
        },
        StreamCommand::ReconcilePlan { version, current, next } => StreamCommand::ReconcilePlan {
            version,
            current: match current {
                Some(source) => Some(source.normalized()),
                None => None,
            },
            next: match next {
                Some(source) => Some(source.normalized()),
                None => None,
            },
        },
        other => other,
    }
}

pub fn normalize_command_sources(command: StreamCommand) -> (normalized: StreamCommand)
    ensures
        normalized == normalized_command(command),
{
    match command {
        StreamCommand::RefreshCurrentSource { current } => StreamCommand::RefreshCurrentSource {
            current: current.with_detected_kind(),
        },
        StreamCommand::ReconcilePlan { version, current, next } => {
            let current = match current {
                Some(source) => Some(source.with_detected_kind()),
                None => None,
            };
            let next = match next {
                Some(source) => Some(source.with_detected_kind()),
                None => None,
            };
            StreamCommand::ReconcilePlan { version, current, next }
        },
        other => other,
    }
}

pub open spec fn next_source_ok(next: TrackSource) -> bool {
    next.is_valid() && !next.spec_is_live() && !next.spec_is_hls()
}

/// `error` is why a source may not be the next track.
pub open spec fn next_source_refused(next: TrackSource, error: MusicStreamError) -> bool {
    if !next.is_valid() {
        error matches MusicStreamError::InvalidSource(text) && next.refused_as(text@)
    } else {
        error matches MusicStreamError::Unsupported(text) && text@
            == "live and HLS sources cannot be preloaded as next without a timeshift model"@
    }
}

pub fn validate_next_source(next: &TrackSource) -> (result: Result<(), MusicStreamError>)
    ensures
        result is Ok <==> next_source_ok(*next),
        result matches Err(error) ==> next_source_refused(*next, error),
{
    match next.validate() {
        Ok(()) => {},
        Err(error) => {
            return Err(error);
        },
    }
    if next.is_live() || next.is_hls() {
        return Err(
            MusicStreamError::Unsupported(
                "live and HLS sources cannot be preloaded as next without a timeshift model".to_owned(),
            ),
        );
    }
    Ok(())
}

/// Whether the sources of a command can be used.
pub open spec fn command_sources_ok(command: StreamCommand) -> bool {
    match command {
        StreamCommand::RefreshCurrentSource { current } => current.is_valid(),
        StreamCommand::ReconcilePlan { version, current, next } => {
            &&& version > 0
            &&& current matches Some(source) ==> source.is_valid()
            &&& next matches Some(source) ==> next_source_ok(source)
        },
        _ => true,
    }
}

/// `error` is why the sources of a command cannot be used.
pub open spec fn command_sources_refused(command: StreamCommand, error: MusicStreamError) -> bool {
    match command {
        StreamCommand::RefreshCurrentSource { current } => error matches
            MusicStreamError::InvalidSource(text) && current.refused_as(text@),
        StreamCommand::ReconcilePlan { version, current, next } => if version == 0 {
            error matches MusicStreamError::InvalidConfig(text) && text@
                == "desired playback plan version must be positive"@
        } else if current is Some && !current->0.is_valid() {
            error matches MusicStreamError::InvalidSource(text) && current->0.refused_as(text@)
        } else {
            next is Some && next_source_refused(next->0, error)
        },
        _ => false,
    }
}

pub fn validate_command_sources(command: &StreamCommand) -> (result: Result<(), MusicStreamError>)
    ensures
        result is Ok <==> command_sources_ok(*command),
        result matches Err(error) ==> command_sources_refused(*command, error),
{
    match command {
        StreamCommand::RefreshCurrentSource { current } => current.validate(),
        StreamCommand::ReconcilePlan { version, current, next } => {
            if *version == 0 {
                return Err(
                    MusicStreamError::InvalidConfig(
                        "desired playback plan version must be positive".to_owned(),
                    ),
                );
            }
            if let Some(current) = current {
                match current.validate() {
                    Ok(()) => {},
                    Err(error) => {
                        return Err(error);
                    },
                }
            }
            match next {
                Some(next) => validate_next_source(next),
                None => Ok(()),
            }
        },
        _ => Ok(()),
    }
}

/// A transition that is not in force yet.
#[derive(Debug)]
pub struct Planned {
    pub actor: StreamActor,
    pub output: ActorOutput,
}

/// Plans a command on a copy of the actor.
pub fn plan_command(actor: &StreamActor, command: StreamCommand) -> (result: Result<
    Planned,
    MusicStreamError,
>)
    requires
        command_sources_ok(normalized_command(command)) ==> room_for(
            *actor,
            normalized_command(command),
        ),
    ensures
        ({
            let wanted = normalized_command(command);
            &&& result is Ok <==> command_sources_ok(wanted) && refusal(*actor, wanted) is None
            &&& match result {
                Ok(planned) => reports(obey(*actor, wanted), planned.actor, planned.output),
                Err(error) => if !command_sources_ok(wanted) {
                    command_sources_refused(wanted, error)
                } else {
                    refused_with(error, refusal(*actor, wanted)->0)
                },
            }
        }),
{
    let wanted = normalize_command_sources(command);
    match validate_command_sources(&wanted) {
        Ok(()) => {},
        Err(error) => {
            return Err(error);
        },
    }
    let mut copy = actor.clone();
    match copy.handle_command(wanted) {
        Ok(output) => Ok(Planned { actor: copy, output }),
        Err(error) => Err(error),
    }
}

/// Plans the reaction to a worker event on a copy of the actor.
pub fn plan_worker_event(actor: &StreamActor, event: WorkerEvent) -> (planned: Planned)
    ensures
        exists|text: String| #[trigger]
            supplies_text(event, text) && reports(
                react(*actor, event, text),
                planned.actor,
                planned.output,
            ),
{
    let mut copy = actor.clone();
    let output = copy.handle_worker_event(event);
    Planned { actor: copy, output }
}

/// `error` is the first thing wrong with a stream that is to be started.
pub open spec fn start_refused(
    stream_id: Seq<char>,
    config: StreamRuntimeConfig,
    transport: Result<(), MusicStreamError>,
    source: Result<(), MusicStreamError>,
    current: TrackSource,
    error: MusicStreamError,
) -> bool {
    if !stream_id_ok(stream_id) {
        error matches MusicStreamError::InvalidConfig(text) && text@
            == "stream id must contain 1 to 512 bytes"@
    } else {
        match config.complaint(transport is Ok, source is Ok) {
            Some(ConfigComplaint::Transport) => transport == Err::<(), _>(error),
            Some(ConfigComplaint::Source) => source == Err::<(), _>(error),
            Some(ConfigComplaint::Config(text)) => error matches MusicStreamError::InvalidConfig(
                message,
            ) && message@ == text,
            None => error matches MusicStreamError::InvalidSource(text) && current.refused_as(
                text@,
            ),
        }
    }
}

/// Checks what a stream is to be started with and returns its first track with
/// its kind corrected.
pub fn check_start(
    stream_id: &str,
    current: TrackSource,
    config: &StreamRuntimeConfig,
    transport: Result<(), MusicStreamError>,
    source: Result<(), MusicStreamError>,
) -> (result: Result<TrackSource, MusicStreamError>)
    ensures
        result is Ok <==> stream_id_ok(stream_id@) && config.complaint(
            transport is Ok,
            source is Ok,
        ) is None && current.normalized().is_valid(),
        match result {
            Ok(track) => track == current.normalized(),
            Err(error) => start_refused(
                stream_id@,
                *config,
                transport,
                source,
                current.normalized(),
                error,
            ),
        },
{
    let current = current.with_detected_kind();
    match validate_stream_id(stream_id) {
        Ok(()) => {},
        Err(error) => {
            return Err(error);
        },
    }
    match config.validate(transport, source) {
        Ok(()) => {},
        Err(error) => {
            return Err(error);
        },
    }
    match current.validate() {
        Ok(()) => Ok(current),
        Err(error) => Err(error),
    }
}

/// The commands that bring a new stream to play: levels that differ from the
/// defaults first.
pub fn opening_commands(volume: VolumeLevel, gain: GainLevel) -> (commands: Vec<StreamCommand>)
    ensures
        commands@ == (if volume@ != VolumeLevel::SCALE {
            seq![StreamCommand::SetVolume { volume }]
        } else {
            Seq::empty()
        }) + (if gain@ != 0 {
            seq![StreamCommand::SetGain { gain }]
        } else {
            Seq::empty()
        }) + seq![StreamCommand::Play],
{
    let mut commands: Vec<StreamCommand> = Vec::new();
    if volume.units() != VolumeLevel::SCALE {
        commands.push(StreamCommand::SetVolume { volume });
    }
    if gain.centibels() != 0 {
        commands.push(StreamCommand::SetGain { gain });
    }
    commands.push(StreamCommand::Play);
    proof {
        assert(commands@ =~= (if volume@ != VolumeLevel::SCALE {
            seq![StreamCommand::SetVolume { volume }]
        } else {
            Seq::empty()
        }) + (if gain@ != 0 {
            seq![StreamCommand::SetGain { gain }]
        } else {
            Seq::empty()
        }) + seq![StreamCommand::Play]);
    }
    commands
}

#[derive(Debug)]
pub struct StreamRuntimeSnapshot {
    pub status: StreamStatus,
    pub progress: StreamRuntimeProgress,
}

/// Joins the state of a stream with the progress of its output. The position is
/// that of the output as long as both speak of the same attempt.
pub fn runtime_snapshot(status: StreamStatus, progress: StreamRuntimeProgress) -> (snapshot:
    StreamRuntimeSnapshot)
    ensures
        snapshot.progress == progress,
        snapshot.status == (StreamStatus {
            time_played_ms: if progress.generation == status.generation {
                sum(progress.start_position_ms, progress.media_sent_ms)
            } else {
                status.time_played_ms
            },
            ..status
        }),
{
    let mut status = status;
    if progress.generation == status.generation {
        status.time_played_ms = progress.stream_position_ms();
    }
    StreamRuntimeSnapshot { status, progress }
}

// ---- after the actor ----

/// One piece of work on the runtime of a stream.
#[derive(Debug)]
pub enum RuntimeStep {
    CancelDeadlines { source_role: SourceRole, generation: Option<u64> },
    CancelAllDeadlines,
    ArmDeadline { source_role: SourceRole, generation: u64, watchdog_epoch: u64 },
    /// Take the next producer out of its slot as the new current one.
    PromoteNext { generation: u64 },
    /// Make a new producer.
    Spawn {
        source_role: SourceRole,
        generation: u64,
        track: TrackSource,
        start_position_ms: u64,
        volume: VolumeLevel,
        gain: GainLevel,
        paused: bool,
    },
    /// Connect the producer at hand to the output.
    Activate { generation: u64, start_position_ms: u64, paused: bool },
    /// Put the producer at hand into its slot and stop the one it displaces.
    Install { source_role: SourceRole },
    Deactivate { generation: u64 },
    /// Stop the producer in a slot if it is of this generation.
    StopProducer { source_role: SourceRole, generation: u64 },
    /// Hold the producer in a slot, or only one of this generation.
    PauseProducer { source_role: SourceRole, generation: Option<u64> },
    ResumeProducer { source_role: SourceRole, generation: Option<u64> },
    PauseOutput { generation: u64 },
    ResumeOutput { generation: u64 },
    SetVolume { source_role: SourceRole, generation: u64, volume: VolumeLevel },
    SetGain { source_role: SourceRole, generation: u64, gain: GainLevel },
    StopAllProducers,
    ShutdownOutput,
    ReleasePermit,
}

/// The circumstances of a transition that its steps need.
#[derive(Clone, Copy, Debug, PartialEq, Eq)]
pub struct StepContext {
    pub volume: VolumeLevel,
    pub gain: GainLevel,
    pub start_position_ms: u64,
    pub paused: bool,
}

pub open spec fn spec_context(status: StreamStatus) -> StepContext {
    StepContext {
        volume: status.volume,
        gain: status.gain,
        start_position_ms: status.time_played_ms,
        paused: status.play_state == PlayState::Paused,
    }
}

pub fn step_context(status: &StreamStatus) -> (context: StepContext)
    ensures
        context == spec_context(*status),
{
    StepContext {
        volume: status.volume,
        gain: status.gain,
        start_position_ms: status.time_played_ms,
        paused: status.play_state == PlayState::Paused,
    }
}

/// The steps of one action, given the generation of the producer in the next
/// slot.
pub open spec fn steps_of(action: TaskAction, next_slot: Option<u64>, context: StepContext) -> Seq<
    RuntimeStep,
> {
    match action {
        TaskAction::StartCurrent { generation, watchdog_epoch, track } => seq![
            RuntimeStep::CancelDeadlines { source_role: SourceRole::Current, generation: None },
            RuntimeStep::CancelDeadlines {
                source_role: SourceRole::Next,
                generation: Some(generation),
            },
            if next_slot == Some(generation) {
                RuntimeStep::PromoteNext { generation }
            } else {
                RuntimeStep::Spawn {
                    source_role: SourceRole::Current,
                    generation,
                    track,
                    start_position_ms: context.start_position_ms,
                    volume: context.volume,
                    gain: context.gain,
                    paused: context.paused,
                }
            },
            RuntimeStep::Activate {
                generation,
                start_position_ms: context.start_position_ms,
                paused: context.paused,
            },
            RuntimeStep::Install { source_role: SourceRole::Current },
            RuntimeStep::ArmDeadline {
                source_role: SourceRole::Current,
                generation,
                watchdog_epoch,
            },
        ],
        TaskAction::PrepareNext { generation, watchdog_epoch, track } => seq![
            RuntimeStep::CancelDeadlines { source_role: SourceRole::Next, generation: None },
            RuntimeStep::Spawn {
                source_role: SourceRole::Next,
                generation,
                track,
                start_position_ms: 0,
                volume: context.volume,
                gain: context.gain,
                paused: context.paused,
            },
            RuntimeStep::Install { source_role: SourceRole::Next },
            RuntimeStep::ArmDeadline { source_role: SourceRole::Next, generation, watchdog_epoch },
        ],
        TaskAction::CancelCurrent { generation } => seq![
            RuntimeStep::CancelDeadlines {
                source_role: SourceRole::Current,
                generation: Some(generation),
            },
            RuntimeStep::Deactivate { generation },
            RuntimeStep::StopProducer { source_role: SourceRole::Current, generation },
        ],
        TaskAction::CancelNext { generation } => seq![
            RuntimeStep::CancelDeadlines {
                source_role: SourceRole::Next,
                generation: Some(generation),
            },
            RuntimeStep::StopProducer { source_role: SourceRole::Next, generation },
        ],
        TaskAction::PauseCurrent { generation } => seq![
            RuntimeStep::CancelDeadlines {
                source_role: SourceRole::Current,
                generation: Some(generation),
            },
            RuntimeStep::CancelDeadlines { source_role: SourceRole::Next, generation: None },
            RuntimeStep::PauseProducer {
                source_role: SourceRole::Current,
                generation: Some(generation),
            },
            RuntimeStep::PauseProducer { source_role: SourceRole::Next, generation: None },
            RuntimeStep::PauseOutput { generation },
        ],
        TaskAction::PauseNext { generation } => seq![
            RuntimeStep::CancelDeadlines {
                source_role: SourceRole::Next,
                generation: Some(generation),
            },
            RuntimeStep::PauseProducer {
                source_role: SourceRole::Next,
                generation: Some(generation),
            },
        ],
        TaskAction::ResumeCurrent { generation } => seq![
            RuntimeStep::ResumeProducer {
                source_role: SourceRole::Current,
                generation: Some(generation),
            },
            RuntimeStep::ResumeProducer { source_role: SourceRole::Next, generation: None },
            RuntimeStep::ResumeOutput { generation },
        ],
        TaskAction::ResumeNext { generation } => seq![
            RuntimeStep::ResumeProducer {
                source_role: SourceRole::Next,
                generation: Some(generation),
            },
        ],
        TaskAction::ArmStartupDeadline { source_role, generation, watchdog_epoch } => seq![
            RuntimeStep::ArmDeadline { source_role, generation, watchdog_epoch },
        ],
        TaskAction::SetCurrentVolume { generation, volume } => seq![
            RuntimeStep::SetVolume { source_role: SourceRole::Current, generation, volume },
        ],
        TaskAction::SetNextVolume { generation, volume } => seq![
            RuntimeStep::SetVolume { source_role: SourceRole::Next, generation, volume },
        ],
        TaskAction::SetCurrentGain { generation, gain } => seq![
            RuntimeStep::SetGain { source_role: SourceRole::Current, generation, gain },
        ],
        TaskAction::SetNextGain { generation, gain } => seq![
            RuntimeStep::SetGain { source_role: SourceRole::Next, generation, gain },
        ],
        TaskAction::StopSender => seq![
            RuntimeStep::CancelAllDeadlines,
            RuntimeStep::StopAllProducers,
            RuntimeStep::ShutdownOutput,
            RuntimeStep::ReleasePermit,
        ],
    }
}

/// The steps of an action and how a failing one is treated.
#[derive(Debug)]
pub struct ActionPlan {
    pub steps: Vec<RuntimeStep>,
    /// Carry out all steps even if one fails; the first failure is reported.
    pub run_all: bool,
}

/// Plans the work of one action.
pub fn plan_action(action: TaskAction, next_slot: Option<u64>, context: StepContext) -> (plan:
    ActionPlan)
    ensures
        plan.steps@ == steps_of(action, next_slot, context),
        plan.run_all == (action is CancelCurrent || action is StopSender),
{
    let run_all = match &action {
        TaskAction::CancelCurrent { .. } | TaskAction::StopSender => true,
        _ => false,
    };
    let ghost planned = action;
    let mut steps: Vec<RuntimeStep> = Vec::new();
    match action {
        TaskAction::StartCurrent { generation, watchdog_epoch, track } => {
            steps.push(
                RuntimeStep::CancelDeadlines { source_role: SourceRole::Current, generation: None },
            );
            steps.push(
                RuntimeStep::CancelDeadlines {
                    source_role: SourceRole::Next,
                    generation: Some(generation),
                },
            );
            let promoted = match next_slot {
                Some(held) => held == generation,
                None => false,
            };
            if promoted {
                steps.push(RuntimeStep::PromoteNext { generation });
            } else {
                steps.push(
                    RuntimeStep::Spawn {
                        source_role: SourceRole::Current,
                        generation,
                        track,
                        start_position_ms: context.start_position_ms,
                        volume: context.volume,
                        gain: context.gain,
                        paused: context.paused,
                    },
                );
            }
            steps.push(
                RuntimeStep::Activate {
                    generation,
                    start_position_ms: context.start_position_ms,
                    paused: context.paused,
                },
            );
            steps.push(RuntimeStep::Install { source_role: SourceRole::Current });
            steps.push(
                RuntimeStep::ArmDeadline {
                    source_role: SourceRole::Current,
                    generation,
                    watchdog_epoch,
                },
            );
        },
        TaskAction::PrepareNext { generation, watchdog_epoch, track } => {
            steps.push(
                RuntimeStep::CancelDeadlines { source_role: SourceRole::Next, generation: None },
            );
            steps.push(
                RuntimeStep::Spawn {
                    source_role: SourceRole::Next,
                    generation,
                    track,
                    start_position_ms: 0,
                    volume: context.volume,
                    gain: context.gain,
                    paused: context.paused,
                },
            );
            steps.push(RuntimeStep::Install { source_role: SourceRole::Next });
            steps.push(
                RuntimeStep::ArmDeadline {
                    source_role: SourceRole::Next,
                    generation,
                    watchdog_epoch,
                },
            );
        },
        TaskAction::CancelCurrent { generation } => {
            steps.push(
                RuntimeStep::CancelDeadlines {
                    source_role: SourceRole::Current,
                    generation: Some(generation),
                },
            );
            steps.push(RuntimeStep::Deactivate { generation });
            steps.push(
                RuntimeStep::StopProducer { source_role: SourceRole::Current, generation },
            );
        },
        TaskAction::CancelNext { generation } => {
            steps.push(
                RuntimeStep::CancelDeadlines {
                    source_role: SourceRole::Next,
                    generation: Some(generation),
                },
            );
            steps.push(RuntimeStep::StopProducer { source_role: SourceRole::Next, generation });
        },
        TaskAction::PauseCurrent { generation } => {
            steps.push(
                RuntimeStep::CancelDeadlines {
                    source_role: SourceRole::Current,
                    generation: Some(generation),
                },
            );
            steps.push(
                RuntimeStep::CancelDeadlines { source_role: SourceRole::Next, generation: None },
            );
            steps.push(
                RuntimeStep::PauseProducer {
                    source_role: SourceRole::Current,
                    generation: Some(generation),
                },
            );
            steps.push(
                RuntimeStep::PauseProducer { source_role: SourceRole::Next, generation: None },
            );
            steps.push(RuntimeStep::PauseOutput { generation });
        },
        TaskAction::PauseNext { generation } => {
            steps.push(
                RuntimeStep::CancelDeadlines {
                    source_role: SourceRole::Next,
                    generation: Some(generation),
                },
            );
            steps.push(
                RuntimeStep::PauseProducer {
                    source_role: SourceRole::Next,
                    generation: Some(generation),
                },
            );
        },
        TaskAction::ResumeCurrent { generation } => {
            steps.push(
                RuntimeStep::ResumeProducer {
                    source_role: SourceRole::Current,
                    generation: Some(generation),
                },
            );
            steps.push(
                RuntimeStep::ResumeProducer { source_role: SourceRole::Next, generation: None },
            );
            steps.push(RuntimeStep::ResumeOutput { generation });
        },
        TaskAction::ResumeNext { generation } => {
            steps.push(
                RuntimeStep::ResumeProducer {
                    source_role: SourceRole::Next,
                    generation: Some(generation),
                },
            );
        },
        TaskAction::ArmStartupDeadline { source_role, generation, watchdog_epoch } => {
            steps.push(RuntimeStep::ArmDeadline { source_role, generation, watchdog_epoch });
        },
        TaskAction::SetCurrentVolume { generation, volume } => {
            steps.push(
                RuntimeStep::SetVolume { source_role: SourceRole::Current, generation, volume },
            );
        },
        TaskAction::SetNextVolume { generation, volume } => {
            steps.push(
                RuntimeStep::SetVolume { source_role: SourceRole::Next, generation, volume },
            );
        },
        TaskAction::SetCurrentGain { generation, gain } => {
            steps.push(
                RuntimeStep::SetGain { source_role: SourceRole::Current, generation, gain },
            );
        },
        TaskAction::SetNextGain { generation, gain } => {
            steps.push(RuntimeStep::SetGain { source_role: SourceRole::Next, generation, gain });
        },
        TaskAction::StopSender => {
            steps.push(RuntimeStep::CancelAllDeadlines);
            steps.push(RuntimeStep::StopAllProducers);
            steps.push(RuntimeStep::ShutdownOutput);
            steps.push(RuntimeStep::ReleasePermit);
        },
    }
    proof {
        assert(steps@ =~= steps_of(planned, next_slot, context));
    }
    ActionPlan { steps, run_all }
}

/// Keeps the first failure of steps that were all carried out.
pub fn first_failure(
    earlier: Result<(), MusicStreamError>,
    later: Result<(), MusicStreamError>,
) -> (result: Result<(), MusicStreamError>)
    ensures
        result == if earlier is Err {
            earlier
        } else {
            later
        },
{
    match earlier {
        Err(error) => Err(error),
        Ok(()) => later,
    }
}

// ---- what the steps do to the producer slots ----

/// The generations of the producers in the two slots, and of the one at hand.
pub struct Slots {
    pub current: Option<u64>,
    pub next: Option<u64>,
    pub at_hand: Option<u64>,
}

/// What one step does to the slots.
pub open spec fn moved(slots: Slots, step: RuntimeStep) -> Slots {
    match step {
        RuntimeStep::PromoteNext { generation } => Slots {
            next: None,
            at_hand: Some(generation),
            ..slots
        },
        RuntimeStep::Spawn { generation, .. } => Slots { at_hand: Some(generation), ..slots },
        RuntimeStep::Install { source_role } => match source_role {
            SourceRole::Current => Slots { current: slots.at_hand, at_hand: None, ..slots },
            SourceRole::Next => Slots { next: slots.at_hand, at_hand: None, ..slots },
        },
        RuntimeStep::StopProducer { source_role, generation } => match source_role {
            SourceRole::Current => if slots.current == Some(generation) {
                Slots { current: None, ..slots }
            } else {
                slots
            },
            SourceRole::Next => if slots.next == Some(generation) {
                Slots { next: None, ..slots }
            } else {
                slots
            },
        },
        RuntimeStep::StopAllProducers => Slots { current: None, next: None, ..slots },
        _ => slots,
    }
}

pub open spec fn moved_by_all(slots: Slots, steps: Seq<RuntimeStep>) -> Slots
    decreases steps.len(),
{
    if steps.len() == 0 {
        slots
    } else {
        moved(moved_by_all(slots, steps.drop_last()), steps.last())
    }
}

/// What carrying out actions one after the other does to the slots.
pub open spec fn after_actions(
    slots: Slots,
    actions: Seq<TaskAction>,
    context: StepContext,
) -> Slots
    decreases actions.len(),
{
    if actions.len() == 0 {
        slots
    } else {
        let before = after_actions(slots, actions.drop_last(), context);
        moved_by_all(before, steps_of(actions.last(), before.next, context))
    }
}

/// Every attempt that is starting or ready has its producer in its slot.
pub open spec fn serves(slots: Slots, actor: StreamActor) -> bool {
    &&& actor.current matches Some(attempt) ==> attempt.active() ==> slots.current == Some(
        attempt.generation,
    )
    &&& actor.next matches Some(attempt) ==> attempt.active() ==> slots.next == Some(
        attempt.generation,
    )
}

/// What one action amounts to.
pub open spec fn shifted(slots: Slots, action: TaskAction) -> Slots {
    match action {
        TaskAction::StartCurrent { generation, .. } => Slots {
            current: Some(generation),
            next: if slots.next == Some(generation) {
                None
            } else {
                slots.next
            },
            at_hand: None,
        },
        TaskAction::PrepareNext { generation, .. } => Slots {
            next: Some(generation),
            at_hand: None,
            ..slots
        },
        TaskAction::CancelCurrent { generation } => if slots.current == Some(generation) {
            Slots { current: None, ..slots }
        } else {
            slots
        },
        TaskAction::CancelNext { generation } => if slots.next == Some(generation) {
            Slots { next: None, ..slots }
        } else {
            slots
        },
        TaskAction::StopSender => Slots { current: None, next: None, ..slots },
        _ => slots,
    }
}

proof fn actions_amount_to(slots: Slots, action: TaskAction, context: StepContext)
    ensures
        moved_by_all(slots, steps_of(action, slots.next, context)) == shifted(slots, action),
{
    let steps = steps_of(action, slots.next, context);
    reveal_with_fuel(moved_by_all, 8);
    assert(steps.len() <= 6);
    assert(steps.len() > 1 ==> steps.drop_last().last() == steps[steps.len() - 2]);
    assert(steps.len() > 2 ==> steps.drop_last().drop_last().last() == steps[steps.len() - 3]);
    assert(steps.len() > 3 ==> steps.drop_last().drop_last().drop_last().last() == steps[steps.len()
        - 4]);
    assert(steps.len() > 4 ==> steps.drop_last().drop_last().drop_last().drop_last().last()
        == steps[steps.len() - 5]);
    assert(steps.len() > 5
        ==> steps.drop_last().drop_last().drop_last().drop_last().drop_last().last()
        == steps[steps.len() - 6]);
}

/// Slots after a run of actions, by what each amounts to.
pub open spec fn shifted_by_all(slots: Slots, actions: Seq<TaskAction>) -> Slots
    decreases actions.len(),
{
    if actions.len() == 0 {
        slots
    } else {
        shifted(shifted_by_all(slots, actions.drop_last()), actions.last())
    }
}

proof fn runs_amount_to(slots: Slots, actions: Seq<TaskAction>, context: StepContext)
    ensures
        after_actions(slots, actions, context) == shifted_by_all(slots, actions),
    decreases actions.len(),
{
    if actions.len() > 0 {
        runs_amount_to(slots, actions.drop_last(), context);
        actions_amount_to(
            after_actions(slots, actions.drop_last(), context),
            actions.last(),
            context,
        );
    }
}

/// Carrying out the actions of a command keeps every running attempt supplied:
/// an attempt that is starting or ready afterwards has its producer.
pub proof fn commands_keep_attempts_supplied(
    slots: Slots,
    actor: StreamActor,
    command: StreamCommand,
)
    requires
        actor.wf(),
        room_for(actor, command),
        refusal(actor, command) is None,
        serves(slots, actor),
    ensures
        ({
            let after = obey(actor, command);
            serves(
                after_actions(slots, after.actions, spec_context(after.actor.spec_status())),
                after.actor,
            )
        }),
{
    let after = obey(actor, command);
    runs_amount_to(slots, after.actions, spec_context(after.actor.spec_status()));
    unfold_run(slots, after.actions);
}

/// So do the actions that follow a worker event, as long as nothing is reported
/// ready that was never started.
pub proof fn events_keep_attempts_supplied(
    slots: Slots,
    actor: StreamActor,
    event: WorkerEvent,
    text: String,
)
    requires
        actor.wf(),
        serves(slots, actor),
        event matches WorkerEvent::CurrentPrebufferReady { generation } ==> actor.plays(generation)
            ==> actor.current->0.active(),
    ensures
        ({
            let after = react(actor, event, text);
            serves(
                after_actions(slots, after.actions, spec_context(after.actor.spec_status())),
                after.actor,
            )
        }),
{
    let after = react(actor, event, text);
    runs_amount_to(slots, after.actions, spec_context(after.actor.spec_status()));
    unfold_run(slots, after.actions);
}

proof fn unfold_run(slots: Slots, actions: Seq<TaskAction>)
    ensures
        actions.len() == 0 ==> shifted_by_all(slots, actions) == slots,
        actions.len() == 1 ==> shifted_by_all(slots, actions) == shifted(slots, actions[0]),
        actions.len() == 2 ==> shifted_by_all(slots, actions) == shifted(
            shifted(slots, actions[0]),
            actions[1],
        ),
        actions.len() == 3 ==> shifted_by_all(slots, actions) == shifted(
            shifted(shifted(slots, actions[0]), actions[1]),
            actions[2],
        ),
        actions.len() == 4 ==> shifted_by_all(slots, actions) == shifted(
            shifted(shifted(shifted(slots, actions[0]), actions[1]), actions[2]),
            actions[3],
        ),
{
    reveal_with_fuel(shifted_by_all, 6);
}

/// A command keeps what it asks for when the kinds of its sources are corrected: a
/// playlist counts as live, and nothing else about a source changes.
pub proof fn corrected_commands_ask_for_the_same(command: StreamCommand)
    ensures
        ({
            let corrected = normalized_command(command);
            &&& !(command is RefreshCurrentSource) && !(command is ReconcilePlan) ==> corrected
                == command
            &&& command matches StreamCommand::RefreshCurrentSource { current } ==> (
            corrected matches StreamCommand::RefreshCurrentSource { current: source }
                && is_corrected(current, source))
            &&& command matches StreamCommand::ReconcilePlan { version, current, next } ==> (
            corrected matches StreamCommand::ReconcilePlan {
                version: same,
                current: track,
                next: following,
            } && same == version && (track is Some <==> current is Some) && (following is Some
                <==> next is Some) && (current is Some ==> is_corrected(current->0, track->0)) && (
            next is Some ==> is_corrected(next->0, following->0)))
        }),
{
}

/// `corrected` is `source`, as a live source if it is a playlist.
pub open spec fn is_corrected(source: TrackSource, corrected: TrackSource) -> bool {
    &&& corrected.attempt_id == source.attempt_id && corrected.id == source.id
    &&& corrected.url == source.url && corrected.path == source.path
    &&& corrected.format_hint == source.format_hint && corrected.headers == source.headers
    &&& corrected.network_policy == source.network_policy
    &&& source.spec_is_hls() ==> corrected.kind == crate::model::TrackKind::Live
        && corrected.seekable == Some(false)
    &&& !source.spec_is_hls() ==> corrected.kind == source.kind && corrected.seekable
        == source.seekable
}

/// Which commands are looked into: a refreshed source has to be valid; a plan has to
/// be numbered, its current track valid, and its next track valid and neither live
/// nor a playlist.
pub proof fn commands_carry_usable_sources(command: StreamCommand)
    ensures
        command matches StreamCommand::RefreshCurrentSource { current } ==> (command_sources_ok(
            command,
        ) <==> current.is_valid()),
        command matches StreamCommand::ReconcilePlan { version, current, next } ==> (
        command_sources_ok(command) <==> version != 0 && (current is Some ==> current->0.is_valid())
            && (next is Some ==> next->0.is_valid() && next->0.kind
            != crate::model::TrackKind::Live && !next->0.spec_is_hls())),
        !(command is RefreshCurrentSource) && !(command is ReconcilePlan) ==> command_sources_ok(
            command,
        ),
{
}

/// The position of a stream is that of its output, as long as the output plays what
/// the stream says; otherwise it is where the stream says. Nothing else about the
/// status changes.
pub proof fn positions_come_from_the_right_attempt(
    status: StreamStatus,
    progress: StreamRuntimeProgress,
    snapshot: StreamRuntimeSnapshot,
)
    requires
        call_ensures(runtime_snapshot, (status, progress), snapshot),
        progress.start_position_ms + progress.media_sent_ms <= u64::MAX,
    ensures
        snapshot.progress == progress,
        progress.generation == status.generation ==> snapshot.status.time_played_ms
            == progress.start_position_ms + progress.media_sent_ms,
        progress.generation != status.generation ==> snapshot.status == status,
        snapshot.status.play_state == status.play_state && snapshot.status.current
            == status.current && snapshot.status.next == status.next,
        snapshot.status.generation == status.generation && snapshot.status.plan_version
            == status.plan_version,
        snapshot.status.volume == status.volume && snapshot.status.gain == status.gain
            && snapshot.status.stream_id == status.stream_id,
{
}

/// The stream after commands in a row.
pub open spec fn obeyed(actor: StreamActor, commands: Seq<StreamCommand>) -> StreamActor
    decreases commands.len(),
{
    if commands.len() == 0 {
        actor
    } else {
        obey(obeyed(actor, commands.drop_last()), commands.last()).actor
    }
}

/// The opening commands bring a new stream to play its track at the levels it was
/// opened with.
pub proof fn opened_streams_play_at_their_levels(
    actor: StreamActor,
    volume: VolumeLevel,
    gain: GainLevel,
    commands: Vec<StreamCommand>,
)
    requires
        call_ensures(opening_commands, (volume, gain), commands),
        actor.play_state == PlayState::Idle,
        actor.current matches Some(attempt) && attempt.state
            == crate::session::types::AttemptState::Dormant,
        actor.next is None,
        actor.volume@ == VolumeLevel::SCALE,
        actor.gain@ == 0,
    ensures
        ({
            let opened = obeyed(actor, commands@);
            &&& opened.volume@ == volume@
            &&& opened.gain@ == gain@
            &&& opened.play_state == PlayState::Buffering
            &&& opened.current is Some && opened.current->0.state
                == crate::session::types::AttemptState::Starting
            &&& opened.current->0.generation == actor.current->0.generation
            &&& opened.current->0.source == actor.current->0.source
        }),
{
    reveal_with_fuel(obeyed, 4);
    assert(1 <= commands@.len() <= 3);
    assert(commands@.last() == StreamCommand::Play);
}

/// Taking something down goes on when a step fails, so that nothing is left behind;
/// anything else stops there.
pub proof fn taking_down_goes_on(
    action: TaskAction,
    next_slot: Option<u64>,
    context: StepContext,
    plan: ActionPlan,
)
    requires
        call_ensures(plan_action, (action, next_slot, context), plan),
    ensures
        action is StopSender ==> plan.run_all,
        action is CancelCurrent ==> plan.run_all,
        action is StartCurrent || action is PrepareNext ==> !plan.run_all,
        action is PauseCurrent || action is ResumeCurrent ==> !plan.run_all,
        plan.steps@.len() > 0,
{
}

/// Of several failures the first one is told, and none is lost.
pub proof fn the_first_failure_is_told(
    earlier: Result<(), MusicStreamError>,
    later: Result<(), MusicStreamError>,
    told: Result<(), MusicStreamError>,
)
    requires
        call_ensures(first_failure, (earlier, later), told),
    ensures
        told is Ok <==> earlier is Ok && later is Ok,
        earlier is Err ==> told == earlier,
        earlier is Ok ==> told == later,
{
}

/// What a step is given is what the stream shows.
pub proof fn steps_go_by_the_status(status: StreamStatus)
    ensures
        spec_context(status).volume == status.volume,
        spec_context(status).gain == status.gain,
        spec_context(status).start_position_ms == status.time_played_ms,
        spec_context(status).paused <==> status.play_state == PlayState::Paused,
{
}

} // verus!
