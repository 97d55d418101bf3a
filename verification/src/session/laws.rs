//! What holds over the whole life of a stream.
use super::spec::{
    fail_output, generations_for, is_request, obey, ordered, react, refusal, room_for, Refusal, Step,
};
use super::types::{AttemptState, PlaybackAttempt, StreamActor, StreamCommand, TaskAction, WorkerEvent};
use crate::error::ErrorCode;
use crate::event::{SourceRole, StreamEvent};
use crate::model::{PlayState, StreamStatus, TrackSource};
use vstd::prelude::*;

verus! {

pub open spec fn occupied_by(slot: Option<PlaybackAttempt>, generation: u64) -> bool {
    slot matches Some(attempt) && attempt.generation == generation
}

/// A generation that sits in a slot of `after` either sat in a slot of
/// `before` or was handed out since.
pub open spec fn only_fresh_generations(before: StreamActor, after: StreamActor) -> bool {
    forall|generation: u64|
        occupied_by(after.current, generation) || occupied_by(after.next, generation)
            ==> occupied_by(before.current, generation) || occupied_by(before.next, generation)
            || before.generation < generation <= after.generation
}

/// Accepted commands keep an actor well formed. Generations only grow, by as many
/// as the command hands out, and none that left its slot ever comes back.
pub proof fn commands_hand_out_fresh_generations(actor: StreamActor, command: StreamCommand)
    requires
        actor.wf(),
        room_for(actor, command),
        refusal(actor, command) is None,
    ensures
        obey(actor, command).actor.wf(),
        obey(actor, command).actor.generation == actor.generation + generations_for(actor, command),
        0 <= generations_for(actor, command) <= 2,
        only_fresh_generations(actor, obey(actor, command).actor),
{
}

/// Worker events keep an actor well formed and hand out no generation.
pub proof fn events_hand_out_no_generation(actor: StreamActor, event: WorkerEvent, text: String)
    requires
        actor.wf(),
    ensures
        react(actor, event, text).actor.wf(),
        react(actor, event, text).actor.generation == actor.generation,
        react(actor, event, text).actor.plan_version == actor.plan_version,
        only_fresh_generations(actor, react(actor, event, text).actor),
{
}

/// Something that happens to a stream; a missed deadline comes with its wording.
pub enum Input {
    Command(StreamCommand),
    Report(WorkerEvent, String),
}

/// Where an input leads: a refused command leads nowhere.
pub open spec fn led_to(actor: StreamActor, input: Input) -> StreamActor {
    match input {
        Input::Command(command) => if refusal(actor, command) is None {
            obey(actor, command).actor
        } else {
            actor
        },
        Input::Report(event, text) => react(actor, event, text).actor,
    }
}

/// The actor after inputs in a row.
pub open spec fn lived(actor: StreamActor, inputs: Seq<Input>) -> StreamActor
    decreases inputs.len(),
{
    if inputs.len() == 0 {
        actor
    } else {
        led_to(lived(actor, inputs.drop_last()), inputs.last())
    }
}

/// Whatever happens to a stream over its life, its slots hold distinct attempts
/// that were handed out, generations and plan versions only grow, and its name
/// stays.
pub proof fn streams_stay_well_formed(actor: StreamActor, inputs: Seq<Input>)
    requires
        actor.wf(),
        actor.generation + 2 * inputs.len() <= u64::MAX,
    ensures
        lived(actor, inputs).wf(),
        actor.generation <= lived(actor, inputs).generation <= actor.generation + 2 * inputs.len(),
        lived(actor, inputs).plan_version >= actor.plan_version,
        lived(actor, inputs).stream_id == actor.stream_id,
    decreases inputs.len(),
{
    if inputs.len() > 0 {
        let before = lived(actor, inputs.drop_last());
        streams_stay_well_formed(actor, inputs.drop_last());
        match inputs.last() {
            Input::Command(command) => {
                if refusal(before, command) is None {
                    commands_hand_out_fresh_generations(before, command);
                    plan_versions_only_grow(before, command);
                }
            },
            Input::Report(event, text) => {
                events_hand_out_no_generation(before, event, text);
            },
        }
    }
}

/// The generation that a report about one attempt carries.
pub open spec fn reported_generation(event: WorkerEvent) -> Option<u64> {
    match event {
        WorkerEvent::CurrentSourceClassified { generation, .. } => Some(generation),
        WorkerEvent::CurrentPrebufferReady { generation } => Some(generation),
        WorkerEvent::CurrentEnded { generation } => Some(generation),
        WorkerEvent::CurrentFailed { generation, .. } => Some(generation),
        WorkerEvent::OutputFailed { .. } => None,
        WorkerEvent::CurrentNetworkQualityChanged { generation, .. } => Some(generation),
        WorkerEvent::NextReady { generation } => Some(generation),
        WorkerEvent::NextFailed { generation, .. } => Some(generation),
        WorkerEvent::StartupTimedOut { generation, .. } => Some(generation),
    }
}

/// A report about an attempt that sits in no slot changes nothing and causes no
/// action.
pub proof fn stale_reports_are_ignored(actor: StreamActor, event: WorkerEvent, text: String)
    requires
        reported_generation(event) matches Some(generation) && !occupied_by(
            actor.current,
            generation,
        ) && !occupied_by(actor.next, generation),
    ensures
        react(actor, event, text) == Step::still(actor),
{
}

/// A plan that is not newer than the one in force changes nothing.
pub proof fn stale_plans_are_ignored(
    actor: StreamActor,
    version: u64,
    current: Option<TrackSource>,
    next: Option<TrackSource>,
)
    requires
        version <= actor.plan_version,
    ensures
        ({
            let command = StreamCommand::ReconcilePlan { version, current, next };
            refusal(actor, command) is None && obey(actor, command) == Step::still(actor)
        }),
{
}

/// The version of the plan in force never falls, and an accepted newer plan is
/// in force afterwards.
pub proof fn plan_versions_only_grow(actor: StreamActor, command: StreamCommand)
    requires
        refusal(actor, command) is None,
    ensures
        obey(actor, command).actor.plan_version >= actor.plan_version,
        command matches StreamCommand::ReconcilePlan { version, .. } ==> version
            > actor.plan_version ==> obey(actor, command).actor.plan_version == version,
{
}

/// Following the same plan twice is following it once.
pub proof fn plans_are_followed_once(
    actor: StreamActor,
    version: u64,
    current: Option<TrackSource>,
    next: Option<TrackSource>,
)
    requires
        refusal(actor, StreamCommand::ReconcilePlan { version, current, next }) is None,
    ensures
        ({
            let command = StreamCommand::ReconcilePlan { version, current, next };
            let once = obey(actor, command).actor;
            obey(once, command) == Step::still(once)
        }),
{
}

/// After an accepted newer plan the slots hold exactly what the plan names.
pub proof fn plans_decide_the_slots(
    actor: StreamActor,
    version: u64,
    current: Option<TrackSource>,
    next: Option<TrackSource>,
)
    requires
        version > actor.plan_version,
        refusal(actor, StreamCommand::ReconcilePlan { version, current, next }) is None,
    ensures
        ({
            let after = obey(
                actor,
                StreamCommand::ReconcilePlan { version, current, next },
            ).actor;
            match current {
                Some(source) => {
                    &&& after.current is Some && after.current->0.source == source
                    &&& next matches Some(following) ==> after.next is Some && after.next->0.source
                        == following
                    &&& next is None ==> after.next is None
                },
                None => after.current is None && after.next is None,
            }
        }),
{
}

/// Only playing and stopping end an explicit pause.
pub proof fn commands_keep_a_pause(actor: StreamActor, command: StreamCommand)
    requires
        actor.paused(),
        refusal(actor, command) is None,
        !(command is Play),
        !(command is Stop),
    ensures
        obey(actor, command).actor.paused(),
{
}

/// A pause outlasts every report, except that a stream whose slots ran empty
/// idles and a stream whose output failed stops.
pub proof fn events_keep_a_pause(actor: StreamActor, event: WorkerEvent, text: String)
    requires
        actor.paused(),
    ensures
        ({
            let after = react(actor, event, text).actor;
            ||| after.paused()
            ||| after.play_state == PlayState::Idle && after.current is None && after.next is None
            ||| after.play_state == PlayState::Stopped && event is OutputFailed
        }),
{
}

/// Seeking and refreshing while paused start no media.
pub proof fn paused_restarts_wait(actor: StreamActor, command: StreamCommand)
    requires
        actor.paused(),
        refusal(actor, command) is None,
        command is Seek || command is RefreshCurrentSource,
    ensures
        ({
            let after = obey(actor, command);
            &&& after.actor.current is Some && after.actor.current->0.state == AttemptState::Dormant
            &&& after.actions == match actor.current {
                Some(old) => seq![TaskAction::CancelCurrent { generation: old.generation }],
                None => Seq::empty(),
            }
        }),
{
    let after = obey(actor, command);
    assert(after.actions =~= match actor.current {
        Some(old) => seq![TaskAction::CancelCurrent { generation: old.generation }],
        None => Seq::empty(),
    });
}

/// A stopped stream holds nothing, cannot be played, and stopping it again does
/// nothing.
pub proof fn stopping_is_final_for_playing(actor: StreamActor)
    ensures
        ({
            let stopped = obey(actor, StreamCommand::Stop).actor;
            &&& stopped.play_state == PlayState::Stopped
            &&& actor.wf() ==> stopped.current is None && stopped.next is None
            &&& refusal(stopped, StreamCommand::Play) is Some
            &&& obey(stopped, StreamCommand::Stop) == Step::still(stopped)
        }),
{
}

/// When the current track ends or fails, a next attempt takes over only if it
/// was ready; the attempt keeps its generation.
pub proof fn only_ready_tracks_take_over(actor: StreamActor, event: WorkerEvent, text: String)
    requires
        actor.wf(),
        event is CurrentEnded || event is CurrentFailed || event is StartupTimedOut,
        react(actor, event, text).actor.current is Some,
        !occupied_by(
            actor.current,
            react(actor, event, text).actor.current->0.generation,
        ),
    ensures
        actor.next is Some && actor.next->0.ready(),
        react(actor, event, text).actor.current->0.generation == actor.next->0.generation,
        react(actor, event, text).actor.next is None,
{
}

/// A next attempt that is still starting is kept, and waited for, when the
/// current track ends.
pub proof fn starting_next_is_waited_for(actor: StreamActor, generation: u64, text: String)
    requires
        actor.plays(generation),
        actor.next is Some,
        !actor.next->0.ready(),
    ensures
        ({
            let after = react(actor, WorkerEvent::CurrentEnded { generation }, text);
            &&& after.actor.next == actor.next
            &&& after.actor.current is None
            &&& after.actor.play_state == actor.waiting()
            &&& after.actions == Seq::<TaskAction>::empty()
            &&& after.events == Seq::<StreamEvent>::empty()
        }),
{
}

/// A failing next attempt leaves the current track alone.
pub proof fn next_failures_spare_the_current_track(
    actor: StreamActor,
    event: WorkerEvent,
    text: String,
)
    requires
        actor.current is Some,
        event is NextFailed || (event matches WorkerEvent::StartupTimedOut { source_role, .. }
            && source_role == SourceRole::Next),
    ensures
        react(actor, event, text).actor.current == actor.current,
        react(actor, event, text).actor.play_state == actor.play_state,
        react(actor, event, text).actor.time_played_ms == actor.time_played_ms,
{
}

/// A live track can be neither paused nor sought in, and no command puts one
/// into the next slot.
pub proof fn live_tracks_stay_live(actor: StreamActor, command: StreamCommand)
    ensures
        actor.current matches Some(attempt) ==> attempt.source.spec_is_live() ==> {
            &&& refusal(actor, StreamCommand::Pause) is Some
            &&& command is Seek ==> refusal(actor, command) == Some(
                Refusal::NotSeekable(attempt.source.id@),
            )
        },
        refusal(actor, command) is None && !(actor.next matches Some(attempt)
            && attempt.source.spec_is_live()) ==> !(obey(actor, command).actor.next matches Some(
            attempt,
        ) && attempt.source.spec_is_live()),
{
}

/// A startup deadline that was set before a pause fails no attempt, neither
/// during the pause nor after the stream plays on.
pub proof fn pausing_voids_startup_deadlines(
    actor: StreamActor,
    source_role: SourceRole,
    generation: u64,
    watchdog_epoch: u64,
    text: String,
)
    requires
        actor.play_state == PlayState::Playing || actor.play_state == PlayState::Buffering,
        refusal(actor, StreamCommand::Pause) is None,
        source_role == SourceRole::Current ==> actor.current is Some
            && actor.current->0.awaits(generation, watchdog_epoch),
        source_role == SourceRole::Next ==> actor.next is Some
            && actor.next->0.awaits(generation, watchdog_epoch),
        watchdog_epoch < u64::MAX,
    ensures
        ({
            let event = WorkerEvent::StartupTimedOut { source_role, generation, watchdog_epoch };
            let held = obey(actor, StreamCommand::Pause).actor;
            let resumed = obey(held, StreamCommand::Play).actor;
            &&& react(held, event, text) == Step::still(held)
            &&& react(resumed, event, text) == Step::still(resumed)
        }),
{
}

/// A deadline of one epoch is void once the attempt has moved to another, and
/// while the stream is paused.
pub proof fn only_pending_deadlines_fail_attempts(
    actor: StreamActor,
    source_role: SourceRole,
    generation: u64,
    watchdog_epoch: u64,
    text: String,
)
    requires
        actor.paused() || !((source_role == SourceRole::Current && (actor.current matches Some(
            attempt,
        ) && attempt.awaits(generation, watchdog_epoch))) || (source_role == SourceRole::Next && (
        actor.next matches Some(attempt) && attempt.awaits(generation, watchdog_epoch)))),
    ensures
        react(
            actor,
            WorkerEvent::StartupTimedOut { source_role, generation, watchdog_epoch },
            text,
        ) == Step::still(actor),
{
}

/// Changing a level touches neither the slots nor the play state, and restarts
/// nothing.
pub proof fn levels_change_nothing_else(actor: StreamActor, command: StreamCommand)
    requires
        command is SetVolume || command is SetGain,
    ensures
        ({
            let after = obey(actor, command);
            &&& refusal(actor, command) is None
            &&& after.actor.current == actor.current
            &&& after.actor.next == actor.next
            &&& after.actor.play_state == actor.play_state
            &&& after.actor.generation == actor.generation
            &&& after.actor.time_played_ms == actor.time_played_ms
            &&& after.events == Seq::<StreamEvent>::empty()
            &&& forall|i: int|
                0 <= i < after.actions.len() ==> {
                    let action = #[trigger] after.actions[i];
                    action is SetCurrentVolume || action is SetNextVolume || action is SetCurrentGain
                        || action is SetNextGain
                }
        }),
{
}

/// A failed output leaves a stopped, empty stream and starts nothing.
pub proof fn output_failure_is_terminal(actor: StreamActor, code: ErrorCode, message: String)
    ensures
        ({
            let after = fail_output(Step::still(actor), code, message);
            &&& after.actor.play_state == PlayState::Stopped
            &&& after.actor.current is None
            &&& after.actor.next is None
            &&& after.actor.wf()
            &&& after.actions == Seq::<TaskAction>::empty()
        }),
{
}

/// What an event list holds: facts, then one state change, then requests.
pub open spec fn states_before_requests(events: Seq<StreamEvent>, status: StreamStatus) -> bool {
    exists|at: int|
        0 <= at < events.len() && #[trigger] events[at] == (StreamEvent::StateChanged {
            status: Box::new(status),
        }) && (forall|i: int| 0 <= i < at ==> !is_request(#[trigger] events[i])) && (forall|i: int|
            at < i < events.len() ==> is_request(#[trigger] events[i]))
}

/// The new state is reported after every fact and before every request, so
/// whoever answers a request knows the state it refers to.
pub proof fn requests_follow_the_state(events: Seq<StreamEvent>, status: StreamStatus)
    ensures
        states_before_requests(ordered(events, status), status),
{
    let facts = events.filter(|event: StreamEvent| !is_request(event));
    let requests = events.filter(|event: StreamEvent| is_request(event));
    broadcast use vstd::seq_lib::group_filter_ensures;

    let all = ordered(events, status);
    let at = facts.len() as int;
    assert(all[at] == (StreamEvent::StateChanged { status: Box::new(status) }));
    assert forall|i: int| 0 <= i < at implies !is_request(#[trigger] all[i]) by {
        assert(all[i] == facts[i]);
    }
    assert forall|i: int| at < i < all.len() implies is_request(#[trigger] all[i]) by {
        assert(all[i] == requests[i - at - 1]);
    }
}

/// Whether an event reports the new state.
pub open spec fn is_state_change(event: StreamEvent) -> bool {
    event is StateChanged
}

/// `events` report the state once, and the state they report is `status`.
pub open spec fn reports_state_once(events: Seq<StreamEvent>, status: StreamStatus) -> bool {
    exists|at: int|
        0 <= at < events.len() && #[trigger] events[at] == (StreamEvent::StateChanged {
            status: Box::new(status),
        }) && forall|i: int|
            0 <= i < events.len() && i != at ==> !is_state_change(#[trigger] events[i])
}

/// Events among which there is no state change are put in an order with exactly
/// one.
proof fn ordering_adds_one_state_change(events: Seq<StreamEvent>, status: StreamStatus)
    requires
        forall|i: int| 0 <= i < events.len() ==> !is_state_change(#[trigger] events[i]),
    ensures
        reports_state_once(ordered(events, status), status),
{
    let facts = events.filter(|event: StreamEvent| !is_request(event));
    let requests = events.filter(|event: StreamEvent| is_request(event));
    broadcast use vstd::seq_lib::group_filter_ensures;

    let all = ordered(events, status);
    let at = facts.len() as int;
    assert(all[at] == (StreamEvent::StateChanged { status: Box::new(status) }));
    assert forall|i: int| 0 <= i < all.len() && i != at implies !is_state_change(
        #[trigger] all[i],
    ) by {
        if i < at {
            assert(all[i] == facts[i]);
            events.lemma_filter_contains_rev(
                |event: StreamEvent| !is_request(event),
                facts[i],
            );
        } else {
            assert(all[i] == requests[i - at - 1]);
            assert(is_request(requests[i - at - 1]));
        }
    }
}

/// An accepted command reports exactly one state change, and it carries the
/// status of the stream that the command leads to.
pub proof fn commands_report_the_state_once(actor: StreamActor, command: StreamCommand)
    requires
        refusal(actor, command) is None,
    ensures
        ({
            let after = obey(actor, command);
            reports_state_once(
                ordered(after.events, after.actor.spec_status()),
                after.actor.spec_status(),
            )
        }),
{
    let after = obey(actor, command);
    ordering_adds_one_state_change(after.events, after.actor.spec_status());
}

/// So does a worker event.
pub proof fn events_report_the_state_once(actor: StreamActor, event: WorkerEvent, text: String)
    ensures
        ({
            let after = react(actor, event, text);
            reports_state_once(
                ordered(after.events, after.actor.spec_status()),
                after.actor.spec_status(),
            )
        }),
{
    let after = react(actor, event, text);
    ordering_adds_one_state_change(after.events, after.actor.spec_status());
}

/// `shown` is what a status shows of a slot: the source of its attempt in every
/// field but the request headers, of which it shows none.
pub open spec fn shows_slot(shown: Option<TrackSource>, slot: Option<PlaybackAttempt>) -> bool {
    match slot {
        None => shown is None,
        Some(attempt) => shown matches Some(source) && source.headers@.len() == 0 && attempt.source
            == (TrackSource { headers: attempt.source.headers, ..source }),
    }
}

/// Request headers stay inside the stream: a status shows both slots without
/// them.
pub proof fn statuses_show_no_headers(actor: StreamActor)
    ensures
        shows_slot(actor.spec_status().current, actor.current),
        shows_slot(actor.spec_status().next, actor.next),
{
    crate::headers::none_is_empty();
}

} // verus!
