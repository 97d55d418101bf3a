//! What an owner can count on when a stream takes a command or hears a report.
use super::spec::{is_request, obey, ordered, react, refusal, reports, Refusal, Step};
use super::types::{
    ActorOutput, AttemptState, PlaybackAttempt, StreamActor, StreamCommand, TaskAction, WorkerEvent,
};
use crate::error::ErrorCode;
use crate::event::{SourceRole, StreamEvent};
use crate::model::{PlayState, StreamStatus, TrackKind, TrackSource};
use vstd::prelude::*;

verus! {

/// An attempt whose media is being made.
pub open spec fn under_way(slot: Option<PlaybackAttempt>) -> bool {
    slot matches Some(attempt) && (attempt.state == AttemptState::Starting || attempt.state
        == AttemptState::Ready)
}

/// Two slots hold the same attempt, in the same state, or none.
pub open spec fn same_attempt(slot: Option<PlaybackAttempt>, other: Option<PlaybackAttempt>) -> bool {
    match slot {
        None => other is None,
        Some(attempt) => other matches Some(old) && attempt.source == old.source
            && attempt.generation == old.generation && attempt.state == old.state,
    }
}

/// What a stream is set to, apart from what plays and where.
pub open spec fn same_settings(actor: StreamActor, other: StreamActor) -> bool {
    &&& actor.stream_id == other.stream_id
    &&& actor.volume == other.volume
    &&& actor.gain == other.gain
}

/// Pausing a stream that plays or buffers holds the media that is under way: that
/// of the current track and, only if there is none, that of the next one. It asks
/// for nothing else, and no track, generation or position changes.
pub proof fn pausing_holds_what_is_under_way(actor: StreamActor)
    requires
        refusal(actor, StreamCommand::Pause) is None,
        actor.play_state == PlayState::Playing || actor.play_state == PlayState::Buffering,
    ensures
        ({
            let after = obey(actor, StreamCommand::Pause);
            &&& after.actor.play_state == PlayState::Paused
            &&& under_way(actor.current) ==> after.actions == seq![
                TaskAction::PauseCurrent { generation: actor.current->0.generation },
            ]
            &&& !under_way(actor.current) && under_way(actor.next) ==> after.actions == seq![
                TaskAction::PauseNext { generation: actor.next->0.generation },
            ]
            &&& !under_way(actor.current) && !under_way(actor.next) ==> after.actions.len() == 0
            &&& after.events.len() == 0
            &&& same_attempt(after.actor.current, actor.current)
            &&& same_attempt(after.actor.next, actor.next)
            &&& same_settings(after.actor, actor)
            &&& after.actor.time_played_ms == actor.time_played_ms
            &&& after.actor.generation == actor.generation
            &&& after.actor.plan_version == actor.plan_version
            &&& after.actor.refreshable_current_key == actor.refreshable_current_key
        }),
{
    let after = obey(actor, StreamCommand::Pause);
    if under_way(actor.current) {
        assert(after.actions =~= seq![
            TaskAction::PauseCurrent { generation: actor.current->0.generation },
        ]);
    } else if under_way(actor.next) {
        assert(after.actions =~= seq![
            TaskAction::PauseNext { generation: actor.next->0.generation },
        ]);
    }
}

/// Pausing a stream that neither plays nor buffers does nothing.
pub proof fn pausing_needs_something_to_pause(actor: StreamActor)
    requires
        actor.play_state == PlayState::Idle || actor.play_state == PlayState::Paused
            || actor.play_state == PlayState::Stopped,
    ensures
        obey(actor, StreamCommand::Pause) == Step::still(actor),
{
}

/// Seeking puts the stream at the second that was asked for, in milliseconds and
/// no further than can be counted, wherever it was before. A fresh attempt at the
/// same track takes the current slot; unless the stream is paused it starts, and
/// that is all that is asked for. A paused stream stops the old attempt instead.
pub proof fn seeking_goes_where_it_was_told(actor: StreamActor, seconds: u64)
    requires
        refusal(actor, StreamCommand::Seek { seconds }) is None,
        actor.generation < u64::MAX,
    ensures
        ({
            let after = obey(actor, StreamCommand::Seek { seconds });
            let fresh = after.actor.current->0;
            &&& seconds * 1000 <= 18_446_744_073_709_551_615 ==> after.actor.time_played_ms == seconds
                * 1000
            &&& seconds * 1000 > 18_446_744_073_709_551_615 ==> after.actor.time_played_ms
                == 18_446_744_073_709_551_615
            &&& after.actor.current is Some && fresh.source == actor.current->0.source
            &&& fresh.generation == actor.generation + 1 == after.actor.generation
            &&& after.actor.next == actor.next
            &&& same_settings(after.actor, actor)
            &&& after.actor.plan_version == actor.plan_version
            &&& after.actor.refreshable_current_key == actor.refreshable_current_key
            &&& after.events.len() == 0
            &&& actor.play_state != PlayState::Paused ==> {
                &&& after.actor.play_state == PlayState::Buffering
                &&& fresh.state == AttemptState::Starting
                &&& after.actions == seq![
                    TaskAction::StartCurrent {
                        generation: fresh.generation,
                        watchdog_epoch: fresh.watchdog_epoch,
                        track: fresh.source,
                    },
                ]
            }
            &&& actor.play_state == PlayState::Paused ==> {
                &&& after.actor.play_state == PlayState::Paused
                &&& fresh.state == AttemptState::Dormant
                &&& after.actions == seq![
                    TaskAction::CancelCurrent { generation: actor.current->0.generation },
                ]
            }
        }),
{
    let after = obey(actor, StreamCommand::Seek { seconds });
    assert(after.actions.len() == 1);
}

/// A refreshed source takes the current slot, as a fresh attempt from the
/// beginning. Unless the stream is paused it starts, and that is all that is
/// asked for. A paused stream stops the old attempt instead, if there is one.
pub proof fn refreshing_starts_the_new_source_over(actor: StreamActor, current: TrackSource)
    requires
        refusal(actor, StreamCommand::RefreshCurrentSource { current }) is None,
        actor.generation < u64::MAX,
    ensures
        ({
            let after = obey(actor, StreamCommand::RefreshCurrentSource { current });
            let fresh = after.actor.current->0;
            &&& after.actor.time_played_ms == 0
            &&& after.actor.current is Some && fresh.source == current
            &&& fresh.generation == actor.generation + 1 == after.actor.generation
            &&& after.actor.next == actor.next
            &&& same_settings(after.actor, actor)
            &&& after.actor.plan_version == actor.plan_version
            &&& after.actor.refreshable_current_key is None
            &&& after.events.len() == 0
            &&& actor.play_state != PlayState::Paused ==> {
                &&& after.actor.play_state == PlayState::Buffering
                &&& fresh.state == AttemptState::Starting
                &&& after.actions == seq![
                    TaskAction::StartCurrent {
                        generation: fresh.generation,
                        watchdog_epoch: fresh.watchdog_epoch,
                        track: current,
                    },
                ]
            }
            &&& actor.play_state == PlayState::Paused ==> {
                &&& after.actor.play_state == PlayState::Paused
                &&& fresh.state == AttemptState::Dormant
                &&& match actor.current {
                    Some(old) => after.actions == seq![
                        TaskAction::CancelCurrent { generation: old.generation },
                    ],
                    None => after.actions.len() == 0,
                }
            }
        }),
{
    let after = obey(actor, StreamCommand::RefreshCurrentSource { current });
    assert(after.actions.len() <= 1);
}

/// Stopping a stream empties it, takes its output down and says so, once. Where it
/// was, and what it was set to, can still be read.
pub proof fn stopping_takes_everything_down(actor: StreamActor)
    requires
        actor.play_state != PlayState::Stopped,
    ensures
        ({
            let after = obey(actor, StreamCommand::Stop);
            &&& after.actions == seq![TaskAction::StopSender]
            &&& after.events == seq![StreamEvent::StreamStopped { stream_id: actor.stream_id }]
            &&& after.actor.play_state == PlayState::Stopped
            &&& after.actor.current is None
            &&& after.actor.next is None
            &&& after.actor.refreshable_current_key is None
            &&& same_settings(after.actor, actor)
            &&& after.actor.time_played_ms == actor.time_played_ms
            &&& after.actor.generation == actor.generation
            &&& after.actor.plan_version == actor.plan_version
        }),
{
    let after = obey(actor, StreamCommand::Stop);
    assert(after.actions =~= seq![TaskAction::StopSender]);
    assert(after.events =~= seq![StreamEvent::StreamStopped { stream_id: actor.stream_id }]);
}

/// Playing never changes a track, a generation, the position or a setting, and
/// leaves nothing waiting: no attempt in a slot stays dormant and the stream is no
/// longer paused.
pub proof fn playing_only_sets_in_motion(actor: StreamActor)
    requires
        refusal(actor, StreamCommand::Play) is None,
        actor.play_state == PlayState::Playing ==> under_way(actor.current),
    ensures
        ({
            let after = obey(actor, StreamCommand::Play);
            &&& same_settings(after.actor, actor)
            &&& after.actor.time_played_ms == actor.time_played_ms
            &&& after.actor.generation == actor.generation
            &&& after.actor.plan_version == actor.plan_version
            &&& after.actor.refreshable_current_key == actor.refreshable_current_key
            &&& after.actor.current is Some <==> actor.current is Some
            &&& after.actor.next is Some <==> actor.next is Some
            &&& actor.current is Some ==> {
                &&& after.actor.current->0.source == actor.current->0.source
                &&& after.actor.current->0.generation == actor.current->0.generation
                &&& after.actor.current->0.state == if under_way(actor.current) {
                    actor.current->0.state
                } else {
                    AttemptState::Starting
                }
            }
            &&& actor.next is Some ==> {
                &&& after.actor.next->0.source == actor.next->0.source
                &&& after.actor.next->0.generation == actor.next->0.generation
                &&& after.actor.next->0.state == if under_way(actor.next) {
                    actor.next->0.state
                } else {
                    AttemptState::Starting
                }
            }
            &&& after.actor.play_state != PlayState::Paused
            &&& after.actor.play_state == PlayState::Playing <==> (actor.play_state
                == PlayState::Playing || (actor.play_state == PlayState::Paused && (
            actor.current matches Some(attempt) && attempt.state == AttemptState::Ready)))
            &&& after.actor.play_state == PlayState::Idle <==> actor.current is None
                && actor.next is None
        }),
{
}

/// What playing asks for: media that was held goes on, a dormant current track
/// starts, a dormant next track is prepared, and a stream with nothing to play
/// asks its owner for a track.
pub proof fn playing_asks_for_what_is_missing(actor: StreamActor)
    requires
        refusal(actor, StreamCommand::Play) is None,
        actor.play_state == PlayState::Playing ==> under_way(actor.current),
    ensures
        ({
            let after = obey(actor, StreamCommand::Play);
            let paused = actor.play_state == PlayState::Paused;
            &&& paused && under_way(actor.current) ==> after.actions.len() > 0 && after.actions[0]
                == (TaskAction::ResumeCurrent { generation: actor.current->0.generation })
            &&& paused && actor.current is None && under_way(actor.next) ==> after.actions.len() > 0
                && after.actions[0] == (TaskAction::ResumeNext {
                generation: actor.next->0.generation,
            })
            &&& actor.current is Some && !under_way(actor.current) ==> after.actions.len() > 0
                && after.actions[0] == (TaskAction::StartCurrent {
                generation: actor.current->0.generation,
                watchdog_epoch: actor.current->0.started().watchdog_epoch,
                track: actor.current->0.source,
            })
            &&& actor.next is Some && !under_way(actor.next) ==> after.actions.len() > 0
                && after.actions.last() == (TaskAction::PrepareNext {
                generation: actor.next->0.generation,
                watchdog_epoch: after.actor.next->0.watchdog_epoch,
                track: actor.next->0.source,
            })
            &&& !paused && under_way(actor.current) && (actor.next is None || under_way(
                actor.next,
            )) ==> after.actions.len() == 0
            &&& forall|i: int|
                0 <= i < after.actions.len() ==> {
                    let action = #[trigger] after.actions[i];
                    match action {
                        TaskAction::ResumeCurrent { generation } => paused && under_way(
                            actor.current,
                        ) && generation == actor.current->0.generation,
                        TaskAction::ResumeNext { generation } => paused && actor.current is None
                            && under_way(actor.next) && generation == actor.next->0.generation,
                        TaskAction::StartCurrent { .. } => actor.current is Some && !under_way(
                            actor.current,
                        ),
                        TaskAction::PrepareNext { .. } => actor.next is Some && !under_way(
                            actor.next,
                        ),
                        TaskAction::ArmStartupDeadline { .. } => paused,
                        _ => false,
                    }
                }
            &&& !paused ==> after.actions.len() == (if actor.current is Some && !under_way(
                actor.current,
            ) {
                1int
            } else {
                0
            }) + (if actor.next is Some && !under_way(actor.next) {
                1int
            } else {
                0
            })
            &&& actor.current is None && actor.next is None ==> after.events == seq![
                StreamEvent::NextNeeded { stream_id: actor.stream_id },
            ] && after.actions.len() == 0
            &&& actor.current is Some || actor.next is Some ==> after.events.len() == 0
        }),
{
    let after = obey(actor, StreamCommand::Play);
    if actor.current is None && actor.next is None {
        assert(after.events =~= seq![StreamEvent::NextNeeded { stream_id: actor.stream_id }]);
    }
}

/// A level that is set is the level of the stream, and every attempt under way
/// hears of it.
pub proof fn levels_reach_what_is_under_way(actor: StreamActor, command: StreamCommand)
    requires
        command is SetVolume || command is SetGain,
    ensures
        ({
            let after = obey(actor, command);
            let for_current = if under_way(actor.current) {
                1int
            } else {
                0int
            };
            let for_next = if under_way(actor.next) {
                1int
            } else {
                0int
            };
            &&& after.actor.stream_id == actor.stream_id
            &&& after.actor.plan_version == actor.plan_version
            &&& after.actor.refreshable_current_key == actor.refreshable_current_key
            &&& after.actions.len() == for_current + for_next
            &&& command matches StreamCommand::SetVolume { volume } ==> {
                &&& after.actor.volume == volume && after.actor.gain == actor.gain
                &&& under_way(actor.current) ==> after.actions[0] == (TaskAction::SetCurrentVolume {
                    generation: actor.current->0.generation,
                    volume,
                })
                &&& under_way(actor.next) ==> after.actions[for_current] == (
                TaskAction::SetNextVolume { generation: actor.next->0.generation, volume })
            }
            &&& command matches StreamCommand::SetGain { gain } ==> {
                &&& after.actor.gain == gain && after.actor.volume == actor.volume
                &&& under_way(actor.current) ==> after.actions[0] == (TaskAction::SetCurrentGain {
                    generation: actor.current->0.generation,
                    gain,
                })
                &&& under_way(actor.next) ==> after.actions[for_current] == (
                TaskAction::SetNextGain { generation: actor.next->0.generation, gain })
            }
        }),
{
}

/// Whether a slot holds an attempt at this occurrence of a track.
pub open spec fn is_at(slot: Option<PlaybackAttempt>, source: TrackSource) -> bool {
    slot matches Some(attempt) && attempt.source.attempt_id@ == source.attempt_id@
}

/// A newer plan without a track drops both attempts, with whatever works for them,
/// and the stream is back at the beginning with nothing to play.
pub proof fn empty_plans_drop_everything(
    actor: StreamActor,
    version: u64,
    next: Option<TrackSource>,
)
    requires
        version > actor.plan_version,
    ensures
        ({
            let after = obey(
                actor,
                StreamCommand::ReconcilePlan { version, current: None, next },
            );
            &&& after.actor.current is None
            &&& after.actor.next is None
            &&& after.actor.refreshable_current_key is None
            &&& after.actor.time_played_ms == 0
            &&& after.actor.play_state == if actor.play_state == PlayState::Paused {
                PlayState::Paused
            } else {
                PlayState::Idle
            }
            &&& after.actor.generation == actor.generation
            &&& same_settings(after.actor, actor)
            &&& after.events.len() == 0
            &&& actor.current matches Some(old) ==> after.actions.len() > 0 && after.actions[0] == (
            TaskAction::CancelCurrent { generation: old.generation })
            &&& actor.next matches Some(old) ==> after.actions.len() > 0 && after.actions.last() == (
            TaskAction::CancelNext { generation: old.generation })
            &&& after.actions.len() == (if actor.current is Some {
                1int
            } else {
                0
            }) + (if actor.next is Some {
                1int
            } else {
                0
            })
        }),
{
}

/// A newer plan that keeps the current track does not disturb it: the attempt goes
/// on in its generation and state, at its position, and nothing that works for it
/// is touched.
pub proof fn kept_tracks_play_on(
    actor: StreamActor,
    version: u64,
    current: TrackSource,
    next: Option<TrackSource>,
)
    requires
        version > actor.plan_version,
        is_at(actor.current, current),
        refusal(
            actor,
            StreamCommand::ReconcilePlan { version, current: Some(current), next },
        ) is None,
    ensures
        ({
            let after = obey(
                actor,
                StreamCommand::ReconcilePlan { version, current: Some(current), next },
            );
            &&& after.actor.current is Some
            &&& after.actor.current->0.source == current
            &&& after.actor.current->0.generation == actor.current->0.generation
            &&& after.actor.current->0.state == actor.current->0.state
            &&& after.actor.current->0.watchdog_epoch == actor.current->0.watchdog_epoch
            &&& after.actor.time_played_ms == actor.time_played_ms
            &&& after.actor.play_state == actor.play_state
            &&& after.actor.refreshable_current_key == actor.refreshable_current_key
            &&& same_settings(after.actor, actor)
            &&& after.events.len() == 0
            &&& after.actions.len() <= 1
            &&& after.actions.len() == 1 ==> after.actions[0] is PrepareNext
                || after.actions[0] is CancelNext
        }),
{
}

/// A plan that keeps the current track settles the next slot: the same occurrence
/// goes on, another one takes its place as a fresh attempt, and with none the
/// slot empties. What leaves the slot is stopped, or replaced by what starts.
pub proof fn kept_tracks_get_their_successor(
    actor: StreamActor,
    version: u64,
    current: TrackSource,
    next: Option<TrackSource>,
)
    requires
        version > actor.plan_version,
        is_at(actor.current, current),
        actor.generation < u64::MAX,
        refusal(
            actor,
            StreamCommand::ReconcilePlan { version, current: Some(current), next },
        ) is None,
    ensures
        ({
            let after = obey(
                actor,
                StreamCommand::ReconcilePlan { version, current: Some(current), next },
            );
            match next {
                None => {
                    &&& after.actor.next is None
                    &&& after.actor.generation == actor.generation
                    &&& actor.next matches Some(old) ==> after.actions == seq![
                        TaskAction::CancelNext { generation: old.generation },
                    ]
                    &&& actor.next is None ==> after.actions.len() == 0
                },
                Some(source) => {
                    &&& after.actor.next is Some && after.actor.next->0.source == source
                    &&& is_at(actor.next, source) ==> {
                        &&& after.actor.next->0.generation == actor.next->0.generation
                        &&& after.actor.next->0.state == actor.next->0.state
                        &&& after.actor.next->0.watchdog_epoch == actor.next->0.watchdog_epoch
                        &&& after.actor.generation == actor.generation
                        &&& after.actions.len() == 0
                    }
                    &&& !is_at(actor.next, source) ==> {
                        &&& after.actor.next->0.generation == actor.generation + 1
                            == after.actor.generation
                        &&& actor.play_state != PlayState::Paused ==> after.actor.next->0.state
                            == AttemptState::Starting && after.actions == seq![
                            TaskAction::PrepareNext {
                                generation: after.actor.next->0.generation,
                                watchdog_epoch: after.actor.next->0.watchdog_epoch,
                                track: source,
                            },
                        ]
                        &&& actor.play_state == PlayState::Paused ==> {
                            &&& after.actor.next->0.state == AttemptState::Dormant
                            &&& actor.next matches Some(old) ==> after.actions == seq![
                                TaskAction::CancelNext { generation: old.generation },
                            ]
                            &&& actor.next is None ==> after.actions.len() == 0
                        }
                    }
                },
            }
        }),
{
    let after = obey(
        actor,
        StreamCommand::ReconcilePlan { version, current: Some(current), next },
    );
    assert(after.actions.len() <= 1);
}

/// A newer plan whose current track sits in the next slot moves that attempt over:
/// it keeps its generation, starts to play from the beginning, and the old current
/// track is remembered.
pub proof fn planned_successors_take_over(
    actor: StreamActor,
    version: u64,
    current: TrackSource,
    next: Option<TrackSource>,
)
    requires
        version > actor.plan_version,
        !is_at(actor.current, current),
        is_at(actor.next, current),
        actor.generation < u64::MAX,
        refusal(
            actor,
            StreamCommand::ReconcilePlan { version, current: Some(current), next },
        ) is None,
    ensures
        ({
            let after = obey(
                actor,
                StreamCommand::ReconcilePlan { version, current: Some(current), next },
            );
            let paused = actor.play_state == PlayState::Paused;
            &&& after.actor.current is Some
            &&& after.actor.current->0.source == current
            &&& after.actor.current->0.generation == actor.next->0.generation
            &&& after.actor.current->0.state == AttemptState::Starting
            &&& after.actor.time_played_ms == 0
            &&& after.actor.play_state == if paused {
                PlayState::Paused
            } else {
                PlayState::Buffering
            }
            &&& same_settings(after.actor, actor)
            &&& match actor.current {
                Some(old) => after.actor.refreshable_current_key == Some(old.source.attempt_id),
                None => after.actor.refreshable_current_key is None,
            }
            &&& after.events.len() == 0
            &&& after.actions.len() > 0
            &&& after.actions[0] == (TaskAction::StartCurrent {
                generation: actor.next->0.generation,
                watchdog_epoch: after.actor.current->0.watchdog_epoch,
                track: current,
            })
            &&& next is None ==> after.actor.next is None && after.actions.len() == 1
                && after.actor.generation == actor.generation
            &&& next matches Some(source) ==> {
                &&& after.actor.next is Some && after.actor.next->0.source == source
                &&& after.actor.next->0.generation == actor.generation + 1
                    == after.actor.generation
                &&& paused ==> after.actor.next->0.state == AttemptState::Dormant
                    && after.actions.len() == 1
                &&& !paused ==> after.actor.next->0.state == AttemptState::Starting
                    && after.actions.len() == 2 && after.actions[1] == (TaskAction::PrepareNext {
                    generation: after.actor.next->0.generation,
                    watchdog_epoch: after.actor.next->0.watchdog_epoch,
                    track: source,
                })
            }
        }),
{
}

/// A newer plan whose current track sits in no slot starts it over: a fresh attempt
/// from the beginning, which starts at once unless the stream is paused.
pub proof fn new_tracks_start_over(
    actor: StreamActor,
    version: u64,
    current: TrackSource,
    next: Option<TrackSource>,
)
    requires
        version > actor.plan_version,
        !is_at(actor.current, current),
        !is_at(actor.next, current),
        actor.generation < u64::MAX - 1,
        refusal(
            actor,
            StreamCommand::ReconcilePlan { version, current: Some(current), next },
        ) is None,
    ensures
        ({
            let after = obey(
                actor,
                StreamCommand::ReconcilePlan { version, current: Some(current), next },
            );
            let paused = actor.play_state == PlayState::Paused;
            let fresh = after.actor.current->0;
            &&& after.actor.current is Some
            &&& fresh.source == current
            &&& fresh.generation == actor.generation + 1
            &&& after.actor.time_played_ms == 0
            &&& after.actor.refreshable_current_key is None
            &&& same_settings(after.actor, actor)
            &&& after.events.len() == 0
            &&& !paused ==> {
                &&& after.actor.play_state == PlayState::Buffering
                &&& fresh.state == AttemptState::Starting
                &&& after.actions.len() > 0
                &&& after.actions[0] == (TaskAction::StartCurrent {
                    generation: fresh.generation,
                    watchdog_epoch: fresh.watchdog_epoch,
                    track: current,
                })
            }
            &&& paused ==> {
                &&& after.actor.play_state == PlayState::Paused
                &&& fresh.state == AttemptState::Dormant
                &&& actor.current matches Some(old) ==> after.actions.len() > 0 && after.actions[0]
                    == (TaskAction::CancelCurrent { generation: old.generation })
                &&& after.actions.len() == (if actor.current is Some {
                    1int
                } else {
                    0
                }) + (if next is None && actor.next is Some {
                    1int
                } else {
                    0
                })
            }
            &&& next is None ==> {
                &&& after.actor.next is None
                &&& !paused ==> after.actions.len() == if actor.next is Some {
                    2int
                } else {
                    1
                }
                &&& after.actor.generation == actor.generation + 1
                &&& actor.next matches Some(old) ==> after.actions.len() > 0
                    && after.actions.last() == (TaskAction::CancelNext {
                    generation: old.generation,
                })
            }
            &&& next matches Some(source) ==> {
                &&& after.actor.next is Some && after.actor.next->0.source == source
                &&& after.actor.next->0.generation == actor.generation + 2
                    == after.actor.generation
                &&& paused ==> after.actor.next->0.state == AttemptState::Dormant
                &&& !paused ==> after.actor.next->0.state == AttemptState::Starting
                    && after.actions.len() == 2 && after.actions[1] == (TaskAction::PrepareNext {
                    generation: after.actor.next->0.generation,
                    watchdog_epoch: after.actor.next->0.watchdog_epoch,
                    track: source,
                })
            }
        }),
{
}

/// When a command is refused, and with which words: playing a stopped stream;
/// pausing a live track; seeking without a track, in a live one or in one that
/// cannot be sought in; refreshing a track that is neither the current one nor,
/// with the slot empty, the last one; and a newer plan that would preload a live
/// track. Everything else is accepted.
pub proof fn refusals_have_their_reasons(actor: StreamActor, command: StreamCommand)
    ensures
        refusal(actor, command) == match command {
            StreamCommand::Play => if actor.play_state == PlayState::Stopped {
                Some(Refusal::Unsupported("cannot play a stopped stream"@))
            } else {
                None
            },
            StreamCommand::Pause => if actor.current is Some && actor.current->0.source.kind
                == TrackKind::Live {
                Some(
                    Refusal::Unsupported(
                        "live sources cannot be paused without a timeshift store"@,
                    ),
                )
            } else {
                None
            },
            StreamCommand::Seek { .. } => if actor.current is None {
                Some(Refusal::Unsupported("cannot seek without a current track"@))
            } else if actor.current->0.source.kind == TrackKind::Live
                || actor.current->0.source.seekable == Some(false) {
                Some(Refusal::NotSeekable(actor.current->0.source.id@))
            } else {
                None
            },
            StreamCommand::RefreshCurrentSource { current } => if is_at(actor.current, current) || (
            actor.current is None && (actor.refreshable_current_key matches Some(key) && key@
                == current.attempt_id@)) {
                None
            } else {
                Some(
                    Refusal::InvalidSource(
                        "refreshed current source must keep the current track id"@,
                    ),
                )
            },
            StreamCommand::ReconcilePlan { version, next, .. } => if version > actor.plan_version
                && next is Some && next->0.kind == TrackKind::Live {
                Some(
                    Refusal::Unsupported(
                        "live sources cannot be preloaded as next without a timeshift model"@,
                    ),
                )
            } else {
                None
            },
            StreamCommand::Stop => None,
            StreamCommand::SetVolume { .. } => None,
            StreamCommand::SetGain { .. } => None,
        },
{
}

/// What no report of a worker changes.
pub proof fn reports_leave_the_settings(actor: StreamActor, event: WorkerEvent, text: String)
    ensures
        same_settings(react(actor, event, text).actor, actor),
        react(actor, event, text).actor.plan_version == actor.plan_version,
        react(actor, event, text).actor.time_played_ms == actor.time_played_ms
            || react(actor, event, text).actor.time_played_ms == 0,
{
}

/// A report about the current track that names another attempt changes nothing, and
/// neither does one about the next track that names another attempt or one that
/// is not under way.
pub proof fn reports_concern_their_slot_alone(
    actor: StreamActor,
    event: WorkerEvent,
    text: String,
)
    requires
        match event {
            WorkerEvent::CurrentSourceClassified { generation, .. }
            | WorkerEvent::CurrentPrebufferReady { generation }
            | WorkerEvent::CurrentEnded { generation }
            | WorkerEvent::CurrentFailed { generation, .. }
            | WorkerEvent::CurrentNetworkQualityChanged { generation, .. } => actor.current is None
                || actor.current->0.generation != generation,
            WorkerEvent::NextReady { generation } | WorkerEvent::NextFailed { generation, .. } =>
                !under_way(actor.next) || actor.next->0.generation != generation,
            WorkerEvent::OutputFailed { .. } | WorkerEvent::StartupTimedOut { .. } => false,
        },
    ensures
        react(actor, event, text) == Step::still(actor),
{
}

/// Current media that has been buffered makes its attempt ready and lets the
/// stream play, unless it is paused. Nothing else happens.
pub proof fn buffered_media_plays(actor: StreamActor, generation: u64, text: String)
    requires
        actor.current is Some,
        actor.current->0.generation == generation,
    ensures
        ({
            let after = react(actor, WorkerEvent::CurrentPrebufferReady { generation }, text);
            &&& after.actor.current is Some
            &&& after.actor.current->0.state == AttemptState::Ready
            &&& after.actor.current->0.source == actor.current->0.source
            &&& after.actor.current->0.generation == generation
            &&& after.actor.next == actor.next
            &&& after.actor.play_state == if actor.play_state == PlayState::Paused {
                PlayState::Paused
            } else {
                PlayState::Playing
            }
            &&& after.actor.time_played_ms == actor.time_played_ms
            &&& after.actor.refreshable_current_key == actor.refreshable_current_key
            &&& after.actions.len() == 0
            &&& after.events.len() == 0
        }),
{
}

/// What a worker finds out about the kind of its source is what the stream goes by
/// from then on. Nothing else changes.
pub proof fn sources_are_taken_for_what_they_are(
    actor: StreamActor,
    generation: u64,
    kind: TrackKind,
    seekable: bool,
    text: String,
)
    requires
        actor.current is Some,
        actor.current->0.generation == generation,
    ensures
        ({
            let after = react(
                actor,
                WorkerEvent::CurrentSourceClassified { generation, kind, seekable },
                text,
            );
            let old = actor.current->0;
            let new = after.actor.current->0;
            &&& after.actor.current is Some
            &&& new.source.kind == kind
            &&& new.source.seekable == Some(seekable)
            &&& new.source.attempt_id == old.source.attempt_id && new.source.id == old.source.id
            &&& new.source.url == old.source.url && new.source.path == old.source.path
            &&& new.source.format_hint == old.source.format_hint
            &&& new.source.headers == old.source.headers
            &&& new.source.network_policy == old.source.network_policy
            &&& new.generation == old.generation && new.state == old.state
            &&& new.watchdog_epoch == old.watchdog_epoch
            &&& after.actor.next == actor.next
            &&& after.actor.play_state == actor.play_state
            &&& after.actor.time_played_ms == actor.time_played_ms
            &&& after.actions.len() == 0
            &&& after.events.len() == 0
            &&& refusal(after.actor, StreamCommand::Seek { seconds: 0 }) is Some <==> kind
                == TrackKind::Live || !seekable
            &&& refusal(after.actor, StreamCommand::Pause) is Some <==> kind == TrackKind::Live
        }),
{
}

/// `after` is `actor` with its ready next attempt playing from the beginning in
/// place of the current one.
pub open spec fn next_took_over(after: StreamActor, actor: StreamActor) -> bool {
    &&& after.current is Some
    &&& after.current->0.source == actor.next->0.source
    &&& after.current->0.generation == actor.next->0.generation
    &&& after.current->0.state == AttemptState::Starting
    &&& after.next is None
    &&& after.time_played_ms == 0
    &&& after.refreshable_current_key is None
    &&& after.play_state == if actor.play_state == PlayState::Paused {
        PlayState::Paused
    } else {
        PlayState::Buffering
    }
}

/// The action that lets the attempt in the current slot of `actor` play.
pub open spec fn starting_of(actor: StreamActor) -> TaskAction {
    TaskAction::StartCurrent {
        generation: actor.current->0.generation,
        watchdog_epoch: actor.current->0.watchdog_epoch,
        track: actor.current->0.source,
    }
}

/// `after` is `actor` without its current attempt, whose track can still be
/// refreshed.
pub open spec fn current_ran_out(after: StreamActor, actor: StreamActor) -> bool {
    &&& after.current is None
    &&& after.next == actor.next
    &&& after.time_played_ms == actor.time_played_ms
    &&& after.refreshable_current_key == Some(actor.current->0.source.attempt_id)
    &&& actor.next is None ==> after.play_state == PlayState::Idle
    &&& actor.next is Some ==> after.play_state == if actor.play_state == PlayState::Paused {
        PlayState::Paused
    } else {
        PlayState::Buffering
    }
}

/// A track that ended makes room: a ready next attempt plays on at once, one that
/// is not ready is waited for, and without one the owner is asked for a track.
pub proof fn ended_tracks_make_room(actor: StreamActor, generation: u64, text: String)
    requires
        actor.current is Some,
        actor.current->0.generation == generation,
    ensures
        ({
            let after = react(actor, WorkerEvent::CurrentEnded { generation }, text);
            let ready = actor.next is Some && actor.next->0.state == AttemptState::Ready;
            &&& ready ==> next_took_over(after.actor, actor) && after.actions == seq![
                starting_of(after.actor),
            ] && after.events.len() == 0
            &&& !ready ==> current_ran_out(after.actor, actor) && after.actions.len() == 0
            &&& !ready && actor.next is Some ==> after.events.len() == 0
            &&& actor.next is None ==> after.events == seq![
                StreamEvent::NextNeeded { stream_id: actor.stream_id },
            ]
        }),
{
    let after = react(actor, WorkerEvent::CurrentEnded { generation }, text);
    if actor.next is None {
        assert(after.events =~= seq![StreamEvent::NextNeeded { stream_id: actor.stream_id }]);
    }
}

/// `event` says that `attempt` failed in this way.
pub open spec fn tells_of_failure(
    event: StreamEvent,
    actor: StreamActor,
    attempt: PlaybackAttempt,
    role: SourceRole,
    reason: ErrorCode,
    words: String,
) -> bool {
    event matches StreamEvent::AttemptFailed {
        stream_id,
        attempt_id,
        track_id,
        source_role,
        generation,
        code,
        message,
    } && stream_id == actor.stream_id && attempt_id == attempt.source.attempt_id && track_id
        == attempt.source.id && source_role == role && generation == attempt.generation && code
        == reason && message == words
}

/// `event` asks the owner for a source with which `attempt` can be tried again.
pub open spec fn asks_for_refresh(
    event: StreamEvent,
    actor: StreamActor,
    attempt: PlaybackAttempt,
    role: SourceRole,
) -> bool {
    event matches StreamEvent::SourceRefreshNeeded {
        stream_id,
        attempt_id,
        track_id,
        source_role,
        generation,
    } && stream_id == actor.stream_id && attempt_id == attempt.source.attempt_id && track_id
        == attempt.source.id && source_role == role && generation == attempt.generation
}

/// What a failure of the current attempt for `reason` leads to: whatever works for
/// it is stopped, the owner hears which attempt failed and why, and the next
/// attempt plays if it is ready and is waited for if it is not. With no next
/// attempt the owner is asked for a refreshed source, if an authorisation expired,
/// or else for a track.
pub open spec fn copes_with_current(
    after: Step,
    actor: StreamActor,
    reason: ErrorCode,
    words: String,
) -> bool {
    let failed = actor.current->0;
    let ready = actor.next is Some && actor.next->0.state == AttemptState::Ready;
    &&& after.actions.len() > 0
    &&& after.actions[0] == (TaskAction::CancelCurrent { generation: failed.generation })
    &&& ready ==> next_took_over(after.actor, actor) && after.actions.len() == 2
        && after.actions[1] == starting_of(after.actor)
    &&& !ready ==> current_ran_out(after.actor, actor) && after.actions.len() == 1
    &&& actor.next is Some ==> after.events.len() == 1 && tells_of_failure(
        after.events[0],
        actor,
        failed,
        SourceRole::Current,
        reason,
        words,
    )
    &&& actor.next is None && reason == ErrorCode::SourceAuthExpired ==> after.events.len() == 2
        && asks_for_refresh(after.events[0], actor, failed, SourceRole::Current)
        && tells_of_failure(after.events[1], actor, failed, SourceRole::Current, reason, words)
    &&& actor.next is None && reason != ErrorCode::SourceAuthExpired ==> after.events.len() == 2
        && tells_of_failure(after.events[0], actor, failed, SourceRole::Current, reason, words)
        && after.events[1] == (StreamEvent::NextNeeded { stream_id: actor.stream_id })
}

/// A failed current track is coped with.
pub proof fn failed_tracks_are_replaced(
    actor: StreamActor,
    generation: u64,
    code: ErrorCode,
    message: String,
    text: String,
)
    requires
        actor.current is Some,
        actor.current->0.generation == generation,
    ensures
        copes_with_current(
            react(actor, WorkerEvent::CurrentFailed { generation, code, message }, text),
            actor,
            code,
            message,
        ),
{
}

/// What a failure of the next attempt for `reason` leads to: whatever works for it
/// is stopped and its slot empties. A current track hears nothing of it, but the
/// owner is asked for a refreshed source if an authorisation expired. Without a
/// current track the owner is asked for a track.
pub open spec fn copes_with_next(
    after: Step,
    actor: StreamActor,
    reason: ErrorCode,
    words: String,
) -> bool {
    let failed = actor.next->0;
    &&& after.actions == seq![TaskAction::CancelNext { generation: failed.generation }]
    &&& after.actor.next is None
    &&& after.actor.current == actor.current
    &&& after.actor.time_played_ms == actor.time_played_ms
    &&& after.actor.refreshable_current_key == actor.refreshable_current_key
    &&& after.events.len() > 0 && tells_of_failure(
        after.events.last(),
        actor,
        failed,
        SourceRole::Next,
        reason,
        words,
    )
    &&& actor.current is Some ==> after.actor.play_state == actor.play_state
    &&& actor.current is None ==> after.actor.play_state == if actor.play_state
        == PlayState::Paused {
        PlayState::Paused
    } else {
        PlayState::Idle
    }
    &&& actor.current is Some && reason != ErrorCode::SourceAuthExpired ==> after.events.len() == 1
    &&& actor.current is Some && reason == ErrorCode::SourceAuthExpired ==> after.events.len() == 2
        && asks_for_refresh(after.events[0], actor, failed, SourceRole::Next)
    &&& actor.current is None ==> after.events.len() == 2 && after.events[0] == (
    StreamEvent::NextNeeded { stream_id: actor.stream_id })
}

/// A next track that is under way and fails is coped with.
pub proof fn failed_successors_are_dropped(
    actor: StreamActor,
    generation: u64,
    code: ErrorCode,
    message: String,
    text: String,
)
    requires
        under_way(actor.next),
        actor.next->0.generation == generation,
    ensures
        copes_with_next(
            react(actor, WorkerEvent::NextFailed { generation, code, message }, text),
            actor,
            code,
            message,
        ),
{
    let after = react(actor, WorkerEvent::NextFailed { generation, code, message }, text);
    assert(after.actions =~= seq![
        TaskAction::CancelNext { generation: actor.next->0.generation },
    ]);
}

/// A startup deadline that passes while its attempt is still starting counts as a
/// failure of that attempt for want of time.
pub proof fn missed_deadlines_are_failures(
    actor: StreamActor,
    source_role: SourceRole,
    generation: u64,
    watchdog_epoch: u64,
    text: String,
)
    requires
        actor.play_state != PlayState::Paused,
    ensures
        ({
            let after = react(
                actor,
                WorkerEvent::StartupTimedOut { source_role, generation, watchdog_epoch },
                text,
            );
            &&& source_role == SourceRole::Current && (actor.current matches Some(attempt)
                && attempt.state == AttemptState::Starting && attempt.generation == generation
                && attempt.watchdog_epoch == watchdog_epoch) ==> copes_with_current(
                after,
                actor,
                ErrorCode::SourceTimeout,
                text,
            )
            &&& source_role == SourceRole::Next && (actor.next matches Some(attempt)
                && attempt.state == AttemptState::Starting && attempt.generation == generation
                && attempt.watchdog_epoch == watchdog_epoch) ==> copes_with_next(
                after,
                actor,
                ErrorCode::SourceTimeout,
                text,
            )
        }),
{
    let after = react(
        actor,
        WorkerEvent::StartupTimedOut { source_role, generation, watchdog_epoch },
        text,
    );
    if source_role == SourceRole::Next && after.actions.len() == 1 {
        assert(after.actions =~= seq![
            TaskAction::CancelNext { generation: actor.next->0.generation },
        ]);
    }
}

/// Next media that has been buffered makes its attempt ready. With no current track
/// it plays at once; beside one it waits.
pub proof fn buffered_successors_wait_or_play(actor: StreamActor, generation: u64, text: String)
    requires
        under_way(actor.next),
        actor.next->0.generation == generation,
    ensures
        ({
            let after = react(actor, WorkerEvent::NextReady { generation }, text);
            &&& after.events.len() == 0
            &&& actor.current is None ==> next_took_over(after.actor, actor) && after.actions
                == seq![starting_of(after.actor)]
            &&& actor.current is Some ==> {
                &&& after.actions.len() == 0
                &&& after.actor.current == actor.current
                &&& after.actor.next is Some
                &&& after.actor.next->0.state == AttemptState::Ready
                &&& after.actor.next->0.source == actor.next->0.source
                &&& after.actor.next->0.generation == generation
                &&& after.actor.play_state == actor.play_state
                &&& after.actor.time_played_ms == actor.time_played_ms
                &&& after.actor.refreshable_current_key == actor.refreshable_current_key
            }
        }),
{
    let after = react(actor, WorkerEvent::NextReady { generation }, text);
    if actor.current is None {
        assert(after.actions =~= seq![starting_of(after.actor)]);
    }
}

/// A change of the network quality is passed on as it is, and nothing else happens.
pub proof fn quality_is_passed_on(
    actor: StreamActor,
    generation: u64,
    quality: crate::quality::RtcpNetworkQualityLevel,
    snapshot: crate::quality::RtcpQualityWindowSnapshot,
    text: String,
)
    requires
        actor.current is Some,
        actor.current->0.generation == generation,
    ensures
        ({
            let after = react(
                actor,
                WorkerEvent::CurrentNetworkQualityChanged { generation, quality, snapshot },
                text,
            );
            &&& after.actor == actor
            &&& after.actions.len() == 0
            &&& after.events == seq![
                StreamEvent::NetworkQualityChanged { stream_id: actor.stream_id, quality, snapshot },
            ]
        }),
{
    let after = react(
        actor,
        WorkerEvent::CurrentNetworkQualityChanged { generation, quality, snapshot },
        text,
    );
    assert(after.events =~= seq![
        StreamEvent::NetworkQualityChanged { stream_id: actor.stream_id, quality, snapshot },
    ]);
}

/// A failed output ends the stream, whatever it was doing: the owner hears why,
/// and that the stream has stopped.
pub proof fn failed_outputs_end_the_stream(
    actor: StreamActor,
    code: ErrorCode,
    message: String,
    text: String,
)
    ensures
        ({
            let after = react(actor, WorkerEvent::OutputFailed { code, message }, text);
            &&& after.actions.len() == 0
            &&& after.events == seq![
                StreamEvent::Error { stream_id: actor.stream_id, code, message },
                StreamEvent::StreamStopped { stream_id: actor.stream_id },
            ]
            &&& after.actor.play_state == PlayState::Stopped
            &&& after.actor.current is None
            &&& after.actor.next is None
            &&& after.actor.refreshable_current_key is None
            &&& after.actor.time_played_ms == actor.time_played_ms
        }),
{
    let after = react(actor, WorkerEvent::OutputFailed { code, message }, text);
    assert(after.events =~= seq![
        StreamEvent::Error { stream_id: actor.stream_id, code, message },
        StreamEvent::StreamStopped { stream_id: actor.stream_id },
    ]);
}

proof fn filter_splits(
    events: Seq<StreamEvent>,
    keep: spec_fn(StreamEvent) -> bool,
    rest: spec_fn(StreamEvent) -> bool,
)
    requires
        forall|event: StreamEvent| #[trigger] keep(event) == !rest(event),
    ensures
        events.filter(keep).len() + events.filter(rest).len() == events.len(),
        forall|i: int|
            0 <= i < events.len() ==> events.filter(keep).contains(#[trigger] events[i])
                || events.filter(rest).contains(events[i]),
        (forall|i: int| 0 <= i < events.len() ==> keep(#[trigger] events[i])) ==> events.filter(keep)
            == events && events.filter(rest).len() == 0,
        (forall|i: int| 0 <= i < events.len() ==> rest(#[trigger] events[i])) ==> events.filter(rest)
            == events && events.filter(keep).len() == 0,
    decreases events.len(),
{
    reveal(Seq::filter);
    if events.len() > 0 {
        let front = events.drop_last();
        filter_splits(front, keep, rest);
        assert(events =~= front.push(events.last()));
        assert forall|i: int| 0 <= i < events.len() implies events.filter(keep).contains(
            #[trigger] events[i],
        ) || events.filter(rest).contains(events[i]) by {
            if i < front.len() {
                assert(front[i] == events[i]);
                if front.filter(keep).contains(front[i]) {
                    let at = front.filter(keep).index_of(front[i]);
                    assert(events.filter(keep)[at] == front[i]);
                } else {
                    let at = front.filter(rest).index_of(front[i]);
                    assert(events.filter(rest)[at] == front[i]);
                }
            } else if keep(events.last()) {
                assert(events.filter(keep).last() == events[i]);
            } else {
                assert(events.filter(rest).last() == events[i]);
            }
        }
        if forall|i: int| 0 <= i < events.len() ==> keep(#[trigger] events[i]) {
            assert forall|i: int| 0 <= i < front.len() implies keep(#[trigger] front[i]) by {
                assert(front[i] == events[i]);
            }
        }
        if forall|i: int| 0 <= i < events.len() ==> rest(#[trigger] events[i]) {
            assert forall|i: int| 0 <= i < front.len() implies rest(#[trigger] front[i]) by {
                assert(front[i] == events[i]);
            }
        }
    }
}

/// Putting events in order loses none and adds nothing but the new state, which
/// comes behind facts and before requests, each in the order in which they came
/// about.
pub proof fn ordering_loses_no_event(events: Seq<StreamEvent>, status: StreamStatus)
    ensures
        ordered(events, status).len() == events.len() + 1,
        forall|i: int| 0 <= i < events.len() ==> ordered(events, status).contains(#[trigger] events[i]),
        (forall|i: int|
            0 <= i < events.len() ==> !(#[trigger] events[i] is NextNeeded)
                && !(events[i] is SourceRefreshNeeded)) ==> ordered(events, status) == events.push(
            StreamEvent::StateChanged { status: Box::new(status) },
        ),
        (forall|i: int|
            0 <= i < events.len() ==> #[trigger] events[i] is NextNeeded
                || events[i] is SourceRefreshNeeded) ==> ordered(events, status) == seq![
            StreamEvent::StateChanged { status: Box::new(status) },
        ] + events,
{
    let keep = |event: StreamEvent| !is_request(event);
    let rest = |event: StreamEvent| is_request(event);
    filter_splits(events, keep, rest);
    let all = ordered(events, status);
    let facts = events.filter(keep);
    let requests = events.filter(rest);
    assert(all =~= facts.push(StreamEvent::StateChanged { status: Box::new(status) }) + requests);
    assert forall|i: int| 0 <= i < events.len() implies all.contains(#[trigger] events[i]) by {
        if facts.contains(events[i]) {
            assert(all[facts.index_of(events[i])] == events[i]);
        } else {
            assert(all[facts.len() + 1 + requests.index_of(events[i])] == events[i]);
        }
    }
    if forall|i: int|
        0 <= i < events.len() ==> !(#[trigger] events[i] is NextNeeded)
            && !(events[i] is SourceRefreshNeeded) {
        assert(forall|i: int| 0 <= i < events.len() ==> keep(#[trigger] events[i]));
    }
    if forall|i: int|
        0 <= i < events.len() ==> #[trigger] events[i] is NextNeeded
            || events[i] is SourceRefreshNeeded {
        assert(forall|i: int| 0 <= i < events.len() ==> rest(#[trigger] events[i]));
    }
}

/// A status says what the stream is: its name, state, position, settings and plan,
/// and the generation of its current attempt or else the newest one.
pub proof fn statuses_tell_what_is(actor: StreamActor)
    ensures
        actor.spec_status().stream_id == actor.stream_id,
        actor.spec_status().play_state == actor.play_state,
        actor.spec_status().time_played_ms == actor.time_played_ms,
        actor.spec_status().plan_version == actor.plan_version,
        actor.spec_status().volume == actor.volume,
        actor.spec_status().gain == actor.gain,
        actor.current matches Some(attempt) ==> actor.spec_status().generation
            == attempt.generation,
        actor.current is None ==> actor.spec_status().generation == actor.generation,
        shows(actor.spec_status().current, actor.current),
        shows(actor.spec_status().next, actor.next),
{
    crate::headers::no_headers_are_none();
}

/// A slot is shown as the track that it holds, without what its requests carry, and
/// an empty slot as none.
pub open spec fn shows(shown: Option<TrackSource>, slot: Option<PlaybackAttempt>) -> bool {
    match slot {
        None => shown is None,
        Some(attempt) => shown matches Some(track) && track.attempt_id == attempt.source.attempt_id
            && track.id == attempt.source.id && track.kind == attempt.source.kind && track.url
            == attempt.source.url && track.path == attempt.source.path && track.seekable
            == attempt.source.seekable && track.headers@.len() == 0,
    }
}

/// What a stream says of a step is what the step did: the state it led to, its actions
/// in their order, the status of the new state, and every event of the step.
pub proof fn steps_are_reported_as_they_were(step: Step, actor: StreamActor, output: ActorOutput)
    requires
        reports(step, actor, output),
    ensures
        actor == step.actor,
        output.actions@ == step.actions,
        output.status.play_state == step.actor.play_state,
        output.status.time_played_ms == step.actor.time_played_ms,
        output.status.plan_version == step.actor.plan_version,
        output.status.volume == step.actor.volume && output.status.gain == step.actor.gain,
        output.events@.len() == step.events.len() + 1,
        forall|i: int| 0 <= i < step.events.len() ==> output.events@.contains(#[trigger] step.events[i]),
{
    ordering_loses_no_event(step.events, actor.spec_status());
}

/// A stream remembers the last track that left its current slot, and no other can be
/// refreshed from there.
pub proof fn only_the_last_track_is_remembered(
    actor: StreamActor,
    generation: u64,
    source: TrackSource,
    text: String,
)
    requires
        actor.current is Some,
        actor.current->0.generation == generation,
        actor.next is None,
    ensures
        ({
            let after = react(actor, WorkerEvent::CurrentEnded { generation }, text).actor;
            refusal(after, StreamCommand::RefreshCurrentSource { current: source }) is None
                <==> source.attempt_id@ == actor.current->0.source.attempt_id@
        }),
{
}

/// A stream that says it plays has buffered media to play.
pub open spec fn plays_ready_media(actor: StreamActor) -> bool {
    actor.play_state == PlayState::Playing ==> (actor.current matches Some(attempt)
        && attempt.state == AttemptState::Ready)
}

/// No command makes a stream say that it plays when nothing is buffered.
pub proof fn commands_play_ready_media(actor: StreamActor, command: StreamCommand)
    requires
        plays_ready_media(actor),
        refusal(actor, command) is None,
    ensures
        plays_ready_media(obey(actor, command).actor),
{
}

/// No report makes a stream say that it plays when nothing is buffered.
pub proof fn reports_play_ready_media(actor: StreamActor, event: WorkerEvent, text: String)
    requires
        plays_ready_media(actor),
    ensures
        plays_ready_media(react(actor, event, text).actor),
{
}

} // verus!
