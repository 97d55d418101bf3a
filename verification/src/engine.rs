//! The registry of streams.
use crate::error::MusicStreamError;
use crate::model::{GainLevel, StreamStatus, TrackSource, VolumeLevel};
use crate::session::spec::{obey, react, refusal, refused_with, reports, room_for, supplies_text};
use crate::session::types::{ActorOutput, StreamActor, StreamCommand, WorkerEvent};
use crate::text::same_text;
use vstd::prelude::*;

verus! {

/// The streams of a process, in the order of their creation. No two share an id.
#[derive(Debug)]
pub struct Engine {
    pub streams: Vec<StreamActor>,
}

pub open spec fn not_found(error: MusicStreamError, stream_id: Seq<char>) -> bool {
    error matches MusicStreamError::StreamNotFound(text) && text@ == stream_id
}

impl Default for Engine {
    fn default() -> (engine: Self)
        ensures
            engine.wf(),
            engine.streams@ == Seq::<StreamActor>::empty(),
    {
        Engine { streams: Vec::new() }
    }
}

impl Engine {
    pub open spec fn wf(self) -> bool {
        forall|i: int, j: int|
            0 <= i < j < self.streams@.len() ==> (#[trigger] self.streams@[i]).stream_id@ != (
            #[trigger] self.streams@[j]).stream_id@
    }

    /// The stream at position `i` has the id `stream_id`.
    pub open spec fn at(self, i: int, stream_id: Seq<char>) -> bool {
        0 <= i < self.streams@.len() && self.streams@[i].stream_id@ == stream_id
    }

    pub open spec fn knows(self, stream_id: Seq<char>) -> bool {
        exists|i: int| self.at(i, stream_id)
    }

    /// The stream with a known id.
    pub open spec fn stream(self, stream_id: Seq<char>) -> StreamActor {
        self.streams@[choose|i: int| self.at(i, stream_id)]
    }

    #[must_use]
    pub fn new() -> (engine: Self)
        ensures
            engine.wf(),
            engine.streams@ == Seq::<StreamActor>::empty(),
    {
        Engine::default()
    }

    fn find(&self, stream_id: &str) -> (found: Option<usize>)
        requires
            self.wf(),
        ensures
            found is Some <==> self.knows(stream_id@),
            found matches Some(i) ==> self.at(i as int, stream_id@) && self.streams@[i as int]
                == self.stream(stream_id@),
    {
        let mut i: usize = 0;
        while i < self.streams.len()
            invariant
                self.wf(),
                i <= self.streams@.len(),
                forall|k: int| 0 <= k < i ==> !(#[trigger] self.at(k, stream_id@)),
            decreases self.streams@.len() - i,
        {
            if same_text(self.streams[i].stream_id.as_str(), stream_id) {
                proof {
                    assert(self.at(i as int, stream_id@));
                    let other = choose|k: int| self.at(k, stream_id@);
                    assert(self.at(other, stream_id@));
                    assert(other == i);
                }
                return Some(i);
            }
            i = i + 1;
        }
        None
    }

    pub fn get_status(&self, stream_id: &str) -> (result: Result<StreamStatus, MusicStreamError>)
        requires
            self.wf(),
        ensures
            result is Ok <==> self.knows(stream_id@),
            result matches Ok(status) ==> status == self.stream(stream_id@).spec_status(),
            result matches Err(error) ==> not_found(error, stream_id@),
    {
        match self.find(stream_id) {
            Some(i) => Ok(self.streams[i].status()),
            None => Err(MusicStreamError::StreamNotFound(stream_id.to_owned())),
        }
    }

    pub fn insert_placeholder_stream(
        &mut self,
        stream_id: String,
        current: Option<TrackSource>,
        next: Option<TrackSource>,
    ) -> (result: Result<StreamStatus, MusicStreamError>)
        requires
            old(self).wf(),
        ensures
            final(self).wf(),
            match result {
                Ok(status) => {
                    &&& !old(self).knows(stream_id@)
                    &&& final(self).streams@ == old(self).streams@.push(final(self).streams@.last())
                    &&& created(final(self).streams@.last(), stream_id, current, next)
                    &&& status == final(self).streams@.last().spec_status()
                },
                Err(error) => {
                    &&& old(self).knows(stream_id@)
                    &&& *final(self) == *old(self)
                    &&& error == MusicStreamError::StreamAlreadyExists(stream_id)
                },
            },
    {
        self.create_stream(stream_id, current, next)
    }

    /// Adds a stream under an id that is not taken.
    pub fn create_stream(
        &mut self,
        stream_id: String,
        current: Option<TrackSource>,
        next: Option<TrackSource>,
    ) -> (result: Result<StreamStatus, MusicStreamError>)
        requires
            old(self).wf(),
        ensures
            final(self).wf(),
            match result {
                Ok(status) => {
                    &&& !old(self).knows(stream_id@)
                    &&& final(self).streams@ == old(self).streams@.push(final(self).streams@.last())
                    &&& created(final(self).streams@.last(), stream_id, current, next)
                    &&& status == final(self).streams@.last().spec_status()
                },
                Err(error) => {
                    &&& old(self).knows(stream_id@)
                    &&& *final(self) == *old(self)
                    &&& error == MusicStreamError::StreamAlreadyExists(stream_id)
                },
            },
    {
        if self.find(stream_id.as_str()).is_some() {
            return Err(MusicStreamError::StreamAlreadyExists(stream_id));
        }
        let ghost id = stream_id;
        let actor = StreamActor::with_next(stream_id, current, next);
        let status = actor.status();
        proof {
            assert forall|i: int| 0 <= i < self.streams@.len() implies (#[trigger] self.streams@[i]).stream_id@
                != id@ by {
                assert(!self.at(i, id@));
            }
        }
        self.streams.push(actor);
        Ok(status)
    }

    /// Takes a stream out and returns its last status.
    pub fn remove_stream(&mut self, stream_id: &str) -> (removed: Option<StreamStatus>)
        requires
            old(self).wf(),
        ensures
            final(self).wf(),
            match removed {
                Some(status) => {
                    &&& old(self).knows(stream_id@)
                    &&& status == old(self).stream(stream_id@).spec_status()
                    &&& exists|i: int| #[trigger]
                        old(self).at(i, stream_id@) && final(self).streams@ == old(
                            self,
                        ).streams@.remove(i)
                    &&& !final(self).knows(stream_id@)
                },
                None => !old(self).knows(stream_id@) && *final(self) == *old(self),
            },
    {
        match self.find(stream_id) {
            Some(i) => {
                let actor = self.streams.remove(i);
                proof {
                    assert(old(self).at(i as int, stream_id@));
                    assert forall|k: int| !(#[trigger] self.at(k, stream_id@)) by {
                        if self.at(k, stream_id@) {
                            let original = if k < i {
                                k
                            } else {
                                k + 1
                            };
                            assert(old(self).streams@[original].stream_id@ == old(
                                self,
                            ).streams@[i as int].stream_id@);
                        }
                    }
                }
                Some(actor.status())
            },
            None => None,
        }
    }

    /// Takes all streams out and returns their last statuses.
    pub fn clear(&mut self) -> (statuses: Vec<StreamStatus>)
        ensures
            final(self).wf(),
            final(self).streams@ == Seq::<StreamActor>::empty(),
            statuses@ == old(self).streams@.map_values(|actor: StreamActor| actor.spec_status()),
    {
        let mut statuses: Vec<StreamStatus> = Vec::new();
        let mut i: usize = 0;
        while i < self.streams.len()
            invariant
                *self == *old(self),
                i <= self.streams@.len(),
                statuses@ == self.streams@.take(i as int).map_values(
                    |actor: StreamActor| actor.spec_status(),
                ),
            decreases self.streams@.len() - i,
        {
            statuses.push(self.streams[i].status());
            proof {
                assert(statuses@ =~= self.streams@.take(i + 1).map_values(
                    |actor: StreamActor| actor.spec_status(),
                ));
            }
            i = i + 1;
        }
        proof {
            assert(self.streams@.take(i as int) =~= self.streams@);
        }
        self.streams.clear();
        statuses
    }

    /// The registry after the stream at one position moved on.
    pub open spec fn only_changed(self, before: Engine, stream_id: Seq<char>) -> bool {
        exists|i: int| #[trigger]
            before.at(i, stream_id) && self.at(i, stream_id) && self.streams@
                == before.streams@.update(i, self.streams@[i])
    }

    pub fn command(&mut self, stream_id: &str, command: StreamCommand) -> (result: Result<
        ActorOutput,
        MusicStreamError,
    >)
        requires
            old(self).wf(),
            old(self).knows(stream_id@) ==> room_for(old(self).stream(stream_id@), command),
        ensures
            final(self).wf(),
            !old(self).knows(stream_id@) ==> *final(self) == *old(self) && result is Err && not_found(
                result->Err_0,
                stream_id@,
            ),
            old(self).knows(stream_id@) ==> {
                let before = old(self).stream(stream_id@);
                &&& final(self).only_changed(*old(self), stream_id@)
                &&& match result {
                    Ok(output) => {
                        &&& refusal(before, command) is None
                        &&& reports(obey(before, command), final(self).stream(stream_id@), output)
                    },
                    Err(error) => {
                        &&& final(self).stream(stream_id@) == before
                        &&& refusal(before, command) matches Some(reason) && refused_with(
                            error,
                            reason,
                        )
                    },
                }
            },
    {
        match self.find(stream_id) {
            None => Err(MusicStreamError::StreamNotFound(stream_id.to_owned())),
            Some(i) => {
                let result = self.streams[i].handle_command(command);
                proof {
                    let before = old(self).streams@[i as int];
                    let after = self.streams@[i as int];
                    if result is Ok {
                        obeying_keeps_the_id(before, command);
                    }
                    assert(after.stream_id == before.stream_id);
                    self.settle(*old(self), i as int, stream_id@);
                }
                result
            },
        }
    }

    pub fn worker_event(&mut self, stream_id: &str, event: WorkerEvent) -> (result: Result<
        ActorOutput,
        MusicStreamError,
    >)
        requires
            old(self).wf(),
        ensures
            final(self).wf(),
            result is Ok <==> old(self).knows(stream_id@),
            match result {
                Ok(output) => {
                    &&& final(self).only_changed(*old(self), stream_id@)
                    &&& exists|text: String| #[trigger]
                        supplies_text(event, text) && reports(
                            react(old(self).stream(stream_id@), event, text),
                            final(self).stream(stream_id@),
                            output,
                        )
                },
                Err(error) => *final(self) == *old(self) && not_found(error, stream_id@),
            },
    {
        match self.find(stream_id) {
            None => Err(MusicStreamError::StreamNotFound(stream_id.to_owned())),
            Some(i) => {
                let output = self.streams[i].handle_worker_event(event);
                proof {
                    let before = old(self).streams@[i as int];
                    let text = choose|text: String| #[trigger]
                        supplies_text(event, text) && reports(
                            react(before, event, text),
                            self.streams@[i as int],
                            output,
                        );
                    reacting_keeps_the_id(before, event, text);
                    self.settle(*old(self), i as int, stream_id@);
                }
                Ok(output)
            },
        }
    }

    proof fn settle(self, before: Engine, i: int, stream_id: Seq<char>)
        requires
            before.wf(),
            before.at(i, stream_id),
            self.streams@ == before.streams@.update(i, self.streams@[i]),
            self.streams@[i].stream_id == before.streams@[i].stream_id,
        ensures
            self.wf(),
            self.at(i, stream_id),
            self.only_changed(before, stream_id),
            self.stream(stream_id) == self.streams@[i],
    {
        assert forall|a: int, b: int| 0 <= a < b < self.streams@.len() implies (
        #[trigger] self.streams@[a]).stream_id@ != (#[trigger] self.streams@[b]).stream_id@ by {
            assert(before.streams@[a].stream_id@ != before.streams@[b].stream_id@);
        }
        assert(self.at(i, stream_id));
        let other = choose|k: int| self.at(k, stream_id);
        assert(self.at(other, stream_id));
        assert(other == i);
    }

    pub fn play(&mut self, stream_id: &str) -> (result: Result<ActorOutput, MusicStreamError>)
        requires
            old(self).wf(),
        ensures
            final(self).wf(),
            carried_out(*old(self), *final(self), stream_id@, StreamCommand::Play, result),
    {
        self.command(stream_id, StreamCommand::Play)
    }

    pub fn pause(&mut self, stream_id: &str) -> (result: Result<ActorOutput, MusicStreamError>)
        requires
            old(self).wf(),
        ensures
            final(self).wf(),
            carried_out(*old(self), *final(self), stream_id@, StreamCommand::Pause, result),
    {
        self.command(stream_id, StreamCommand::Pause)
    }

    pub fn stop(&mut self, stream_id: &str) -> (result: Result<ActorOutput, MusicStreamError>)
        requires
            old(self).wf(),
        ensures
            final(self).wf(),
            carried_out(*old(self), *final(self), stream_id@, StreamCommand::Stop, result),
    {
        self.command(stream_id, StreamCommand::Stop)
    }

    pub fn seek(&mut self, stream_id: &str, seconds: u64) -> (result: Result<
        ActorOutput,
        MusicStreamError,
    >)
        requires
            old(self).wf(),
            old(self).knows(stream_id@) ==> room_for(
                old(self).stream(stream_id@),
                StreamCommand::Seek { seconds },
            ),
        ensures
            final(self).wf(),
            carried_out(*old(self), *final(self), stream_id@, StreamCommand::Seek { seconds }, result),
    {
        self.command(stream_id, StreamCommand::Seek { seconds })
    }

    pub fn set_volume(&mut self, stream_id: &str, volume: VolumeLevel) -> (result: Result<
        ActorOutput,
        MusicStreamError,
    >)
        requires
            old(self).wf(),
        ensures
            final(self).wf(),
            carried_out(
                *old(self),
                *final(self),
                stream_id@,
                StreamCommand::SetVolume { volume },
                result,
            ),
    {
        self.command(stream_id, StreamCommand::SetVolume { volume })
    }

    pub fn set_gain(&mut self, stream_id: &str, gain: GainLevel) -> (result: Result<
        ActorOutput,
        MusicStreamError,
    >)
        requires
            old(self).wf(),
        ensures
            final(self).wf(),
            carried_out(*old(self), *final(self), stream_id@, StreamCommand::SetGain { gain }, result),
    {
        self.command(stream_id, StreamCommand::SetGain { gain })
    }
}

/// What a command to a stream of the registry does: an unknown stream changes
/// nothing, a known one obeys or refuses as it would by itself, and no other
/// stream is touched.
pub open spec fn carried_out(
    before: Engine,
    after: Engine,
    stream_id: Seq<char>,
    command: StreamCommand,
    result: Result<ActorOutput, MusicStreamError>,
) -> bool {
    if !before.knows(stream_id) {
        after == before && result is Err && not_found(result->Err_0, stream_id)
    } else {
        &&& after.only_changed(before, stream_id)
        &&& match result {
            Ok(output) => {
                &&& refusal(before.stream(stream_id), command) is None
                &&& reports(
                    obey(before.stream(stream_id), command),
                    after.stream(stream_id),
                    output,
                )
            },
            Err(error) => {
                &&& after.stream(stream_id) == before.stream(stream_id)
                &&& refusal(before.stream(stream_id), command) matches Some(reason)
                    && refused_with(error, reason)
            },
        }
    }
}

/// `actor` is a new stream that holds `current` and `next`, neither started.
pub open spec fn created(
    actor: StreamActor,
    stream_id: String,
    current: Option<TrackSource>,
    next: Option<TrackSource>,
) -> bool {
    crate::session::actor::newly_made(actor, stream_id, current, next)
}

/// Commands never rename a stream.
pub proof fn obeying_keeps_the_id(actor: StreamActor, command: StreamCommand)
    ensures
        obey(actor, command).actor.stream_id == actor.stream_id,
{
}

/// Worker events never rename a stream.
pub proof fn reacting_keeps_the_id(actor: StreamActor, event: WorkerEvent, text: String)
    ensures
        react(actor, event, text).actor.stream_id == actor.stream_id,
{
}

/// A new stream holds its tracks under generations of their own, none of them
/// started, idles at its beginning with no plan, and is set to full volume and no
/// gain.
pub proof fn new_streams_hold_their_tracks(
    actor: StreamActor,
    stream_id: String,
    current: Option<TrackSource>,
    next: Option<TrackSource>,
)
    requires
        created(actor, stream_id, current, next),
    ensures
        actor.wf(),
        actor.stream_id == stream_id,
        current is Some <==> actor.current is Some,
        next is Some <==> actor.next is Some,
        current matches Some(source) ==> actor.current->0.source == source
            && actor.current->0.state == crate::session::types::AttemptState::Dormant,
        next matches Some(source) ==> actor.next->0.source == source && actor.next->0.state
            == crate::session::types::AttemptState::Dormant,
        actor.play_state == crate::model::PlayState::Idle,
        actor.time_played_ms == 0,
        actor.plan_version == 0,
        actor.refreshable_current_key is None,
        actor.volume@ == 10_000,
        actor.gain@ == 0,
        actor.generation <= 2,
{
}

/// What happens to one stream of the registry happens to no other.
pub proof fn other_streams_are_not_touched(
    before: Engine,
    after: Engine,
    stream_id: Seq<char>,
    other: Seq<char>,
    i: int,
)
    requires
        before.wf(),
        after.only_changed(before, stream_id),
        before.at(i, other),
        other != stream_id,
    ensures
        after.at(i, other),
        after.streams@[i] == before.streams@[i],
        after.streams@.len() == before.streams@.len(),
{
}

} // verus!
