//! The startup deadlines that are running for one stream.
use crate::event::SourceRole;
use crate::session::types::WorkerEvent;
use vstd::prelude::*;

verus! {

#[derive(Clone, Copy, Debug, PartialEq, Eq, Structural)]
pub struct StartupDeadlineKey {
    pub source_role: SourceRole,
    pub generation: u64,
    pub watchdog_epoch: u64,
}

/// A running deadline and the handle that stops it.
#[derive(Debug)]
pub struct RunningDeadline<H> {
    pub key: StartupDeadlineKey,
    pub handle: H,
}

/// All running deadlines; no two share a key.
#[derive(Debug)]
pub struct StartupDeadlines<H> {
    pub running: Vec<RunningDeadline<H>>,
}

impl<H> Default for StartupDeadlines<H> {
    fn default() -> (deadlines: Self)
        ensures
            deadlines.wf(),
            deadlines.running@ == Seq::<RunningDeadline<H>>::empty(),
    {
        StartupDeadlines { running: Vec::new() }
    }
}

/// Whether a deadline belongs to a role and, if one is given, to a generation.
pub open spec fn concerns<H>(
    deadline: RunningDeadline<H>,
    source_role: SourceRole,
    generation: Option<u64>,
) -> bool {
    deadline.key.source_role == source_role && (generation matches Some(generation) ==>
    deadline.key.generation == generation)
}

/// The deadlines that a report about an attempt settles.
pub open spec fn settled_by<H>(event: WorkerEvent, deadline: RunningDeadline<H>) -> bool {
    match event {
        WorkerEvent::CurrentPrebufferReady { generation } => concerns(
            deadline,
            SourceRole::Current,
            Some(generation),
        ),
        WorkerEvent::CurrentEnded { generation } => concerns(
            deadline,
            SourceRole::Current,
            Some(generation),
        ),
        WorkerEvent::CurrentFailed { generation, .. } => concerns(
            deadline,
            SourceRole::Current,
            Some(generation),
        ),
        WorkerEvent::NextReady { generation } => concerns(
            deadline,
            SourceRole::Next,
            Some(generation),
        ),
        WorkerEvent::NextFailed { generation, .. } => concerns(
            deadline,
            SourceRole::Next,
            Some(generation),
        ),
        WorkerEvent::StartupTimedOut { source_role, generation, watchdog_epoch } => deadline.key
            == (StartupDeadlineKey { source_role, generation, watchdog_epoch }),
        _ => false,
    }
}

/// The handles of deadlines.
pub open spec fn handles<H>(deadlines: Seq<RunningDeadline<H>>) -> Seq<H> {
    deadlines.map_values(|deadline: RunningDeadline<H>| deadline.handle)
}

pub open spec fn distinct_keys<H>(deadlines: Seq<RunningDeadline<H>>) -> bool {
    forall|i: int, j: int|
        0 <= i < j < deadlines.len() ==> (#[trigger] deadlines[i]).key != (
        #[trigger] deadlines[j]).key
}

/// Which deadlines are taken out of the registry.
pub enum Selection {
    Role { source_role: SourceRole, generation: Option<u64> },
    Key(StartupDeadlineKey),
    Nothing,
}

pub open spec fn selects<H>(selection: Selection, deadline: RunningDeadline<H>) -> bool {
    match selection {
        Selection::Role { source_role, generation } => concerns(deadline, source_role, generation),
        Selection::Key(key) => deadline.key == key,
        Selection::Nothing => false,
    }
}

/// Leaving entries out keeps keys distinct.
proof fn filtering_keeps_keys_distinct<H>(
    deadlines: Seq<RunningDeadline<H>>,
    keep: spec_fn(RunningDeadline<H>) -> bool,
)
    requires
        distinct_keys(deadlines),
    ensures
        distinct_keys(deadlines.filter(keep)),
        forall|i: int|
            0 <= i < deadlines.filter(keep).len() ==> exists|j: int|
                0 <= j < deadlines.len() && deadlines[j] == #[trigger] deadlines.filter(keep)[i],
    decreases deadlines.len(),
{
    reveal(Seq::filter);
    if deadlines.len() > 0 {
        let front = deadlines.drop_last();
        assert(distinct_keys(front));
        filtering_keeps_keys_distinct(front, keep);
        let kept = deadlines.filter(keep);
        let kept_front = front.filter(keep);
        assert forall|i: int| 0 <= i < kept.len() implies exists|j: int|
            0 <= j < deadlines.len() && deadlines[j] == #[trigger] kept[i] by {
            if i < kept_front.len() {
                assert(kept[i] == kept_front[i]);
                let j = choose|j: int| 0 <= j < front.len() && front[j] == kept_front[i];
                assert(deadlines[j] == kept[i]);
            } else {
                assert(deadlines[deadlines.len() - 1] == kept[i]);
            }
        }
        assert forall|i: int, j: int| 0 <= i < j < kept.len() implies (#[trigger] kept[i]).key != (
        #[trigger] kept[j]).key by {
            if j < kept_front.len() {
                assert(kept_front[i].key != kept_front[j].key);
            } else {
                assert(kept[i] == kept_front[i]);
                let k = choose|k: int| 0 <= k < front.len() && front[k] == kept_front[i];
                assert(deadlines[k].key != deadlines[deadlines.len() - 1].key);
            }
        }
    }
}

impl<H> StartupDeadlines<H> {
    pub open spec fn wf(self) -> bool {
        distinct_keys(self.running@)
    }

    fn selected(selection: &Selection, key: &StartupDeadlineKey) -> (selected: bool)
        ensures
            forall|handle: H|
                selected == #[trigger] selects(
                    *selection,
                    RunningDeadline { key: *key, handle },
                ),
    {
        match selection {
            Selection::Role { source_role, generation } => key.source_role == *source_role
                && match generation {
                Some(generation) => key.generation == *generation,
                None => true,
            },
            Selection::Key(wanted) => *key == *wanted,
            Selection::Nothing => false,
        }
    }

    /// Takes the selected deadlines out and returns their handles.
    fn take(&mut self, selection: Selection) -> (taken: Vec<H>)
        requires
            old(self).wf(),
        ensures
            final(self).wf(),
            final(self).running@ == old(self).running@.filter(
                |deadline: RunningDeadline<H>| !selects(selection, deadline),
            ),
            taken@ == handles(
                old(self).running@.filter(
                    |deadline: RunningDeadline<H>| selects(selection, deadline),
                ),
            ),
    {
        let ghost all = self.running@;
        let ghost keep = |deadline: RunningDeadline<H>| !selects(selection, deadline);
        let ghost drop = |deadline: RunningDeadline<H>| selects(selection, deadline);
        let mut kept: Vec<RunningDeadline<H>> = Vec::new();
        let mut taken: Vec<H> = Vec::new();
        let ghost mut done: int = 0;
        proof {
            reveal(Seq::filter);
            assert(all.skip(0) =~= all);
            assert(all.take(0).filter(keep) =~= Seq::empty());
            assert(handles(all.take(0).filter(drop)) =~= Seq::empty());
        }
        while self.running.len() > 0
            invariant
                0 <= done <= all.len(),
                self.running@ == all.skip(done),
                kept@ == all.take(done).filter(keep),
                taken@ == handles(all.take(done).filter(drop)),
                keep == (|deadline: RunningDeadline<H>| !selects(selection, deadline)),
                drop == (|deadline: RunningDeadline<H>| selects(selection, deadline)),
            decreases self.running@.len(),
        {
            let deadline = self.running.remove(0);
            let ghost first = deadline;
            proof {
                reveal(Seq::filter);
                assert(all.take(done + 1).drop_last() =~= all.take(done));
                assert(all.take(done + 1).last() == first);
                assert(self.running@ =~= all.skip(done + 1));
            }
            let selected = StartupDeadlines::<H>::selected(&selection, &deadline.key);
            proof {
                assert(first == (RunningDeadline { key: first.key, handle: first.handle }));
            }
            if selected {
                taken.push(deadline.handle);
                proof {
                    assert(taken@ =~= handles(all.take(done + 1).filter(drop)));
                }
            } else {
                kept.push(deadline);
            }
            proof {
                done = done + 1;
            }
        }
        proof {
            assert(all.take(done) =~= all);
            filtering_keeps_keys_distinct(all, keep);
        }
        self.running = kept;
        taken
    }

    /// Registers a deadline; returns the handle of one that ran under the same
    /// key.
    pub fn arm(&mut self, key: StartupDeadlineKey, handle: H) -> (displaced: Vec<H>)
        requires
            old(self).wf(),
        ensures
            final(self).wf(),
            final(self).running@ == old(self).running@.filter(
                |deadline: RunningDeadline<H>| deadline.key != key,
            ).push(RunningDeadline { key, handle }),
            displaced@ == handles(
                old(self).running@.filter(|deadline: RunningDeadline<H>| deadline.key == key),
            ),
    {
        let displaced = self.take(Selection::Key(key));
        proof {
            let selection = Selection::Key(key);
            assert((|deadline: RunningDeadline<H>| !selects(selection, deadline)) =~= (
            |deadline: RunningDeadline<H>| deadline.key != key));
            assert((|deadline: RunningDeadline<H>| selects(selection, deadline)) =~= (
            |deadline: RunningDeadline<H>| deadline.key == key));
            broadcast use vstd::seq_lib::group_filter_ensures;

            assert forall|i: int| 0 <= i < self.running@.len() implies (
            #[trigger] self.running@[i]).key != key by {}
        }
        self.running.push(RunningDeadline { key, handle });
        displaced
    }

    /// Stops the deadlines of a role, or only those of one generation, and
    /// returns their handles.
    pub fn cancel(&mut self, source_role: SourceRole, generation: Option<u64>) -> (cancelled: Vec<
        H,
    >)
        requires
            old(self).wf(),
        ensures
            final(self).wf(),
            final(self).running@ == old(self).running@.filter(
                |deadline: RunningDeadline<H>| !concerns(deadline, source_role, generation),
            ),
            cancelled@ == handles(
                old(self).running@.filter(
                    |deadline: RunningDeadline<H>| concerns(deadline, source_role, generation),
                ),
            ),
    {
        proof {
            let selection = Selection::Role { source_role, generation };
            assert((|deadline: RunningDeadline<H>| !selects(selection, deadline)) =~= (
            |deadline: RunningDeadline<H>| !concerns(deadline, source_role, generation)));
            assert((|deadline: RunningDeadline<H>| selects(selection, deadline)) =~= (
            |deadline: RunningDeadline<H>| concerns(deadline, source_role, generation)));
        }
        self.take(Selection::Role { source_role, generation })
    }

    /// Stops every deadline and returns the handles.
    pub fn cancel_all(&mut self) -> (cancelled: Vec<H>)
        ensures
            final(self).wf(),
            final(self).running@ == Seq::<RunningDeadline<H>>::empty(),
            cancelled@ == handles(old(self).running@),
    {
        let ghost all = self.running@;
        let mut cancelled: Vec<H> = Vec::new();
        let ghost mut done: int = 0;
        proof {
            assert(all.skip(0) =~= all);
            assert(handles(all.take(0)) =~= Seq::empty());
        }
        while self.running.len() > 0
            invariant
                0 <= done <= all.len(),
                self.running@ == all.skip(done),
                cancelled@ == handles(all.take(done)),
            decreases self.running@.len(),
        {
            let deadline = self.running.remove(0);
            cancelled.push(deadline.handle);
            proof {
                assert(self.running@ =~= all.skip(done + 1));
                assert(cancelled@ =~= handles(all.take(done + 1)));
                done = done + 1;
            }
        }
        proof {
            assert(all.take(done) =~= all);
            assert(self.running@ =~= Seq::empty());
        }
        cancelled
    }

    /// Takes note of a report: the deadlines that it settles are taken out. Their
    /// handles are returned; that of a deadline which has passed is not needed any
    /// more.
    pub fn observe(&mut self, event: &WorkerEvent) -> (settled: Vec<H>)
        requires
            old(self).wf(),
        ensures
            final(self).wf(),
            final(self).running@ == old(self).running@.filter(
                |deadline: RunningDeadline<H>| !settled_by(*event, deadline),
            ),
            settled@ == handles(
                old(self).running@.filter(
                    |deadline: RunningDeadline<H>| settled_by(*event, deadline),
                ),
            ),
    {
        let selection = match event {
            WorkerEvent::CurrentPrebufferReady { generation } => Selection::Role {
                source_role: SourceRole::Current,
                generation: Some(*generation),
            },
            WorkerEvent::CurrentEnded { generation } => Selection::Role {
                source_role: SourceRole::Current,
                generation: Some(*generation),
            },
            WorkerEvent::CurrentFailed { generation, .. } => Selection::Role {
                source_role: SourceRole::Current,
                generation: Some(*generation),
            },
            WorkerEvent::NextReady { generation } => Selection::Role {
                source_role: SourceRole::Next,
                generation: Some(*generation),
            },
            WorkerEvent::NextFailed { generation, .. } => Selection::Role {
                source_role: SourceRole::Next,
                generation: Some(*generation),
            },
            WorkerEvent::StartupTimedOut { source_role, generation, watchdog_epoch } =>
                Selection::Key(
                StartupDeadlineKey {
                    source_role: *source_role,
                    generation: *generation,
                    watchdog_epoch: *watchdog_epoch,
                },
            ),
            _ => Selection::Nothing,
        };
        proof {
            assert((|deadline: RunningDeadline<H>| !selects(selection, deadline)) =~= (
            |deadline: RunningDeadline<H>| !settled_by(*event, deadline)));
            assert((|deadline: RunningDeadline<H>| selects(selection, deadline)) =~= (
            |deadline: RunningDeadline<H>| settled_by(*event, deadline)));
        }
        self.take(selection)
    }
}

/// A report settles the deadlines of the attempt it is about, in the slot it is
/// about, and no others; a deadline that has passed settles itself alone. What a
/// source turned out to be, how the network does, and a failed output settle none.
pub proof fn reports_settle_their_own_deadlines<H>(
    event: WorkerEvent,
    deadline: RunningDeadline<H>,
)
    ensures
        settled_by(event, deadline) <==> match event {
            WorkerEvent::CurrentPrebufferReady { generation }
            | WorkerEvent::CurrentEnded { generation }
            | WorkerEvent::CurrentFailed { generation, .. } => deadline.key.source_role
                == SourceRole::Current && deadline.key.generation == generation,
            WorkerEvent::NextReady { generation } | WorkerEvent::NextFailed { generation, .. } =>
                deadline.key.source_role == SourceRole::Next && deadline.key.generation
                == generation,
            WorkerEvent::StartupTimedOut { source_role, generation, watchdog_epoch } =>
                deadline.key.source_role == source_role && deadline.key.generation == generation
                && deadline.key.watchdog_epoch == watchdog_epoch,
            WorkerEvent::CurrentSourceClassified { .. }
            | WorkerEvent::CurrentNetworkQualityChanged { .. }
            | WorkerEvent::OutputFailed { .. } => false,
        },
{
}

/// Cancelling for one generation spares all others, and cancelling for a slot spares
/// the other slot.
pub proof fn cancelling_spares_the_others<H>(
    deadline: RunningDeadline<H>,
    source_role: SourceRole,
    generation: u64,
)
    ensures
        concerns(deadline, source_role, None) <==> deadline.key.source_role == source_role,
        concerns(deadline, source_role, Some(generation)) <==> deadline.key.source_role
            == source_role && deadline.key.generation == generation,
{
}

/// Each running deadline that is cancelled hands its own handle back.
pub proof fn handles_belong_to_their_deadlines<H>(deadlines: Seq<RunningDeadline<H>>, i: int)
    requires
        0 <= i < deadlines.len(),
    ensures
        handles(deadlines).len() == deadlines.len(),
        handles(deadlines)[i] == deadlines[i].handle,
{
}

} // verus!
