//! Tasks that belong to one generation, and the report of a shutdown.
use crate::error::{ErrorCode, MusicStreamError};
use vstd::prelude::*;

verus! {

#[derive(Clone, Debug, PartialEq, Eq)]
pub struct RuntimeTaskFailure {
    pub name: String,
    pub code: ErrorCode,
    pub message: String,
}

#[derive(Clone, Debug, PartialEq, Eq)]
pub struct RuntimeTaskShutdownReport {
    pub completed: usize,
    pub failed: Vec<RuntimeTaskFailure>,
    pub panicked: usize,
    pub aborted: usize,
    pub timed_out: bool,
}

impl Default for RuntimeTaskShutdownReport {
    fn default() -> (report: Self)
        ensures
            report.completed == 0,
            report.failed@ == Seq::<RuntimeTaskFailure>::empty(),
            report.panicked == 0,
            report.aborted == 0,
            !report.timed_out,
    {
        RuntimeTaskShutdownReport {
            completed: 0,
            failed: Vec::new(),
            panicked: 0,
            aborted: 0,
            timed_out: false,
        }
    }
}

/// How a joined task ended.
pub enum JoinedTask {
    Completed,
    Failed { name: String, error: MusicStreamError },
    Aborted,
    Panicked,
    /// The task could not be joined for another reason, which `message` words.
    Lost { message: String },
}

pub open spec fn one_more(count: usize) -> usize {
    if count == usize::MAX {
        usize::MAX
    } else {
        (count + 1) as usize
    }
}

/// `failure` is the entry that a failed task leaves in the report.
pub open spec fn records(failure: RuntimeTaskFailure, joined: JoinedTask) -> bool {
    match joined {
        JoinedTask::Failed { name, error } => failure.name == name && failure.code
            == error.spec_code() && failure.message@ == error.prefix() + error.detail(),
        JoinedTask::Lost { message } => failure.name@ == "<unknown>"@ && failure.code
            == ErrorCode::Internal && failure.message == message,
        _ => false,
    }
}

impl RuntimeTaskShutdownReport {
    /// The report is `before` with one joined task more.
    pub open spec fn adds(self, before: RuntimeTaskShutdownReport, joined: JoinedTask) -> bool {
        &&& self.timed_out == before.timed_out
        &&& self.completed == if joined is Completed {
            one_more(before.completed)
        } else {
            before.completed
        }
        &&& self.aborted == if joined is Aborted {
            one_more(before.aborted)
        } else {
            before.aborted
        }
        &&& self.panicked == if joined is Panicked {
            one_more(before.panicked)
        } else {
            before.panicked
        }
        &&& if joined is Failed || joined is Lost {
            &&& self.failed@.len() == before.failed@.len() + 1
            &&& self.failed@.drop_last() == before.failed@
            &&& records(self.failed@.last(), joined)
        } else {
            self.failed@ == before.failed@
        }
    }

    /// Adds one joined task to the report.
    pub fn record(&mut self, joined: JoinedTask)
        ensures
            final(self).adds(*old(self), joined),
    {
        match joined {
            JoinedTask::Completed => {
                self.completed = self.completed.saturating_add(1);
            },
            JoinedTask::Failed { name, error } => {
                self.failed.push(
                    RuntimeTaskFailure { name, code: error.code(), message: error.message() },
                );
                proof {
                    assert(self.failed@.drop_last() =~= old(self).failed@);
                }
            },
            JoinedTask::Aborted => {
                self.aborted = self.aborted.saturating_add(1);
            },
            JoinedTask::Panicked => {
                self.panicked = self.panicked.saturating_add(1);
            },
            JoinedTask::Lost { message } => {
                self.failed.push(
                    RuntimeTaskFailure {
                        name: "<unknown>".to_owned(),
                        code: ErrorCode::Internal,
                        message,
                    },
                );
                proof {
                    assert(self.failed@.drop_last() =~= old(self).failed@);
                }
            },
        }
    }
}

/// A task together with the generation it works for.
#[derive(Clone, Debug, PartialEq, Eq)]
pub struct GenerationScopedTask<T> {
    pub generation: u64,
    pub task: T,
}

impl<T> GenerationScopedTask<T> {
    #[must_use]
    pub fn new(generation: u64, task: T) -> (scoped: Self)
        ensures
            scoped == (GenerationScopedTask { generation, task }),
    {
        GenerationScopedTask { generation, task }
    }

    #[must_use]
    pub fn generation(&self) -> (generation: u64)
        ensures
            generation == self.generation,
    {
        self.generation
    }

    #[must_use]
    pub fn task(&self) -> (task: &T)
        ensures
            *task == self.task,
    {
        &self.task
    }

    #[must_use]
    pub fn task_mut(&mut self) -> (task: &mut T)
        ensures
            *task == old(self).task,
            *final(self) == (GenerationScopedTask { task: *final(task), ..*old(self) }),
    {
        &mut self.task
    }

    #[must_use]
    pub fn into_task(self) -> (task: T)
        ensures
            task == self.task,
    {
        self.task
    }
}

/// Holds at most one task and guards it by its generation.
#[derive(Clone, Debug, PartialEq, Eq)]
pub struct GenerationTaskSlot<T> {
    pub active: Option<GenerationScopedTask<T>>,
}

impl<T> Default for GenerationTaskSlot<T> {
    fn default() -> (slot: Self)
        ensures
            slot.active is None,
    {
        GenerationTaskSlot { active: None }
    }
}

impl<T> GenerationTaskSlot<T> {
    pub open spec fn holds(self, generation: u64) -> bool {
        self.active matches Some(active) && active.generation == generation
    }

    /// The slot with a task put in.
    pub open spec fn with_task(self, generation: u64, task: T) -> GenerationTaskSlot<T> {
        GenerationTaskSlot { active: Some(GenerationScopedTask { generation, task }) }
    }

    /// The slot without a task that works for `generation`.
    pub open spec fn without(self, generation: u64) -> GenerationTaskSlot<T> {
        if self.holds(generation) {
            GenerationTaskSlot { active: None }
        } else {
            self
        }
    }

    #[must_use]
    pub fn new() -> (slot: Self)
        ensures
            slot.active is None,
    {
        GenerationTaskSlot { active: None }
    }

    #[must_use]
    pub fn is_empty(&self) -> (empty: bool)
        ensures
            empty == self.active is None,
    {
        self.active.is_none()
    }

    #[must_use]
    pub fn generation(&self) -> (generation: Option<u64>)
        ensures
            generation == match self.active {
                Some(active) => Some(active.generation),
                None => None,
            },
    {
        match &self.active {
            Some(active) => Some(active.generation),
            None => None,
        }
    }

    #[must_use]
    pub fn get(&self) -> (task: Option<&T>)
        ensures
            task is Some <==> self.active is Some,
            task matches Some(task) ==> *task == self.active->0.task,
    {
        match &self.active {
            Some(active) => Some(&active.task),
            None => None,
        }
    }

    #[must_use]
    pub fn get_mut(&mut self) -> (task: Option<&mut T>)
        ensures
            match task {
                Some(task) => {
                    &&& old(self).active is Some
                    &&& *task == old(self).active->0.task
                    &&& final(self).active == Some(
                        GenerationScopedTask { task: *final(task), ..old(self).active->0 },
                    )
                },
                None => old(self).active is None && final(self).active is None,
            },
    {
        match &mut self.active {
            Some(active) => Some(&mut active.task),
            None => None,
        }
    }

    #[must_use]
    pub fn get_if_generation(&self, generation: u64) -> (task: Option<&T>)
        ensures
            task is Some <==> self.holds(generation),
            task matches Some(task) ==> *task == self.active->0.task,
    {
        match &self.active {
            Some(active) => if active.generation == generation {
                Some(&active.task)
            } else {
                None
            },
            None => None,
        }
    }

    #[must_use]
    pub fn get_mut_if_generation(&mut self, generation: u64) -> (task: Option<&mut T>)
        ensures
            match task {
                Some(task) => {
                    &&& old(self).holds(generation)
                    &&& *task == old(self).active->0.task
                    &&& final(self).active == Some(
                        GenerationScopedTask { task: *final(task), ..old(self).active->0 },
                    )
                },
                None => !old(self).holds(generation) && *final(self) == *old(self),
            },
    {
        match &mut self.active {
            Some(active) => if active.generation == generation {
                Some(&mut active.task)
            } else {
                None
            },
            None => None,
        }
    }

    /// Puts a task in and returns the one it displaces.
    pub fn insert(&mut self, generation: u64, task: T) -> (displaced: Option<
        GenerationScopedTask<T>,
    >)
        ensures
            displaced == old(self).active,
            *final(self) == old(self).with_task(generation, task),
    {
        let displaced = self.active.take();
        self.active = Some(GenerationScopedTask { generation, task });
        displaced
    }

    pub fn insert_task(&mut self, generation: u64, task: T) -> (displaced: Option<T>)
        ensures
            displaced == match old(self).active {
                Some(active) => Some(active.task),
                None => None,
            },
            *final(self) == old(self).with_task(generation, task),
    {
        match self.insert(generation, task) {
            Some(displaced) => Some(displaced.task),
            None => None,
        }
    }

    pub fn take(&mut self) -> (taken: Option<GenerationScopedTask<T>>)
        ensures
            taken == old(self).active,
            final(self).active is None,
    {
        self.active.take()
    }

    pub fn take_task(&mut self) -> (taken: Option<T>)
        ensures
            taken == match old(self).active {
                Some(active) => Some(active.task),
                None => None,
            },
            final(self).active is None,
    {
        match self.active.take() {
            Some(taken) => Some(taken.task),
            None => None,
        }
    }

    /// Takes the task only if it works for `generation`.
    pub fn take_if_generation(&mut self, generation: u64) -> (taken: Option<
        GenerationScopedTask<T>,
    >)
        ensures
            *final(self) == old(self).without(generation),
            if old(self).holds(generation) {
                taken == old(self).active
            } else {
                taken is None
            },
    {
        let matching = match &self.active {
            Some(active) => active.generation == generation,
            None => false,
        };
        if matching {
            self.active.take()
        } else {
            None
        }
    }

    pub fn take_task_if_generation(&mut self, generation: u64) -> (taken: Option<T>)
        ensures
            *final(self) == old(self).without(generation),
            if old(self).holds(generation) {
                taken == Some(old(self).active->0.task)
            } else {
                taken is None
            },
    {
        match self.take_if_generation(generation) {
            Some(taken) => Some(taken.task),
            None => None,
        }
    }
}

/// A task is found, and taken, only by the generation that the slot names; what was
/// put in last is there, and putting in and taking out leaves an empty slot.
pub proof fn tasks_belong_to_their_generation<T>(
    slot: GenerationTaskSlot<T>,
    generation: u64,
    named: Option<u64>,
    found: Option<&T>,
    task: T,
    other: u64,
)
    requires
        call_ensures(GenerationTaskSlot::<T>::generation, (&slot,), named),
        call_ensures(GenerationTaskSlot::<T>::get_if_generation, (&slot, generation), found),
    ensures
        found is Some <==> named == Some(generation),
        named is Some <==> slot.active is Some,
        found matches Some(found) ==> slot.active is Some && *found == slot.active->0.task,
        named == Some(generation) ==> slot.without(generation).active is None,
        named != Some(generation) ==> slot.without(generation) == slot,
        slot.with_task(generation, task).active is Some,
        slot.with_task(generation, task).active->0.task == task,
        slot.with_task(generation, task).active->0.generation == generation,
        slot.with_task(generation, task).without(generation).active is None,
        other != generation ==> slot.with_task(generation, task).without(other) == slot.with_task(
            generation,
            task,
        ),
{
}

/// Every joined task counts once, as what became of it: a failed one is listed behind
/// the others with its name, its code and its words, and one that was lost as unknown.
pub proof fn joined_tasks_count_once(
    before: RuntimeTaskShutdownReport,
    joined: JoinedTask,
    after: RuntimeTaskShutdownReport,
)
    requires
        after.adds(before, joined),
        before.completed < usize::MAX,
        before.aborted < usize::MAX,
        before.panicked < usize::MAX,
    ensures
        after.completed + after.aborted + after.panicked + after.failed@.len() == before.completed
            + before.aborted + before.panicked + before.failed@.len() + 1,
        joined is Completed <==> after.completed > before.completed,
        joined is Aborted <==> after.aborted > before.aborted,
        joined is Panicked <==> after.panicked > before.panicked,
        after.completed >= before.completed && after.aborted >= before.aborted && after.panicked
            >= before.panicked,
        forall|i: int|
            0 <= i < before.failed@.len() ==> #[trigger] after.failed@[i] == before.failed@[i],
        joined matches JoinedTask::Failed { name, error } ==> {
            let entry = after.failed@.last();
            &&& after.failed@.len() == before.failed@.len() + 1
            &&& entry.name == name
            &&& entry.code == error.spec_code()
            &&& entry.message@ == error.prefix() + error.detail()
        },
        joined matches JoinedTask::Lost { message } ==> {
            let entry = after.failed@.last();
            &&& after.failed@.len() == before.failed@.len() + 1
            &&& entry.name@ == "<unknown>"@
            &&& entry.code == ErrorCode::Internal
            &&& entry.message == message
        },
        after.timed_out == before.timed_out,
{
    assert forall|i: int| 0 <= i < before.failed@.len() implies #[trigger] after.failed@[i]
        == before.failed@[i] by {
        if joined is Failed || joined is Lost {
            assert(after.failed@.drop_last()[i] == before.failed@[i]);
        }
    }
}

} // verus!
