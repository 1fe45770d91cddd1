//! The storage interface that the lifecycle works against.

use crate::model::task::{task_of, Task, TaskView};
use vstd::prelude::*;

verus! {

/// Why a store did not take a write.
#[derive(Clone, Copy, Debug, PartialEq, Eq, Structural)]
pub enum StoreError {
    /// The store did not answer in time.
    Timeout,
    /// The store refused the request to shed load.
    Throttled,
    /// The task could not be put into the store's format.
    Serialization,
}

/// The contents of a store: the task filed under each identifier.
pub type Stored = Map<Seq<char>, TaskView>;

/// What a read of `global_id` finds in `tasks`.
pub open spec fn stored(tasks: Stored, global_id: Seq<char>) -> Option<TaskView> {
    if tasks.contains_key(global_id) {
        Some(tasks[global_id])
    } else {
        None
    }
}

/// The contents after `task` was written: it replaces whatever was filed
/// under its identifier, and nothing else changes.
pub open spec fn written(tasks: Stored, task: TaskView) -> Stored {
    tasks.insert(task.global_id, task)
}

/// What a refused write of `task` may leave behind: the contents as they
/// were, or the contents with the write made after all.
pub open spec fn maybe_written(before: Stored, after: Stored, task: TaskView) -> bool {
    after == before || after == written(before, task)
}

/// Every task is filed under its own identifier and is well formed.
pub open spec fn store_sound(tasks: Stored) -> bool {
    forall|global_id: Seq<char>| #[trigger]
        tasks.contains_key(global_id) ==> tasks[global_id].global_id == global_id
            && tasks[global_id].well_formed()
}

/// Durable storage of tasks, with the task's identifier as the only key.
pub trait TaskRepository {
    /// The tasks that the store holds.
    spec fn tasks(&self) -> Stored;

    /// Whether the store takes the next write that it is asked to make. It
    /// is part of the store's state, like its contents, and a write may
    /// leave it changed.
    spec fn accepting(&self) -> bool;

    /// How many writes the store has been asked to make, refused ones
    /// included.
    spec fn writes(&self) -> nat;

    /// Reads the task filed under `global_id`. An unknown identifier is a
    /// normal outcome, not an error.
    fn get(&self, global_id: &String) -> (found: Option<Task>)
        ensures
            task_of(found) == stored(self.tasks(), global_id@),
            found matches Some(task) ==> task@.global_id == global_id@,
    ;

    /// Writes `task` under its identifier, whether or not one is filed there
    /// already. A refused write may or may not have reached the store.
    fn put(&mut self, task: Task) -> (outcome: Result<(), StoreError>)
        ensures
            outcome is Ok <==> old(self).accepting(),
            final(self).writes() == old(self).writes() + 1,
            outcome is Ok ==> final(self).tasks() == written(old(self).tasks(), task@),
            outcome is Err ==> maybe_written(old(self).tasks(), final(self).tasks(), task@),
    ;
}

/// A read is repeatable: two reads of one identifier from the same contents
/// find the same fields.
pub proof fn lemma_read_is_repeatable(
    tasks: Stored,
    global_id: Seq<char>,
    first: Option<TaskView>,
    second: Option<TaskView>,
)
    requires
        first == stored(tasks, global_id),
        second == stored(tasks, global_id),
    ensures
        first == second,
{
}

/// A write is read back, and leaves the tasks under other identifiers as
/// they were: nothing is ever deleted.
pub proof fn lemma_write_then_read(tasks: Stored, task: TaskView, global_id: Seq<char>)
    ensures
        stored(written(tasks, task), task.global_id) == Some(task),
        global_id != task.global_id ==> stored(written(tasks, task), global_id) == stored(
            tasks,
            global_id,
        ),
{
}

/// A write of a well-formed task keeps a store sound.
pub proof fn lemma_write_keeps_sound(tasks: Stored, task: TaskView)
    requires
        store_sound(tasks),
        task.well_formed(),
    ensures
        store_sound(written(tasks, task)),
{
}

} // verus!
