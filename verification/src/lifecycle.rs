//! The lifecycle service: creating tasks and moving them from state to
//! state, as one read, one check and one write against the store.

use crate::model::ident::{
    draw_id_bits, id_text, lemma_id_text_injective, lemma_id_text_len, ID_DIGITS,
};
use crate::model::state::{legal_edge, terminal, TaskState};
use crate::model::task::{task_of, text_of, Task, TaskView};
use crate::repo::store::{
    maybe_written, store_sound, stored, written, StoreError, Stored, TaskRepository,
};
use vstd::prelude::*;

verus! {

/// Why a request to the lifecycle service failed. Each failure ends the
/// request: nothing is retried.
#[derive(Clone, Copy, Debug, PartialEq, Eq, Structural)]
pub enum LifecycleError {
    /// No task is filed under the identifier.
    NotFound,
    /// The move is no edge of the lifecycle graph, or a result is missing
    /// where one is needed, or given where none is allowed.
    InvalidTransition,
    /// The store refused to take the new task.
    CreationFailed,
    /// The store refused to take the moved task.
    UpdateFailed,
}

/// A result that carries an identifier, as plain values.
pub open spec fn id_of(outcome: Result<String, LifecycleError>) -> Result<
    Seq<char>,
    LifecycleError,
> {
    match outcome {
        Ok(global_id) => Ok(global_id@),
        Err(error) => Err(error),
    }
}

/// A result that carries a task, as plain values.
pub open spec fn plan_of(plan: Result<Task, LifecycleError>) -> Result<TaskView, LifecycleError> {
    match plan {
        Ok(task) => Ok(task@),
        Err(error) => Err(error),
    }
}

/// What is to be written when `found` came back from the store and a move to
/// `target` with `result_file` is asked for.
pub open spec fn planned(
    found: Option<TaskView>,
    target: TaskState,
    result_file: Option<Seq<char>>,
) -> Result<TaskView, LifecycleError> {
    match found {
        None => Err(LifecycleError::NotFound),
        Some(task) => if task.may_move(target, result_file) {
            Ok(task.moved(target, result_file))
        } else {
            Err(LifecycleError::InvalidTransition)
        },
    }
}

/// How a request to move the task under `global_id` ends, given the store's
/// contents and whether it takes the write: with the first failure in the
/// order unknown task, refused move, refused write, or else with the
/// identifier.
pub open spec fn advance_outcome(
    tasks: Stored,
    accepting: bool,
    global_id: Seq<char>,
    target: TaskState,
    result_file: Option<Seq<char>>,
) -> Result<Seq<char>, LifecycleError> {
    if !tasks.contains_key(global_id) {
        Err(LifecycleError::NotFound)
    } else if !tasks[global_id].may_move(target, result_file) {
        Err(LifecycleError::InvalidTransition)
    } else if !accepting {
        Err(LifecycleError::UpdateFailed)
    } else {
        Ok(global_id)
    }
}

/// The store's contents after the move was written.
pub open spec fn advance_effect(
    tasks: Stored,
    global_id: Seq<char>,
    target: TaskState,
    result_file: Option<Seq<char>>,
) -> Stored {
    written(tasks, tasks[global_id].moved(target, result_file))
}

/// What a request to move the task under `global_id` leaves in the store
/// `after` it, given the store `before` it.
///
/// A request that got as far as the write has asked the store for exactly
/// one write: if it succeeded, the moved task is written; if the store
/// refused, it may or may not be. Any other request has left the store
/// untouched.
pub open spec fn advance_leaves<R: TaskRepository>(
    before: R,
    after: R,
    global_id: Seq<char>,
    target: TaskState,
    result_file: Option<Seq<char>>,
) -> bool {
    match advance_outcome(before.tasks(), before.accepting(), global_id, target, result_file) {
        Ok(_) => {
            &&& after.tasks() == advance_effect(before.tasks(), global_id, target, result_file)
            &&& after.writes() == before.writes() + 1
        },
        Err(LifecycleError::UpdateFailed) => {
            &&& maybe_written(
                before.tasks(),
                after.tasks(),
                before.tasks()[global_id].moved(target, result_file),
            )
            &&& after.writes() == before.writes() + 1
        },
        Err(_) => after == before,
    }
}

/// What holds of a request to move the task under `global_id`: its `answer`
/// is `advance_outcome`, and the store is left as `advance_leaves` says.
pub open spec fn advanced<R: TaskRepository>(
    before: R,
    after: R,
    global_id: Seq<char>,
    target: TaskState,
    result_file: Option<Seq<char>>,
    answer: Result<String, LifecycleError>,
) -> bool {
    &&& id_of(answer) == advance_outcome(
        before.tasks(),
        before.accepting(),
        global_id,
        target,
        result_file,
    )
    &&& advance_leaves(before, after, global_id, target, result_file)
}

/// Decides what to write for a move to `target`: the task that was read,
/// moved, or the reason why nothing is written.
pub fn plan_advance(found: Option<Task>, target: TaskState, result_file: Option<String>) -> (plan:
    Result<Task, LifecycleError>)
    ensures
        plan_of(plan) == planned(task_of(found), target, text_of(result_file)),
{
    match found {
        None => Err(LifecycleError::NotFound),
        Some(task) => match task.transition_to(target, result_file) {
            Some(next) => Ok(next),
            None => Err(LifecycleError::InvalidTransition),
        },
    }
}

/// Ends a move: the identifier if the store took the write, `UpdateFailed`
/// if it did not.
pub fn conclude_update(global_id: String, outcome: Result<(), StoreError>) -> (answer: Result<
    String,
    LifecycleError,
>)
    ensures
        id_of(answer) == (match outcome {
            Ok(_) => Ok::<Seq<char>, LifecycleError>(global_id@),
            Err(_) => Err(LifecycleError::UpdateFailed),
        }),
{
    match outcome {
        Ok(_) => Ok(global_id),
        Err(_) => Err(LifecycleError::UpdateFailed),
    }
}

/// Ends a submission: the identifier if the store took the write,
/// `CreationFailed` if it did not.
pub fn conclude_creation(global_id: String, outcome: Result<(), StoreError>) -> (answer: Result<
    String,
    LifecycleError,
>)
    ensures
        id_of(answer) == (match outcome {
            Ok(_) => Ok::<Seq<char>, LifecycleError>(global_id@),
            Err(_) => Err(LifecycleError::CreationFailed),
        }),
{
    match outcome {
        Ok(_) => Ok(global_id),
        Err(_) => Err(LifecycleError::CreationFailed),
    }
}

/// Files a new task under the identifier that `id_bits` stands for.
///
/// The task starts in `Created` without a result. The store is asked once
/// to write it. The answer is the task's identifier, or `CreationFailed` if
/// the store refused the write.
pub fn submit_with_id_bits<R: TaskRepository>(
    repo: &mut R,
    user_id: String,
    task_type: String,
    source_file: String,
    id_bits: u128,
) -> (answer: Result<String, LifecycleError>)
    ensures
        id_of(answer) == (if old(repo).accepting() {
            Ok::<Seq<char>, LifecycleError>(id_text(id_bits))
        } else {
            Err(LifecycleError::CreationFailed)
        }),
        answer is Ok ==> final(repo).tasks() == written(
            old(repo).tasks(),
            TaskView::created(id_text(id_bits), user_id@, task_type@, source_file@),
        ),
        answer is Err ==> maybe_written(
            old(repo).tasks(),
            final(repo).tasks(),
            TaskView::created(id_text(id_bits), user_id@, task_type@, source_file@),
        ),
        final(repo).writes() == old(repo).writes() + 1,
{
    let task = Task::with_id_bits(user_id, task_type, source_file, id_bits);
    let global_id = task.get_global_id();
    let outcome = repo.put(task);
    conclude_creation(global_id, outcome)
}

/// Files a new task under a fresh random identifier.
///
/// The task starts in `Created` without a result. The store is asked once
/// to write it. The answer is the task's identifier, 32 characters long, or
/// `CreationFailed` if the store refused the write.
pub fn submit<R: TaskRepository>(
    repo: &mut R,
    user_id: String,
    task_type: String,
    source_file: String,
) -> (answer: Result<String, LifecycleError>)
    ensures
        answer is Ok <==> old(repo).accepting(),
        answer is Err ==> answer == Err::<String, LifecycleError>(LifecycleError::CreationFailed),
        answer matches Ok(global_id) ==> global_id@.len() == ID_DIGITS,
        final(repo).writes() == old(repo).writes() + 1,
        exists|id_bits: u128|
            {
                let task = TaskView::created(
                    #[trigger] id_text(id_bits),
                    user_id@,
                    task_type@,
                    source_file@,
                );
                &&& answer matches Ok(global_id) ==> global_id@ == task.global_id
                &&& answer is Ok ==> final(repo).tasks() == written(old(repo).tasks(), task)
                &&& answer is Err ==> maybe_written(old(repo).tasks(), final(repo).tasks(), task)
            },
{
    let id_bits = draw_id_bits();
    proof {
        lemma_id_text_len(id_bits);
    }
    submit_with_id_bits(repo, user_id, task_type, source_file, id_bits)
}

/// Moves the task under `global_id` to `target`, recording `result_file`.
///
/// The task is read, the move is checked against the lifecycle graph and
/// the result rule, and the moved task is written back. The answer is
/// `global_id`, or the first reason that stopped the request: `NotFound`,
/// then `InvalidTransition`, then `UpdateFailed`. Only a request that got as
/// far as the write can have changed the store, and it asked for that write
/// once: nothing is tried again.
pub fn advance<R: TaskRepository>(
    repo: &mut R,
    global_id: String,
    target: TaskState,
    result_file: Option<String>,
) -> (answer: Result<String, LifecycleError>)
    ensures
        advanced(*old(repo), *final(repo), global_id@, target, text_of(result_file), answer),
{
    let found = repo.get(&global_id);
    match plan_advance(found, target, result_file) {
        Err(error) => Err(error),
        Ok(next) => {
            let outcome = repo.put(next);
            conclude_update(global_id, outcome)
        },
    }
}

/// Starts, or resumes, the task under `global_id`: a move to `Started`
/// without a result.
pub fn start<R: TaskRepository>(repo: &mut R, global_id: String) -> (answer: Result<
    String,
    LifecycleError,
>)
    ensures
        advanced(*old(repo), *final(repo), global_id@, TaskState::Started, None, answer),
{
    advance(repo, global_id, TaskState::Started, None)
}

/// Pauses the task under `global_id`: a move to `Paused` without a result.
pub fn pause<R: TaskRepository>(repo: &mut R, global_id: String) -> (answer: Result<
    String,
    LifecycleError,
>)
    ensures
        advanced(*old(repo), *final(repo), global_id@, TaskState::Paused, None, answer),
{
    advance(repo, global_id, TaskState::Paused, None)
}

/// Fails the task under `global_id`: a move to `Failed` that records
/// `result_file`.
pub fn fail<R: TaskRepository>(repo: &mut R, global_id: String, result_file: String) -> (answer:
    Result<String, LifecycleError>)
    ensures
        advanced(
            *old(repo),
            *final(repo),
            global_id@,
            TaskState::Failed,
            Some(result_file@),
            answer,
        ),
{
    advance(repo, global_id, TaskState::Failed, Some(result_file))
}

/// Completes the task under `global_id`: a move to `Completed` that records
/// `result_file`.
pub fn complete<R: TaskRepository>(repo: &mut R, global_id: String, result_file: String) -> (answer:
    Result<String, LifecycleError>)
    ensures
        advanced(
            *old(repo),
            *final(repo),
            global_id@,
            TaskState::Completed,
            Some(result_file@),
            answer,
        ),
{
    advance(repo, global_id, TaskState::Completed, Some(result_file))
}

/// Two submissions whose identifiers were drawn as different numbers are
/// filed under different identifiers, and the store holds both.
pub proof fn lemma_distinct_draws_coexist(
    tasks: Stored,
    first: TaskView,
    second: TaskView,
    first_bits: u128,
    second_bits: u128,
)
    requires
        first_bits != second_bits,
        first.global_id == id_text(first_bits),
        second.global_id == id_text(second_bits),
    ensures
        first.global_id != second.global_id,
        stored(written(written(tasks, first), second), first.global_id) == Some(first),
        stored(written(written(tasks, first), second), second.global_id) == Some(second),
{
    if id_text(first_bits) == id_text(second_bits) {
        lemma_id_text_injective(first_bits, second_bits);
    }
}

/// A request for an identifier that the store does not hold ends in
/// `NotFound`, whatever the target and the result.
pub proof fn lemma_unknown_id_is_not_found(
    tasks: Stored,
    accepting: bool,
    global_id: Seq<char>,
    target: TaskState,
    result_file: Option<Seq<char>>,
)
    requires
        !tasks.contains_key(global_id),
    ensures
        advance_outcome(tasks, accepting, global_id, target, result_file) == Err::<
            Seq<char>,
            LifecycleError,
        >(LifecycleError::NotFound),
{
}

/// A request to move a stored task along a pair of states that is no edge of
/// the lifecycle graph ends in `InvalidTransition`.
pub proof fn lemma_illegal_edge_is_refused(
    tasks: Stored,
    accepting: bool,
    global_id: Seq<char>,
    target: TaskState,
    result_file: Option<Seq<char>>,
)
    requires
        tasks.contains_key(global_id),
        !legal_edge(tasks[global_id].state, target),
    ensures
        advance_outcome(tasks, accepting, global_id, target, result_file) == Err::<
            Seq<char>,
            LifecycleError,
        >(LifecycleError::InvalidTransition),
{
}

/// A request to move a stored task to `Completed` or `Failed` without a
/// result, or to any other state with one, ends in `InvalidTransition`.
pub proof fn lemma_result_rule_is_enforced(
    tasks: Stored,
    accepting: bool,
    global_id: Seq<char>,
    target: TaskState,
    result_file: Option<Seq<char>>,
)
    requires
        tasks.contains_key(global_id),
        terminal(target) != (result_file is Some),
    ensures
        advance_outcome(tasks, accepting, global_id, target, result_file) == Err::<
            Seq<char>,
            LifecycleError,
        >(LifecycleError::InvalidTransition),
{
}

/// A stored task in `Completed` or `Failed` stays as it is: every request to
/// move it ends in `InvalidTransition`.
pub proof fn lemma_terminal_task_is_never_moved(
    tasks: Stored,
    accepting: bool,
    global_id: Seq<char>,
    target: TaskState,
    result_file: Option<Seq<char>>,
)
    requires
        tasks.contains_key(global_id),
        terminal(tasks[global_id].state),
    ensures
        advance_outcome(tasks, accepting, global_id, target, result_file) == Err::<
            Seq<char>,
            LifecycleError,
        >(LifecycleError::InvalidTransition),
{
}

/// A request succeeds exactly when the task is stored, the move is an edge
/// of the graph, the result is there for a terminal target and only then, and
/// the store takes the write. It then answers with the identifier it was
/// given.
pub proof fn lemma_advance_succeeds_exactly_when_allowed(
    tasks: Stored,
    accepting: bool,
    global_id: Seq<char>,
    target: TaskState,
    result_file: Option<Seq<char>>,
)
    ensures
        advance_outcome(tasks, accepting, global_id, target, result_file) is Ok <==> {
            &&& tasks.contains_key(global_id)
            &&& legal_edge(tasks[global_id].state, target)
            &&& terminal(target) == (result_file is Some)
            &&& accepting
        },
        advance_outcome(tasks, accepting, global_id, target, result_file) is Ok
            ==> advance_outcome(tasks, accepting, global_id, target, result_file) == Ok::<
            Seq<char>,
            LifecycleError,
        >(global_id),
{
}

/// A move that was written changed the task under `global_id` along an edge
/// of the graph, kept its identity, and left every other task as it was.
pub proof fn lemma_advance_effect(
    tasks: Stored,
    global_id: Seq<char>,
    target: TaskState,
    result_file: Option<Seq<char>>,
    other: Seq<char>,
)
    requires
        store_sound(tasks),
        advance_outcome(tasks, true, global_id, target, result_file) is Ok,
    ensures
        ({
            let before = tasks[global_id];
            let after = advance_effect(tasks, global_id, target, result_file);
            &&& stored(after, global_id) == Some(before.moved(target, result_file))
            &&& legal_edge(before.state, after[global_id].state)
            &&& after[global_id].same_identity(before)
            &&& after[global_id].result_file == result_file
            &&& other != global_id ==> stored(after, other) == stored(tasks, other)
            &&& store_sound(after)
        }),
{
}

} // verus!
