//! The task: identity, descriptive fields, optional result and state.

use crate::model::ident::{draw_id_bits, encode_id, id_text, lemma_id_text_len, ID_DIGITS};
use crate::model::state::{legal_edge, terminal, TaskState};
use vstd::prelude::*;

verus! {

/// A task as plain values: what contracts say about a [`Task`].
pub struct TaskView {
    pub global_id: Seq<char>,
    pub user_id: Seq<char>,
    pub task_type: Seq<char>,
    pub source_file: Seq<char>,
    pub result_file: Option<Seq<char>>,
    pub state: TaskState,
}

impl TaskView {
    /// The identifier is not empty, and a result is recorded exactly in the
    /// terminal states.
    pub open spec fn well_formed(self) -> bool {
        &&& self.global_id.len() > 0
        &&& (self.result_file is Some <==> terminal(self.state))
    }

    /// The task that a submission creates under `global_id`.
    pub open spec fn created(
        global_id: Seq<char>,
        user_id: Seq<char>,
        task_type: Seq<char>,
        source_file: Seq<char>,
    ) -> TaskView {
        TaskView {
            global_id,
            user_id,
            task_type,
            source_file,
            result_file: None,
            state: TaskState::Created,
        }
    }

    /// The move to `target` is an edge of the lifecycle graph, and a result
    /// comes with it exactly when `target` is a terminal state.
    pub open spec fn may_move(self, target: TaskState, result_file: Option<Seq<char>>) -> bool {
        &&& legal_edge(self.state, target)
        &&& (result_file is Some <==> terminal(target))
    }

    /// The task after the move: new state and result, everything else kept.
    pub open spec fn moved(self, target: TaskState, result_file: Option<Seq<char>>) -> TaskView {
        TaskView { state: target, result_file, ..self }
    }

    /// Same identity: the four write-once fields agree.
    pub open spec fn same_identity(self, other: TaskView) -> bool {
        &&& self.global_id == other.global_id
        &&& self.user_id == other.user_id
        &&& self.task_type == other.task_type
        &&& self.source_file == other.source_file
    }
}

/// An optional string as an optional sequence of characters.
pub open spec fn text_of(value: Option<String>) -> Option<Seq<char>> {
    match value {
        Some(text) => Some(text@),
        None => None,
    }
}

/// The view of an optional task.
pub open spec fn task_of(value: Option<Task>) -> Option<TaskView> {
    match value {
        Some(task) => Some(task@),
        None => None,
    }
}

/// A unit of trackable work. Its fields change only through
/// [`Task::transition_to`], so every task is well formed.
#[derive(Debug)]
pub struct Task {
    global_id: String,
    user_id: String,
    task_type: String,
    source_file: String,
    result_file: Option<String>,
    state: TaskState,
}

impl View for Task {
    type V = TaskView;

    closed spec fn view(&self) -> TaskView {
        TaskView {
            global_id: self.global_id@,
            user_id: self.user_id@,
            task_type: self.task_type@,
            source_file: self.source_file@,
            result_file: text_of(self.result_file),
            state: self.state,
        }
    }
}

impl Clone for Task {
    fn clone(&self) -> (copy: Self)
        ensures
            copy@ == self@,
    {
        proof {
            use_type_invariant(self);
        }
        let result_file = match &self.result_file {
            Some(text) => Some(text.clone()),
            None => None,
        };
        Task {
            global_id: self.global_id.clone(),
            user_id: self.user_id.clone(),
            task_type: self.task_type.clone(),
            source_file: self.source_file.clone(),
            result_file,
            state: self.state,
        }
    }
}

impl Task {
    #[verifier::type_invariant]
    spec fn sound(&self) -> bool {
        self@.well_formed()
    }

    /// A new task in state `Created`, without a result, under a fresh random
    /// identifier.
    pub fn new(user_id: String, task_type: String, source_file: String) -> (task: Task)
        ensures
            exists|bits: u128|
                task@ == TaskView::created(
                    #[trigger] id_text(bits),
                    user_id@,
                    task_type@,
                    source_file@,
                ),
            task@.global_id.len() == ID_DIGITS,
            task@.user_id == user_id@,
            task@.task_type == task_type@,
            task@.source_file == source_file@,
            task@.result_file is None,
            task@.state == TaskState::Created,
    {
        let id_bits = draw_id_bits();
        proof {
            lemma_id_text_len(id_bits);
        }
        Task::with_id_bits(user_id, task_type, source_file, id_bits)
    }

    /// A new task in state `Created`, without a result, whose identifier is
    /// the 128-bit number `id_bits` written out.
    pub fn with_id_bits(
        user_id: String,
        task_type: String,
        source_file: String,
        id_bits: u128,
    ) -> (task: Task)
        ensures
            task@ == TaskView::created(id_text(id_bits), user_id@, task_type@, source_file@),
    {
        let global_id = encode_id(id_bits);
        Task {
            global_id,
            user_id,
            task_type,
            source_file,
            result_file: None,
            state: TaskState::Created,
        }
    }

    /// Rebuilds a task from stored fields. The fields are taken as they are
    /// if they make a well-formed task, and refused otherwise.
    pub fn from_parts(
        global_id: String,
        user_id: String,
        task_type: String,
        source_file: String,
        state: TaskState,
        result_file: Option<String>,
    ) -> (rebuilt: Option<Task>)
        ensures
            rebuilt is Some <==> (TaskView {
                global_id: global_id@,
                user_id: user_id@,
                task_type: task_type@,
                source_file: source_file@,
                result_file: text_of(result_file),
                state,
            }).well_formed(),
            rebuilt matches Some(task) ==> task@ == (TaskView {
                global_id: global_id@,
                user_id: user_id@,
                task_type: task_type@,
                source_file: source_file@,
                result_file: text_of(result_file),
                state,
            }),
    {
        if global_id.as_str().is_empty() || result_file.is_some() != state.is_terminal() {
            None
        } else {
            Some(Task { global_id, user_id, task_type, source_file, result_file, state })
        }
    }

    /// The task's identifier.
    pub fn get_global_id(&self) -> (id: String)
        ensures
            id@ == self@.global_id,
            id@.len() > 0,
    {
        proof {
            use_type_invariant(self);
        }
        self.global_id.clone()
    }

    /// The task's identifier, borrowed.
    pub fn global_id(&self) -> (id: &String)
        ensures
            id@ == self@.global_id,
            id@.len() > 0,
    {
        proof {
            use_type_invariant(self);
        }
        &self.global_id
    }

    /// Who submitted the task.
    pub fn user_id(&self) -> (user_id: &String)
        ensures
            user_id@ == self@.user_id,
    {
        &self.user_id
    }

    /// The kind of work.
    pub fn task_type(&self) -> (task_type: &String)
        ensures
            task_type@ == self@.task_type,
    {
        &self.task_type
    }

    /// Where the input lies.
    pub fn source_file(&self) -> (source_file: &String)
        ensures
            source_file@ == self@.source_file,
    {
        &self.source_file
    }

    /// Where the result lies: recorded exactly when the task is `Completed`
    /// or `Failed`.
    pub fn result_file(&self) -> (result_file: Option<&String>)
        ensures
            result_file is Some <==> terminal(self@.state),
            match result_file {
                Some(text) => self@.result_file == Some(text@),
                None => self@.result_file is None,
            },
    {
        proof {
            use_type_invariant(self);
        }
        self.result_file.as_ref()
    }

    /// Where the task stands in its lifecycle.
    pub fn state(&self) -> (state: TaskState)
        ensures
            state == self@.state,
            self@.well_formed(),
    {
        proof {
            use_type_invariant(self);
        }
        self.state
    }

    /// Whether the task may move from its current state to `state`.
    pub fn can_transition_to(&self, state: &TaskState) -> (allowed: bool)
        ensures
            allowed == legal_edge(self@.state, *state),
    {
        self.state.can_transition_to(*state)
    }

    /// Moves the task to `target`, recording `result_file`.
    ///
    /// The move is made when `target` can be reached from the current state
    /// and `result_file` is present for `Completed` and `Failed`, absent for
    /// every other target. Otherwise nothing is returned.
    pub fn transition_to(self, target: TaskState, result_file: Option<String>) -> (next: Option<
        Task,
    >)
        ensures
            next is Some <==> self@.may_move(target, text_of(result_file)),
            next matches Some(task) ==> task@ == self@.moved(target, text_of(result_file)),
    {
        proof {
            use_type_invariant(&self);
        }
        if !self.state.can_transition_to(target) || result_file.is_some() != target.is_terminal() {
            None
        } else {
            Some(
                Task {
                    global_id: self.global_id,
                    user_id: self.user_id,
                    task_type: self.task_type,
                    source_file: self.source_file,
                    result_file,
                    state: target,
                },
            )
        }
    }
}

/// A move keeps a task well formed.
pub proof fn lemma_move_keeps_well_formed(
    task: TaskView,
    target: TaskState,
    result_file: Option<Seq<char>>,
)
    requires
        task.well_formed(),
        task.may_move(target, result_file),
    ensures
        task.moved(target, result_file).well_formed(),
{
}

/// A move never changes the identity of a task: identifier, user, type and
/// source are written once.
pub proof fn lemma_move_keeps_identity(
    task: TaskView,
    target: TaskState,
    result_file: Option<Seq<char>>,
)
    ensures
        task.moved(target, result_file).same_identity(task),
{
}

/// Pausing a started task and starting it again are both allowed, and bring
/// back the task as it was: the cycle can be run any number of times.
pub proof fn lemma_pause_and_resume_restore(task: TaskView)
    requires
        task.well_formed(),
        task.state == TaskState::Started,
    ensures
        task.may_move(TaskState::Paused, None),
        task.moved(TaskState::Paused, None).may_move(TaskState::Started, None),
        task.moved(TaskState::Paused, None).moved(TaskState::Started, None) == task,
{
}

/// A task in a terminal state cannot be moved, whatever the target and result.
pub proof fn lemma_terminal_task_is_immutable(
    task: TaskView,
    target: TaskState,
    result_file: Option<Seq<char>>,
)
    requires
        terminal(task.state),
    ensures
        !task.may_move(target, result_file),
{
}

} // verus!
