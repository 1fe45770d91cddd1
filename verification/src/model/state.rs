//! The lifecycle states of a task and the edges between them.

use vstd::prelude::*;

verus! {

/// Where a task stands in its lifecycle.
#[derive(Clone, Copy, Debug, PartialEq, Eq, Structural)]
pub enum TaskState {
    Created,
    Started,
    Completed,
    Failed,
    Paused,
}

/// The transition table: every pair `(from, to)` that a task may move along.
pub open spec fn transition_table() -> Set<(TaskState, TaskState)> {
    set![
        (TaskState::Created, TaskState::Started),
        (TaskState::Started, TaskState::Completed),
        (TaskState::Started, TaskState::Failed),
        (TaskState::Started, TaskState::Paused),
        (TaskState::Paused, TaskState::Started),
    ]
}

/// `from -> to` is an edge of the lifecycle graph.
pub open spec fn legal_edge(from: TaskState, to: TaskState) -> bool {
    transition_table().contains((from, to))
}

/// A terminal state: `Completed` or `Failed`.
pub open spec fn terminal(state: TaskState) -> bool {
    state == TaskState::Completed || state == TaskState::Failed
}

impl TaskState {
    /// Whether a task in state `self` may move to `target`.
    pub fn can_transition_to(self, target: TaskState) -> (allowed: bool)
        ensures
            allowed == legal_edge(self, target),
    {
        match (self, target) {
            (TaskState::Created, TaskState::Started) => true,
            (TaskState::Started, TaskState::Completed) => true,
            (TaskState::Started, TaskState::Failed) => true,
            (TaskState::Started, TaskState::Paused) => true,
            (TaskState::Paused, TaskState::Started) => true,
            _ => false,
        }
    }

    /// Whether `self` is `Completed` or `Failed`.
    pub fn is_terminal(self) -> (ends: bool)
        ensures
            ends == terminal(self),
            ends == (forall|next: TaskState| !legal_edge(self, next)),
    {
        proof {
            lemma_terminal_states_have_no_exit(self);
        }
        match self {
            TaskState::Completed | TaskState::Failed => true,
            _ => false,
        }
    }
}

/// `Completed` and `Failed` are terminal: no edge leaves them, and every
/// other state has an edge that does.
pub proof fn lemma_terminal_states_have_no_exit(state: TaskState)
    ensures
        terminal(state) <==> (forall|next: TaskState| !legal_edge(state, next)),
{
    if !terminal(state) {
        let next = if state == TaskState::Started {
            TaskState::Paused
        } else {
            TaskState::Started
        };
        assert(legal_edge(state, next));
    }
}

/// No state has an edge to itself.
pub proof fn lemma_no_self_transition(state: TaskState)
    ensures
        !legal_edge(state, state),
{
}

} // verus!
