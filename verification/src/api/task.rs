//! Requests on tasks, their answers, and the signals that failures become.

use crate::lifecycle::{advance, advance_leaves, advance_outcome, id_of, submit, LifecycleError};
use crate::model::ident::{id_text, ID_DIGITS};
use crate::model::state::TaskState;
use crate::model::task::{Task, TaskView};
use crate::repo::store::{maybe_written, stored, written, TaskRepository};
use vstd::prelude::*;
use vstd::string::StringExecFns;

verus! {

/// Names a task by its identifier.
#[derive(Debug)]
pub struct TaskIdentifier {
    task_global_id: String,
}

impl View for TaskIdentifier {
    type V = Seq<char>;

    closed spec fn view(&self) -> Seq<char> {
        self.task_global_id@
    }
}

impl TaskIdentifier {
    /// Names the task filed under `task_global_id`.
    pub fn new(task_global_id: String) -> (identifier: TaskIdentifier)
        ensures
            identifier@ == task_global_id@,
    {
        TaskIdentifier { task_global_id }
    }

    /// The identifier.
    pub fn task_global_id(&self) -> (task_global_id: &String)
        ensures
            task_global_id@ == self@,
    {
        &self.task_global_id
    }

    /// Gives up the identifier.
    pub fn into_task_global_id(self) -> (task_global_id: String)
        ensures
            task_global_id@ == self@,
    {
        self.task_global_id
    }
}

/// The body of a request to fail or complete a task: where its result lies.
#[derive(Debug)]
pub struct TaskCompletionRequest {
    result_file: String,
}

impl View for TaskCompletionRequest {
    type V = Seq<char>;

    closed spec fn view(&self) -> Seq<char> {
        self.result_file@
    }
}

impl TaskCompletionRequest {
    /// A request that records `result_file`.
    pub fn new(result_file: String) -> (request: TaskCompletionRequest)
        ensures
            request@ == result_file@,
    {
        TaskCompletionRequest { result_file }
    }

    /// The result reference.
    pub fn result_file(&self) -> (result_file: &String)
        ensures
            result_file@ == self@,
    {
        &self.result_file
    }
}

/// The fields of a submission, as plain values.
pub struct SubmitTaskRequestView {
    pub user_id: Seq<char>,
    pub task_type: Seq<char>,
    pub source_file: Seq<char>,
}

impl SubmitTaskRequestView {
    /// All three fields are filled in.
    pub open spec fn filled_in(self) -> bool {
        self.user_id.len() > 0 && self.task_type.len() > 0 && self.source_file.len() > 0
    }
}

/// The body of a request to submit a task.
#[derive(Debug)]
pub struct SubmitTaskRequest {
    user_id: String,
    task_type: String,
    source_file: String,
}

impl View for SubmitTaskRequest {
    type V = SubmitTaskRequestView;

    closed spec fn view(&self) -> SubmitTaskRequestView {
        SubmitTaskRequestView {
            user_id: self.user_id@,
            task_type: self.task_type@,
            source_file: self.source_file@,
        }
    }
}

impl SubmitTaskRequest {
    /// A submission by `user_id` of work of kind `task_type` on `source_file`.
    pub fn new(user_id: String, task_type: String, source_file: String) -> (request:
        SubmitTaskRequest)
        ensures
            request@ == (SubmitTaskRequestView {
                user_id: user_id@,
                task_type: task_type@,
                source_file: source_file@,
            }),
    {
        SubmitTaskRequest { user_id, task_type, source_file }
    }

    /// The submitting principal.
    pub fn user_id(&self) -> (user_id: &String)
        ensures
            user_id@ == self@.user_id,
    {
        &self.user_id
    }

    /// The kind of work.
    pub fn task_type(&self) -> (task_type: &String)
        ensures
            task_type@ == self@.task_type,
    {
        &self.task_type
    }

    /// The input reference.
    pub fn source_file(&self) -> (source_file: &String)
        ensures
            source_file@ == self@.source_file,
    {
        &self.source_file
    }
}

/// What a client is told when a request fails.
#[derive(Clone, Copy, Debug, PartialEq, Eq, Structural)]
pub enum TaskError {
    /// The task does not exist.
    TaskNotFound,
    /// The store refused the changed task.
    TaskUpdateFailure,
    /// The store refused the new task.
    TaskCreationFailure,
    /// The request is malformed, or asks for a move that is not allowed.
    BadTaskRequest,
}

/// The signal that stands for each failure of the lifecycle service: "not
/// found" for an unknown task, "bad request" for a move that is not allowed,
/// "failed dependency" for a store that refused a write.
pub open spec fn signal_of(error: LifecycleError) -> TaskError {
    match error {
        LifecycleError::NotFound => TaskError::TaskNotFound,
        LifecycleError::InvalidTransition => TaskError::BadTaskRequest,
        LifecycleError::CreationFailed => TaskError::TaskCreationFailure,
        LifecycleError::UpdateFailed => TaskError::TaskUpdateFailure,
    }
}

/// The HTTP status that carries each signal.
pub open spec fn status_of(error: TaskError) -> u16 {
    match error {
        TaskError::TaskNotFound => 404,
        TaskError::TaskUpdateFailure => 424,
        TaskError::TaskCreationFailure => 424,
        TaskError::BadTaskRequest => 400,
    }
}

/// The text that names each signal in a response.
pub open spec fn message_of(error: TaskError) -> Seq<char> {
    match error {
        TaskError::TaskNotFound => "TaskNotFound"@,
        TaskError::TaskUpdateFailure => "TaskUpdateFailure"@,
        TaskError::TaskCreationFailure => "TaskCreationFailure"@,
        TaskError::BadTaskRequest => "BadTaskRequest"@,
    }
}

impl TaskError {
    /// The signal for a failure of the lifecycle service.
    pub fn from_lifecycle(error: LifecycleError) -> (signal: TaskError)
        ensures
            signal == signal_of(error),
    {
        match error {
            LifecycleError::NotFound => TaskError::TaskNotFound,
            LifecycleError::InvalidTransition => TaskError::BadTaskRequest,
            LifecycleError::CreationFailed => TaskError::TaskCreationFailure,
            LifecycleError::UpdateFailed => TaskError::TaskUpdateFailure,
        }
    }

    /// The HTTP status of the response: 404 for "not found", 400 for "bad
    /// request", 424 for "failed dependency".
    pub fn status_code(&self) -> (code: u16)
        ensures
            code == status_of(*self),
    {
        match self {
            TaskError::TaskNotFound => 404,
            TaskError::TaskUpdateFailure => 424,
            TaskError::TaskCreationFailure => 424,
            TaskError::BadTaskRequest => 400,
        }
    }

    /// The body of the response: the name of the signal.
    pub fn message(&self) -> (text: String)
        ensures
            text@ == message_of(*self),
    {
        match self {
            TaskError::TaskNotFound => String::from_str("TaskNotFound"),
            TaskError::TaskUpdateFailure => String::from_str("TaskUpdateFailure"),
            TaskError::TaskCreationFailure => String::from_str("TaskCreationFailure"),
            TaskError::BadTaskRequest => String::from_str("BadTaskRequest"),
        }
    }
}

/// An answer that carries a task identifier, as plain values.
pub open spec fn answer_of(answer: Result<TaskIdentifier, TaskError>) -> Result<
    Seq<char>,
    TaskError,
> {
    match answer {
        Ok(identifier) => Ok(identifier@),
        Err(error) => Err(error),
    }
}

/// An answer that carries a task, as plain values.
pub open spec fn read_of(answer: Result<Task, TaskError>) -> Result<TaskView, TaskError> {
    match answer {
        Ok(task) => Ok(task@),
        Err(error) => Err(error),
    }
}

/// What the client is told for an outcome of the lifecycle service.
pub open spec fn signalled(outcome: Result<Seq<char>, LifecycleError>) -> Result<
    Seq<char>,
    TaskError,
> {
    match outcome {
        Ok(global_id) => Ok(global_id),
        Err(error) => Err(signal_of(error)),
    }
}

/// What holds of a request to move the task under `global_id`: the client
/// is told what the lifecycle service decided, and the store is left as the
/// service leaves it.
pub open spec fn moved_on_request<R: TaskRepository>(
    before: R,
    after: R,
    global_id: Seq<char>,
    target: TaskState,
    result_file: Option<Seq<char>>,
    answer: Result<TaskIdentifier, TaskError>,
) -> bool {
    &&& answer_of(answer) == signalled(
        advance_outcome(before.tasks(), before.accepting(), global_id, target, result_file),
    )
    &&& advance_leaves(before, after, global_id, target, result_file)
}

/// Turns the lifecycle service's answer into the client's.
pub fn respond(outcome: Result<String, LifecycleError>) -> (answer: Result<
    TaskIdentifier,
    TaskError,
>)
    ensures
        answer_of(answer) == signalled(id_of(outcome)),
{
    match outcome {
        Ok(global_id) => Ok(TaskIdentifier::new(global_id)),
        Err(error) => Err(TaskError::from_lifecycle(error)),
    }
}

/// Reads the task that `task_identifier` names, or tells that there is none.
pub fn get_task<R: TaskRepository>(task_identifier: TaskIdentifier, repo: &R) -> (answer: Result<
    Task,
    TaskError,
>)
    ensures
        read_of(answer) == (match stored(repo.tasks(), task_identifier@) {
            Some(task) => Ok::<TaskView, TaskError>(task),
            None => Err(TaskError::TaskNotFound),
        }),
{
    match repo.get(task_identifier.task_global_id()) {
        Some(task) => Ok(task),
        None => Err(TaskError::TaskNotFound),
    }
}

/// Submits a task.
///
/// A request with an empty field is a bad request, and the store is not
/// touched. Any other is filed as a new task in `Created` under a fresh
/// identifier, which is the answer; if the store refuses it, the answer is
/// `TaskCreationFailure`.
pub fn submit_task<R: TaskRepository>(repo: &mut R, request: SubmitTaskRequest) -> (answer: Result<
    TaskIdentifier,
    TaskError,
>)
    ensures
        !request@.filled_in() ==> answer_of(answer) == Err::<Seq<char>, TaskError>(
            TaskError::BadTaskRequest,
        ) && *final(repo) == *old(repo),
        request@.filled_in() ==> {
            &&& answer is Ok <==> old(repo).accepting()
            &&& answer matches Err(error) ==> error == TaskError::TaskCreationFailure
            &&& answer matches Ok(identifier) ==> identifier@.len() == ID_DIGITS
            &&& final(repo).writes() == old(repo).writes() + 1
            &&& exists|id_bits: u128|
                {
                    let task = TaskView::created(
                        #[trigger] id_text(id_bits),
                        request@.user_id,
                        request@.task_type,
                        request@.source_file,
                    );
                    &&& answer matches Ok(identifier) ==> identifier@ == task.global_id
                    &&& answer is Ok ==> final(repo).tasks() == written(old(repo).tasks(), task)
                    &&& answer is Err ==> maybe_written(
                        old(repo).tasks(),
                        final(repo).tasks(),
                        task,
                    )
                }
        },
{
    if request.user_id.as_str().is_empty() || request.task_type.as_str().is_empty()
        || request.source_file.as_str().is_empty() {
        return Err(TaskError::BadTaskRequest);
    }
    respond(submit(repo, request.user_id, request.task_type, request.source_file))
}

/// Starts, or resumes, the task that `task_identifier` names.
pub fn start_task<R: TaskRepository>(repo: &mut R, task_identifier: TaskIdentifier) -> (answer:
    Result<TaskIdentifier, TaskError>)
    ensures
        moved_on_request(
            *old(repo),
            *final(repo),
            task_identifier@,
            TaskState::Started,
            None,
            answer,
        ),
{
    respond(advance(repo, task_identifier.into_task_global_id(), TaskState::Started, None))
}

/// Pauses the task that `task_identifier` names.
pub fn pause_task<R: TaskRepository>(repo: &mut R, task_identifier: TaskIdentifier) -> (answer:
    Result<TaskIdentifier, TaskError>)
    ensures
        moved_on_request(
            *old(repo),
            *final(repo),
            task_identifier@,
            TaskState::Paused,
            None,
            answer,
        ),
{
    respond(advance(repo, task_identifier.into_task_global_id(), TaskState::Paused, None))
}

/// Fails the task that `task_identifier` names and records the result that
/// `request` gives. A request without a result reference is a bad request,
/// and the store is not touched.
pub fn fail_task<R: TaskRepository>(
    repo: &mut R,
    task_identifier: TaskIdentifier,
    request: TaskCompletionRequest,
) -> (answer: Result<TaskIdentifier, TaskError>)
    ensures
        if request@.len() == 0 {
            answer_of(answer) == Err::<Seq<char>, TaskError>(TaskError::BadTaskRequest)
                && *final(repo) == *old(repo)
        } else {
            moved_on_request(
                *old(repo),
                *final(repo),
                task_identifier@,
                TaskState::Failed,
                Some(request@),
                answer,
            )
        },
{
    if request.result_file.as_str().is_empty() {
        return Err(TaskError::BadTaskRequest);
    }
    respond(
        advance(
            repo,
            task_identifier.into_task_global_id(),
            TaskState::Failed,
            Some(request.result_file),
        ),
    )
}

/// Completes the task that `task_identifier` names and records the result
/// that `request` gives. A request without a result reference is a bad
/// request, and the store is not touched.
pub fn complete_task<R: TaskRepository>(
    repo: &mut R,
    task_identifier: TaskIdentifier,
    request: TaskCompletionRequest,
) -> (answer: Result<TaskIdentifier, TaskError>)
    ensures
        if request@.len() == 0 {
            answer_of(answer) == Err::<Seq<char>, TaskError>(TaskError::BadTaskRequest)
                && *final(repo) == *old(repo)
        } else {
            moved_on_request(
                *old(repo),
                *final(repo),
                task_identifier@,
                TaskState::Completed,
                Some(request@),
                answer,
            )
        },
{
    if request.result_file.as_str().is_empty() {
        return Err(TaskError::BadTaskRequest);
    }
    respond(
        advance(
            repo,
            task_identifier.into_task_global_id(),
            TaskState::Completed,
            Some(request.result_file),
        ),
    )
}

} // verus!
