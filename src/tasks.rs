use vstd::prelude::*;
use crate::status::{Status, stored_status};

verus! {

/// A calendar date and time without a zone, as chrono models it; tasks only carry it.
#[verifier::external_type_specification]
#[verifier::external_body]
pub struct ExNaiveDateTime(chrono::NaiveDateTime);

/// A stored task.
#[derive(Debug, PartialEq, Eq)]
pub struct Task {
    pub id: u64,
    pub description: String,
    pub status: Status,
    pub created_at: chrono::NaiveDateTime,
    pub updated_at: Option<chrono::NaiveDateTime>,
}

/// A task as a mathematical value.
pub struct TaskView {
    pub id: u64,
    pub description: Seq<char>,
    pub status: Status,
    pub created_at: chrono::NaiveDateTime,
    pub updated_at: Option<chrono::NaiveDateTime>,
}

impl View for Task {
    type V = TaskView;

    open spec fn view(&self) -> TaskView {
        TaskView {
            id: self.id,
            description: self.description@,
            status: self.status,
            created_at: self.created_at,
            updated_at: self.updated_at,
        }
    }
}

/// The body of a create request.
#[derive(Debug, Clone, PartialEq, Eq)]
pub struct CreateTask {
    pub description: String,
}

/// The body of an update request: only the supplied fields change.
#[derive(Debug, Clone, PartialEq, Eq)]
pub struct UpdateTask {
    pub description: Option<String>,
    pub status: Option<Status>,
}

/// An update request as a mathematical value.
pub struct UpdateView {
    pub description: Option<Seq<char>>,
    pub status: Option<Status>,
}

impl View for UpdateTask {
    type V = UpdateView;

    open spec fn view(&self) -> UpdateView {
        UpdateView {
            description: match self.description {
                Some(d) => Some(d@),
                None => None,
            },
            status: self.status,
        }
    }
}

/// The identifier of a task to delete.
#[derive(Debug, Clone, Copy, PartialEq, Eq, Structural)]
pub struct DeleteTask {
    pub id: u64,
}

/// Why an operation on the task list failed.
#[derive(Debug, Clone, Copy, PartialEq, Eq, Structural)]
pub enum TaskError {
    /// A task with the same description already exists.
    Duplicate,
    /// No task has the requested id.
    NotFound,
    /// The store could not complete the operation.
    Storage,
}

/// The task that creation stores under `id`: not completed, never updated.
pub open spec fn created_view(id: u64, description: Seq<char>, now: chrono::NaiveDateTime) -> TaskView {
    TaskView { id, description, status: Status::UNCOMPLETED, created_at: now, updated_at: None }
}

/// `t` after an update at `now`: a supplied description or status replaces the old
/// one, an omitted one is kept, and the update time is `now`.
pub open spec fn updated_view(t: TaskView, u: UpdateView, now: chrono::NaiveDateTime) -> TaskView {
    TaskView {
        id: t.id,
        description: match u.description {
            Some(d) => d,
            None => t.description,
        },
        status: match u.status {
            Some(s) => s,
            None => t.status,
        },
        created_at: t.created_at,
        updated_at: Some(now),
    }
}

/// A stored time read back: the parsed value, or `now` where it did not parse.
pub open spec fn stamp_or(parsed: Option<chrono::NaiveDateTime>, now: chrono::NaiveDateTime) -> chrono::NaiveDateTime {
    match parsed {
        Some(t) => t,
        None => now,
    }
}

/// The time that a stored text denotes, as chrono reads it; `None` where it does not parse.
pub uninterp spec fn parsed_stamp(text: Seq<char>) -> Option<chrono::NaiveDateTime>;

/// Relies on chrono's `FromStr` for `NaiveDateTime` (`%Y-%m-%dT%H:%M:%S%.f`): the result
/// depends on the text alone, and an empty text has no year and does not parse.
#[verifier::external_body]
fn parse_stamp(text: &str) -> (r: Option<chrono::NaiveDateTime>)
    ensures
        r == parsed_stamp(text@),
        text@.len() == 0 ==> r is None,
{
    text.parse::<chrono::NaiveDateTime>().ok()
}

impl Task {
    /// A task equal to this one, owning its own description.
    pub fn duplicate(&self) -> (r: Task)
        ensures
            r@ == self@,
    {
        Task {
            id: self.id,
            description: self.description.clone(),
            status: self.status,
            created_at: self.created_at,
            updated_at: self.updated_at,
        }
    }
}

/// An operation on the task list that a client requests.
#[derive(Debug, Clone, Copy, PartialEq, Eq, Structural)]
pub enum Operation {
    Create,
    Update,
    Delete,
}

impl Operation {
    /// The verb that names this operation in a reply.
    pub fn verb(&self) -> (r: &'static str)
        ensures
            r@ == match *self {
                Operation::Create => "create"@,
                Operation::Update => "update"@,
                Operation::Delete => "delete"@,
            },
    {
        match self {
            Operation::Create => "create",
            Operation::Update => "update",
            Operation::Delete => "delete",
        }
    }
}

impl TaskError {
    /// The HTTP status code that reports this error.
    pub fn status_code(&self) -> (r: u16)
        ensures
            r == match *self {
                TaskError::Duplicate => 400u16,
                TaskError::NotFound => 404u16,
                TaskError::Storage => 500u16,
            },
    {
        match self {
            TaskError::Duplicate => 400,
            TaskError::NotFound => 404,
            TaskError::Storage => 500,
        }
    }

    /// The text that explains this error to a client of the given operation: an
    /// update reports a missing task without a final period, a deletion with one.
    pub fn reason(&self, op: Operation) -> (r: &'static str)
        ensures
            r@ == match *self {
                TaskError::Duplicate => "Task with the same description already exists."@,
                TaskError::NotFound => if op == Operation::Update {
                    "Task not found"@
                } else {
                    "Task not found."@
                },
                TaskError::Storage => "The task store could not complete the operation."@,
            },
    {
        match self {
            TaskError::Duplicate => "Task with the same description already exists.",
            TaskError::NotFound => match op {
                Operation::Update => "Task not found",
                _ => "Task not found.",
            },
            TaskError::Storage => "The task store could not complete the operation.",
        }
    }
}

/// The message that a successful deletion returns.
pub fn deleted_message() -> (r: String)
    ensures
        r@ == "Task deleted successfully."@,
{
    "Task deleted successfully.".to_owned()
}

/// Creation is refused while `duplicates`, the number of stored tasks with the same
/// description, is positive.
pub fn check_unique(duplicates: i64) -> (r: Result<(), TaskError>)
    ensures
        r is Ok <==> duplicates <= 0,
        r is Err ==> r == Err::<(), TaskError>(TaskError::Duplicate),
{
    if duplicates > 0 {
        Err(TaskError::Duplicate)
    } else {
        Ok(())
    }
}

/// An update or a deletion goes on only where a task with the id was found.
pub fn check_found(found: bool) -> (r: Result<(), TaskError>)
    ensures
        r is Ok <==> found,
        r is Err ==> r == Err::<(), TaskError>(TaskError::NotFound),
{
    if found {
        Ok(())
    } else {
        Err(TaskError::NotFound)
    }
}

/// The task that a create request stores under `id` at `now`.
pub fn new_task(id: u64, payload: CreateTask, now: chrono::NaiveDateTime) -> (r: Task)
    ensures
        r@ == created_view(id, payload.description@, now),
{
    Task {
        id,
        description: payload.description,
        status: Status::UNCOMPLETED,
        created_at: now,
        updated_at: None,
    }
}

/// `existing` with an update request applied at `now`.
pub fn apply_update(existing: Task, payload: UpdateTask, now: chrono::NaiveDateTime) -> (r: Task)
    ensures
        r@ == updated_view(existing@, payload@, now),
{
    let description = match payload.description {
        Some(d) => d,
        None => existing.description,
    };
    let status = match payload.status {
        Some(s) => s,
        None => existing.status,
    };
    Task {
        id: existing.id,
        description,
        status,
        created_at: existing.created_at,
        updated_at: Some(now),
    }
}

/// A task built from a stored row whose times were already parsed: an unknown status
/// reads as `UNCOMPLETED`, and a time that did not parse reads as `now`.
pub fn task_from_parts(
    id: u64,
    description: String,
    status: &str,
    created_at: Option<chrono::NaiveDateTime>,
    updated_at: Option<Option<chrono::NaiveDateTime>>,
    now: chrono::NaiveDateTime,
) -> (r: Task)
    ensures
        r@ == (TaskView {
            id,
            description: description@,
            status: stored_status(status@),
            created_at: stamp_or(created_at, now),
            updated_at: match updated_at {
                Some(p) => Some(stamp_or(p, now)),
                None => None,
            },
        }),
{
    let created = match created_at {
        Some(t) => t,
        None => now,
    };
    let updated = match updated_at {
        Some(p) => match p {
            Some(t) => Some(t),
            None => Some(now),
        },
        None => None,
    };
    Task { id, description, status: Status::from_stored(status), created_at: created, updated_at: updated }
}

/// A task built from a stored row, parsing its stored times.
pub fn task_from_row(
    id: u64,
    description: String,
    status: &str,
    created_at: &str,
    updated_at: Option<String>,
    now: chrono::NaiveDateTime,
) -> (r: Task)
    ensures
        r.id == id,
        r.description@ == description@,
        r.status == stored_status(status@),
        r.created_at == stamp_or(parsed_stamp(created_at@), now),
        r.updated_at == match updated_at {
            Some(u) => Some(stamp_or(parsed_stamp(u@), now)),
            None => None,
        },
{
    let created = parse_stamp(created_at);
    let updated = match updated_at {
        Some(text) => Some(parse_stamp(text.as_str())),
        None => None,
    };
    task_from_parts(id, description, status, created, updated, now)
}

} // verus!
