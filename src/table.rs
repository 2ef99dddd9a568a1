use vstd::prelude::*;
use crate::tasks::{
    Task, TaskView, TaskError, CreateTask, UpdateTask, UpdateView, created_view, updated_view,
    new_task, apply_update, check_found, deleted_message,
};

verus! {

/// The task table held in memory: rows in order of insertion, and the last id that
/// was ever assigned. Ids are assigned in increasing order and never reused.
///
/// This is a model of the stored table with the same decisions (it calls the same
/// `check_found`, `new_task` and `apply_update`); what is proved of it holds of this
/// model. A service that keeps its tasks in a database gets its ids from the
/// database's own counter, which this library does not see.
pub struct TaskTable {
    rows: Vec<Task>,
    last_id: u64,
}

/// A task table as a mathematical value.
pub struct TableView {
    pub rows: Seq<TaskView>,
    pub last_id: u64,
}

impl View for TaskTable {
    type V = TableView;

    closed spec fn view(&self) -> TableView {
        TableView { rows: self.rows@.map_values(|t: Task| t@), last_id: self.last_id }
    }
}

impl TableView {
    /// Ids rise with the position of the row, and none exceeds the last assigned id.
    pub open spec fn wf(self) -> bool {
        &&& forall|i: int, j: int| 0 <= i < j < self.rows.len() ==> #[trigger] self.rows[i].id < #[trigger] self.rows[j].id
        &&& forall|i: int| 0 <= i < self.rows.len() ==> 1 <= #[trigger] self.rows[i].id <= self.last_id
    }

    /// Some row has the id.
    pub open spec fn has_id(self, id: u64) -> bool {
        exists|i: int| 0 <= i < self.rows.len() && self.rows[i].id == id
    }

    /// Some row has the description.
    pub open spec fn has_description(self, d: Seq<char>) -> bool {
        exists|i: int| 0 <= i < self.rows.len() && self.rows[i].description == d
    }
}

/// A result that holds a task, as a mathematical value.
pub open spec fn result_view(r: Result<Task, TaskError>) -> Result<TaskView, TaskError> {
    match r {
        Ok(t) => Ok(t@),
        Err(e) => Err(e),
    }
}

/// What creating a task with description `d` at `now` does: a duplicate description
/// is refused, as is a new id once every id is used up; otherwise the task is added
/// under the id after the last one assigned.
pub open spec fn create_outcome(
    old: TableView,
    new: TableView,
    d: Seq<char>,
    now: chrono::NaiveDateTime,
    r: Result<TaskView, TaskError>,
) -> bool {
    if old.has_description(d) {
        r == Err::<TaskView, TaskError>(TaskError::Duplicate) && new == old
    } else if old.last_id == u64::MAX {
        r == Err::<TaskView, TaskError>(TaskError::Storage) && new == old
    } else {
        let t = created_view((old.last_id + 1) as u64, d, now);
        &&& r == Ok::<TaskView, TaskError>(t)
        &&& new.rows == old.rows.push(t)
        &&& new.last_id == old.last_id + 1
    }
}

/// What updating the task `id` with `u` at `now` does: an unknown id is refused;
/// otherwise that row is replaced by its updated form, which is returned.
pub open spec fn update_outcome(
    old: TableView,
    new: TableView,
    id: u64,
    u: UpdateView,
    now: chrono::NaiveDateTime,
    r: Result<TaskView, TaskError>,
) -> bool {
    if !old.has_id(id) {
        r == Err::<TaskView, TaskError>(TaskError::NotFound) && new == old
    } else {
        exists|i: int|
            0 <= i < old.rows.len() && old.rows[i].id == id && {
                let t = updated_view(old.rows[i], u, now);
                &&& r == Ok::<TaskView, TaskError>(t)
                &&& new.rows == old.rows.update(i, t)
                &&& new.last_id == old.last_id
            }
    }
}

/// What deleting the task `id` does: an unknown id is refused; otherwise that row is
/// removed and a confirmation returned.
pub open spec fn delete_outcome(
    old: TableView,
    new: TableView,
    id: u64,
    r: Result<Seq<char>, TaskError>,
) -> bool {
    if !old.has_id(id) {
        r == Err::<Seq<char>, TaskError>(TaskError::NotFound) && new == old
    } else {
        &&& r == Ok::<Seq<char>, TaskError>("Task deleted successfully."@)
        &&& new.last_id == old.last_id
        &&& exists|i: int| 0 <= i < old.rows.len() && old.rows[i].id == id && new.rows == old.rows.remove(i)
    }
}

impl TaskTable {
    /// An empty table in which no id was assigned yet.
    pub fn new() -> (r: TaskTable)
        ensures
            r@.rows.len() == 0,
            r@.last_id == 0,
            r@.wf(),
    {
        TaskTable { rows: Vec::new(), last_id: 0 }
    }

    /// The position of the row with the given id.
    fn find_id(&self, id: u64) -> (r: Option<usize>)
        ensures
            match r {
                Some(i) => i < self.rows@.len() && self.rows@[i as int].id == id,
                None => !self@.has_id(id),
            },
    {
        let mut i: usize = 0;
        while i < self.rows.len()
            invariant
                i <= self.rows@.len(),
                forall|k: int| 0 <= k < i ==> self.rows@[k].id != id,
            decreases self.rows@.len() - i,
        {
            if self.rows[i].id == id {
                return Some(i);
            }
            i = i + 1;
        }
        None
    }

    /// Whether some row has the description.
    fn contains_description(&self, d: &String) -> (r: bool)
        ensures
            r == self@.has_description(d@),
    {
        let mut i: usize = 0;
        while i < self.rows.len()
            invariant
                i <= self.rows@.len(),
                forall|k: int| 0 <= k < i ==> self.rows@[k].description@ != d@,
            decreases self.rows@.len() - i,
        {
            if self.rows[i].description == *d {
                assert(self@.rows[i as int].description == d@);
                return true;
            }
            i = i + 1;
        }
        proof {
            if self@.has_description(d@) {
                let k = choose|k: int| 0 <= k < self@.rows.len() && self@.rows[k].description == d@;
                assert(self.rows@[k].description@ == d@);
            }
        }
        false
    }

    /// All tasks, in order of creation.
    pub fn list(&self) -> (r: Vec<Task>)
        ensures
            r@.map_values(|t: Task| t@) == self@.rows,
    {
        let mut out: Vec<Task> = Vec::new();
        let mut i: usize = 0;
        while i < self.rows.len()
            invariant
                i <= self.rows@.len(),
                out@.len() == i,
                forall|k: int| 0 <= k < i ==> out@[k]@ == self.rows@[k]@,
            decreases self.rows@.len() - i,
        {
            out.push(self.rows[i].duplicate());
            i = i + 1;
        }
        assert(out@.map_values(|t: Task| t@) =~= self@.rows);
        out
    }

    /// Adds a task with the requested description, unless one with that description
    /// exists already.
    pub fn create(&mut self, payload: CreateTask, now: chrono::NaiveDateTime) -> (r: Result<Task, TaskError>)
        requires
            old(self)@.wf(),
        ensures
            final(self)@.wf(),
            create_outcome(old(self)@, final(self)@, payload.description@, now, result_view(r)),
    {
        if self.contains_description(&payload.description) {
            return Err(TaskError::Duplicate);
        }
        if self.last_id == u64::MAX {
            return Err(TaskError::Storage);
        }
        let id = self.last_id + 1;
        let t = new_task(id, payload, now);
        let out = t.duplicate();
        self.rows.push(t);
        self.last_id = id;
        assert(self@.rows =~= old(self)@.rows.push(out@));
        Ok(out)
    }

    /// Applies an update request to the task with the given id at `now`.
    pub fn update(&mut self, id: u64, payload: UpdateTask, now: chrono::NaiveDateTime) -> (r: Result<Task, TaskError>)
        requires
            old(self)@.wf(),
        ensures
            final(self)@.wf(),
            update_outcome(old(self)@, final(self)@, id, payload@, now, result_view(r)),
    {
        let found = self.find_id(id);
        if let Err(e) = check_found(found.is_some()) {
            return Err(e);
        }
        let i = found.unwrap();
        let t = apply_update(self.rows[i].duplicate(), payload, now);
        let out = t.duplicate();
        self.rows[i] = t;
        proof {
            let ov = old(self)@;
            assert(ov.rows[i as int].id == id);
            assert(self@.rows =~= ov.rows.update(i as int, out@));
            assert(out@ == updated_view(ov.rows[i as int], payload@, now));
            assert(forall|k: int| 0 <= k < self@.rows.len() ==> #[trigger] self@.rows[k].id == ov.rows[k].id);
            assert(0 <= i < ov.rows.len() && ov.rows[i as int].id == id && self@.rows == ov.rows.update(i as int, updated_view(ov.rows[i as int], payload@, now)));
        }
        Ok(out)
    }

    /// Removes the task with the given id.
    pub fn delete(&mut self, id: u64) -> (r: Result<String, TaskError>)
        requires
            old(self)@.wf(),
        ensures
            final(self)@.wf(),
            delete_outcome(
                old(self)@,
                final(self)@,
                id,
                match r {
                    Ok(m) => Ok(m@),
                    Err(e) => Err(e),
                },
            ),
    {
        let found = self.find_id(id);
        if let Err(e) = check_found(found.is_some()) {
            return Err(e);
        }
        let i = found.unwrap();
        self.rows.remove(i);
        proof {
            let ov = old(self)@;
            assert(self@.rows =~= ov.rows.remove(i as int));
            assert(ov.rows[i as int].id == id);
            assert(forall|k: int| 0 <= k < self@.rows.len() ==> #[trigger] self@.rows[k].id == if k < i { ov.rows[k].id } else { ov.rows[k + 1].id });
        }
        let m = deleted_message();
        Ok(m)
    }
}

/// Creating a task whose description no stored task has succeeds while ids remain,
/// and its id exceeds every id assigned before, that of any deleted task included.
pub proof fn lemma_create_unique_succeeds(
    before: TableView,
    after: TableView,
    d: Seq<char>,
    now: chrono::NaiveDateTime,
    r: Result<TaskView, TaskError>,
)
    requires
        before.wf(),
        !before.has_description(d),
        before.last_id < u64::MAX,
        create_outcome(before, after, d, now, r),
    ensures
        r is Ok,
        r->Ok_0.id > before.last_id,
        after.last_id == r->Ok_0.id,
        forall|i: int| 0 <= i < before.rows.len() ==> #[trigger] before.rows[i].id < r->Ok_0.id,
        after.wf(),
{
    assert forall|i: int, j: int| 0 <= i < j < after.rows.len() implies #[trigger] after.rows[i].id < #[trigger] after.rows[j].id by {
        if j == before.rows.len() {
            assert(after.rows[i] == before.rows[i]);
        } else {
            assert(after.rows[i] == before.rows[i] && after.rows[j] == before.rows[j]);
        }
    }
    assert forall|i: int| 0 <= i < after.rows.len() implies 1 <= #[trigger] after.rows[i].id <= after.last_id by {
        if i < before.rows.len() {
            assert(after.rows[i] == before.rows[i]);
        }
    }
}

/// Updating or deleting a task leaves the last assigned id as it was, so that it
/// stays the largest id ever assigned, that of any deleted task included.
pub proof fn lemma_last_id_kept(
    before: TableView,
    updated: TableView,
    deleted: TableView,
    id: u64,
    u: UpdateView,
    now: chrono::NaiveDateTime,
    ru: Result<TaskView, TaskError>,
    rd: Result<Seq<char>, TaskError>,
)
    requires
        update_outcome(before, updated, id, u, now, ru),
        delete_outcome(before, deleted, id, rd),
    ensures
        updated.last_id == before.last_id,
        deleted.last_id == before.last_id,
{
}

/// Creating a task whose description a stored task has fails as a duplicate and
/// leaves the table as it was.
pub proof fn lemma_create_duplicate_fails(
    before: TableView,
    after: TableView,
    d: Seq<char>,
    now: chrono::NaiveDateTime,
    r: Result<TaskView, TaskError>,
)
    requires
        before.has_description(d),
        create_outcome(before, after, d, now, r),
    ensures
        r == Err::<TaskView, TaskError>(TaskError::Duplicate),
        after == before,
{
}

/// Updating an id that no task has fails as not found and leaves the table as it was.
pub proof fn lemma_update_missing_fails(
    before: TableView,
    after: TableView,
    id: u64,
    u: UpdateView,
    now: chrono::NaiveDateTime,
    r: Result<TaskView, TaskError>,
)
    requires
        !before.has_id(id),
        update_outcome(before, after, id, u, now, r),
    ensures
        r == Err::<TaskView, TaskError>(TaskError::NotFound),
        after == before,
{
}

/// Updating only the description of a stored task succeeds, sets that description
/// and keeps the task's status, in the result and in the table.
pub proof fn lemma_update_description_keeps_status(
    before: TableView,
    after: TableView,
    id: u64,
    d: Seq<char>,
    now: chrono::NaiveDateTime,
    r: Result<TaskView, TaskError>,
)
    requires
        before.wf(),
        before.has_id(id),
        update_outcome(before, after, id, UpdateView { description: Some(d), status: None }, now, r),
    ensures
        r is Ok,
        r->Ok_0.description == d,
        forall|i: int| 0 <= i < before.rows.len() && #[trigger] before.rows[i].id == id
            ==> r->Ok_0.status == before.rows[i].status && after.rows[i].status == before.rows[i].status,
{
    let u = UpdateView { description: Some(d), status: None };
    let k = choose|k: int| 0 <= k < before.rows.len() && before.rows[k].id == id && {
        let t = updated_view(before.rows[k], u, now);
        &&& r == Ok::<TaskView, TaskError>(t)
        &&& after.rows == before.rows.update(k, t)
        &&& after.last_id == before.last_id
    };
    assert forall|i: int| 0 <= i < before.rows.len() && #[trigger] before.rows[i].id == id
        implies r->Ok_0.status == before.rows[i].status && after.rows[i].status == before.rows[i].status by {
        if i < k {
            assert(before.rows[i].id < before.rows[k].id);
        } else if i > k {
            assert(before.rows[k].id < before.rows[i].id);
        }
    }
}

/// Deleting a stored task succeeds and leaves no task with its id, so that a list no
/// longer holds it; deleting it again fails as not found.
pub proof fn lemma_delete_removes(
    before: TableView,
    mid: TableView,
    after: TableView,
    id: u64,
    r1: Result<Seq<char>, TaskError>,
    r2: Result<Seq<char>, TaskError>,
)
    requires
        before.wf(),
        before.has_id(id),
        delete_outcome(before, mid, id, r1),
        delete_outcome(mid, after, id, r2),
    ensures
        r1 is Ok,
        !mid.has_id(id),
        r2 == Err::<Seq<char>, TaskError>(TaskError::NotFound),
        after == mid,
{
    let k = choose|k: int| 0 <= k < before.rows.len() && before.rows[k].id == id && mid.rows == before.rows.remove(k);
    if mid.has_id(id) {
        let j = choose|j: int| 0 <= j < mid.rows.len() && mid.rows[j].id == id;
        if j < k {
            assert(mid.rows[j] == before.rows[j]);
            assert(before.rows[j].id < before.rows[k].id);
        } else {
            assert(mid.rows[j] == before.rows[j + 1]);
            assert(before.rows[k].id < before.rows[j + 1].id);
        }
    }
}

} // verus!
