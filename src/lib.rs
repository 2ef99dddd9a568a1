use vstd::prelude::*;

pub mod status;
pub mod tasks;
pub mod table;

pub use status::Status;
pub use table::TaskTable;
pub use tasks::{
    apply_update, check_found, check_unique, deleted_message, new_task, task_from_parts,
    task_from_row, CreateTask, DeleteTask, Operation, Task, TaskError, UpdateTask,
};

verus! {

} // verus!
