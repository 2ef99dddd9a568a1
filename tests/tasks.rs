use chrono::{NaiveDate, NaiveDateTime};
use todo_tasks::{
    apply_update, check_found, check_unique, deleted_message, new_task, task_from_parts,
    task_from_row, CreateTask, DeleteTask, Operation, Status, TaskError, TaskTable, UpdateTask,
};

fn at(h: u32, m: u32, s: u32) -> NaiveDateTime {
    NaiveDate::from_ymd_opt(2024, 5, 17).unwrap().and_hms_opt(h, m, s).unwrap()
}

fn create(table: &mut TaskTable, d: &str, now: NaiveDateTime) -> Result<todo_tasks::Task, TaskError> {
    table.create(CreateTask { description: d.to_string() }, now)
}

#[test]
fn buy_milk_create_then_complete() {
    let mut table = TaskTable::new();
    let t = create(&mut table, "buy milk", at(9, 0, 0)).unwrap();
    assert_eq!(t.id, 1);
    assert_eq!(t.description, "buy milk");
    assert_eq!(t.status, Status::UNCOMPLETED);
    assert_eq!(t.status.as_str(), "UNCOMPLETED");
    assert_eq!(t.created_at, at(9, 0, 0));
    assert_eq!(t.updated_at, None);

    let u = table
        .update(1, UpdateTask { description: None, status: Some(Status::COMPLETED) }, at(10, 0, 0))
        .unwrap();
    assert_eq!(u.id, 1);
    assert_eq!(u.description, "buy milk");
    assert_eq!(u.status, Status::COMPLETED);
    assert_eq!(u.status.as_str(), "COMPLETED");
    assert_eq!(u.created_at, at(9, 0, 0));
    assert_eq!(u.updated_at, Some(at(10, 0, 0)));
    assert_eq!(table.list(), vec![u]);
}

#[test]
fn unique_creates_get_rising_ids() {
    let mut table = TaskTable::new();
    assert_eq!(create(&mut table, "a", at(1, 0, 0)).unwrap().id, 1);
    assert_eq!(create(&mut table, "b", at(1, 0, 0)).unwrap().id, 2);
    assert!(table.delete(2).is_ok());
    assert_eq!(create(&mut table, "c", at(1, 0, 0)).unwrap().id, 3);
    let ids: Vec<u64> = table.list().iter().map(|t| t.id).collect();
    assert_eq!(ids, vec![1, 3]);
}

#[test]
fn duplicate_create_fails_and_changes_nothing() {
    let mut table = TaskTable::new();
    create(&mut table, "buy milk", at(9, 0, 0)).unwrap();
    let before = table.list();
    assert_eq!(create(&mut table, "buy milk", at(9, 30, 0)), Err(TaskError::Duplicate));
    assert_eq!(table.list(), before);
    assert_eq!(create(&mut table, "buy bread", at(9, 30, 0)).unwrap().id, 2);
}

#[test]
fn update_of_missing_id_fails_and_changes_nothing() {
    let mut table = TaskTable::new();
    create(&mut table, "a", at(1, 0, 0)).unwrap();
    let before = table.list();
    let r = table.update(7, UpdateTask { description: Some("x".to_string()), status: None }, at(2, 0, 0));
    assert_eq!(r, Err(TaskError::NotFound));
    assert_eq!(table.list(), before);
}

#[test]
fn description_only_update_keeps_uncompleted() {
    let mut table = TaskTable::new();
    create(&mut table, "a", at(1, 0, 0)).unwrap();
    let u = table
        .update(1, UpdateTask { description: Some("b".to_string()), status: None }, at(2, 0, 0))
        .unwrap();
    assert_eq!(u.description, "b");
    assert_eq!(u.status, Status::UNCOMPLETED);
}

#[test]
fn update_without_status_keeps_status() {
    let mut table = TaskTable::new();
    create(&mut table, "a", at(1, 0, 0)).unwrap();
    table.update(1, UpdateTask { description: None, status: Some(Status::POSTPONE) }, at(2, 0, 0)).unwrap();
    let u = table
        .update(1, UpdateTask { description: Some("b".to_string()), status: None }, at(3, 0, 0))
        .unwrap();
    assert_eq!(u.description, "b");
    assert_eq!(u.status, Status::POSTPONE);
    assert_eq!(u.updated_at, Some(at(3, 0, 0)));
    assert_eq!(table.list()[0].status, Status::POSTPONE);
}

#[test]
fn description_only_update_keeps_completed() {
    let mut table = TaskTable::new();
    create(&mut table, "a", at(1, 0, 0)).unwrap();
    table.update(1, UpdateTask { description: None, status: Some(Status::COMPLETED) }, at(2, 0, 0)).unwrap();
    let u = table
        .update(1, UpdateTask { description: Some("c".to_string()), status: None }, at(3, 0, 0))
        .unwrap();
    assert_eq!(u.status, Status::COMPLETED);
    let e = table.update(1, UpdateTask { description: None, status: None }, at(4, 0, 0)).unwrap();
    assert_eq!((e.description.as_str(), e.status), ("c", Status::COMPLETED));
}

#[test]
fn update_may_repeat_a_description() {
    let mut table = TaskTable::new();
    create(&mut table, "a", at(1, 0, 0)).unwrap();
    create(&mut table, "b", at(1, 0, 0)).unwrap();
    let u = table.update(2, UpdateTask { description: Some("a".to_string()), status: None }, at(2, 0, 0));
    assert_eq!(u.unwrap().description, "a");
}

#[test]
fn delete_removes_and_second_delete_fails() {
    let mut table = TaskTable::new();
    create(&mut table, "a", at(1, 0, 0)).unwrap();
    create(&mut table, "b", at(1, 0, 0)).unwrap();
    assert_eq!(table.delete(1), Ok("Task deleted successfully.".to_string()));
    assert!(table.list().iter().all(|t| t.id != 1));
    assert_eq!(table.list().len(), 1);
    assert_eq!(table.delete(1), Err(TaskError::NotFound));
    assert_eq!(table.list().len(), 1);
}

#[test]
fn empty_table_lists_nothing() {
    let mut table = TaskTable::new();
    assert!(table.list().is_empty());
    assert_eq!(table.delete(1), Err(TaskError::NotFound));
}

#[test]
fn status_names_round_trip() {
    for s in [Status::UNCOMPLETED, Status::COMPLETED, Status::UPDATED, Status::CANCELED, Status::POSTPONE] {
        assert_eq!(Status::from_name(s.as_str()), Some(s));
        assert_eq!(Status::from_stored(s.as_str()), s);
    }
    assert_eq!(Status::CANCELED.as_str(), "CANCELED");
    assert_eq!(Status::from_name("DONE"), None);
    assert_eq!(Status::from_name("completed"), None);
    assert_eq!(Status::from_stored("DONE"), Status::UNCOMPLETED);
    assert_eq!(Status::from_stored(""), Status::UNCOMPLETED);
}

#[test]
fn error_codes_and_reasons() {
    assert_eq!(TaskError::Duplicate.status_code(), 400);
    assert_eq!(TaskError::NotFound.status_code(), 404);
    assert_eq!(TaskError::Storage.status_code(), 500);
    assert_eq!(TaskError::Duplicate.reason(Operation::Create), "Task with the same description already exists.");
    assert_eq!(TaskError::NotFound.reason(Operation::Update), "Task not found");
    assert_eq!(TaskError::NotFound.reason(Operation::Delete), "Task not found.");
    assert_eq!(
        format!("Failed to {} task: {}", Operation::Update.verb(), TaskError::NotFound.reason(Operation::Update)),
        "Failed to update task: Task not found"
    );
    assert_eq!(
        format!("Failed to {} task: {}", Operation::Delete.verb(), TaskError::NotFound.reason(Operation::Delete)),
        "Failed to delete task: Task not found."
    );
    assert_eq!(Operation::Create.verb(), "create");
    assert_eq!(deleted_message(), "Task deleted successfully.");
}

#[test]
fn create_and_lookup_checks() {
    assert_eq!(check_unique(0), Ok(()));
    assert_eq!(check_unique(1), Err(TaskError::Duplicate));
    assert_eq!(check_unique(3), Err(TaskError::Duplicate));
    assert_eq!(check_found(true), Ok(()));
    assert_eq!(check_found(false), Err(TaskError::NotFound));
    assert_eq!(DeleteTask { id: 4 }.id, 4);
}

#[test]
fn new_and_updated_tasks() {
    let t = new_task(5, CreateTask { description: "walk".to_string() }, at(8, 0, 0));
    assert_eq!((t.id, t.status, t.updated_at), (5, Status::UNCOMPLETED, None));
    let u = apply_update(t, UpdateTask { description: Some("run".to_string()), status: Some(Status::CANCELED) }, at(9, 0, 0));
    assert_eq!(u.id, 5);
    assert_eq!(u.description, "run");
    assert_eq!(u.status, Status::CANCELED);
    assert_eq!(u.created_at, at(8, 0, 0));
    assert_eq!(u.updated_at, Some(at(9, 0, 0)));
    let kept = apply_update(u, UpdateTask { description: None, status: None }, at(10, 0, 0));
    assert_eq!((kept.description.as_str(), kept.status), ("run", Status::CANCELED));
}

#[test]
fn stored_rows_fall_back_to_now() {
    let now = at(12, 0, 0);
    let t = task_from_parts(3, "x".to_string(), "WHATEVER", None, Some(None), now);
    assert_eq!(t.status, Status::UNCOMPLETED);
    assert_eq!(t.created_at, now);
    assert_eq!(t.updated_at, Some(now));
    let t = task_from_parts(3, "x".to_string(), "UPDATED", Some(at(1, 0, 0)), None, now);
    assert_eq!(t.status, Status::UPDATED);
    assert_eq!(t.created_at, at(1, 0, 0));
    assert_eq!(t.updated_at, None);
}

#[test]
fn stored_times_are_parsed() {
    let now = at(12, 0, 0);
    let t = task_from_row(
        2,
        "x".to_string(),
        "COMPLETED",
        "2024-05-17T01:02:03",
        Some("2024-05-17T04:05:06.5".to_string()),
        now,
    );
    assert_eq!(t.id, 2);
    assert_eq!(t.status, Status::COMPLETED);
    assert_eq!(t.created_at, at(1, 2, 3));
    let expected = NaiveDate::from_ymd_opt(2024, 5, 17).unwrap().and_hms_milli_opt(4, 5, 6, 500).unwrap();
    assert_eq!(t.updated_at, Some(expected));
    let bad = task_from_row(2, "x".to_string(), "COMPLETED", "yesterday", Some("soon".to_string()), now);
    assert_eq!(bad.created_at, now);
    assert_eq!(bad.updated_at, Some(now));
}
