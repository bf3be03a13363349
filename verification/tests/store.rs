use todo_store::db::Database;
use todo_store::task::{Task, TaskError};

fn fresh() -> Database {
    Database::new_in_memory().expect("in-memory store should open")
}

fn names_and_statuses(db: &Database) -> Vec<(String, bool)> {
    db.get_tasks()
        .expect("listing should succeed")
        .into_iter()
        .map(|t| (t.name, t.status))
        .collect()
}

#[test]
fn fresh_store_lists_empty() {
    let db = fresh();
    let tasks = db.get_tasks().expect("listing a fresh store is not an error");
    assert_eq!(tasks.len(), 0);
}

#[test]
fn add_then_list_shows_open_task() {
    let mut db = fresh();
    let task = Task::new(String::from("Buy milk"));
    assert_eq!(task.status, false);
    db.add_task(&task).expect("insert should succeed");
    let listed = names_and_statuses(&db);
    assert_eq!(listed, vec![(String::from("Buy milk"), false)]);
}

#[test]
fn add_from_input_trims_whitespace() {
    let mut db = fresh();
    db.add_from_input("  Buy milk \t\n").expect("trimmed input is valid");
    let listed = names_and_statuses(&db);
    assert_eq!(listed, vec![(String::from("Buy milk"), false)]);
}

#[test]
fn blank_input_never_creates_a_row() {
    let mut db = fresh();
    assert_eq!(db.add_from_input(""), Err(TaskError::ValidationError));
    assert_eq!(db.add_from_input("   \t \n "), Err(TaskError::ValidationError));
    assert_eq!(db.add_from_input("\u{a0}\u{2003}"), Err(TaskError::ValidationError));
    let tasks = db.get_tasks().expect("listing should succeed");
    assert_eq!(tasks.len(), 0);
}

#[test]
fn mark_complete_then_list_shows_complete() {
    let mut db = fresh();
    db.add_from_input("Buy milk").unwrap();
    db.mark_complete("Buy milk").expect("update should succeed");
    let listed = names_and_statuses(&db);
    assert_eq!(listed, vec![(String::from("Buy milk"), true)]);
}

#[test]
fn mark_complete_is_idempotent() {
    let mut db = fresh();
    db.add_from_input("Buy milk").unwrap();
    db.add_from_input("Write report").unwrap();
    db.mark_complete("Buy milk").unwrap();
    let once = names_and_statuses(&db);
    db.mark_complete("Buy milk").unwrap();
    let twice = names_and_statuses(&db);
    assert_eq!(once, twice);
    assert_eq!(twice, vec![
        (String::from("Buy milk"), true),
        (String::from("Write report"), false),
    ]);
}

#[test]
fn remove_then_list_no_longer_contains_name() {
    let mut db = fresh();
    db.add_from_input("Buy milk").unwrap();
    db.add_from_input("Write report").unwrap();
    db.remove_task("Buy milk").expect("delete should succeed");
    let listed = names_and_statuses(&db);
    assert!(listed.iter().all(|(name, _)| name != "Buy milk"));
    assert_eq!(listed, vec![(String::from("Write report"), false)]);
}

#[test]
fn remove_missing_name_is_a_silent_noop() {
    let mut db = fresh();
    db.add_from_input("Buy milk").unwrap();
    let before = names_and_statuses(&db);
    db.remove_task("No such task").expect("a missing name is not an error");
    assert_eq!(names_and_statuses(&db), before);
}

#[test]
fn mark_complete_missing_name_is_a_silent_noop() {
    let mut db = fresh();
    db.add_from_input("Buy milk").unwrap();
    let before = names_and_statuses(&db);
    db.mark_complete("No such task").expect("a missing name is not an error");
    assert_eq!(names_and_statuses(&db), before);
}

#[test]
fn name_matching_is_case_sensitive_and_exact() {
    let mut db = fresh();
    db.add_from_input("Buy milk").unwrap();
    db.remove_task("buy milk").unwrap();
    db.mark_complete("Buy milk ").unwrap();
    let listed = names_and_statuses(&db);
    assert_eq!(listed, vec![(String::from("Buy milk"), false)]);
}

#[test]
fn duplicate_names_are_accepted_and_both_affected() {
    let mut db = fresh();
    db.add_from_input("Buy milk").unwrap();
    db.add_from_input("Buy milk").unwrap();
    assert_eq!(names_and_statuses(&db).len(), 2);
    db.mark_complete("Buy milk").unwrap();
    assert_eq!(names_and_statuses(&db), vec![
        (String::from("Buy milk"), true),
        (String::from("Buy milk"), true),
    ]);
    db.remove_task("Buy milk").unwrap();
    assert_eq!(names_and_statuses(&db).len(), 0);
}

#[test]
fn full_scenario_add_complete_remove() {
    let mut db = fresh();
    db.add_from_input("Buy milk").unwrap();
    db.add_from_input("Write report").unwrap();
    assert_eq!(names_and_statuses(&db), vec![
        (String::from("Buy milk"), false),
        (String::from("Write report"), false),
    ]);
    db.mark_complete("Buy milk").unwrap();
    assert_eq!(names_and_statuses(&db), vec![
        (String::from("Buy milk"), true),
        (String::from("Write report"), false),
    ]);
    db.remove_task("Write report").unwrap();
    assert_eq!(names_and_statuses(&db), vec![(String::from("Buy milk"), true)]);
}
