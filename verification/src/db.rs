use vstd::prelude::*;
use vstd::string::StrSliceExecFns;
use crate::model::{completed, removed, TaskRec};
use crate::task::{Task, TaskError};
use crate::text::trimmed;

verus! {

#[verifier::external_type_specification]
#[verifier::external_body]
pub struct ExConnection(rusqlite::Connection);

#[verifier::external_type_specification]
#[verifier::external_body]
pub struct ExSqlError(rusqlite::Error);

/// The rows of the `tasks` table that a connection reaches, in the
/// store's scan order: each row's name and completion status.
pub uninterp spec fn db_rows(conn: rusqlite::Connection) -> Seq<TaskRec>;

/// The rows a listing stands for: each task's view, in order.
pub open spec fn tasks_view(ts: Seq<Task>) -> Seq<TaskRec> {
    ts.map_values(|t: Task| t@)
}

/// Relies on rusqlite's Connection::open and Connection::execute: opens
/// the store file and creates the `tasks` table if it is missing.
#[verifier::external_body]
fn open_and_init() -> (r: Result<rusqlite::Connection, rusqlite::Error>) {
    let conn = rusqlite::Connection::open("data/tasks.db")?;
    conn.execute(
        "CREATE TABLE IF NOT EXISTS tasks (id INTEGER PRIMARY KEY, name TEXT NOT NULL, status INTEGER NOT NULL DEFAULT 0)",
        (),
    )?;
    Ok(conn)
}

/// Relies on rusqlite's Connection::open_in_memory: a fresh in-memory
/// store holds no rows once the `tasks` table is created.
#[verifier::external_body]
fn open_memory_and_init() -> (r: Result<rusqlite::Connection, rusqlite::Error>)
    ensures
        r is Ok ==> db_rows(r->Ok_0) == Seq::<TaskRec>::empty(),
{
    let conn = rusqlite::Connection::open_in_memory()?;
    conn.execute(
        "CREATE TABLE IF NOT EXISTS tasks (id INTEGER PRIMARY KEY, name TEXT NOT NULL, status INTEGER NOT NULL DEFAULT 0)",
        (),
    )?;
    Ok(conn)
}

/// Relies on rusqlite's Connection::execute running a single INSERT:
/// on success the new row stands at the end of the table's scan order,
/// with the given name and status; a failed statement is rolled back,
/// leaving the table unchanged.
#[verifier::external_body]
fn exec_insert(conn: &mut rusqlite::Connection, name: &str, status: bool) -> (r: Result<
    (),
    rusqlite::Error,
>)
    ensures
        r is Ok ==> db_rows(*final(conn)) == db_rows(*old(conn)).push((name@, status)),
        r is Err ==> db_rows(*final(conn)) == db_rows(*old(conn)),
{
    conn.execute("INSERT INTO tasks (name, status) VALUES (?1, ?2)", (name, status))?;
    Ok(())
}

/// Relies on rusqlite's Connection::execute running a single DELETE:
/// on success every row whose name equals the given text is gone and
/// the remaining rows keep their order; a failed statement is rolled
/// back, leaving the table unchanged.
#[verifier::external_body]
fn exec_delete(conn: &mut rusqlite::Connection, name: &str) -> (r: Result<(), rusqlite::Error>)
    ensures
        r is Ok ==> db_rows(*final(conn)) == removed(db_rows(*old(conn)), name@),
        r is Err ==> db_rows(*final(conn)) == db_rows(*old(conn)),
{
    conn.execute("DELETE FROM tasks WHERE name = ?1", (name,))?;
    Ok(())
}

/// Relies on rusqlite's Connection::execute running a single UPDATE:
/// on success every row whose name equals the given text has status
/// complete, and no other row changes; a failed statement is rolled
/// back, leaving the table unchanged.
#[verifier::external_body]
fn exec_set_complete(conn: &mut rusqlite::Connection, name: &str) -> (r: Result<
    (),
    rusqlite::Error,
>)
    ensures
        r is Ok ==> db_rows(*final(conn)) == completed(db_rows(*old(conn)), name@),
        r is Err ==> db_rows(*final(conn)) == db_rows(*old(conn)),
{
    conn.execute("UPDATE tasks SET status = 1 WHERE name = ?1", (name,))?;
    Ok(())
}

/// Relies on rusqlite's Connection::prepare and Statement::query_map
/// running a single SELECT: returns each row's name and status in the
/// table's scan order.
#[verifier::external_body]
fn query_rows(conn: &rusqlite::Connection) -> (r: Result<Vec<Task>, rusqlite::Error>)
    ensures
        r is Ok ==> tasks_view(r->Ok_0@) == db_rows(*conn),
{
    let mut stmt = conn.prepare("SELECT name, status FROM tasks")?;
    let rows = stmt.query_map((), |row| Ok(Task { name: row.get(0)?, status: row.get(1)? }))?;
    rows.collect()
}

/// Durable access to the task table, hiding the storage engine behind
/// four operations. Each value owns the one live handle to its store,
/// as a single long-lived connection: the contracts assume no other
/// connection reads or writes the same file while it is open.
pub struct Database {
    conn: rusqlite::Connection,
}

impl View for Database {
    type V = Seq<TaskRec>;

    closed spec fn view(&self) -> Seq<TaskRec> {
        db_rows(self.conn)
    }
}

impl Database {
    /// Opens the file-backed store and makes sure the task table
    /// exists; creating the table again is a no-op.
    pub fn new() -> (r: Result<Database, TaskError>)
        ensures
            r is Err ==> r->Err_0 == TaskError::StorageUnavailable,
    {
        match open_and_init() {
            Ok(conn) => Ok(Database { conn }),
            Err(_) => Err(TaskError::StorageUnavailable),
        }
    }

    /// Opens a fresh in-memory store, which starts with no tasks.
    pub fn new_in_memory() -> (r: Result<Database, TaskError>)
        ensures
            r is Ok ==> r->Ok_0@ == Seq::<TaskRec>::empty(),
            r is Err ==> r->Err_0 == TaskError::StorageUnavailable,
    {
        match open_memory_and_init() {
            Ok(conn) => Ok(Database { conn }),
            Err(_) => Err(TaskError::StorageUnavailable),
        }
    }

    /// Inserts a new row with the task's name and status at the end of
    /// the listing order; duplicate names are accepted silently.
    pub fn add_task(&mut self, task: &Task) -> (r: Result<(), TaskError>)
        ensures
            r is Ok ==> final(self)@ == old(self)@.push(task@),
            r is Err ==> r->Err_0 == TaskError::StorageWriteError && final(self)@ == old(self)@,
    {
        match exec_insert(&mut self.conn, task.name.as_str(), task.status) {
            Ok(()) => Ok(()),
            Err(_) => Err(TaskError::StorageWriteError),
        }
    }

    /// Returns all tasks in the store's scan order; a store with no
    /// rows yields an empty listing, not an error.
    pub fn get_tasks(&self) -> (r: Result<Vec<Task>, TaskError>)
        ensures
            r is Ok ==> tasks_view(r->Ok_0@) == self@,
            r is Err ==> r->Err_0 == TaskError::StorageReadError,
    {
        match query_rows(&self.conn) {
            Ok(tasks) => Ok(tasks),
            Err(_) => Err(TaskError::StorageReadError),
        }
    }

    /// Deletes every row whose name matches exactly; a missing name is
    /// a silent no-op, not an error.
    pub fn remove_task(&mut self, task_name: &str) -> (r: Result<(), TaskError>)
        ensures
            r is Ok ==> final(self)@ == removed(old(self)@, task_name@),
            r is Err ==> r->Err_0 == TaskError::StorageWriteError && final(self)@ == old(self)@,
    {
        match exec_delete(&mut self.conn, task_name) {
            Ok(()) => Ok(()),
            Err(_) => Err(TaskError::StorageWriteError),
        }
    }

    /// Marks every row whose name matches exactly as complete; a
    /// missing name is a silent no-op, not an error.
    pub fn mark_complete(&mut self, task_name: &str) -> (r: Result<(), TaskError>)
        ensures
            r is Ok ==> final(self)@ == completed(old(self)@, task_name@),
            r is Err ==> r->Err_0 == TaskError::StorageWriteError && final(self)@ == old(self)@,
    {
        match exec_set_complete(&mut self.conn, task_name) {
            Ok(()) => Ok(()),
            Err(_) => Err(TaskError::StorageWriteError),
        }
    }

    /// Trims free-text input and, when a name remains, stores it as a
    /// new open task; blank input is rejected without touching the
    /// store, and a failed insert leaves it unchanged.
    pub fn add_from_input(&mut self, input: &str) -> (r: Result<(), TaskError>)
        ensures
            r is Ok ==> trimmed(input@).len() > 0 && final(self)@ == old(self)@.push(
                (trimmed(input@), false),
            ),
            r is Err ==> r->Err_0 == TaskError::ValidationError || r->Err_0
                == TaskError::StorageWriteError,
            (r is Err && r->Err_0 == TaskError::ValidationError) <==> trimmed(input@).len() == 0,
            r is Err ==> final(self)@ == old(self)@,
    {
        let name = crate::text::trim_input(input);
        if name.as_str().unicode_len() == 0 {
            Err(TaskError::ValidationError)
        } else {
            let task = Task::new(name);
            self.add_task(&task)
        }
    }
}

} // verus!
