//! The trusted boundary to the embedded storage engine.
//!
//! Everything the store knows of SQLite it knows through the contracts in
//! this module: each function below runs one SQL statement through
//! `rusqlite` and states what that statement does to the task table. The
//! table is modelled by three names: [`table_of`], the rows a statement run
//! on the connection would see now; [`committed_of`], the rows as of the
//! last commit point; and [`in_tx`], whether an explicit transaction is
//! open.
//!
//! The model presumes that the database is reached through this one
//! connection alone: a single process owns the file and runs its operations
//! one at a time on one shared handle. Were a second connection opened on
//! the same file, writes through one would not show in the names of the
//! other.

use vstd::prelude::*;

use crate::error::StoreError;
use crate::model::empty_table;
use crate::model::sorted_newest_first;
use crate::model::tasks_match_table;
use crate::model::views_of;
use crate::model::with_category;
use crate::model::with_content;
use crate::model::with_done;
use crate::model::with_title;
use crate::task::Task;
use crate::task::TaskRow;
use crate::task::TaskView;

verus! {

#[verifier::external_type_specification]
#[verifier::external_body]
pub struct ExConnection(rusqlite::Connection);

/// The rows of the task table, keyed by id, as a statement run on the
/// connection sees them now — the pending changes of an open transaction
/// included. Empty while the table does not exist yet.
pub uninterp spec fn table_of(c: rusqlite::Connection) -> Map<Seq<char>, TaskView>;

/// The rows of the task table as of the last commit point: what rolling an
/// open transaction back would restore. Equal to [`table_of`] while no
/// transaction is open.
pub uninterp spec fn committed_of(c: rusqlite::Connection) -> Map<Seq<char>, TaskView>;

/// Whether an explicit transaction is open on the connection.
pub uninterp spec fn in_tx(c: rusqlite::Connection) -> bool;

/// A connection at rest between operations: no transaction is open, so the
/// visible rows are the committed rows.
pub open spec fn ready(c: rusqlite::Connection) -> bool {
    &&& !in_tx(c)
    &&& committed_of(c) == table_of(c)
}

/// Relies on rusqlite::Connection::open: opens or creates the database file
/// at `path`. A fresh connection has no open transaction, and the rows it
/// sees are the rows committed in the file.
#[verifier::external_body]
pub(crate) fn open_file(path: &str) -> (r: Result<rusqlite::Connection, StoreError>)
    ensures
        r matches Ok(c) ==> ready(c),
        r matches Err(e) ==> e is Storage,
{
    match rusqlite::Connection::open(path) {
        Ok(c) => Ok(c),
        Err(e) => Err(StoreError::Storage(e.to_string())),
    }
}

/// Relies on rusqlite::Connection::open_in_memory: a fresh in-memory
/// database holds no tables at all, so the task table is empty.
#[verifier::external_body]
pub(crate) fn open_memory() -> (r: Result<rusqlite::Connection, StoreError>)
    ensures
        r matches Ok(c) ==> ready(c) && table_of(c) == empty_table(),
        r matches Err(e) ==> e is Storage,
{
    match rusqlite::Connection::open_in_memory() {
        Ok(c) => Ok(c),
        Err(e) => Err(StoreError::Storage(e.to_string())),
    }
}

/// Relies on rusqlite::Connection::execute_batch: runs the foreign-key
/// pragma and one `CREATE TABLE IF NOT EXISTS` for the task table. Creating
/// the table, or finding it already there, changes no rows and opens no
/// transaction, whether the statements succeed or fail.
#[verifier::external_body]
pub(crate) fn create_schema(conn: &mut rusqlite::Connection) -> (r: Result<(), StoreError>)
    requires
        ready(*old(conn)),
    ensures
        ready(*final(conn)),
        table_of(*final(conn)) == table_of(*old(conn)),
        r matches Err(e) ==> e is Storage,
{
    let sql = "PRAGMA foreign_keys = ON; CREATE TABLE IF NOT EXISTS tasks (id TEXT PRIMARY KEY, title TEXT NOT NULL, category TEXT, content TEXT, done INTEGER NOT NULL DEFAULT 0, created_at TEXT NOT NULL);";
    match conn.execute_batch(sql) {
        Ok(()) => Ok(()),
        Err(e) => Err(StoreError::Storage(e.to_string())),
    }
}

/// Relies on rusqlite::Connection::execute_batch: runs `BEGIN`, opening an
/// explicit transaction. The visible rows do not change and become the rows
/// a rollback would restore. `BEGIN` violates no constraint, so it fails
/// only as a storage fault, and then no transaction is open.
#[verifier::external_body]
pub(crate) fn begin_tx(conn: &mut rusqlite::Connection) -> (r: Result<(), StoreError>)
    requires
        ready(*old(conn)),
    ensures
        table_of(*final(conn)) == table_of(*old(conn)),
        r is Ok ==> in_tx(*final(conn)) && committed_of(*final(conn)) == table_of(*old(conn)),
        r is Err ==> ready(*final(conn)),
        r matches Err(e) ==> e is Storage,
{
    match conn.execute_batch("BEGIN") {
        Ok(()) => Ok(()),
        Err(e) => Err(StoreError::Storage(e.to_string())),
    }
}

/// Relies on rusqlite::Connection::execute_batch: runs `COMMIT`. On success
/// the pending rows become the committed rows. On failure either the
/// transaction is still open and the rows are as they were, or the engine
/// has already rolled the transaction back and the committed rows show;
/// `COMMIT` violates no constraint, so it fails only as a storage fault.
#[verifier::external_body]
pub(crate) fn commit_tx(conn: &mut rusqlite::Connection) -> (r: Result<(), StoreError>)
    requires
        in_tx(*old(conn)),
    ensures
        r is Ok ==> ready(*final(conn)) && table_of(*final(conn)) == table_of(*old(conn)),
        r is Err ==> committed_of(*final(conn)) == committed_of(*old(conn)) && ((in_tx(
            *final(conn),
        ) && table_of(*final(conn)) == table_of(*old(conn))) || (ready(*final(conn)) && table_of(
            *final(conn),
        ) == committed_of(*old(conn)))),
        r matches Err(e) ==> e is Storage,
{
    match conn.execute_batch("COMMIT") {
        Ok(()) => Ok(()),
        Err(e) => Err(StoreError::Storage(e.to_string())),
    }
}

/// Relies on rusqlite::Connection::execute_batch: runs `ROLLBACK`, closing
/// any open transaction and restoring the committed rows. When the engine
/// has already rolled the transaction back of its own accord — some faults
/// do that — the statement itself fails, but the connection is then already
/// in that same state, so the result is dropped.
#[verifier::external_body]
pub(crate) fn rollback_tx(conn: &mut rusqlite::Connection)
    ensures
        ready(*final(conn)),
        table_of(*final(conn)) == committed_of(*old(conn)),
{
    let _ = conn.execute_batch("ROLLBACK");
}

/// Relies on rusqlite::Connection::execute: runs one `INSERT` binding all
/// six columns. With id the primary key, inserting an id the table already
/// holds violates the key constraint and fails; no other constraint can
/// fire, since every other bound column is non-null. On success exactly the
/// new row is added. On failure the statement's own changes are undone, but
/// some faults make the engine roll the whole open transaction back.
#[verifier::external_body]
pub(crate) fn insert_row(conn: &mut rusqlite::Connection, task: &Task) -> (r: Result<
    (),
    StoreError,
>)
    requires
        in_tx(*old(conn)),
    ensures
        r is Ok ==> !table_of(*old(conn)).contains_key(task@.id) && in_tx(*final(conn))
            && table_of(*final(conn)) == table_of(*old(conn)).insert(task@.id, task@)
            && committed_of(*final(conn)) == committed_of(*old(conn)),
        r is Err ==> committed_of(*final(conn)) == committed_of(*old(conn)) && ((in_tx(
            *final(conn),
        ) && table_of(*final(conn)) == table_of(*old(conn))) || (ready(*final(conn)) && table_of(
            *final(conn),
        ) == committed_of(*old(conn)))),
        table_of(*old(conn)).contains_key(task@.id) ==> r is Err,
        r matches Err(e) && e is DuplicateId ==> table_of(*old(conn)).contains_key(task@.id),
{
    let q = "INSERT INTO tasks (id, title, category, content, done, created_at) VALUES (?1, ?2, ?3, ?4, ?5, ?6)";
    let p = (&task.id, &task.title, &task.category, &task.content, task.done, &task.created_at);
    match conn.execute(q, p) {
        Ok(_) => Ok(()),
        Err(e) if e.sqlite_error_code() == Some(rusqlite::ErrorCode::ConstraintViolation) => {
            Err(StoreError::DuplicateId)
        },
        Err(e) => Err(StoreError::Storage(e.to_string())),
    }
}

/// Relies on rusqlite::Connection::execute: runs one `DELETE ... WHERE id = ?`.
/// An id the table does not hold matches zero rows, and the delete still
/// succeeds. A `DELETE` on this table violates no constraint, so it fails
/// only as a storage fault; then the statement's own changes are undone, but
/// some faults make the engine roll the whole open transaction back.
#[verifier::external_body]
pub(crate) fn delete_row(conn: &mut rusqlite::Connection, id: &str) -> (r: Result<(), StoreError>)
    requires
        in_tx(*old(conn)),
    ensures
        r is Ok ==> in_tx(*final(conn)) && table_of(*final(conn)) == table_of(*old(conn)).remove(
            id@,
        ) && committed_of(*final(conn)) == committed_of(*old(conn)),
        r is Err ==> committed_of(*final(conn)) == committed_of(*old(conn)) && ((in_tx(
            *final(conn),
        ) && table_of(*final(conn)) == table_of(*old(conn))) || (ready(*final(conn)) && table_of(
            *final(conn),
        ) == committed_of(*old(conn)))),
        r matches Err(e) ==> e is Storage,
{
    match conn.execute("DELETE FROM tasks WHERE id = ?1", (id,)) {
        Ok(_) => Ok(()),
        Err(e) => Err(StoreError::Storage(e.to_string())),
    }
}

/// Relies on rusqlite::Connection::execute: runs one `DELETE FROM tasks`,
/// emptying the table. It violates no constraint, so it fails only as a
/// storage fault; then the statement's own changes are undone, but some
/// faults make the engine roll the whole open transaction back.
#[verifier::external_body]
pub(crate) fn clear_rows(conn: &mut rusqlite::Connection) -> (r: Result<(), StoreError>)
    requires
        in_tx(*old(conn)),
    ensures
        r is Ok ==> in_tx(*final(conn)) && table_of(*final(conn)) == empty_table() && committed_of(
            *final(conn),
        ) == committed_of(*old(conn)),
        r is Err ==> committed_of(*final(conn)) == committed_of(*old(conn)) && ((in_tx(
            *final(conn),
        ) && table_of(*final(conn)) == table_of(*old(conn))) || (ready(*final(conn)) && table_of(
            *final(conn),
        ) == committed_of(*old(conn)))),
        r matches Err(e) ==> e is Storage,
{
    match conn.execute("DELETE FROM tasks", ()) {
        Ok(_) => Ok(()),
        Err(e) => Err(StoreError::Storage(e.to_string())),
    }
}

/// Relies on rusqlite::Connection::execute: runs one
/// `UPDATE tasks SET title = ? WHERE id = ?`. When the id matches a row only
/// that row's title changes; otherwise zero rows match and nothing changes.
/// The bound title is non-null and the key is not touched, so no constraint
/// can fire: the statement fails only as a storage fault; then the
/// statement's own changes are undone, but some faults make the engine roll
/// the whole open transaction back.
#[verifier::external_body]
pub(crate) fn update_title(conn: &mut rusqlite::Connection, id: &str, x: &str) -> (r: Result<
    (),
    StoreError,
>)
    requires
        in_tx(*old(conn)),
    ensures
        r is Ok ==> in_tx(*final(conn)) && table_of(*final(conn)) == with_title(
            table_of(*old(conn)),
            id@,
            x@,
        ) && committed_of(*final(conn)) == committed_of(*old(conn)),
        r is Err ==> committed_of(*final(conn)) == committed_of(*old(conn)) && ((in_tx(
            *final(conn),
        ) && table_of(*final(conn)) == table_of(*old(conn))) || (ready(*final(conn)) && table_of(
            *final(conn),
        ) == committed_of(*old(conn)))),
        r matches Err(e) ==> e is Storage,
{
    match conn.execute("UPDATE tasks SET title = ?1 WHERE id = ?2", (x, id)) {
        Ok(_) => Ok(()),
        Err(e) => Err(StoreError::Storage(e.to_string())),
    }
}

/// Relies on rusqlite::Connection::execute: runs one
/// `UPDATE tasks SET category = ? WHERE id = ?`; otherwise as
/// [`update_title`].
#[verifier::external_body]
pub(crate) fn update_category(conn: &mut rusqlite::Connection, id: &str, x: &str) -> (r: Result<
    (),
    StoreError,
>)
    requires
        in_tx(*old(conn)),
    ensures
        r is Ok ==> in_tx(*final(conn)) && table_of(*final(conn)) == with_category(
            table_of(*old(conn)),
            id@,
            x@,
        ) && committed_of(*final(conn)) == committed_of(*old(conn)),
        r is Err ==> committed_of(*final(conn)) == committed_of(*old(conn)) && ((in_tx(
            *final(conn),
        ) && table_of(*final(conn)) == table_of(*old(conn))) || (ready(*final(conn)) && table_of(
            *final(conn),
        ) == committed_of(*old(conn)))),
        r matches Err(e) ==> e is Storage,
{
    match conn.execute("UPDATE tasks SET category = ?1 WHERE id = ?2", (x, id)) {
        Ok(_) => Ok(()),
        Err(e) => Err(StoreError::Storage(e.to_string())),
    }
}

/// Relies on rusqlite::Connection::execute: runs one
/// `UPDATE tasks SET content = ? WHERE id = ?`; otherwise as
/// [`update_title`].
#[verifier::external_body]
pub(crate) fn update_content(conn: &mut rusqlite::Connection, id: &str, x: &str) -> (r: Result<
    (),
    StoreError,
>)
    requires
        in_tx(*old(conn)),
    ensures
        r is Ok ==> in_tx(*final(conn)) && table_of(*final(conn)) == with_content(
            table_of(*old(conn)),
            id@,
            x@,
        ) && committed_of(*final(conn)) == committed_of(*old(conn)),
        r is Err ==> committed_of(*final(conn)) == committed_of(*old(conn)) && ((in_tx(
            *final(conn),
        ) && table_of(*final(conn)) == table_of(*old(conn))) || (ready(*final(conn)) && table_of(
            *final(conn),
        ) == committed_of(*old(conn)))),
        r matches Err(e) ==> e is Storage,
{
    match conn.execute("UPDATE tasks SET content = ?1 WHERE id = ?2", (x, id)) {
        Ok(_) => Ok(()),
        Err(e) => Err(StoreError::Storage(e.to_string())),
    }
}

/// Relies on rusqlite::Connection::execute: runs one
/// `UPDATE tasks SET done = ? WHERE id = ?`, binding the flag as the
/// integers 1 and 0; otherwise as [`update_title`].
#[verifier::external_body]
pub(crate) fn update_done(conn: &mut rusqlite::Connection, id: &str, x: bool) -> (r: Result<
    (),
    StoreError,
>)
    requires
        in_tx(*old(conn)),
    ensures
        r is Ok ==> in_tx(*final(conn)) && table_of(*final(conn)) == with_done(
            table_of(*old(conn)),
            id@,
            x,
        ) && committed_of(*final(conn)) == committed_of(*old(conn)),
        r is Err ==> committed_of(*final(conn)) == committed_of(*old(conn)) && ((in_tx(
            *final(conn),
        ) && table_of(*final(conn)) == table_of(*old(conn))) || (ready(*final(conn)) && table_of(
            *final(conn),
        ) == committed_of(*old(conn)))),
        r matches Err(e) ==> e is Storage,
{
    match conn.execute("UPDATE tasks SET done = ?1 WHERE id = ?2", (x, id)) {
        Ok(_) => Ok(()),
        Err(e) => Err(StoreError::Storage(e.to_string())),
    }
}

/// Relies on rusqlite::Connection::prepare and Statement::query_map: runs
/// one `SELECT` of all six columns ordered by `created_at` descending — the
/// engine compares the text bytewise over UTF-8, which is the characters'
/// own order. Each row is built by the verified [`TaskRow::new`]; together
/// the rows list exactly the table's contents, one row per id.
#[verifier::external_body]
pub(crate) fn select_rows(conn: &rusqlite::Connection) -> (r: Result<Vec<TaskRow>, StoreError>)
    ensures
        r matches Ok(rows) ==> tasks_match_table(views_of(rows@), table_of(*conn))
            && sorted_newest_first(views_of(rows@)),
        r matches Err(e) ==> e is Storage,
{
    let q = "SELECT id, title, category, content, done, created_at FROM tasks ORDER BY created_at DESC";
    let run = || -> rusqlite::Result<Vec<TaskRow>> {
        let mut stmt = conn.prepare(q)?;
        let rows = stmt.query_map([], |r| {
            Ok(TaskRow::new(r.get(0)?, r.get(1)?, r.get(2)?, r.get(3)?, r.get(4)?, r.get(5)?))
        })?;
        rows.collect()
    };
    match run() {
        Ok(v) => Ok(v),
        Err(e) => Err(StoreError::Storage(e.to_string())),
    }
}

} // verus!
