//! The store's operations, verified against the table model.
//!
//! Every mutation runs inside an explicit transaction: it begins one, runs
//! its statements, and commits, rolling back on any failure. A failed
//! operation therefore leaves the table exactly as it was.

use vstd::prelude::*;

use crate::conn::begin_tx;
use crate::conn::clear_rows;
use crate::conn::commit_tx;
use crate::conn::committed_of;
use crate::conn::create_schema;
use crate::conn::delete_row;
use crate::conn::in_tx;
use crate::conn::insert_row;
use crate::conn::open_file;
use crate::conn::open_memory;
use crate::conn::ready;
use crate::conn::rollback_tx;
use crate::conn::select_rows;
use crate::conn::table_of;
use crate::conn::update_category;
use crate::conn::update_content;
use crate::conn::update_done;
use crate::conn::update_title;
use crate::error::StoreError;
use crate::model::apply_patch;
use crate::model::batch_map;
use crate::model::distinct_ids;
use crate::model::empty_table;
use crate::model::lemma_batch_map_contains;
use crate::model::sorted_newest_first;
use crate::model::tasks_match_table;
use crate::model::views_of;
use crate::task::opt_str_view;
use crate::task::Task;
use crate::task::TaskView;

verus! {

/// Opens (or creates) the database file at `path` and makes sure the task
/// table exists. On success the connection is at rest and sees whatever the
/// file already held.
pub fn init_db(path: &str) -> (r: Result<rusqlite::Connection, StoreError>)
    ensures
        r matches Ok(c) ==> ready(c),
        r matches Err(e) ==> e is Storage,
{
    let mut conn = open_file(path)?;
    create_schema(&mut conn)?;
    Ok(conn)
}

/// Opens a fresh in-memory store with the task table created and empty.
pub fn init_db_in_memory() -> (r: Result<rusqlite::Connection, StoreError>)
    ensures
        r matches Ok(c) ==> ready(c) && table_of(c) == empty_table(),
        r matches Err(e) ==> e is Storage,
{
    let mut conn = open_memory()?;
    create_schema(&mut conn)?;
    Ok(conn)
}

/// Returns every stored task, newest `created_at` first: the result lists
/// exactly the table's rows, one per id, in descending timestamp order.
pub fn load_tasks(conn: &rusqlite::Connection) -> (r: Result<Vec<Task>, StoreError>)
    ensures
        r matches Ok(v) ==> tasks_match_table(views_of(v@), table_of(*conn))
            && sorted_newest_first(views_of(v@)),
        r matches Err(e) ==> e is Storage,
{
    let rows = select_rows(conn)?;
    let mut out: Vec<Task> = Vec::new();
    let mut i: usize = 0;
    while i < rows.len()
        invariant
            i <= rows@.len(),
            out@.len() == i,
            forall|j: int| 0 <= j < i ==> (#[trigger] out@[j])@ == rows@[j]@,
        decreases rows@.len() - i,
    {
        let t = Task::from_row(&rows[i]);
        out.push(t);
        i += 1;
    }
    proof {
        assert(views_of(out@) =~= views_of(rows@));
    }
    Ok(out)
}

/// Inserts `task` as a new row. The id must be new: when the table already
/// holds it, the insert fails with [`StoreError::DuplicateId`] and the table
/// is unchanged.
pub fn add_task(conn: &mut rusqlite::Connection, task: &Task) -> (r: Result<(), StoreError>)
    requires
        ready(*old(conn)),
    ensures
        ready(*final(conn)),
        r is Ok ==> !table_of(*old(conn)).contains_key(task@.id) && table_of(*final(conn))
            == table_of(*old(conn)).insert(task@.id, task@),
        r is Err ==> table_of(*final(conn)) == table_of(*old(conn)),
        table_of(*old(conn)).contains_key(task@.id) ==> r is Err,
        r matches Err(e) && e is DuplicateId ==> table_of(*old(conn)).contains_key(task@.id),
{
    begin_tx(conn)?;
    match insert_row(conn, task) {
        Ok(()) => {},
        Err(e) => {
            rollback_tx(conn);
            return Err(e);
        },
    }
    match commit_tx(conn) {
        Ok(()) => Ok(()),
        Err(e) => {
            rollback_tx(conn);
            Err(e)
        },
    }
}

/// Applies a partial update to the row at `id`: each supplied field is set,
/// each absent one left untouched; `id` and `created_at` are never changed.
/// With no fields supplied, or with an id the table does not hold, the call
/// succeeds and changes nothing.
pub fn update_task(
    conn: &mut rusqlite::Connection,
    id: &str,
    title: Option<&str>,
    category: Option<&str>,
    content: Option<&str>,
    done: Option<bool>,
) -> (r: Result<(), StoreError>)
    requires
        ready(*old(conn)),
    ensures
        ready(*final(conn)),
        r is Ok ==> table_of(*final(conn)) == apply_patch(
            table_of(*old(conn)),
            id@,
            opt_str_view(title),
            opt_str_view(category),
            opt_str_view(content),
            done,
        ),
        r is Err ==> table_of(*final(conn)) == table_of(*old(conn)),
        r matches Err(e) ==> e is Storage,
        title is None && category is None && content is None && done is None ==> r is Ok,
{
    if title.is_none() && category.is_none() && content.is_none() && done.is_none() {
        return Ok(());
    }
    begin_tx(conn)?;
    if let Some(x) = title {
        match update_title(conn, id, x) {
            Ok(()) => {},
            Err(e) => {
                rollback_tx(conn);
                return Err(e);
            },
        }
    }
    if let Some(x) = category {
        match update_category(conn, id, x) {
            Ok(()) => {},
            Err(e) => {
                rollback_tx(conn);
                return Err(e);
            },
        }
    }
    if let Some(x) = content {
        match update_content(conn, id, x) {
            Ok(()) => {},
            Err(e) => {
                rollback_tx(conn);
                return Err(e);
            },
        }
    }
    if let Some(x) = done {
        match update_done(conn, id, x) {
            Ok(()) => {},
            Err(e) => {
                rollback_tx(conn);
                return Err(e);
            },
        }
    }
    match commit_tx(conn) {
        Ok(()) => Ok(()),
        Err(e) => {
            rollback_tx(conn);
            Err(e)
        },
    }
}

/// Removes the row at `id`. An id the table does not hold is not an error:
/// the call succeeds and changes nothing.
pub fn remove_task(conn: &mut rusqlite::Connection, id: &str) -> (r: Result<(), StoreError>)
    requires
        ready(*old(conn)),
    ensures
        ready(*final(conn)),
        r is Ok ==> table_of(*final(conn)) == table_of(*old(conn)).remove(id@),
        r is Err ==> table_of(*final(conn)) == table_of(*old(conn)),
        r matches Err(e) ==> e is Storage,
{
    begin_tx(conn)?;
    match delete_row(conn, id) {
        Ok(()) => {},
        Err(e) => {
            rollback_tx(conn);
            return Err(e);
        },
    }
    match commit_tx(conn) {
        Ok(()) => Ok(()),
        Err(e) => {
            rollback_tx(conn);
            Err(e)
        },
    }
}

/// Replaces the whole table with `tasks`, as one transaction: on success the
/// table holds exactly the given tasks; on any failure — a duplicate id
/// within the batch included — everything is rolled back and the table is
/// exactly as it was before the call.
pub fn replace_all_tasks(conn: &mut rusqlite::Connection, tasks: &Vec<Task>) -> (r: Result<
    (),
    StoreError,
>)
    requires
        ready(*old(conn)),
    ensures
        ready(*final(conn)),
        r is Ok ==> distinct_ids(views_of(tasks@)) && table_of(*final(conn)) == batch_map(
            views_of(tasks@),
        ),
        r is Err ==> table_of(*final(conn)) == table_of(*old(conn)),
        !distinct_ids(views_of(tasks@)) ==> r is Err,
        r matches Err(e) && e is DuplicateId ==> !distinct_ids(views_of(tasks@)),
{
    begin_tx(conn)?;
    match clear_rows(conn) {
        Ok(()) => {},
        Err(e) => {
            rollback_tx(conn);
            return Err(e);
        },
    }
    let mut i: usize = 0;
    while i < tasks.len()
        invariant
            i <= tasks@.len(),
            in_tx(*conn),
            committed_of(*conn) == table_of(*old(conn)),
            table_of(*conn) == batch_map(views_of(tasks@).take(i as int)),
            distinct_ids(views_of(tasks@).take(i as int)),
        decreases tasks@.len() - i,
    {
        proof {
            assert(views_of(tasks@).take(i as int + 1).drop_last() =~= views_of(tasks@).take(
                i as int,
            ));
            assert(views_of(tasks@).take(i as int + 1).last() == tasks@[i as int]@);
        }
        match insert_row(conn, &tasks[i]) {
            Ok(()) => {
                proof {
                    lemma_batch_map_contains(views_of(tasks@).take(i as int), tasks@[i as int]@.id);
                    assert(distinct_ids(views_of(tasks@).take(i as int + 1)));
                }
            },
            Err(e) => {
                proof {
                    if e is DuplicateId {
                        lemma_batch_map_contains(
                            views_of(tasks@).take(i as int),
                            tasks@[i as int]@.id,
                        );
                        let j = choose|j: int|
                            0 <= j < i && views_of(tasks@).take(i as int)[j].id == tasks@[i as int]@.id;
                        assert(views_of(tasks@)[j].id == views_of(tasks@)[i as int].id);
                        assert(!distinct_ids(views_of(tasks@)));
                    }
                }
                rollback_tx(conn);
                return Err(e);
            },
        }
        i += 1;
    }
    proof {
        assert(views_of(tasks@).take(tasks@.len() as int) =~= views_of(tasks@));
    }
    match commit_tx(conn) {
        Ok(()) => Ok(()),
        Err(e) => {
            rollback_tx(conn);
            Err(e)
        },
    }
}

} // verus!
