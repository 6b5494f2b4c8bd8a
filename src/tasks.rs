//! Repository operations on the `tasks` relation.

use vstd::prelude::*;
use crate::connection::{deletion_observed, Connection, RepoError};
use crate::ident::{is_canonical_uuid, new_uuid_text};
use crate::models::{created_task, updated_task, NewTask, Task};
use crate::stamp::{get_date, Timestamp};
use crate::table::{Row, has_key, index_of, lemma_without_key, row_with_key, without_key};

verus! {

/// All tasks, in storage order; empty when the relation is.
pub fn get_tasks(conn: &Connection) -> (r: Vec<Task>)
    ensures
        r@ == conn.tasks@,
{
    conn.tasks.all()
}

/// The task with identifier `uuid`, or none.
pub fn get_task(uuid: &String, conn: &Connection) -> (r: Option<Task>)
    requires
        conn.wf(),
    ensures
        r == row_with_key(conn.tasks@, uuid@),
{
    conn.tasks.get(uuid)
}

/// Stores the task that `new_task` describes under `id`, stamped `now`.
/// Fails, storing nothing, when `id` is taken.
pub fn insert_task(new_task: &NewTask, id: String, now: Timestamp, conn: &mut Connection)
    -> (r: Result<Task, RepoError>)
    requires
        old(conn).wf(),
    ensures
        final(conn).wf(),
        final(conn).users@ == old(conn).users@,
        match r {
            Ok(t) => {
                &&& !has_key(old(conn).tasks@, id@)
                &&& t == created_task(*new_task, id, now)
                &&& final(conn).tasks@ == old(conn).tasks@.push(t)
            },
            Err(e) => {
                &&& e == RepoError::DuplicateId
                &&& has_key(old(conn).tasks@, id@)
                &&& final(conn).tasks@ == old(conn).tasks@
            },
        },
{
    let row = new_task.to_row(id, now);
    let out = row.duplicate();
    if conn.tasks.insert(row) {
        Ok(out)
    } else {
        Err(RepoError::DuplicateId)
    }
}

/// The row that creating a task from `new_task` stores: a fresh canonical
/// identifier and the current time as creation stamp.
pub fn new_task_row(new_task: &NewTask) -> (r: Task)
    ensures
        r == created_task(*new_task, r.id, r.created_at),
        is_canonical_uuid(r.id@),
        r.created_at.wf(),
        r.created_at == Timestamp::sentinel() || 0 <= r.created_at.secs,
{
    let id = new_uuid_text();
    let now = get_date();
    new_task.to_row(id, now)
}

/// Creates a task from `new_task` under a fresh identifier, stamped with the
/// current time: `done` is false whatever the input says, and there is no
/// update stamp. Fails, storing nothing, only if the fresh identifier is
/// already taken, so never while no stored identifier is in canonical form.
pub fn create_task(new_task: &NewTask, conn: &mut Connection) -> (r: Result<Task, RepoError>)
    requires
        old(conn).wf(),
    ensures
        final(conn).wf(),
        final(conn).users@ == old(conn).users@,
        match r {
            Ok(t) => {
                &&& t == created_task(*new_task, t.id, t.created_at)
                &&& is_canonical_uuid(t.id@)
                &&& t.created_at.wf()
                &&& (t.created_at == Timestamp::sentinel() || 0 <= t.created_at.secs)
                &&& !has_key(old(conn).tasks@, t.id@)
                &&& final(conn).tasks@ == old(conn).tasks@.push(t)
            },
            Err(e) => {
                &&& e == RepoError::DuplicateId
                &&& final(conn).tasks@ == old(conn).tasks@
                &&& exists|i: int|
                    0 <= i < old(conn).tasks@.len() && is_canonical_uuid(
                        #[trigger] old(conn).tasks@[i].key(),
                    )
            },
        },
{
    let id = new_uuid_text();
    let now = get_date();
    let ghost before = conn.tasks@;
    let ghost k = id@;
    let r = insert_task(new_task, id, now, conn);
    proof {
        if r is Err {
            let i = index_of(before, k);
            assert(is_canonical_uuid(before[i].key()));
        }
    }
    r
}

/// Deletes the task with identifier `uuid`, reporting whether a row was
/// removed, by comparing the row counts before and after.
pub fn delete_task(uuid: &String, conn: &mut Connection) -> (r: bool)
    requires
        old(conn).wf(),
    ensures
        final(conn).wf(),
        final(conn).users@ == old(conn).users@,
        r == has_key(old(conn).tasks@, uuid@),
        final(conn).tasks@ == without_key(old(conn).tasks@, uuid@),
{
    proof {
        lemma_without_key(conn.tasks@, uuid@);
    }
    let before = conn.tasks.count();
    conn.tasks.remove(uuid);
    let after = conn.tasks.count();
    deletion_observed(before as u64, after as u64)
}

/// Replaces the fields of the task with identifier `uuid` from `new_task`
/// and stamps `updated_at` with `now`. Fails with `NotFound`, changing
/// nothing, when no task has that identifier.
pub fn update_task_at(uuid: &String, new_task: &NewTask, now: Timestamp, conn: &mut Connection)
    -> (r: Result<Task, RepoError>)
    requires
        old(conn).wf(),
    ensures
        final(conn).wf(),
        final(conn).users@ == old(conn).users@,
        match r {
            Ok(t) => {
                &&& has_key(old(conn).tasks@, uuid@)
                &&& t == updated_task(
                    old(conn).tasks@[index_of(old(conn).tasks@, uuid@)],
                    *new_task,
                    now,
                )
                &&& final(conn).tasks@ == old(conn).tasks@.update(
                    index_of(old(conn).tasks@, uuid@),
                    t,
                )
            },
            Err(e) => {
                &&& e == RepoError::NotFound
                &&& !has_key(old(conn).tasks@, uuid@)
                &&& final(conn).tasks@ == old(conn).tasks@
            },
        },
{
    match conn.tasks.find(uuid) {
        Some(i) => {
            let mut row = conn.tasks.row_at(i);
            row.apply_update(new_task, now);
            let out = row.duplicate();
            conn.tasks.replace(i, row);
            Ok(out)
        },
        None => Err(RepoError::NotFound),
    }
}

/// Replaces the fields of the task with identifier `uuid` from `new_task`
/// and stamps `updated_at` with the current time. Fails with `NotFound`,
/// changing nothing, when no task has that identifier: no row is created.
pub fn update_task(uuid: &String, new_task: &NewTask, conn: &mut Connection) -> (r: Result<Task, RepoError>)
    requires
        old(conn).wf(),
    ensures
        final(conn).wf(),
        final(conn).users@ == old(conn).users@,
        match r {
            Ok(t) => {
                &&& has_key(old(conn).tasks@, uuid@)
                &&& t.updated_at is Some
                &&& t.updated_at.unwrap().wf()
                &&& (t.updated_at.unwrap() == Timestamp::sentinel() || 0 <= t.updated_at.unwrap().secs)
                &&& t == updated_task(
                    old(conn).tasks@[index_of(old(conn).tasks@, uuid@)],
                    *new_task,
                    t.updated_at.unwrap(),
                )
                &&& final(conn).tasks@ == old(conn).tasks@.update(
                    index_of(old(conn).tasks@, uuid@),
                    t,
                )
            },
            Err(e) => {
                &&& e == RepoError::NotFound
                &&& !has_key(old(conn).tasks@, uuid@)
                &&& final(conn).tasks@ == old(conn).tasks@
            },
        },
{
    let now = get_date();
    update_task_at(uuid, new_task, now, conn)
}

} // verus!
