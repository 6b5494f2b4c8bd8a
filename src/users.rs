//! Repository operations on the `users` relation.

use vstd::prelude::*;
use crate::connection::{deletion_observed, Connection, RepoError};
use crate::ident::{is_canonical_uuid, new_uuid_text};
use crate::models::{created_user, updated_user, NewUser, User};
use crate::stamp::{get_date, Timestamp};
use crate::table::{Row, has_key, index_of, lemma_without_key, row_with_key, without_key};

verus! {

/// All users, in storage order; empty when the relation is.
pub fn get_users(conn: &Connection) -> (r: Vec<User>)
    ensures
        r@ == conn.users@,
{
    conn.users.all()
}

/// The user with identifier `uuid`, or none.
pub fn get_user(uuid: &String, conn: &Connection) -> (r: Option<User>)
    requires
        conn.wf(),
    ensures
        r == row_with_key(conn.users@, uuid@),
{
    conn.users.get(uuid)
}

/// Stores the user that `new_user` describes under `id`, stamped `now`.
/// Fails, storing nothing, when `id` is taken.
pub fn insert_user(new_user: &NewUser, id: String, now: Timestamp, conn: &mut Connection)
    -> (r: Result<User, RepoError>)
    requires
        old(conn).wf(),
    ensures
        final(conn).wf(),
        final(conn).tasks@ == old(conn).tasks@,
        match r {
            Ok(t) => {
                &&& !has_key(old(conn).users@, id@)
                &&& t == created_user(*new_user, id, now)
                &&& final(conn).users@ == old(conn).users@.push(t)
            },
            Err(e) => {
                &&& e == RepoError::DuplicateId
                &&& has_key(old(conn).users@, id@)
                &&& final(conn).users@ == old(conn).users@
            },
        },
{
    let row = new_user.to_row(id, now);
    let out = row.duplicate();
    if conn.users.insert(row) {
        Ok(out)
    } else {
        Err(RepoError::DuplicateId)
    }
}

/// The row that creating a user from `new_user` stores: a fresh canonical
/// identifier and the current time as creation stamp.
pub fn new_user_row(new_user: &NewUser) -> (r: User)
    ensures
        r == created_user(*new_user, r.id, r.created_at),
        is_canonical_uuid(r.id@),
        r.created_at.wf(),
        r.created_at == Timestamp::sentinel() || 0 <= r.created_at.secs,
{
    let id = new_uuid_text();
    let now = get_date();
    new_user.to_row(id, now)
}

/// Creates a user from `new_user` under a fresh identifier, stamped with the
/// current time, every caller field stored verbatim, and no update stamp.
/// Fails, storing nothing, only if the fresh identifier is already taken,
/// so never while no stored identifier is in canonical form.
pub fn create_user(new_user: &NewUser, conn: &mut Connection) -> (r: Result<User, RepoError>)
    requires
        old(conn).wf(),
    ensures
        final(conn).wf(),
        final(conn).tasks@ == old(conn).tasks@,
        match r {
            Ok(t) => {
                &&& t == created_user(*new_user, t.id, t.created_at)
                &&& is_canonical_uuid(t.id@)
                &&& t.created_at.wf()
                &&& (t.created_at == Timestamp::sentinel() || 0 <= t.created_at.secs)
                &&& !has_key(old(conn).users@, t.id@)
                &&& final(conn).users@ == old(conn).users@.push(t)
            },
            Err(e) => {
                &&& e == RepoError::DuplicateId
                &&& final(conn).users@ == old(conn).users@
                &&& exists|i: int|
                    0 <= i < old(conn).users@.len() && is_canonical_uuid(
                        #[trigger] old(conn).users@[i].key(),
                    )
            },
        },
{
    let id = new_uuid_text();
    let now = get_date();
    let ghost before = conn.users@;
    let ghost k = id@;
    let r = insert_user(new_user, id, now, conn);
    proof {
        if r is Err {
            let i = index_of(before, k);
            assert(is_canonical_uuid(before[i].key()));
        }
    }
    r
}

/// Deletes the user with identifier `uuid`, reporting whether a row was
/// removed, by comparing the row counts before and after.
pub fn delete_user(uuid: &String, conn: &mut Connection) -> (r: bool)
    requires
        old(conn).wf(),
    ensures
        final(conn).wf(),
        final(conn).tasks@ == old(conn).tasks@,
        r == has_key(old(conn).users@, uuid@),
        final(conn).users@ == without_key(old(conn).users@, uuid@),
{
    proof {
        lemma_without_key(conn.users@, uuid@);
    }
    let before = conn.users.count();
    conn.users.remove(uuid);
    let after = conn.users.count();
    deletion_observed(before as u64, after as u64)
}

/// Replaces the fields of the user with identifier `uuid` from `new_user`
/// and stamps `updated_at` with `now`. Fails with `NotFound`, changing
/// nothing, when no user has that identifier.
pub fn update_user_at(uuid: &String, new_user: &NewUser, now: Timestamp, conn: &mut Connection)
    -> (r: Result<User, RepoError>)
    requires
        old(conn).wf(),
    ensures
        final(conn).wf(),
        final(conn).tasks@ == old(conn).tasks@,
        match r {
            Ok(t) => {
                &&& has_key(old(conn).users@, uuid@)
                &&& t == updated_user(
                    old(conn).users@[index_of(old(conn).users@, uuid@)],
                    *new_user,
                    now,
                )
                &&& final(conn).users@ == old(conn).users@.update(
                    index_of(old(conn).users@, uuid@),
                    t,
                )
            },
            Err(e) => {
                &&& e == RepoError::NotFound
                &&& !has_key(old(conn).users@, uuid@)
                &&& final(conn).users@ == old(conn).users@
            },
        },
{
    match conn.users.find(uuid) {
        Some(i) => {
            let mut row = conn.users.row_at(i);
            row.apply_update(new_user, now);
            let out = row.duplicate();
            conn.users.replace(i, row);
            Ok(out)
        },
        None => Err(RepoError::NotFound),
    }
}

/// Replaces the fields of the user with identifier `uuid` from `new_user`
/// and stamps `updated_at` with the current time. Fails with `NotFound`,
/// changing nothing, when no user has that identifier: no row is created.
pub fn update_user(uuid: &String, new_user: &NewUser, conn: &mut Connection) -> (r: Result<User, RepoError>)
    requires
        old(conn).wf(),
    ensures
        final(conn).wf(),
        final(conn).tasks@ == old(conn).tasks@,
        match r {
            Ok(t) => {
                &&& has_key(old(conn).users@, uuid@)
                &&& t.updated_at is Some
                &&& t.updated_at.unwrap().wf()
                &&& (t.updated_at.unwrap() == Timestamp::sentinel() || 0 <= t.updated_at.unwrap().secs)
                &&& t == updated_user(
                    old(conn).users@[index_of(old(conn).users@, uuid@)],
                    *new_user,
                    t.updated_at.unwrap(),
                )
                &&& final(conn).users@ == old(conn).users@.update(
                    index_of(old(conn).users@, uuid@),
                    t,
                )
            },
            Err(e) => {
                &&& e == RepoError::NotFound
                &&& !has_key(old(conn).users@, uuid@)
                &&& final(conn).users@ == old(conn).users@
            },
        },
{
    let now = get_date();
    update_user_at(uuid, new_user, now, conn)
}

} // verus!
