//! Properties that hold across the repository operations, stated over the
//! relation views that the operations' contracts use.

use vstd::prelude::*;
use crate::ident::is_canonical_uuid;
use crate::models::{created_task, created_user, updated_task, updated_user, NewTask, NewUser};
use crate::stamp::Timestamp;
use crate::table::{has_key, keys_distinct, lemma_index_unique, lemma_without_key, row_with_key, without_key, Row};

verus! {

/// A canonical identifier is never empty.
pub proof fn law_canonical_id_nonempty(s: Seq<char>)
    requires
        is_canonical_uuid(s),
    ensures
        s.len() > 0,
{
}

/// Appending a row whose key is absent keeps keys unique, and looking that
/// key up afterwards finds exactly the appended row.
pub proof fn law_get_after_insert<R: Row>(rows: Seq<R>, row: R)
    requires
        keys_distinct(rows),
        !has_key(rows, row.key()),
    ensures
        keys_distinct(rows.push(row)),
        row_with_key(rows.push(row), row.key()) == Some(row),
{
    let s = rows.push(row);
    assert forall|i: int, j: int|
        0 <= i < s.len() && 0 <= j < s.len() && i != j implies #[trigger] s[i].key()
        != #[trigger] s[j].key() by {
        if i < rows.len() {
            assert(s[i] == rows[i]);
        }
        if j < rows.len() {
            assert(s[j] == rows[j]);
        }
    }
    lemma_index_unique(s, row.key(), rows.len() as int);
}

/// Two rows created one after the other, each under a key absent at its
/// creation, have different keys, and the relation keeps keys unique.
pub proof fn law_created_ids_distinct<R: Row>(rows: Seq<R>, first: R, second: R)
    requires
        keys_distinct(rows),
        !has_key(rows, first.key()),
        !has_key(rows.push(first), second.key()),
    ensures
        first.key() != second.key(),
        keys_distinct(rows.push(first).push(second)),
{
    law_get_after_insert(rows, first);
    law_get_after_insert(rows.push(first), second);
    assert(rows.push(first)[rows.len() as int] == first);
}

/// A key that no row has is looked up as absent.
pub proof fn law_get_absent<R: Row>(rows: Seq<R>, k: Seq<char>)
    requires
        !has_key(rows, k),
    ensures
        row_with_key(rows, k) is None,
{
}

/// After the row keyed `k` is deleted, looking `k` up gives absent; the
/// delete took a row out exactly when one was there.
pub proof fn law_get_after_delete<R: Row>(rows: Seq<R>, k: Seq<char>)
    requires
        keys_distinct(rows),
    ensures
        row_with_key(without_key(rows, k), k) is None,
        has_key(rows, k) ==> without_key(rows, k).len() == rows.len() - 1,
{
    lemma_without_key(rows, k);
}

/// Deleting a key that no row has leaves the relation, and so its row
/// count, unchanged.
pub proof fn law_delete_absent_keeps_count<R: Row>(rows: Seq<R>, k: Seq<char>)
    requires
        !has_key(rows, k),
    ensures
        without_key(rows, k) == rows,
        without_key(rows, k).len() == rows.len(),
{
}

/// A created task is not done, whatever the input said.
pub proof fn law_created_task_not_done(input: NewTask, id: String, now: Timestamp)
    ensures
        !created_task(input, id, now).done,
{
}

/// A task has a creation stamp and no update stamp when created; after an
/// update at a time not before its creation, the update stamp is present
/// and not before the creation stamp.
pub proof fn law_task_stamps(input: NewTask, id: String, created: Timestamp, change: NewTask, now: Timestamp)
    requires
        created.not_after(now),
    ensures
        created_task(input, id, created).created_at == created,
        created_task(input, id, created).updated_at is None,
        updated_task(created_task(input, id, created), change, now).created_at == created,
        updated_task(created_task(input, id, created), change, now).updated_at == Some(now),
        created.not_after(
            updated_task(created_task(input, id, created), change, now).updated_at.unwrap(),
        ),
{
}

/// A user has a creation stamp and no update stamp when created; after an
/// update at a time not before its creation, the update stamp is present
/// and not before the creation stamp.
pub proof fn law_user_stamps(input: NewUser, id: String, created: Timestamp, change: NewUser, now: Timestamp)
    requires
        created.not_after(now),
    ensures
        created_user(input, id, created).created_at == created,
        created_user(input, id, created).updated_at is None,
        updated_user(created_user(input, id, created), change, now).created_at == created,
        updated_user(created_user(input, id, created), change, now).updated_at == Some(now),
        created.not_after(
            updated_user(created_user(input, id, created), change, now).updated_at.unwrap(),
        ),
{
}

} // verus!
