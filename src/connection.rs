//! A connection handle over the `tasks` and `users` relations, and the
//! error values that the repositories report.

use vstd::prelude::*;
use crate::models::{Task, User};
use crate::table::Table;

verus! {

/// Why a repository operation failed.
#[derive(Clone, Copy, Debug, PartialEq, Eq, Structural)]
pub enum RepoError {
    /// An update named an identifier that no row has.
    NotFound,
    /// A new row's identifier is already taken.
    DuplicateId,
}

/// A handle on the two relations that the repositories read and write.
pub struct Connection {
    pub tasks: Table<Task>,
    pub users: Table<User>,
}

impl Connection {
    /// Both relations keep their identifiers unique.
    pub open spec fn wf(&self) -> bool {
        self.tasks.wf() && self.users.wf()
    }

    /// A handle on two empty relations.
    pub fn new() -> (r: Connection)
        ensures
            r.wf(),
            r.tasks@ == Seq::<Task>::empty(),
            r.users@ == Seq::<User>::empty(),
    {
        Connection { tasks: Table::new(), users: Table::new() }
    }
}

/// Whether a delete removed a row, from the row counts taken before and
/// after it: true exactly when the count went down.
pub fn deletion_observed(before: u64, after: u64) -> (r: bool)
    ensures
        r == (before > after),
{
    before > after
}

} // verus!
