//! The two entity shapes, the input records that create and update them, and
//! the rows that those operations build.

use vstd::prelude::*;
use crate::stamp::Timestamp;
use crate::table::Row;

verus! {

/// A stored task.
#[derive(Debug)]
pub struct Task {
    pub id: String,
    pub title: String,
    pub body: String,
    pub done: bool,
    pub user_id: Option<String>,
    pub created_at: Timestamp,
    pub updated_at: Option<Timestamp>,
}

/// The caller-supplied fields of a task, used by create and by update.
#[derive(Debug)]
pub struct NewTask {
    pub title: String,
    pub body: String,
    pub done: bool,
    pub user_id: Option<String>,
}

/// A stored user.
#[derive(Debug)]
pub struct User {
    pub id: String,
    pub user_name: String,
    pub password: String,
    pub email: String,
    pub role: i32,
    pub created_at: Timestamp,
    pub updated_at: Option<Timestamp>,
}

/// The caller-supplied fields of a user, used by create and by update.
#[derive(Debug)]
pub struct NewUser {
    pub user_name: String,
    pub password: String,
    pub email: String,
    pub role: i32,
}

/// A copy of an optional string.
fn copy_opt_string(s: &Option<String>) -> (r: Option<String>)
    ensures
        r == *s,
{
    match s {
        Some(v) => Some(v.clone()),
        None => None,
    }
}

/// The row that creating a task from `input` stores: the given identifier
/// and creation stamp, `done` forced to false, no update stamp.
pub open spec fn created_task(input: NewTask, id: String, now: Timestamp) -> Task {
    Task {
        id: id,
        title: input.title,
        body: input.body,
        done: false,
        user_id: input.user_id,
        created_at: now,
        updated_at: None,
    }
}

/// `row` after a full update from `input` at time `now`: every mutable field
/// replaced, identifier and creation stamp kept, update stamp set to `now`.
pub open spec fn updated_task(row: Task, input: NewTask, now: Timestamp) -> Task {
    Task {
        id: row.id,
        title: input.title,
        body: input.body,
        done: input.done,
        user_id: input.user_id,
        created_at: row.created_at,
        updated_at: Some(now),
    }
}

/// The row that creating a user from `input` stores: every caller field
/// verbatim, the given identifier and creation stamp, no update stamp.
pub open spec fn created_user(input: NewUser, id: String, now: Timestamp) -> User {
    User {
        id: id,
        user_name: input.user_name,
        password: input.password,
        email: input.email,
        role: input.role,
        created_at: now,
        updated_at: None,
    }
}

/// `row` after a full update from `input` at time `now`.
pub open spec fn updated_user(row: User, input: NewUser, now: Timestamp) -> User {
    User {
        id: row.id,
        user_name: input.user_name,
        password: input.password,
        email: input.email,
        role: input.role,
        created_at: row.created_at,
        updated_at: Some(now),
    }
}

impl NewTask {
    /// The row that create stores for this input, keyed `id` and stamped `now`.
    pub fn to_row(&self, id: String, now: Timestamp) -> (r: Task)
        ensures
            r == created_task(*self, id, now),
    {
        Task {
            id,
            title: self.title.clone(),
            body: self.body.clone(),
            done: false,
            user_id: copy_opt_string(&self.user_id),
            created_at: now,
            updated_at: None,
        }
    }
}

impl NewUser {
    /// The row that create stores for this input, keyed `id` and stamped `now`.
    pub fn to_row(&self, id: String, now: Timestamp) -> (r: User)
        ensures
            r == created_user(*self, id, now),
    {
        User {
            id,
            user_name: self.user_name.clone(),
            password: self.password.clone(),
            email: self.email.clone(),
            role: self.role,
            created_at: now,
            updated_at: None,
        }
    }
}

impl Task {
    /// Replaces the mutable fields from `input` and stamps `updated_at`.
    pub fn apply_update(&mut self, input: &NewTask, now: Timestamp)
        ensures
            *final(self) == updated_task(*old(self), *input, now),
    {
        self.title = input.title.clone();
        self.body = input.body.clone();
        self.done = input.done;
        self.user_id = copy_opt_string(&input.user_id);
        self.updated_at = Some(now);
    }
}

impl User {
    /// Replaces the mutable fields from `input` and stamps `updated_at`.
    pub fn apply_update(&mut self, input: &NewUser, now: Timestamp)
        ensures
            *final(self) == updated_user(*old(self), *input, now),
    {
        self.user_name = input.user_name.clone();
        self.password = input.password.clone();
        self.email = input.email.clone();
        self.role = input.role;
        self.updated_at = Some(now);
    }
}

impl Row for Task {
    open spec fn key(&self) -> Seq<char> {
        self.id@
    }

    fn id(&self) -> (r: &String) {
        &self.id
    }

    fn duplicate(&self) -> (r: Task) {
        Task {
            id: self.id.clone(),
            title: self.title.clone(),
            body: self.body.clone(),
            done: self.done,
            user_id: copy_opt_string(&self.user_id),
            created_at: self.created_at,
            updated_at: self.updated_at,
        }
    }
}

impl Row for User {
    open spec fn key(&self) -> Seq<char> {
        self.id@
    }

    fn id(&self) -> (r: &String) {
        &self.id
    }

    fn duplicate(&self) -> (r: User) {
        User {
            id: self.id.clone(),
            user_name: self.user_name.clone(),
            password: self.password.clone(),
            email: self.email.clone(),
            role: self.role,
            created_at: self.created_at,
            updated_at: self.updated_at,
        }
    }
}

} // verus!
