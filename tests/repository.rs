use task_repo::connection::{deletion_observed, Connection, RepoError};
use task_repo::models::{NewTask, NewUser};
use task_repo::stamp::{get_date, stamp_from_reading, Timestamp, MAX_STAMP_SECS, SENTINEL_SECS};
use task_repo::tasks::{
    create_task, new_task_row, delete_task, get_task, get_tasks, insert_task, update_task, update_task_at,
};
use task_repo::users::{
    create_user, new_user_row, delete_user, get_user, get_users, insert_user, update_user, update_user_at,
};

fn new_task(title: &str, body: &str, done: bool, user_id: Option<&str>) -> NewTask {
    NewTask {
        title: title.to_string(),
        body: body.to_string(),
        done,
        user_id: user_id.map(|s| s.to_string()),
    }
}

fn new_user(name: &str, password: &str, email: &str, role: i32) -> NewUser {
    NewUser {
        user_name: name.to_string(),
        password: password.to_string(),
        email: email.to_string(),
        role,
    }
}

fn is_canonical(s: &str) -> bool {
    let b = s.as_bytes();
    if b.len() != 36 {
        return false;
    }
    for (i, c) in b.iter().enumerate() {
        let ok = if i == 8 || i == 13 || i == 18 || i == 23 {
            *c == b'-'
        } else {
            c.is_ascii_digit() || (b'a'..=b'f').contains(c)
        };
        if !ok {
            return false;
        }
    }
    b[14] == b'4' && matches!(b[19], b'8' | b'9' | b'a' | b'b')
}

#[test]
fn task_lifecycle_scenario() {
    let mut conn = Connection::new();
    let created = create_task(&new_task("A", "B", true, None), &mut conn).unwrap();
    assert!(!created.done);
    assert!(is_canonical(&created.id));
    assert_eq!(created.title, "A");
    assert_eq!(created.body, "B");
    assert_eq!(created.user_id, None);
    assert_eq!(created.updated_at, None);

    let updated = update_task(&created.id, &new_task("A2", "B", true, None), &mut conn).unwrap();
    assert!(updated.done);
    assert_eq!(updated.title, "A2");
    assert_eq!(updated.id, created.id);
    assert_eq!(updated.created_at, created.created_at);
    assert!(updated.updated_at.is_some());

    assert!(delete_task(&created.id, &mut conn));
    assert!(get_task(&created.id, &conn).is_none());
}

#[test]
fn created_ids_are_canonical_and_unique() {
    let mut conn = Connection::new();
    let mut ids: Vec<String> = Vec::new();
    for i in 0..20 {
        let t = create_task(&new_task(&format!("t{}", i), "b", false, None), &mut conn).unwrap();
        let u = create_user(&new_user(&format!("u{}", i), "p", "e@x", i), &mut conn).unwrap();
        assert!(!t.id.is_empty());
        assert!(is_canonical(&t.id));
        assert!(is_canonical(&u.id));
        assert!(!ids.contains(&t.id));
        ids.push(t.id.clone());
        assert!(!ids.contains(&u.id));
        ids.push(u.id.clone());
    }
    assert_eq!(get_tasks(&conn).len(), 20);
    assert_eq!(get_users(&conn).len(), 20);
}

#[test]
fn create_task_forces_done_false() {
    let mut conn = Connection::new();
    let t = create_task(&new_task("x", "y", true, Some("owner")), &mut conn).unwrap();
    assert!(!t.done);
    assert_eq!(t.user_id.as_deref(), Some("owner"));
    let stored = get_task(&t.id, &conn).unwrap();
    assert!(!stored.done);
}

#[test]
fn stamps_after_create_and_update() {
    let mut conn = Connection::new();
    let t = create_task(&new_task("x", "y", false, None), &mut conn).unwrap();
    assert!(t.updated_at.is_none());
    assert!(t.created_at.secs > SENTINEL_SECS);
    let u = update_task(&t.id, &new_task("x", "z", false, None), &mut conn).unwrap();
    let stamp = u.updated_at.unwrap();
    assert!(t.created_at.is_not_after(&stamp));
}

#[test]
fn update_stamp_is_given_time() {
    let mut conn = Connection::new();
    let created_at = Timestamp { secs: 1_000, nanos: 5 };
    let t = insert_task(&new_task("a", "b", false, None), "id-1".to_string(), created_at, &mut conn)
        .unwrap();
    assert_eq!(t.created_at, created_at);
    let later = Timestamp { secs: 2_000, nanos: 0 };
    let u = update_task_at(&t.id, &new_task("c", "d", true, Some("w")), later, &mut conn).unwrap();
    assert_eq!(u.updated_at, Some(later));
    assert_eq!(u.created_at, created_at);
    assert_eq!(u.title, "c");
    assert_eq!(u.body, "d");
    assert!(u.done);
    assert_eq!(u.user_id.as_deref(), Some("w"));
    let stored = get_task(&t.id, &conn).unwrap();
    assert_eq!(stored.updated_at, Some(later));
    assert_eq!(stored.title, "c");
}

#[test]
fn get_missing_is_absent() {
    let mut conn = Connection::new();
    assert!(get_task(&"nope".to_string(), &conn).is_none());
    assert!(get_user(&"nope".to_string(), &conn).is_none());
    let t = create_task(&new_task("a", "b", false, None), &mut conn).unwrap();
    assert!(get_task(&"nope".to_string(), &conn).is_none());
    assert!(get_task(&t.id, &conn).is_some());
}

#[test]
fn delete_existing_then_get_absent() {
    let mut conn = Connection::new();
    let u = create_user(&new_user("n", "p", "e", 1), &mut conn).unwrap();
    assert!(delete_user(&u.id, &mut conn));
    assert!(get_user(&u.id, &conn).is_none());
    assert!(!delete_user(&u.id, &mut conn));
}

#[test]
fn delete_missing_returns_false_and_keeps_count() {
    let mut conn = Connection::new();
    create_task(&new_task("a", "b", false, None), &mut conn).unwrap();
    create_task(&new_task("c", "d", false, None), &mut conn).unwrap();
    assert!(!delete_task(&"missing".to_string(), &mut conn));
    assert_eq!(get_tasks(&conn).len(), 2);
    assert!(!delete_user(&"missing".to_string(), &mut conn));
    assert_eq!(get_users(&conn).len(), 0);
}

#[test]
fn delete_keeps_other_rows_in_order() {
    let mut conn = Connection::new();
    let a = create_task(&new_task("a", "1", false, None), &mut conn).unwrap();
    let b = create_task(&new_task("b", "2", false, None), &mut conn).unwrap();
    let c = create_task(&new_task("c", "3", false, None), &mut conn).unwrap();
    assert!(delete_task(&b.id, &mut conn));
    let rest = get_tasks(&conn);
    assert_eq!(rest.len(), 2);
    assert_eq!(rest[0].id, a.id);
    assert_eq!(rest[1].id, c.id);
}

#[test]
fn update_missing_is_error_and_creates_nothing() {
    let mut conn = Connection::new();
    let r = update_task(&"ghost".to_string(), &new_task("a", "b", true, None), &mut conn);
    assert_eq!(r.unwrap_err(), RepoError::NotFound);
    assert_eq!(get_tasks(&conn).len(), 0);
    assert!(get_task(&"ghost".to_string(), &conn).is_none());
    let r = update_user(&"ghost".to_string(), &new_user("a", "b", "c", 2), &mut conn);
    assert_eq!(r.unwrap_err(), RepoError::NotFound);
    assert_eq!(get_users(&conn).len(), 0);
}

#[test]
fn create_on_empty_store_succeeds() {
    let mut conn = Connection::new();
    let t = create_task(&new_task("A", "B", true, None), &mut conn).unwrap();
    assert_eq!(t.title, "A");
    assert!(!t.done);
    let u = create_user(&new_user("n", "p", "e", 1), &mut conn).unwrap();
    assert!(is_canonical(&u.id));
}

#[test]
fn list_empty_tables() {
    let conn = Connection::new();
    assert!(get_tasks(&conn).is_empty());
    assert!(get_users(&conn).is_empty());
}

#[test]
fn insert_duplicate_id_is_rejected() {
    let mut conn = Connection::new();
    let now = Timestamp { secs: 10, nanos: 0 };
    insert_task(&new_task("a", "b", false, None), "same".to_string(), now, &mut conn).unwrap();
    let r = insert_task(&new_task("c", "d", false, None), "same".to_string(), now, &mut conn);
    assert_eq!(r.unwrap_err(), RepoError::DuplicateId);
    assert_eq!(get_tasks(&conn).len(), 1);
    assert_eq!(get_task(&"same".to_string(), &conn).unwrap().title, "a");

    insert_user(&new_user("n", "p", "e", 0), "same".to_string(), now, &mut conn).unwrap();
    let r = insert_user(&new_user("m", "q", "f", 1), "same".to_string(), now, &mut conn);
    assert_eq!(r.unwrap_err(), RepoError::DuplicateId);
    assert_eq!(get_users(&conn).len(), 1);
}

#[test]
fn user_fields_stored_verbatim() {
    let mut conn = Connection::new();
    let u = create_user(&new_user("alice", "secret", "a@b.c", -7), &mut conn).unwrap();
    assert_eq!(u.user_name, "alice");
    assert_eq!(u.password, "secret");
    assert_eq!(u.email, "a@b.c");
    assert_eq!(u.role, -7);
    assert!(u.updated_at.is_none());
    let later = Timestamp { secs: u.created_at.secs + 1, nanos: 0 };
    let v = update_user_at(&u.id, &new_user("bob", "pw", "b@c.d", 3), later, &mut conn).unwrap();
    assert_eq!(v.user_name, "bob");
    assert_eq!(v.password, "pw");
    assert_eq!(v.email, "b@c.d");
    assert_eq!(v.role, 3);
    assert_eq!(v.updated_at, Some(later));
    assert_eq!(v.created_at, u.created_at);
    let w = update_user(&u.id, &new_user("c", "d", "e", 4), &mut conn).unwrap();
    assert!(w.updated_at.is_some());
    assert_eq!(get_user(&u.id, &conn).unwrap().user_name, "c");
}

#[test]
fn deletion_observed_compares_counts() {
    assert!(deletion_observed(5, 4));
    assert!(!deletion_observed(5, 5));
    assert!(!deletion_observed(0, 0));
    assert!(!deletion_observed(3, 4));
}

#[test]
fn clock_reading_to_stamp() {
    assert_eq!(
        stamp_from_reading(Some((1_700_000_000, 123))),
        Timestamp { secs: 1_700_000_000, nanos: 123 }
    );
    let sentinel = Timestamp { secs: SENTINEL_SECS, nanos: 0 };
    assert_eq!(SENTINEL_SECS, 946_684_800);
    assert_eq!(stamp_from_reading(None), sentinel);
    assert_eq!(stamp_from_reading(Some((MAX_STAMP_SECS + 1, 0))), sentinel);
    assert_eq!(stamp_from_reading(Some((5, 1_000_000_000))), sentinel);
    assert_eq!(
        stamp_from_reading(Some((253_402_300_800, 0))),
        Timestamp { secs: 253_402_300_800, nanos: 0 }
    );
    assert_eq!(
        stamp_from_reading(Some((MAX_STAMP_SECS, 999_999_999))),
        Timestamp { secs: i64::MAX, nanos: 999_999_999 }
    );
}

#[test]
fn get_date_reads_the_clock() {
    let d = get_date();
    assert!(d.nanos < 1_000_000_000);
    assert!(d.secs > SENTINEL_SECS);
    let e = get_date();
    assert!(d.is_not_after(&e));
}

#[test]
fn timestamp_order() {
    let a = Timestamp { secs: 1, nanos: 5 };
    let b = Timestamp { secs: 1, nanos: 6 };
    let c = Timestamp { secs: 2, nanos: 0 };
    assert!(a.is_not_after(&b));
    assert!(a.is_not_after(&a));
    assert!(!b.is_not_after(&a));
    assert!(b.is_not_after(&c));
    assert!(!c.is_not_after(&a));
}

#[test]
fn prepared_rows_for_storage() {
    let t = new_task_row(&new_task("x", "y", true, Some("u1")));
    assert!(is_canonical(&t.id));
    assert!(!t.done);
    assert_eq!(t.title, "x");
    assert_eq!(t.body, "y");
    assert_eq!(t.user_id.as_deref(), Some("u1"));
    assert!(t.updated_at.is_none());
    assert!(t.created_at.secs > SENTINEL_SECS);

    let u = new_user_row(&new_user("n", "p", "e", 9));
    assert!(is_canonical(&u.id));
    assert_ne!(u.id, t.id);
    assert_eq!(u.user_name, "n");
    assert_eq!(u.password, "p");
    assert_eq!(u.email, "e");
    assert_eq!(u.role, 9);
    assert!(u.updated_at.is_none());
}

#[test]
fn row_builders_are_exact() {
    let now = Timestamp { secs: 42, nanos: 7 };
    let t = new_task("a", "b", true, None).to_row("k".to_string(), now);
    assert_eq!(t.id, "k");
    assert!(!t.done);
    assert_eq!(t.created_at, now);
    assert!(t.updated_at.is_none());
    let mut t2 = t;
    let later = Timestamp { secs: 43, nanos: 0 };
    t2.apply_update(&new_task("c", "d", true, Some("o")), later);
    assert_eq!(t2.id, "k");
    assert_eq!(t2.title, "c");
    assert!(t2.done);
    assert_eq!(t2.created_at, now);
    assert_eq!(t2.updated_at, Some(later));
}
