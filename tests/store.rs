use blog_posts::entity::{Model, Params};
use blog_posts::error::PostError;
use blog_posts::service::authorize_mutation;
use blog_posts::store::PostStore;

fn two_users() -> (PostStore, i32, i32) {
    let mut db = PostStore::new();
    let a = db.add_user("a-pid", "").unwrap();
    let b = db.add_user("b-pid", "").unwrap();
    (db, a, b)
}

#[test]
fn users_get_consecutive_ids_and_resolve() {
    let (mut db, a, b) = two_users();
    assert_eq!((a, b), (1, 2));
    assert_eq!(db.resolve("a-pid"), Ok(1));
    assert_eq!(db.resolve("b-pid"), Ok(2));
    assert_eq!(db.resolve("c-pid"), Err(PostError::NotFound));
    assert_eq!(db.add_user("a-pid", ""), Err(PostError::Conflict));
    assert!(db.has_user(2));
    assert!(!db.has_user(3));
    assert!(!db.has_user(0));
    assert!(!db.has_user(-1));
}

#[test]
fn insert_assigns_ids_and_checks_constraints() {
    let (mut db, a, b) = two_users();
    let p1 = db.insert("one", "", a).unwrap();
    let p2 = db.insert("two", "body", b).unwrap();
    assert_eq!((p1.id, p2.id), (1, 2));
    assert_eq!(p1.md_content, Some(String::new()));
    assert_eq!(db.insert("one", "again", b).unwrap_err(), PostError::Conflict);
    assert_eq!(db.insert("", "x", a).unwrap_err(), PostError::BadRequest);
    assert_eq!(db.insert("three", "x", 42).unwrap_err(), PostError::NotFound);
    let p3 = db.insert("three", "x", a).unwrap();
    assert_eq!(p3.id, 3);
}

#[test]
fn insert_then_load_round_trip() {
    let (mut db, a, _) = two_users();
    let p = db.insert("round", "trip", a).unwrap();
    let q = db.load(p.id).unwrap();
    assert_eq!((q.id, q.title.as_str(), q.md_content.as_deref(), q.user_id), (p.id, "round", Some("trip"), a));
}

#[test]
fn update_keeps_id_and_author() {
    let (mut db, a, _) = two_users();
    db.insert("first", "x", a).unwrap();
    db.insert("second", "y", a).unwrap();
    let u = db.update(1, "first!", "z").unwrap();
    assert_eq!((u.id, u.user_id), (1, a));
    assert_eq!(u.title, "first!");
    assert_eq!(db.update(1, "second", "z").unwrap_err(), PostError::Conflict);
    assert_eq!(db.update(1, "", "z").unwrap_err(), PostError::BadRequest);
    assert_eq!(db.update(7, "seven", "z").unwrap_err(), PostError::NotFound);
    // keeping its own title is no conflict
    let same = db.update(1, "first!", "w").unwrap();
    assert_eq!(same.md_content, Some("w".to_string()));
}

#[test]
fn update_twice_is_idempotent() {
    let (mut db, a, _) = two_users();
    db.insert("t", "x", a).unwrap();
    let p = Params { title: "t2".to_string(), md_content: "y".to_string() };
    let first = Model::update(&mut db, 1, "a-pid", &p).unwrap();
    let second = Model::update(&mut db, 1, "a-pid", &p).unwrap();
    assert_eq!(
        (first.id, first.title, first.md_content, first.user_id),
        (second.id, second.title, second.md_content, second.user_id)
    );
    assert_eq!(db.list().len(), 1);
}

#[test]
fn deleted_ids_are_not_reused() {
    let (mut db, a, _) = two_users();
    db.insert("x", "", a).unwrap();
    assert_eq!(db.delete(1), Ok(()));
    assert_eq!(db.delete(1), Err(PostError::NotFound));
    assert_eq!(db.delete(0), Err(PostError::NotFound));
    let p = db.insert("x", "", a).unwrap();
    assert_eq!(p.id, 2);
}

#[test]
fn list_returns_all_posts_in_id_order() {
    let (mut db, a, b) = two_users();
    assert!(db.list().is_empty());
    db.insert("p1", "", a).unwrap();
    db.insert("p2", "", b).unwrap();
    db.insert("p3", "", a).unwrap();
    db.delete(2).unwrap();
    let ids: Vec<i32> = db.list().iter().map(|m| m.id).collect();
    assert_eq!(ids, vec![1, 3]);
}

#[test]
fn deleting_a_user_cascades_to_their_posts() {
    let (mut db, a, b) = two_users();
    db.insert("a1", "", a).unwrap();
    db.insert("b1", "", b).unwrap();
    db.insert("a2", "", a).unwrap();
    assert_eq!(db.delete_user(a), Ok(()));
    let left: Vec<(i32, i32)> = db.list().iter().map(|m| (m.id, m.user_id)).collect();
    assert_eq!(left, vec![(2, b)]);
    assert_eq!(db.resolve("a-pid"), Err(PostError::NotFound));
    assert_eq!(db.delete_user(a), Err(PostError::NotFound));
    assert_eq!(db.insert("a3", "", a).unwrap_err(), PostError::NotFound);
}

#[test]
fn authorize_mutation_compares_author() {
    let m = Model { id: 4, title: "t".to_string(), md_content: None, user_id: 9 };
    assert_eq!(authorize_mutation(9, &m), Ok(()));
    assert_eq!(authorize_mutation(8, &m), Err(PostError::Unauthorized));
}

#[test]
fn params_update_sets_title_and_content_only() {
    let mut m = Model { id: 4, title: "old".to_string(), md_content: None, user_id: 9 };
    let p = Params { title: "new".to_string(), md_content: "body".to_string() };
    p.update(&mut m);
    assert_eq!((m.id, m.user_id), (4, 9));
    assert_eq!(m.title, "new");
    assert_eq!(m.md_content, Some("body".to_string()));
}

#[test]
fn snapshot_copies_every_field() {
    let m = Model { id: 2, title: "t".to_string(), md_content: Some("c".to_string()), user_id: 3 };
    let s = m.snapshot();
    assert_eq!((s.id, s.title, s.md_content, s.user_id), (2, "t".to_string(), Some("c".to_string()), 3));
}
