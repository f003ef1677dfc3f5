use blog_posts::entity::{Model, Params};
use blog_posts::error::PostError;
use blog_posts::store::PostStore;

fn params(title: &str, md: &str) -> Params {
    Params { title: title.to_string(), md_content: md.to_string() }
}

fn alice_and_bob() -> (PostStore, i32, i32) {
    let mut db = PostStore::new();
    let alice = db.add_user("alice-pid", "").unwrap();
    let bob = db.add_user("bob-pid", "https://example.com/bob.png").unwrap();
    (db, alice, bob)
}

fn with_hello() -> (PostStore, i32, i32) {
    let (mut db, alice, bob) = alice_and_bob();
    Model::add(&mut db, &params("Hello", "# hi"), "alice-pid").unwrap();
    (db, alice, bob)
}

#[test]
fn create_and_read_back() {
    let (mut db, alice, _) = alice_and_bob();
    let created = Model::add(&mut db, &params("Hello", "# hi"), "alice-pid").unwrap();
    assert_eq!(created.id, 1);
    assert_eq!(created.title, "Hello");
    assert_eq!(created.md_content, Some("# hi".to_string()));
    assert_eq!(created.user_id, alice);
    let loaded = db.load(1).unwrap();
    assert_eq!(loaded.id, created.id);
    assert_eq!(loaded.title, created.title);
    assert_eq!(loaded.md_content, created.md_content);
    assert_eq!(loaded.user_id, created.user_id);
}

#[test]
fn unauthorized_update() {
    let (mut db, alice, _) = with_hello();
    let r = Model::update(&mut db, 1, "bob-pid", &params("pwn", "x"));
    assert_eq!(r.unwrap_err(), PostError::Unauthorized);
    assert_eq!(PostError::Unauthorized.status_code(), 401);
    let loaded = db.load(1).unwrap();
    assert_eq!(loaded.title, "Hello");
    assert_eq!(loaded.md_content, Some("# hi".to_string()));
    assert_eq!(loaded.user_id, alice);
}

#[test]
fn owner_update() {
    let (mut db, alice, _) = with_hello();
    let updated = Model::update(&mut db, 1, "alice-pid", &params("Hello v2", "# hi2")).unwrap();
    assert_eq!(updated.id, 1);
    assert_eq!(updated.title, "Hello v2");
    assert_eq!(updated.md_content, Some("# hi2".to_string()));
    assert_eq!(updated.user_id, alice);
    let loaded = db.load(1).unwrap();
    assert_eq!(loaded.title, "Hello v2");
    assert_eq!(loaded.user_id, alice);
}

#[test]
fn title_conflict() {
    let (mut db, _, _) = with_hello();
    Model::update(&mut db, 1, "alice-pid", &params("Hello v2", "# hi2")).unwrap();
    let r = Model::add(&mut db, &params("Hello v2", "y"), "alice-pid");
    assert_eq!(r.unwrap_err(), PostError::Conflict);
    assert_eq!(PostError::Conflict.status_code(), 409);
    assert_eq!(db.list().len(), 1);
}

#[test]
fn unauthorized_delete_then_owner_delete() {
    let (mut db, _, _) = with_hello();
    assert_eq!(Model::remove(&mut db, 1, "bob-pid"), Err(PostError::Unauthorized));
    assert!(db.load(1).is_ok());
    assert_eq!(Model::remove(&mut db, 1, "alice-pid"), Ok(()));
    let r = db.load(1);
    assert_eq!(r.unwrap_err(), PostError::NotFound);
    assert_eq!(PostError::NotFound.status_code(), 404);
}

#[test]
fn missing_post() {
    let (mut db, _, _) = with_hello();
    assert_eq!(db.load(999).unwrap_err(), PostError::NotFound);
    let r = Model::update(&mut db, 999, "alice-pid", &params("x", "y"));
    assert_eq!(r.unwrap_err(), PostError::NotFound);
    assert_eq!(Model::remove(&mut db, 999, "alice-pid"), Err(PostError::NotFound));
    assert_eq!(db.load(1).unwrap().title, "Hello");
}

#[test]
fn unknown_caller_is_unauthorized() {
    let (mut db, _, _) = with_hello();
    let r = Model::add(&mut db, &params("Other", "z"), "mallory-pid");
    assert_eq!(r.unwrap_err(), PostError::Unauthorized);
    let r = Model::update(&mut db, 1, "mallory-pid", &params("Other", "z"));
    assert_eq!(r.unwrap_err(), PostError::Unauthorized);
    assert_eq!(Model::remove(&mut db, 1, "mallory-pid"), Err(PostError::Unauthorized));
    assert_eq!(db.list().len(), 1);
}
