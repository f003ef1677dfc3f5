use blog_posts::entity::{Model, Params};
use blog_posts::error::PostError;
use blog_posts::service::{check_mutation, plan_add, plan_remove, plan_update, write_error, WriteFault};

fn post(id: i32, user_id: i32) -> Model {
    Model { id, title: "Hello".to_string(), md_content: Some("# hi".to_string()), user_id }
}

fn params(title: &str, md: &str) -> Params {
    Params { title: title.to_string(), md_content: md.to_string() }
}

#[test]
fn check_mutation_outcomes() {
    assert_eq!(check_mutation(None, &Some(post(1, 5))), Err(PostError::Unauthorized));
    assert_eq!(check_mutation(None, &None), Err(PostError::Unauthorized));
    assert_eq!(check_mutation(Some(5), &None), Err(PostError::NotFound));
    assert_eq!(check_mutation(Some(6), &Some(post(1, 5))), Err(PostError::Unauthorized));
    assert_eq!(check_mutation(Some(5), &Some(post(1, 5))), Ok(()));
}

#[test]
fn plan_add_outcomes() {
    assert_eq!(plan_add(None, &params("t", "x")), Err(PostError::Unauthorized));
    assert_eq!(plan_add(Some(3), &params("", "x")), Err(PostError::BadRequest));
    assert_eq!(plan_add(Some(3), &params("t", "")), Ok(3));
}

#[test]
fn plan_update_applies_params_to_owned_post() {
    let m = plan_update(Some(5), Some(post(1, 5)), &params("Hello v2", "# hi2")).unwrap();
    assert_eq!((m.id, m.user_id), (1, 5));
    assert_eq!(m.title, "Hello v2");
    assert_eq!(m.md_content, Some("# hi2".to_string()));
}

#[test]
fn plan_update_refusals() {
    let p = params("pwn", "x");
    assert_eq!(plan_update(Some(6), Some(post(1, 5)), &p).unwrap_err(), PostError::Unauthorized);
    assert_eq!(plan_update(None, Some(post(1, 5)), &p).unwrap_err(), PostError::Unauthorized);
    assert_eq!(plan_update(Some(5), None, &p).unwrap_err(), PostError::NotFound);
    assert_eq!(plan_update(Some(5), Some(post(1, 5)), &params("", "x")).unwrap_err(), PostError::BadRequest);
}

#[test]
fn plan_remove_outcomes() {
    assert_eq!(plan_remove(Some(5), &Some(post(9, 5))), Ok(9));
    assert_eq!(plan_remove(Some(6), &Some(post(9, 5))), Err(PostError::Unauthorized));
    assert_eq!(plan_remove(Some(5), &None), Err(PostError::NotFound));
    assert_eq!(plan_remove(None, &None), Err(PostError::Unauthorized));
}

#[test]
fn write_faults_map_to_domain_errors() {
    assert_eq!(write_error(WriteFault::UniqueViolation), PostError::Conflict);
    assert_eq!(write_error(WriteFault::ForeignKeyViolation), PostError::NotFound);
    assert_eq!(write_error(WriteFault::RecordNotFound), PostError::NotFound);
    assert_eq!(write_error(WriteFault::Other), PostError::Internal);
}
