use vstd::prelude::*;

use crate::entity::{model_result, Model, Params, PostRecord};
use crate::error::PostError;
use crate::state::{authorize, mutation_decision};
use crate::store::PostStore;

verus! {

/// Only the author of a post may update or delete it.
pub fn authorize_mutation(caller_id: i32, post: &Model) -> (r: Result<(), PostError>)
    ensures
        r == authorize(caller_id as int, post@),
{
    if caller_id == post.user_id {
        Ok(())
    } else {
        Err(PostError::Unauthorized)
    }
}

/// The view of an optional caller id.
pub open spec fn caller_view(c: Option<i32>) -> Option<int> {
    match c {
        Some(id) => Some(id as int),
        None => None,
    }
}

/// The view of an optional post.
pub open spec fn post_view(p: Option<Model>) -> Option<PostRecord> {
    match p {
        Some(m) => Some(m@),
        None => None,
    }
}

/// Decides a mutation from what was read: the caller's user id (`None`
/// where the pid names no user) and the post (`None` where no post has the
/// id). A caller who does not exist is unauthorized.
pub fn check_mutation(caller_id: Option<i32>, post: &Option<Model>) -> (r: Result<(), PostError>)
    ensures
        r == mutation_decision(caller_view(caller_id), post_view(*post)),
{
    match caller_id {
        None => Err(PostError::Unauthorized),
        Some(c) => match post {
            None => Err(PostError::NotFound),
            Some(p) => authorize_mutation(c, p),
        },
    }
}

/// Decides a create request: returns the author's id under which the post
/// is to be inserted.
pub fn plan_add(caller_id: Option<i32>, params: &Params) -> (r: Result<i32, PostError>)
    ensures
        r == (match caller_id {
            None => Err(PostError::Unauthorized),
            Some(c) => if params.title@.len() == 0 {
                Err(PostError::BadRequest)
            } else {
                Ok(c)
            },
        }),
{
    match caller_id {
        None => Err(PostError::Unauthorized),
        Some(c) => {
            if params.title.as_str().is_empty() {
                Err(PostError::BadRequest)
            } else {
                Ok(c)
            }
        },
    }
}

/// Decides an update request: returns the post as it is to be written, with
/// the title and the content of `params` and its id and author unchanged.
pub fn plan_update(caller_id: Option<i32>, post: Option<Model>, params: &Params) -> (r: Result<
    Model,
    PostError,
>)
    ensures
        model_result(r) == (match mutation_decision(caller_view(caller_id), post_view(post)) {
            Err(e) => Err(e),
            Ok(_) => if params.title@.len() == 0 {
                Err(PostError::BadRequest)
            } else {
                Ok(
                    PostRecord {
                        title: params.title@,
                        md_content: Some(params.md_content@),
                        ..post->Some_0@
                    },
                )
            },
        }),
{
    match check_mutation(caller_id, &post) {
        Err(e) => Err(e),
        Ok(()) => {
            if params.title.as_str().is_empty() {
                return Err(PostError::BadRequest);
            }
            match post {
                Some(mut item) => {
                    params.update(&mut item);
                    Ok(item)
                },
                None => Err(PostError::NotFound),
            }
        },
    }
}

/// Decides a delete request: returns the id of the post to delete.
pub fn plan_remove(caller_id: Option<i32>, post: &Option<Model>) -> (r: Result<i32, PostError>)
    ensures
        r == (match mutation_decision(caller_view(caller_id), post_view(*post)) {
            Err(e) => Err(e),
            Ok(_) => Ok(post->Some_0.id),
        }),
{
    match check_mutation(caller_id, post) {
        Err(e) => Err(e),
        Ok(()) => match post {
            Some(p) => Ok(p.id),
            None => Err(PostError::NotFound),
        },
    }
}

/// How a storage write failed.
#[derive(Debug, Clone, Copy, PartialEq, Eq, Structural)]
pub enum WriteFault {
    /// A unique constraint (the post title) was violated.
    UniqueViolation,
    /// A foreign key (the post's author) referred to no row.
    ForeignKeyViolation,
    /// The row to change no longer exists.
    RecordNotFound,
    /// Any other storage fault.
    Other,
}

pub open spec fn write_error_of(f: WriteFault) -> PostError {
    match f {
        WriteFault::UniqueViolation => PostError::Conflict,
        WriteFault::ForeignKeyViolation => PostError::NotFound,
        WriteFault::RecordNotFound => PostError::NotFound,
        WriteFault::Other => PostError::Internal,
    }
}

/// The domain error that a failed storage write comes to.
pub fn write_error(f: WriteFault) -> (r: PostError)
    ensures
        r == write_error_of(f),
{
    match f {
        WriteFault::UniqueViolation => PostError::Conflict,
        WriteFault::ForeignKeyViolation => PostError::NotFound,
        WriteFault::RecordNotFound => PostError::NotFound,
        WriteFault::Other => PostError::Internal,
    }
}

/// The caller's user id, where the pid names a user.
fn caller_of(db: &PostStore, user_pid: &str) -> (r: Option<i32>)
    requires
        db.wf(),
    ensures
        caller_view(r) == (if db@.has_pid(user_pid@) {
            Some(db@.user_of(user_pid@))
        } else {
            None::<int>
        }),
{
    match db.resolve(user_pid) {
        Ok(uid) => Some(uid),
        Err(_) => None,
    }
}

/// The post with this id, where there is one.
fn post_of(db: &PostStore, id: i32) -> (r: Option<Model>)
    requires
        db.wf(),
    ensures
        post_view(r) == (if db@.posts.contains_key(id as int) {
            Some(db@.posts[id as int])
        } else {
            None::<PostRecord>
        }),
        r is Some ==> r->Some_0.id == id,
{
    match db.load(id) {
        Ok(p) => Some(p),
        Err(_) => None,
    }
}

impl Model {
    /// Creates a post with these parameters, authored by the user whose pid
    /// is `user_pid`; a pid that names no user is refused as unauthorized.
    pub fn add(db: &mut PostStore, params: &Params, user_pid: &str) -> (r: Result<
        Model,
        PostError,
    >)
        requires
            old(db).wf(),
        ensures
            final(db).wf(),
            model_result(r) == old(db)@.add_outcome(
                user_pid@,
                params.title@,
                params.md_content@,
            ),
            final(db)@ == old(db)@.after_add(user_pid@, params.title@, params.md_content@),
    {
        let caller = caller_of(db, user_pid);
        match plan_add(caller, params) {
            Ok(user_id) => db.insert(params.title.as_str(), params.md_content.as_str(), user_id),
            Err(e) => Err(e),
        }
    }

    /// Deletes post `id` on behalf of the user whose pid is `user_pid`, who
    /// must be its author.
    pub fn remove(db: &mut PostStore, id: i32, user_pid: &str) -> (r: Result<(), PostError>)
        requires
            old(db).wf(),
        ensures
            final(db).wf(),
            r == old(db)@.owner_remove_outcome(id as int, user_pid@),
            final(db)@ == old(db)@.after_owner_remove(id as int, user_pid@),
    {
        let caller = caller_of(db, user_pid);
        let post = post_of(db, id);
        match plan_remove(caller, &post) {
            Ok(post_id) => db.delete(post_id),
            Err(e) => Err(e),
        }
    }

    /// Overwrites the title and the content of post `id` on behalf of the
    /// user whose pid is `user_pid`, who must be its author.
    pub fn update(db: &mut PostStore, id: i32, user_pid: &str, params: &Params) -> (r: Result<
        Model,
        PostError,
    >)
        requires
            old(db).wf(),
        ensures
            final(db).wf(),
            model_result(r) == old(db)@.owner_update_outcome(
                id as int,
                user_pid@,
                params.title@,
                params.md_content@,
            ),
            final(db)@ == old(db)@.after_owner_update(
                id as int,
                user_pid@,
                params.title@,
                params.md_content@,
            ),
    {
        let caller = caller_of(db, user_pid);
        let post = post_of(db, id);
        match plan_update(caller, post, params) {
            Ok(item) => db.update(item.id, item.title.as_str(), params.md_content.as_str()),
            Err(e) => Err(e),
        }
    }
}

} // verus!
