use vstd::prelude::*;

use crate::entity::PostRecord;
use crate::error::PostError;
use crate::state::{Operation, StoreView};

verus! {

/// The author of a post never changes: an update by any caller leaves the
/// `user_id` of every post as it was, and an update that succeeds returns
/// the author that the post was inserted with.
pub proof fn law_update_keeps_author(
    s: StoreView,
    id: int,
    pid: Seq<char>,
    title: Seq<char>,
    md_content: Seq<char>,
)
    requires
        s.valid(),
    ensures
        s.after_owner_update(id, pid, title, md_content).posts.dom() == s.posts.dom(),
        forall|k: int|
            #[trigger] s.posts.contains_key(k) ==> s.after_owner_update(
                id,
                pid,
                title,
                md_content,
            ).posts[k].user_id == s.posts[k].user_id,
        s.owner_update_outcome(id, pid, title, md_content) is Ok ==> s.owner_update_outcome(
            id,
            pid,
            title,
            md_content,
        )->Ok_0.user_id == s.posts[id].user_id,
{
    let t = s.after_owner_update(id, pid, title, md_content);
    if s.owner_update_outcome(id, pid, title, md_content) is Ok {
        assert(t.posts.dom() =~= s.posts.dom());
    }
}

/// One operation keeps post ids within the ids handed out, never hands out
/// fewer, never brings back a post id that is gone, and never changes the
/// author of a post that it keeps.
proof fn lemma_apply_step(s: StoreView, op: Operation, k: int)
    requires
        s.ids_bounded(),
    ensures
        s.apply(op).ids_bounded(),
        s.post_count <= s.apply(op).post_count,
        !s.posts.contains_key(k) && k <= s.post_count ==> !s.apply(op).posts.contains_key(k),
        s.posts.contains_key(k) && s.apply(op).posts.contains_key(k) ==> s.apply(op).posts[k].user_id
            == s.posts[k].user_id,
{
}

/// A post id that is gone stays gone.
proof fn lemma_run_keeps_absent(s: StoreView, ops: Seq<Operation>, k: int)
    requires
        s.ids_bounded(),
        !s.posts.contains_key(k),
        k <= s.post_count,
    ensures
        !s.run(ops).posts.contains_key(k),
    decreases ops.len(),
{
    if ops.len() > 0 {
        lemma_apply_step(s, ops[0], k);
        lemma_run_keeps_absent(s.apply(ops[0]), ops.drop_first(), k);
    }
}

/// Over any sequence of operations, a post that exists before and after has
/// the same author before and after: the author set on insert is never
/// changed.
pub proof fn law_author_never_changes(s: StoreView, ops: Seq<Operation>, k: int)
    requires
        s.valid(),
        s.posts.contains_key(k),
        s.run(ops).posts.contains_key(k),
    ensures
        s.run(ops).posts[k].user_id == s.posts[k].user_id,
{
    lemma_author_kept(s, ops, k);
}

proof fn lemma_author_kept(s: StoreView, ops: Seq<Operation>, k: int)
    requires
        s.ids_bounded(),
        s.posts.contains_key(k),
        s.run(ops).posts.contains_key(k),
    ensures
        s.run(ops).posts[k].user_id == s.posts[k].user_id,
    decreases ops.len(),
{
    if ops.len() > 0 {
        let t = s.apply(ops[0]);
        lemma_apply_step(s, ops[0], k);
        if t.posts.contains_key(k) {
            lemma_author_kept(t, ops.drop_first(), k);
        } else {
            lemma_run_keeps_absent(t, ops.drop_first(), k);
        }
    }
}

/// A caller who is not the author of a post can neither update nor delete
/// it: both fail with `Unauthorized` and leave the state unchanged.
pub proof fn law_non_owner_cannot_mutate(
    s: StoreView,
    id: int,
    pid: Seq<char>,
    title: Seq<char>,
    md_content: Seq<char>,
)
    requires
        s.valid(),
        s.posts.contains_key(id),
        !(s.has_pid(pid) && s.user_of(pid) == s.posts[id].user_id),
    ensures
        s.owner_update_outcome(id, pid, title, md_content) == Err::<PostRecord, PostError>(
            PostError::Unauthorized,
        ),
        s.after_owner_update(id, pid, title, md_content) == s,
        s.owner_remove_outcome(id, pid) == Err::<(), PostError>(PostError::Unauthorized),
        s.after_owner_remove(id, pid) == s,
{
}

/// Inserting a second post with a title that a successful insert just used
/// fails with `Conflict` and leaves the state unchanged, whether it is
/// inserted for an existing author or created by a caller who exists.
pub proof fn law_duplicate_title_conflicts(
    s: StoreView,
    title: Seq<char>,
    md1: Seq<char>,
    user1: int,
    md2: Seq<char>,
    user2: int,
    pid2: Seq<char>,
)
    requires
        s.valid(),
        s.insert_outcome(title, md1, user1) is Ok,
    ensures
        ({
            let t = s.after_insert(title, md1, user1);
            &&& t.users.contains_key(user2) ==> t.insert_outcome(title, md2, user2) == Err::<
                PostRecord,
                PostError,
            >(PostError::Conflict)
            &&& t.users.contains_key(user2) ==> t.after_insert(title, md2, user2) == t
            &&& t.has_pid(pid2) ==> t.add_outcome(pid2, title, md2) == Err::<
                PostRecord,
                PostError,
            >(PostError::Conflict)
            &&& t.has_pid(pid2) ==> t.after_add(pid2, title, md2) == t
        }),
{
    let t = s.after_insert(title, md1, user1);
    let p = s.insert_outcome(title, md1, user1)->Ok_0;
    assert(t.posts.contains_key(p.id) && t.posts[p.id].title == title);
    if t.has_pid(pid2) {
        let u = t.user_of(pid2);
        assert(t.users.contains_key(u));
    }
}

/// Deleting a user removes every post of theirs and keeps the others.
pub proof fn law_delete_user_cascades(s: StoreView, user_id: int)
    requires
        s.valid(),
    ensures
        forall|k: int| #[trigger]
            s.after_delete_user(user_id).posts.contains_key(k) ==> s.after_delete_user(
                user_id,
            ).posts[k].user_id != user_id,
        forall|k: int|
            #[trigger] s.posts.contains_key(k) && s.posts[k].user_id != user_id
                ==> s.after_delete_user(user_id).posts.contains_key(k) && s.after_delete_user(
                user_id,
            ).posts[k] == s.posts[k],
        s.after_delete_user(user_id).valid(),
{
    let t = s.after_delete_user(user_id);
    if s.users.contains_key(user_id) {
        assert forall|k: int| #[trigger] t.posts.contains_key(k) implies {
            &&& 1 <= k <= t.post_count
            &&& t.posts[k].id == k
            &&& t.users.contains_key(t.posts[k].user_id)
        } by {
            assert(s.posts.contains_key(k));
        }
        assert forall|a: int, b: int|
            t.posts.contains_key(a) && t.posts.contains_key(b) && a != b implies #[trigger] t.posts[a].title
            != #[trigger] t.posts[b].title by {
            assert(s.posts[a] == t.posts[a] && s.posts[b] == t.posts[b]);
        }
        assert forall|a: int, b: int|
            t.users.contains_key(a) && t.users.contains_key(b) && a != b implies #[trigger] t.users[a]
            != #[trigger] t.users[b] by {
            assert(s.users[a] == t.users[a] && s.users[b] == t.users[b]);
        }
    } else {
        assert forall|k: int| #[trigger] t.posts.contains_key(k) implies t.posts[k].user_id != user_id by {
        }
    }
}

/// Loading the id that a successful insert returned gives back the inserted
/// post.
pub proof fn law_insert_then_load(s: StoreView, title: Seq<char>, md_content: Seq<char>, user_id: int)
    requires
        s.valid(),
        s.insert_outcome(title, md_content, user_id) is Ok,
    ensures
        ({
            let p = s.insert_outcome(title, md_content, user_id)->Ok_0;
            &&& p.title == title
            &&& p.md_content == Some(md_content)
            &&& p.user_id == user_id
            &&& s.after_insert(title, md_content, user_id).load_outcome(p.id) == Ok::<
                PostRecord,
                PostError,
            >(p)
        }),
{
}

/// Applying the same update twice has the effect and the result of
/// applying it once.
pub proof fn law_update_idempotent(
    s: StoreView,
    id: int,
    pid: Seq<char>,
    title: Seq<char>,
    md_content: Seq<char>,
)
    requires
        s.valid(),
    ensures
        ({
            let t = s.after_owner_update(id, pid, title, md_content);
            &&& t.after_owner_update(id, pid, title, md_content) == t
            &&& t.owner_update_outcome(id, pid, title, md_content) == s.owner_update_outcome(
                id,
                pid,
                title,
                md_content,
            )
        }),
{
    let t = s.after_owner_update(id, pid, title, md_content);
    if s.owner_update_outcome(id, pid, title, md_content) is Ok {
        let p = s.owner_update_outcome(id, pid, title, md_content)->Ok_0;
        assert(t.users == s.users);
        assert(t.posts.contains_key(id) && t.posts[id] == p);
        assert(t.posts.insert(id, p) =~= t.posts);
        assert(!t.title_used_by_other(title, id)) by {
            if t.title_used_by_other(title, id) {
                let k = choose|k: int|
                    #[trigger] t.posts.contains_key(k) && k != id && t.posts[k].title == title;
                assert(s.posts.contains_key(k) && s.posts[k] == t.posts[k]);
            }
        }
    } else {
        assert(t == s);
    }
}

/// Every operation on an id that names no post fails with `NotFound` and
/// changes nothing, for a caller who exists.
pub proof fn law_missing_id_not_found(
    s: StoreView,
    id: int,
    pid: Seq<char>,
    title: Seq<char>,
    md_content: Seq<char>,
)
    requires
        s.valid(),
        !s.posts.contains_key(id),
        s.has_pid(pid),
    ensures
        s.load_outcome(id) == Err::<PostRecord, PostError>(PostError::NotFound),
        s.update_outcome(id, title, md_content) == Err::<PostRecord, PostError>(
            PostError::NotFound,
        ),
        s.delete_outcome(id) == Err::<(), PostError>(PostError::NotFound),
        s.owner_update_outcome(id, pid, title, md_content) == Err::<PostRecord, PostError>(
            PostError::NotFound,
        ),
        s.owner_remove_outcome(id, pid) == Err::<(), PostError>(PostError::NotFound),
        s.after_owner_update(id, pid, title, md_content) == s,
        s.after_owner_remove(id, pid) == s,
{
}

} // verus!
