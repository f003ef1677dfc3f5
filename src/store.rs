use vstd::prelude::*;

use crate::entity::{model_result, Model, User};
use crate::error::PostError;
use crate::state::StoreView;

verus! {

/// The view of a result that carries an id.
pub open spec fn id_result(r: Result<i32, PostError>) -> Result<int, PostError> {
    match r {
        Ok(id) => Ok(id as int),
        Err(e) => Err(e),
    }
}

/// The `users` and `posts` tables. The row with id `k` sits in slot `k - 1`;
/// a deleted row leaves its slot empty, so ids are never reused.
pub struct PostStore {
    users: Vec<Option<User>>,
    posts: Vec<Option<Model>>,
}

impl View for PostStore {
    type V = StoreView;

    closed spec fn view(&self) -> StoreView {
        StoreView {
            users: Map::new(
                |k: int| 1 <= k <= self.users@.len() && self.users@[k - 1] is Some,
                |k: int| self.users@[k - 1]->Some_0.pid@,
            ),
            posts: Map::new(
                |k: int| 1 <= k <= self.posts@.len() && self.posts@[k - 1] is Some,
                |k: int| self.posts@[k - 1]->Some_0@,
            ),
            user_count: self.users@.len(),
            post_count: self.posts@.len(),
        }
    }
}

impl PostStore {
    /// Well-formedness: the view meets the schema's constraints and every
    /// user row holds the id of its slot.
    pub closed spec fn wf(&self) -> bool {
        &&& self@.valid()
        &&& forall|i: int|
            0 <= i < self.users@.len() && #[trigger] self.users@[i] is Some
                ==> self.users@[i]->Some_0.id == i + 1
    }

    /// Empty tables.
    pub fn new() -> (r: PostStore)
        ensures
            r.wf(),
            r@.users == Map::<int, Seq<char>>::empty(),
            r@.posts == Map::<int, crate::entity::PostRecord>::empty(),
            r@.user_count == 0,
            r@.post_count == 0,
    {
        let r = PostStore { users: Vec::new(), posts: Vec::new() };
        assert(r@.users =~= Map::<int, Seq<char>>::empty());
        assert(r@.posts =~= Map::<int, crate::entity::PostRecord>::empty());
        r
    }

    /// Resolves a user's public identifier to the user's id.
    pub fn resolve(&self, pid: &str) -> (r: Result<i32, PostError>)
        requires
            self.wf(),
        ensures
            id_result(r) == self@.resolve_outcome(pid@),
    {
        let target = pid.to_owned();
        let mut i: usize = 0;
        while i < self.users.len()
            invariant
                self.wf(),
                0 <= i <= self.users@.len(),
                target@ == pid@,
                forall|j: int|
                    0 <= j < i && #[trigger] self.users@[j] is Some ==> self.users@[j]->Some_0.pid@
                        != pid@,
            decreases self.users@.len() - i,
        {
            match &self.users[i] {
                Some(u) => {
                    if u.pid == target {
                        proof {
                            let k = i as int + 1;
                            assert(self@.users.contains_key(k) && self@.users[k] == pid@);
                            let c = self@.user_of(pid@);
                            assert(self@.users.contains_key(c) && self@.users[c] == pid@);
                        }
                        return Ok(u.id);
                    }
                },
                None => {},
            }
            i += 1;
        }
        proof {
            if self@.has_pid(pid@) {
                let k = choose|k: int| #[trigger]
                    self@.users.contains_key(k) && self@.users[k] == pid@;
                assert(self.users@[k - 1] is Some);
            }
        }
        Err(PostError::NotFound)
    }

    /// Whether a user with this id exists.
    pub fn has_user(&self, user_id: i32) -> (r: bool)
        ensures
            r == self@.users.contains_key(user_id as int),
    {
        if user_id >= 1 && (user_id as usize) <= self.users.len() {
            self.users[(user_id - 1) as usize].is_some()
        } else {
            false
        }
    }

    /// Whether a post other than the one with id `except` holds this title.
    fn title_held_by_other(&self, title: &String, except: i32) -> (r: bool)
        requires
            self.wf(),
        ensures
            r == self@.title_used_by_other(title@, except as int),
    {
        let mut i: usize = 0;
        while i < self.posts.len()
            invariant
                self.wf(),
                0 <= i <= self.posts@.len(),
                forall|j: int|
                    0 <= j < i && #[trigger] self.posts@[j] is Some && j + 1 != except
                        ==> self.posts@[j]->Some_0.title@ != title@,
            decreases self.posts@.len() - i,
        {
            match &self.posts[i] {
                Some(m) => {
                    assert(self@.posts.contains_key(i as int + 1));
                    if m.id != except && m.title == *title {
                        return true;
                    }
                },
                None => {},
            }
            i += 1;
        }
        proof {
            if self@.title_used_by_other(title@, except as int) {
                let k = choose|k: int| #[trigger]
                    self@.posts.contains_key(k) && k != except && self@.posts[k].title == title@;
                assert(self.posts@[k - 1] is Some);
            }
        }
        false
    }

    /// Loads the post with this id.
    pub fn load(&self, id: i32) -> (r: Result<Model, PostError>)
        requires
            self.wf(),
        ensures
            model_result(r) == self@.load_outcome(id as int),
            r is Ok ==> r->Ok_0.id == id,
    {
        if id >= 1 && (id as usize) <= self.posts.len() {
            match &self.posts[(id - 1) as usize] {
                Some(m) => {
                    return Ok(m.snapshot());
                },
                None => {},
            }
        }
        Err(PostError::NotFound)
    }

    /// Inserts a post by the user `user_id`, assigning the next id.
    pub fn insert(&mut self, title: &str, md_content: &str, user_id: i32) -> (r: Result<
        Model,
        PostError,
    >)
        requires
            old(self).wf(),
        ensures
            final(self).wf(),
            model_result(r) == old(self)@.insert_outcome(title@, md_content@, user_id as int),
            final(self)@ == old(self)@.after_insert(title@, md_content@, user_id as int),
    {
        if title.is_empty() {
            return Err(PostError::BadRequest);
        }
        if !self.has_user(user_id) {
            return Err(PostError::NotFound);
        }
        let t = title.to_owned();
        if self.title_held_by_other(&t, 0) {
            proof {
                let k = choose|k: int| #[trigger]
                    self@.posts.contains_key(k) && k != 0 && self@.posts[k].title == title@;
                assert(self@.title_used(title@));
            }
            return Err(PostError::Conflict);
        }
        if self.posts.len() >= i32::MAX as usize {
            return Err(PostError::Internal);
        }
        let id = (self.posts.len() + 1) as i32;
        let m = Model { id, title: t, md_content: Some(md_content.to_owned()), user_id };
        let r = m.snapshot();
        self.posts.push(Some(m));
        proof {
            let o = old(self)@;
            assert(!o.title_used(title@)) by {
                if o.title_used(title@) {
                    let k = choose|k: int| #[trigger]
                        o.posts.contains_key(k) && o.posts[k].title == title@;
                    assert(o.title_used_by_other(title@, 0));
                }
            }
            assert(self@.posts =~= o.posts.insert(id as int, r@));
            assert(self@.users =~= o.users);
        }
        Ok(r)
    }

    /// All posts, in order of id.
    pub fn list(&self) -> (r: Vec<Model>)
        requires
            self.wf(),
        ensures
            forall|i: int|
                0 <= i < r@.len() ==> self@.posts.contains_key(#[trigger] r@[i]@.id)
                    && self@.posts[r@[i]@.id] == r@[i]@,
            forall|k: int| #[trigger]
                self@.posts.contains_key(k) ==> exists|i: int|
                    0 <= i < r@.len() && #[trigger] r@[i]@.id == k,
            forall|i: int, j: int| 0 <= i < j < r@.len() ==> r@[i]@.id < r@[j]@.id,
    {
        let mut r: Vec<Model> = Vec::new();
        let mut i: usize = 0;
        while i < self.posts.len()
            invariant
                self.wf(),
                0 <= i <= self.posts@.len(),
                forall|x: int|
                    0 <= x < r@.len() ==> self@.posts.contains_key(#[trigger] r@[x]@.id)
                        && self@.posts[r@[x]@.id] == r@[x]@ && r@[x]@.id <= i,
                forall|k: int| #[trigger]
                    self@.posts.contains_key(k) && k <= i ==> exists|x: int|
                        0 <= x < r@.len() && #[trigger] r@[x]@.id == k,
                forall|x: int, y: int| 0 <= x < y < r@.len() ==> r@[x]@.id < r@[y]@.id,
            decreases self.posts@.len() - i,
        {
            let ghost before = r@;
            match &self.posts[i] {
                Some(m) => {
                    assert(self@.posts.contains_key(i as int + 1));
                    r.push(m.snapshot());
                    proof {
                        assert forall|k: int| #[trigger]
                            self@.posts.contains_key(k) && k <= i + 1 implies exists|x: int|
                            0 <= x < r@.len() && #[trigger] r@[x]@.id == k by {
                            if k <= i {
                                let x = choose|x: int| 0 <= x < before.len() && #[trigger] before[x]@.id == k;
                                assert(r@[x] == before[x]);
                            } else {
                                assert(r@[r@.len() - 1]@.id == k);
                            }
                        }
                    }
                },
                None => {
                    assert(!self@.posts.contains_key(i as int + 1));
                },
            }
            i += 1;
        }
        r
    }

    /// Overwrites the title and the content of the post with this id.
    pub fn update(&mut self, id: i32, title: &str, md_content: &str) -> (r: Result<
        Model,
        PostError,
    >)
        requires
            old(self).wf(),
        ensures
            final(self).wf(),
            model_result(r) == old(self)@.update_outcome(id as int, title@, md_content@),
            final(self)@ == old(self)@.after_update(id as int, title@, md_content@),
    {
        if !(id >= 1 && (id as usize) <= self.posts.len()) {
            return Err(PostError::NotFound);
        }
        let idx = (id - 1) as usize;
        let user_id = match &self.posts[idx] {
            Some(m) => m.user_id,
            None => {
                return Err(PostError::NotFound);
            },
        };
        if title.is_empty() {
            return Err(PostError::BadRequest);
        }
        let t = title.to_owned();
        if self.title_held_by_other(&t, id) {
            return Err(PostError::Conflict);
        }
        let m = Model { id, title: t, md_content: Some(md_content.to_owned()), user_id };
        let r = m.snapshot();
        self.posts.set(idx, Some(m));
        proof {
            let o = old(self)@;
            assert(o.posts.contains_key(id as int));
            assert(self@.posts =~= o.posts.insert(id as int, r@));
            assert(self@.users =~= o.users);
            assert forall|a: int, b: int|
                self@.posts.contains_key(a) && self@.posts.contains_key(b) && a != b implies #[trigger] self@.posts[a].title
                != #[trigger] self@.posts[b].title by {
                if a != id && b != id {
                    assert(o.posts[a] == self@.posts[a] && o.posts[b] == self@.posts[b]);
                } else if a == id {
                    assert(o.posts[b] == self@.posts[b]);
                } else {
                    assert(o.posts[a] == self@.posts[a]);
                }
            }
        }
        Ok(r)
    }

    /// Deletes the post with this id.
    pub fn delete(&mut self, id: i32) -> (r: Result<(), PostError>)
        requires
            old(self).wf(),
        ensures
            final(self).wf(),
            r == old(self)@.delete_outcome(id as int),
            final(self)@ == old(self)@.after_delete(id as int),
    {
        if !(id >= 1 && (id as usize) <= self.posts.len()) {
            return Err(PostError::NotFound);
        }
        let idx = (id - 1) as usize;
        if self.posts[idx].is_none() {
            return Err(PostError::NotFound);
        }
        self.posts.set(idx, None);
        proof {
            let o = old(self)@;
            assert(self@.posts =~= o.posts.remove(id as int));
            assert(self@.users =~= o.users);
            assert forall|a: int, b: int|
                self@.posts.contains_key(a) && self@.posts.contains_key(b) && a != b implies #[trigger] self@.posts[a].title
                != #[trigger] self@.posts[b].title by {
                assert(o.posts[a] == self@.posts[a] && o.posts[b] == self@.posts[b]);
            }
        }
        Ok(())
    }

    /// Registers a user with this public identifier, assigning the next id.
    pub fn add_user(&mut self, pid: &str, picture_url: &str) -> (r: Result<i32, PostError>)
        requires
            old(self).wf(),
        ensures
            final(self).wf(),
            id_result(r) == old(self)@.add_user_outcome(pid@),
            final(self)@ == old(self)@.after_add_user(pid@),
    {
        if self.resolve(pid).is_ok() {
            return Err(PostError::Conflict);
        }
        if self.users.len() >= i32::MAX as usize {
            return Err(PostError::Internal);
        }
        let id = (self.users.len() + 1) as i32;
        let u = User { id, pid: pid.to_owned(), picture_url: picture_url.to_owned() };
        self.users.push(Some(u));
        proof {
            let o = old(self)@;
            assert(self@.users =~= o.users.insert(id as int, pid@));
            assert(self@.posts =~= o.posts);
            assert forall|a: int, b: int|
                self@.users.contains_key(a) && self@.users.contains_key(b) && a != b implies #[trigger] self@.users[a]
                != #[trigger] self@.users[b] by {
                if a != id && b != id {
                    assert(o.users[a] == self@.users[a] && o.users[b] == self@.users[b]);
                } else if a == id {
                    assert(o.users.contains_key(b) && o.users[b] == self@.users[b]);
                } else {
                    assert(o.users.contains_key(a) && o.users[a] == self@.users[a]);
                }
            }
        }
        Ok(id)
    }

    /// Deletes the user with this id together with all of their posts.
    pub fn delete_user(&mut self, user_id: i32) -> (r: Result<(), PostError>)
        requires
            old(self).wf(),
        ensures
            final(self).wf(),
            r == old(self)@.delete_user_outcome(user_id as int),
            final(self)@ == old(self)@.after_delete_user(user_id as int),
    {
        if !self.has_user(user_id) {
            return Err(PostError::NotFound);
        }
        let ghost o = self@;
        let ghost old_posts = self.posts@;
        let mut i: usize = 0;
        while i < self.posts.len()
            invariant
                self.users@ == old(self).users@,
                self.posts@.len() == old_posts.len(),
                0 <= i <= self.posts@.len(),
                forall|j: int|
                    0 <= j < i ==> #[trigger] self.posts@[j] == (if old_posts[j] is Some
                        && old_posts[j]->Some_0.user_id == user_id {
                        None
                    } else {
                        old_posts[j]
                    }),
                forall|j: int| i <= j < self.posts@.len() ==> #[trigger] self.posts@[j] == old_posts[j],
            decreases self.posts@.len() - i,
        {
            let drop = match &self.posts[i] {
                Some(m) => m.user_id == user_id,
                None => false,
            };
            if drop {
                self.posts.set(i, None);
            }
            i += 1;
        }
        let idx = (user_id - 1) as usize;
        self.users.set(idx, None);
        proof {
            assert(self@.users =~= o.users.remove(user_id as int));
            assert(self@.posts =~= o.posts_without_author(user_id as int));
            assert forall|a: int, b: int|
                self@.users.contains_key(a) && self@.users.contains_key(b) && a != b implies #[trigger] self@.users[a]
                != #[trigger] self@.users[b] by {
                assert(o.users[a] == self@.users[a] && o.users[b] == self@.users[b]);
            }
            assert forall|a: int, b: int|
                self@.posts.contains_key(a) && self@.posts.contains_key(b) && a != b implies #[trigger] self@.posts[a].title
                != #[trigger] self@.posts[b].title by {
                assert(o.posts[a] == self@.posts[a] && o.posts[b] == self@.posts[b]);
            }
            assert forall|i: int|
                0 <= i < self.users@.len() && #[trigger] self.users@[i] is Some implies self.users@[i]->Some_0.id == i + 1 by {
                assert(old(self).users@[i] is Some);
            }
        }
        Ok(())
    }
}

} // verus!
