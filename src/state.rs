use vstd::prelude::*;

use crate::entity::PostRecord;
use crate::error::PostError;

verus! {

/// The largest id that a 32-bit key column can hold.
pub open spec fn max_id() -> int {
    i32::MAX as int
}

/// The persisted state: users (id to pid) and posts (id to post), with the
/// number of ids of each table handed out so far.
pub struct StoreView {
    pub users: Map<int, Seq<char>>,
    pub posts: Map<int, PostRecord>,
    pub user_count: nat,
    pub post_count: nat,
}

/// Whether the caller is the author of the post.
pub open spec fn authorize(caller: int, post: PostRecord) -> Result<(), PostError> {
    if caller == post.user_id {
        Ok(())
    } else {
        Err(PostError::Unauthorized)
    }
}

/// The decision before a mutation, from what was read: the caller's user id
/// (`None` where the pid names no user) and the post (`None` where no post
/// has the id).
pub open spec fn mutation_decision(caller: Option<int>, post: Option<PostRecord>) -> Result<
    (),
    PostError,
> {
    match caller {
        None => Err(PostError::Unauthorized),
        Some(c) => match post {
            None => Err(PostError::NotFound),
            Some(p) => authorize(c, p),
        },
    }
}

impl StoreView {
    /// The schema's constraints: ids within what was handed out, every post
    /// keyed by its own id and referring to an existing user, pids unique and
    /// titles unique.
    pub open spec fn valid(self) -> bool {
        &&& self.user_count <= max_id()
        &&& self.post_count <= max_id()
        &&& forall|k: int| #[trigger] self.users.contains_key(k) ==> 1 <= k <= self.user_count
        &&& forall|k: int| #[trigger]
            self.posts.contains_key(k) ==> {
                &&& 1 <= k <= self.post_count
                &&& self.posts[k].id == k
                &&& self.users.contains_key(self.posts[k].user_id)
            }
        &&& forall|a: int, b: int|
            #![trigger self.users[a], self.users[b]]
            self.users.contains_key(a) && self.users.contains_key(b) && a != b ==> self.users[a]
                != self.users[b]
        &&& forall|a: int, b: int|
            #![trigger self.posts[a], self.posts[b]]
            self.posts.contains_key(a) && self.posts.contains_key(b) && a != b
                ==> self.posts[a].title != self.posts[b].title
    }

    /// Whether some post holds this title.
    pub open spec fn title_used(self, title: Seq<char>) -> bool {
        exists|k: int| #[trigger] self.posts.contains_key(k) && self.posts[k].title == title
    }

    /// Whether some post other than `id` holds this title.
    pub open spec fn title_used_by_other(self, title: Seq<char>, id: int) -> bool {
        exists|k: int|
            #[trigger] self.posts.contains_key(k) && k != id && self.posts[k].title == title
    }

    /// Whether some user has this pid.
    pub open spec fn has_pid(self, pid: Seq<char>) -> bool {
        exists|k: int| #[trigger] self.users.contains_key(k) && self.users[k] == pid
    }

    /// The id of the user with this pid (meaningful where `has_pid`).
    pub open spec fn user_of(self, pid: Seq<char>) -> int {
        choose|k: int| #[trigger] self.users.contains_key(k) && self.users[k] == pid
    }

    /// Resolving a pid to a user id.
    pub open spec fn resolve_outcome(self, pid: Seq<char>) -> Result<int, PostError> {
        if self.has_pid(pid) {
            Ok(self.user_of(pid))
        } else {
            Err(PostError::NotFound)
        }
    }

    /// Registering a user.
    pub open spec fn add_user_outcome(self, pid: Seq<char>) -> Result<int, PostError> {
        if self.has_pid(pid) {
            Err(PostError::Conflict)
        } else if self.user_count >= max_id() {
            Err(PostError::Internal)
        } else {
            Ok(self.user_count + 1 as int)
        }
    }

    /// The state after registering a user: the new user is added.
    pub open spec fn after_add_user(self, pid: Seq<char>) -> StoreView {
        match self.add_user_outcome(pid) {
            Ok(id) => StoreView {
                users: self.users.insert(id, pid),
                user_count: self.user_count + 1,
                ..self
            },
            Err(_) => self,
        }
    }

    /// Deleting a user.
    pub open spec fn delete_user_outcome(self, user_id: int) -> Result<(), PostError> {
        if self.users.contains_key(user_id) {
            Ok(())
        } else {
            Err(PostError::NotFound)
        }
    }

    /// The posts of every author but `user_id`.
    pub open spec fn posts_without_author(self, user_id: int) -> Map<int, PostRecord> {
        Map::new(
            |k: int| self.posts.contains_key(k) && self.posts[k].user_id != user_id,
            |k: int| self.posts[k],
        )
    }

    /// Deleting a user removes the user and, by cascade, all of their posts.
    pub open spec fn after_delete_user(self, user_id: int) -> StoreView {
        if self.users.contains_key(user_id) {
            StoreView {
                users: self.users.remove(user_id),
                posts: self.posts_without_author(user_id),
                ..self
            }
        } else {
            self
        }
    }

    /// Inserting a post.
    pub open spec fn insert_outcome(self, title: Seq<char>, md_content: Seq<char>, user_id: int)
        -> Result<PostRecord, PostError> {
        if title.len() == 0 {
            Err(PostError::BadRequest)
        } else if !self.users.contains_key(user_id) {
            Err(PostError::NotFound)
        } else if self.title_used(title) {
            Err(PostError::Conflict)
        } else if self.post_count >= max_id() {
            Err(PostError::Internal)
        } else {
            Ok(
                PostRecord {
                    id: self.post_count + 1 as int,
                    title,
                    md_content: Some(md_content),
                    user_id,
                },
            )
        }
    }

    /// The state after inserting a post: the new post is added under its id.
    pub open spec fn after_insert(self, title: Seq<char>, md_content: Seq<char>, user_id: int)
        -> StoreView {
        match self.insert_outcome(title, md_content, user_id) {
            Ok(p) => StoreView {
                posts: self.posts.insert(p.id, p),
                post_count: self.post_count + 1,
                ..self
            },
            Err(_) => self,
        }
    }

    /// Loading a post by id.
    pub open spec fn load_outcome(self, id: int) -> Result<PostRecord, PostError> {
        if self.posts.contains_key(id) {
            Ok(self.posts[id])
        } else {
            Err(PostError::NotFound)
        }
    }

    /// Overwriting the title and the content of a post.
    pub open spec fn update_outcome(self, id: int, title: Seq<char>, md_content: Seq<char>)
        -> Result<PostRecord, PostError> {
        if !self.posts.contains_key(id) {
            Err(PostError::NotFound)
        } else if title.len() == 0 {
            Err(PostError::BadRequest)
        } else if self.title_used_by_other(title, id) {
            Err(PostError::Conflict)
        } else {
            Ok(PostRecord { title, md_content: Some(md_content), ..self.posts[id] })
        }
    }

    /// The state after overwriting a post: the post is replaced under its id.
    pub open spec fn after_update(self, id: int, title: Seq<char>, md_content: Seq<char>)
        -> StoreView {
        match self.update_outcome(id, title, md_content) {
            Ok(p) => StoreView { posts: self.posts.insert(id, p), ..self },
            Err(_) => self,
        }
    }

    /// Deleting a post.
    pub open spec fn delete_outcome(self, id: int) -> Result<(), PostError> {
        if self.posts.contains_key(id) {
            Ok(())
        } else {
            Err(PostError::NotFound)
        }
    }

    /// The state after deleting a post: the post is gone.
    pub open spec fn after_delete(self, id: int) -> StoreView {
        if self.posts.contains_key(id) {
            StoreView { posts: self.posts.remove(id), ..self }
        } else {
            self
        }
    }

    /// Creating a post as the caller with this pid; a pid that names no user
    /// is refused as unauthorized.
    pub open spec fn add_outcome(self, pid: Seq<char>, title: Seq<char>, md_content: Seq<char>)
        -> Result<PostRecord, PostError> {
        if !self.has_pid(pid) {
            Err(PostError::Unauthorized)
        } else {
            self.insert_outcome(title, md_content, self.user_of(pid))
        }
    }

    /// The state after creating a post as the caller with this pid.
    pub open spec fn after_add(self, pid: Seq<char>, title: Seq<char>, md_content: Seq<char>)
        -> StoreView {
        if !self.has_pid(pid) {
            self
        } else {
            self.after_insert(title, md_content, self.user_of(pid))
        }
    }

    /// The checks that precede a mutation of post `id` by the caller with
    /// this pid: the caller exists, the post exists, the caller is its author.
    pub open spec fn mutation_check(self, id: int, pid: Seq<char>) -> Result<(), PostError> {
        mutation_decision(
            if self.has_pid(pid) {
                Some(self.user_of(pid))
            } else {
                None
            },
            if self.posts.contains_key(id) {
                Some(self.posts[id])
            } else {
                None
            },
        )
    }

    /// Updating a post as the caller with this pid.
    pub open spec fn owner_update_outcome(
        self,
        id: int,
        pid: Seq<char>,
        title: Seq<char>,
        md_content: Seq<char>,
    ) -> Result<PostRecord, PostError> {
        match self.mutation_check(id, pid) {
            Ok(_) => self.update_outcome(id, title, md_content),
            Err(e) => Err(e),
        }
    }

    /// The state after updating a post as the caller with this pid.
    pub open spec fn after_owner_update(
        self,
        id: int,
        pid: Seq<char>,
        title: Seq<char>,
        md_content: Seq<char>,
    ) -> StoreView {
        match self.mutation_check(id, pid) {
            Ok(_) => self.after_update(id, title, md_content),
            Err(_) => self,
        }
    }

    /// Deleting a post as the caller with this pid.
    pub open spec fn owner_remove_outcome(self, id: int, pid: Seq<char>) -> Result<(), PostError> {
        match self.mutation_check(id, pid) {
            Ok(_) => self.delete_outcome(id),
            Err(e) => Err(e),
        }
    }

    /// The state after deleting a post as the caller with this pid.
    pub open spec fn after_owner_remove(self, id: int, pid: Seq<char>) -> StoreView {
        match self.mutation_check(id, pid) {
            Ok(_) => self.after_delete(id),
            Err(_) => self,
        }
    }

    /// Every post id lies within the ids handed out so far.
    pub open spec fn ids_bounded(self) -> bool {
        forall|k: int| #[trigger] self.posts.contains_key(k) ==> 1 <= k <= self.post_count
    }

    /// The state after an operation, whatever its outcome.
    pub open spec fn apply(self, op: Operation) -> StoreView {
        match op {
            Operation::AddUser { pid } => self.after_add_user(pid),
            Operation::DeleteUser { user_id } => self.after_delete_user(user_id),
            Operation::Insert { title, md_content, user_id } => self.after_insert(
                title,
                md_content,
                user_id,
            ),
            Operation::Update { id, title, md_content } => self.after_update(id, title, md_content),
            Operation::Delete { id } => self.after_delete(id),
            Operation::Add { pid, title, md_content } => self.after_add(pid, title, md_content),
            Operation::OwnerUpdate { id, pid, title, md_content } => self.after_owner_update(
                id,
                pid,
                title,
                md_content,
            ),
            Operation::OwnerRemove { id, pid } => self.after_owner_remove(id, pid),
        }
    }

    /// The state after a sequence of operations, applied in order.
    pub open spec fn run(self, ops: Seq<Operation>) -> StoreView
        decreases ops.len(),
    {
        if ops.len() == 0 {
            self
        } else {
            self.apply(ops[0]).run(ops.drop_first())
        }
    }
}

/// An operation on the store: those of the repository, and those performed
/// on behalf of a caller identified by pid.
pub enum Operation {
    AddUser { pid: Seq<char> },
    DeleteUser { user_id: int },
    Insert { title: Seq<char>, md_content: Seq<char>, user_id: int },
    Update { id: int, title: Seq<char>, md_content: Seq<char> },
    Delete { id: int },
    Add { pid: Seq<char>, title: Seq<char>, md_content: Seq<char> },
    OwnerUpdate { id: int, pid: Seq<char>, title: Seq<char>, md_content: Seq<char> },
    OwnerRemove { id: int, pid: Seq<char> },
}

} // verus!
