use vstd::prelude::*;

use crate::error::PostError;

verus! {

/// A user as the post service sees it.
#[derive(Debug)]
pub struct User {
    pub id: i32,
    pub pid: String,
    pub picture_url: String,
}

/// A persisted post.
#[derive(Debug)]
pub struct Model {
    pub id: i32,
    pub title: String,
    pub md_content: Option<String>,
    pub user_id: i32,
}

/// The mathematical value of a post.
pub struct PostRecord {
    pub id: int,
    pub title: Seq<char>,
    pub md_content: Option<Seq<char>>,
    pub user_id: int,
}

/// The view of an optional string.
pub open spec fn opt_view(s: Option<String>) -> Option<Seq<char>> {
    match s {
        Some(t) => Some(t@),
        None => None,
    }
}

impl View for Model {
    type V = PostRecord;

    open spec fn view(&self) -> PostRecord {
        PostRecord {
            id: self.id as int,
            title: self.title@,
            md_content: opt_view(self.md_content),
            user_id: self.user_id as int,
        }
    }
}

/// The view of a result that carries a post.
pub open spec fn model_result(r: Result<Model, PostError>) -> Result<PostRecord, PostError> {
    match r {
        Ok(m) => Ok(m@),
        Err(e) => Err(e),
    }
}

impl Model {
    /// A copy of this post.
    pub fn snapshot(&self) -> (r: Model)
        ensures
            r@ == self@,
    {
        let md_content = match &self.md_content {
            Some(s) => Some(s.clone()),
            None => None,
        };
        Model { id: self.id, title: self.title.clone(), md_content, user_id: self.user_id }
    }
}

/// The body of a create or update request.
#[derive(Debug)]
pub struct Params {
    pub title: String,
    pub md_content: String,
}

impl Params {
    /// Writes the title and the content of these parameters into a post;
    /// the id and the author stay as they were.
    pub fn update(&self, item: &mut Model)
        ensures
            final(item)@ == (PostRecord {
                title: self.title@,
                md_content: Some(self.md_content@),
                ..old(item)@
            }),
    {
        item.title = self.title.clone();
        item.md_content = Some(self.md_content.clone());
    }
}

} // verus!
