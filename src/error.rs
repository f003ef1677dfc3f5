use vstd::prelude::*;

verus! {

/// The domain errors of the post service.
#[derive(Debug, Clone, Copy, PartialEq, Eq, Structural)]
pub enum PostError {
    /// The requested entity does not exist.
    NotFound,
    /// The caller may not perform the operation.
    Unauthorized,
    /// The request body or a path parameter is malformed.
    BadRequest,
    /// A uniqueness constraint (the post title) would be violated.
    Conflict,
    /// A storage or infrastructure fault.
    Internal,
}

/// The HTTP status code that each error projects to.
pub open spec fn status_of(e: PostError) -> u16 {
    match e {
        PostError::NotFound => 404,
        PostError::Unauthorized => 401,
        PostError::BadRequest => 400,
        PostError::Conflict => 409,
        PostError::Internal => 500,
    }
}

/// The message text that each error carries to the client.
pub open spec fn message_of(e: PostError) -> Seq<char> {
    match e {
        PostError::NotFound => "not found"@,
        PostError::Unauthorized => "You do not have authorization to modify this post"@,
        PostError::BadRequest => "bad request"@,
        PostError::Conflict => "a post with this title already exists"@,
        PostError::Internal => "internal server error"@,
    }
}

impl PostError {
    /// The status code that the HTTP surface answers with for this error.
    pub fn status_code(&self) -> (r: u16)
        ensures
            r == status_of(*self),
    {
        match self {
            PostError::NotFound => 404,
            PostError::Unauthorized => 401,
            PostError::BadRequest => 400,
            PostError::Conflict => 409,
            PostError::Internal => 500,
        }
    }

    /// The short message returned to the client with this error.
    pub fn message(&self) -> (r: String)
        ensures
            r@ == message_of(*self),
    {
        match self {
            PostError::NotFound => String::from_str("not found"),
            PostError::Unauthorized => String::from_str(
                "You do not have authorization to modify this post",
            ),
            PostError::BadRequest => String::from_str("bad request"),
            PostError::Conflict => String::from_str("a post with this title already exists"),
            PostError::Internal => String::from_str("internal server error"),
        }
    }
}

} // verus!
