//! Comments.

use vstd::prelude::*;

verus! {

/// What a comment is about: a game or a review.
#[derive(Debug, Clone, Copy, PartialEq, Eq, Structural)]
pub enum CommentTargetType {
    Game,
    Review,
}

/// The name of a target type, as its `Debug` rendering writes it.
pub open spec fn comment_target_text(t: CommentTargetType) -> Seq<char> {
    match t {
        CommentTargetType::Game => "Game"@,
        CommentTargetType::Review => "Review"@,
    }
}

impl CommentTargetType {
    /// The target type's name, as `format!("{:?}", self)` writes it.
    pub fn as_string(&self) -> (s: String)
        ensures
            s@ == comment_target_text(*self),
    {
        match self {
            CommentTargetType::Game => String::from_str("Game"),
            CommentTargetType::Review => String::from_str("Review"),
        }
    }
}

/// A comment on a game or a review. `target_id` is the game id or the
/// review's object id as text; `id` holds the comment's object id bytes,
/// `user_id` the author's UUID as a number; the times are milliseconds since
/// the Unix epoch. Deleted comments are kept, marked.
#[derive(Debug, Clone, PartialEq, Eq)]
pub struct Comment {
    pub id: Option<[u8; 12]>,
    pub target_type: CommentTargetType,
    pub target_id: String,
    pub user_id: u128,
    pub username: String,
    pub text: String,
    pub created_at: i64,
    pub updated_at: i64,
    pub version: i64,
    pub deleted: bool,
}

impl Comment {
    /// A new comment, not yet stored: no id, version 0, not deleted, updated
    /// when created.
    pub fn new(
        target_type: CommentTargetType,
        target_id: String,
        user_id: u128,
        username: String,
        text: String,
        created_at: i64,
    ) -> (r: Self)
        ensures
            r == (Comment {
                id: None,
                target_type,
                target_id,
                user_id,
                username,
                text,
                created_at,
                updated_at: created_at,
                version: 0,
                deleted: false,
            }),
    {
        Comment {
            id: None,
            target_type,
            target_id,
            user_id,
            username,
            text,
            created_at,
            updated_at: created_at,
            version: 0,
            deleted: false,
        }
    }
}

} // verus!
