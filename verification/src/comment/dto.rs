//! Requests and responses of the comment endpoints.

use crate::adapters::{hex_lower, object_id_to_hex};
use crate::comment::model::{Comment, CommentTargetType};
use crate::text::{lemma_texts_push, texts};
use vstd::prelude::*;

verus! {

/// `seq![name]` when `s` is shorter than `min` characters, else nothing.
pub open spec fn too_short(name: Seq<char>, s: Seq<char>, min: nat) -> Seq<Seq<char>> {
    if s.len() < min {
        seq![name]
    } else {
        Seq::<Seq<char>>::empty()
    }
}

/// Adds `name` to `fields` when `s` has fewer than `min` characters.
fn check_min_length(fields: &mut Vec<String>, name: &str, s: &String, min: usize)
    ensures
        texts(final(fields)@) == texts(old(fields)@) + too_short(name@, s@, min as nat),
{
    let ghost before = fields@;
    if s.as_str().unicode_len() < min {
        fields.push(String::from_str(name));
        proof {
            lemma_texts_push(before, fields@.last());
        }
    }
    assert(texts(fields@) =~= texts(before) + too_short(name@, s@, min as nat));
}

/// Posts a comment on a game or a review.
#[derive(Debug, Clone, PartialEq, Eq)]
pub struct CreateCommentRequest {
    pub target_type: CommentTargetType,
    pub target_id: String,
    pub text: String,
}

impl CreateCommentRequest {
    /// The fields that break their rule: the target id must not be empty,
    /// the text must have at least 10 characters.
    pub fn invalid_fields(&self) -> (r: Vec<String>)
        ensures
            texts(r@) == too_short("target_id"@, self.target_id@, 1) + too_short("text"@, self.text@, 10),
    {
        let mut r: Vec<String> = Vec::new();
        check_min_length(&mut r, "target_id", &self.target_id, 1);
        check_min_length(&mut r, "text", &self.text, 10);
        assert(texts(r@) =~= too_short("target_id"@, self.target_id@, 1) + too_short("text"@, self.text@, 10));
        r
    }
}

/// Replaces the text of the caller's comment.
#[derive(Debug, Clone, PartialEq, Eq)]
pub struct UpdateCommentRequest {
    pub text: String,
}

impl UpdateCommentRequest {
    /// The fields that break their rule: the text must have at least 10
    /// characters.
    pub fn invalid_fields(&self) -> (r: Vec<String>)
        ensures
            texts(r@) == too_short("text"@, self.text@, 10),
    {
        let mut r: Vec<String> = Vec::new();
        check_min_length(&mut r, "text", &self.text, 10);
        assert(texts(r@) =~= too_short("text"@, self.text@, 10));
        r
    }
}

/// Which comments to list: those on one target, a page at a time.
#[derive(Debug, Clone, PartialEq, Eq)]
pub struct CommentQuery {
    pub target_type: CommentTargetType,
    pub target_id: String,
    pub page: u64,
}

impl CommentQuery {
    /// The fields that break their rule: the target id must not be empty.
    pub fn invalid_fields(&self) -> (r: Vec<String>)
        ensures
            texts(r@) == too_short("target_id"@, self.target_id@, 1),
    {
        let mut r: Vec<String> = Vec::new();
        check_min_length(&mut r, "target_id", &self.target_id, 1);
        assert(texts(r@) =~= too_short("target_id"@, self.target_id@, 1));
        r
    }
}

/// A comment as listed under its target.
#[derive(Debug, Clone, PartialEq, Eq)]
pub struct SimpleCommentResponse {
    pub id: String,
    pub user_id: u128,
    pub username: String,
    pub text: String,
    pub created_at: i64,
}

impl SimpleCommentResponse {
    /// The listing entry of a stored comment; its id in hexadecimal.
    pub fn from(value: Comment) -> (r: Self)
        requires
            value.id is Some,
        ensures
            r.id@ == hex_lower(value.id->0@),
            r.user_id == value.user_id,
            r.username == value.username,
            r.text == value.text,
            r.created_at == value.created_at,
    {
        let id = match value.id {
            Some(id) => object_id_to_hex(id),
            None => String::new(),
        };
        SimpleCommentResponse {
            id,
            user_id: value.user_id,
            username: value.username,
            text: value.text,
            created_at: value.created_at,
        }
    }
}

/// A comment with its target.
#[derive(Debug, Clone, PartialEq, Eq)]
pub struct DetailedCommentResponse {
    pub id: String,
    pub target_type: CommentTargetType,
    pub target_id: String,
    pub user_id: u128,
    pub username: String,
    pub text: String,
    pub created_at: i64,
}

impl DetailedCommentResponse {
    /// The response for a stored comment; its id in hexadecimal.
    pub fn from(value: Comment) -> (r: Self)
        requires
            value.id is Some,
        ensures
            r.id@ == hex_lower(value.id->0@),
            r.target_type == value.target_type,
            r.target_id == value.target_id,
            r.user_id == value.user_id,
            r.username == value.username,
            r.text == value.text,
            r.created_at == value.created_at,
    {
        let id = match value.id {
            Some(id) => object_id_to_hex(id),
            None => String::new(),
        };
        DetailedCommentResponse {
            id,
            target_type: value.target_type,
            target_id: value.target_id,
            user_id: value.user_id,
            username: value.username,
            text: value.text,
            created_at: value.created_at,
        }
    }
}

} // verus!
