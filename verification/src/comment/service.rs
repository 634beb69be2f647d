//! The decisions of the comment endpoints: what a comment may be attached
//! to, what an edit stores, and who may delete.

use crate::adapters::{now_millis, hex_decode, hex_lower, is_object_id_text, object_id_to_hex, parse_object_id};
use crate::comment::error::{CommentError, CommentErrorView};
use crate::comment::model::{Comment, CommentTargetType};
use crate::review::model::Review;
use crate::text::{owned, parse_i32, parse_i32_spec};
use vstd::prelude::*;

verus! {

/// The target of a new comment once its id is read: a game id or the bytes
/// of a review's object id.
#[derive(Debug, Clone, Copy, PartialEq, Eq)]
pub enum CommentTarget {
    Game(i32),
    Review([u8; 12]),
}

/// Reads the id of a new comment's target: a game's id must be an `i32`
/// and a review's id an object id; otherwise the id is refused as invalid.
pub fn comment_target(target_type: CommentTargetType, target_id: &str) -> (r: Result<CommentTarget, CommentError>)
    ensures
        target_type == CommentTargetType::Game ==> match parse_i32_spec(target_id@) {
            Some(g) => r == Ok::<CommentTarget, CommentError>(CommentTarget::Game(g)),
            None => r matches Err(e) && e@ == CommentErrorView::InvalidGameId(target_id@),
        },
        target_type == CommentTargetType::Review ==> if is_object_id_text(target_id@) {
            r matches Ok(CommentTarget::Review(b)) && b@ == hex_decode(target_id@)
        } else {
            r matches Err(e) && e@ == CommentErrorView::InvalidReviewId(target_id@)
        },
{
    match target_type {
        CommentTargetType::Game => match parse_i32(target_id) {
            Some(g) => Ok(CommentTarget::Game(g)),
            None => Err(CommentError::InvalidGameId(owned(target_id))),
        },
        CommentTargetType::Review => match parse_object_id(target_id) {
            Some(b) => Ok(CommentTarget::Review(b)),
            None => Err(CommentError::InvalidReviewId(owned(target_id))),
        },
    }
}

/// The error when looking up the review a comment targets fails: the
/// review id, in hexadecimal, is reported invalid.
pub fn review_lookup_failure(review_id: [u8; 12]) -> (e: CommentError)
    ensures
        e@ == CommentErrorView::InvalidReviewId(hex_lower(review_id@)),
{
    CommentError::InvalidReviewId(object_id_to_hex(review_id))
}

/// The comment a lookup found, or the not-found error.
pub fn found_comment(found: Option<Comment>) -> (r: Result<Comment, CommentError>)
    ensures
        match found {
            Some(c) => r == Ok::<Comment, CommentError>(c),
            None => r matches Err(e) && e@ == CommentErrorView::NotFound,
        },
{
    match found {
        Some(c) => Ok(c),
        None => Err(CommentError::NotFound),
    }
}

/// A comment with new text, changed at time `now`.
pub fn with_new_text(comment: Comment, text: String, now: i64) -> (r: Comment)
    ensures
        r == (Comment { text: text, updated_at: now, ..comment }),
{
    let mut c = comment;
    c.text = text;
    c.updated_at = now;
    c
}

/// A comment with new text, changed at the current time as the clock reads.
pub fn with_new_text_now(comment: Comment, text: String) -> (r: Comment)
    ensures
        exists|t: i64| r == (Comment { text: text, updated_at: t, ..comment }),
{
    let now = now_millis();
    with_new_text(comment, text, now)
}

/// A new comment on a target, created at the current time as the clock
/// reads.
pub fn new_comment_now(
    target_type: CommentTargetType,
    target_id: String,
    user_id: u128,
    username: String,
    text: String,
) -> (r: Comment)
    ensures
        exists|t: i64|
            r == (Comment {
                id: None,
                target_type,
                target_id,
                user_id,
                username,
                text,
                created_at: t,
                updated_at: t,
                version: 0,
                deleted: false,
            }),
{
    let now = now_millis();
    Comment::new(target_type, target_id, user_id, username, text, now)
}

/// A comment on a review needs the review: a lookup that found nothing
/// refuses the comment with the review's id as an invalid review id.
pub fn review_target_found(found: Option<Review>, review_id: [u8; 12]) -> (r: Result<(), CommentError>)
    ensures
        found is Some ==> r is Ok,
        found is None ==> (r matches Err(e) && e@ == CommentErrorView::InvalidReviewId(hex_lower(review_id@))),
{
    match found {
        Some(_) => Ok(()),
        None => Err(CommentError::InvalidReviewId(object_id_to_hex(review_id))),
    }
}

/// Who may change a comment's text: only its author.
pub fn authorize_update(comment: &Comment, user_id: u128) -> (r: Result<(), CommentError>)
    ensures
        comment.user_id != user_id ==> (r matches Err(e) && e@ == CommentErrorView::Unauthorized),
        comment.user_id == user_id ==> r is Ok,
{
    if comment.user_id != user_id {
        Err(CommentError::Unauthorized)
    } else {
        Ok(())
    }
}

/// An edit of a comment's text by `user_id`, at the current time as the
/// clock reads: the comment must exist and be the caller's own.
pub fn edit_comment_now(found: Option<Comment>, user_id: u128, text: String) -> (r: Result<Comment, CommentError>)
    ensures
        match found {
            None => r matches Err(e) && e@ == CommentErrorView::NotFound,
            Some(c) => if c.user_id != user_id {
                r matches Err(e) && e@ == CommentErrorView::Unauthorized
            } else {
                exists|t: i64| r == Ok::<Comment, CommentError>(Comment { text: text, updated_at: t, ..c })
            },
        },
{
    let comment = found_comment(found)?;
    authorize_update(&comment, user_id)?;
    Ok(with_new_text_now(comment, text))
}

/// Who may delete a comment: only its author. Gives the version the delete
/// must match.
pub fn authorize_delete(comment: &Comment, user_id: u128) -> (r: Result<i64, CommentError>)
    ensures
        comment.user_id != user_id ==> (r matches Err(e) && e@ == CommentErrorView::Unauthorized),
        comment.user_id == user_id ==> r == Ok::<i64, CommentError>(comment.version),
{
    if comment.user_id != user_id {
        Err(CommentError::Unauthorized)
    } else {
        Ok(comment.version)
    }
}

/// A versioned replace of a stored comment: the version the stored copy
/// must have, and the comment to store with its version moved up by one.
pub fn prepare_replace(comment: Comment) -> (r: (i64, Comment))
    requires
        comment.version < i64::MAX,
    ensures
        r.0 == comment.version,
        r.1 == (Comment { version: (comment.version + 1) as i64, ..comment }),
{
    let current = comment.version;
    let mut next = comment;
    next.version = current + 1;
    (current, next)
}

/// The outcome of a versioned write to comment `id`: matching no stored
/// comment means another write came first.
pub fn write_outcome(id: [u8; 12], matched_count: u64) -> (r: Result<(), CommentError>)
    ensures
        r is Ok <==> matched_count > 0,
        r matches Err(e) ==> e@ == CommentErrorView::Conflict(id@),
{
    if matched_count == 0 {
        Err(CommentError::Conflict(id))
    } else {
        Ok(())
    }
}

} // verus!
