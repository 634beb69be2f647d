//! Errors of the comment endpoints and the replies they turn into.

use crate::adapters::{hex_lower, object_id_to_hex};
use crate::catalogue::CatalogueError;
use crate::text::{i32_to_text, int_decimal};
use crate::reply::{hidden, shown, ErrorReply, ErrorReplyView};
use vstd::prelude::*;

verus! {

/// Errors of the comment endpoints. A database error carries its message
/// and whether it reports a duplicate key; `Conflict` carries the comment's
/// object id.
#[derive(Debug, Clone, PartialEq, Eq)]
pub enum CommentError {
    NotFound,
    InvalidGameId(String),
    InvalidReviewId(String),
    CatalogueServiceError(String),
    DatabaseError { message: String, duplicate_key: bool },
    AnyhowError(String),
    Unauthorized,
    Conflict([u8; 12]),
}

/// The mathematical value of a [`CommentError`].
pub enum CommentErrorView {
    NotFound,
    InvalidGameId(Seq<char>),
    InvalidReviewId(Seq<char>),
    CatalogueServiceError(Seq<char>),
    DatabaseError { message: Seq<char>, duplicate_key: bool },
    AnyhowError(Seq<char>),
    Unauthorized,
    Conflict(Seq<u8>),
}

impl View for CommentError {
    type V = CommentErrorView;

    open spec fn view(&self) -> CommentErrorView {
        match self {
            CommentError::NotFound => CommentErrorView::NotFound,
            CommentError::InvalidGameId(s) => CommentErrorView::InvalidGameId(s@),
            CommentError::InvalidReviewId(s) => CommentErrorView::InvalidReviewId(s@),
            CommentError::CatalogueServiceError(m) => CommentErrorView::CatalogueServiceError(m@),
            CommentError::DatabaseError { message, duplicate_key } => CommentErrorView::DatabaseError {
                message: message@,
                duplicate_key: *duplicate_key,
            },
            CommentError::AnyhowError(m) => CommentErrorView::AnyhowError(m@),
            CommentError::Unauthorized => CommentErrorView::Unauthorized,
            CommentError::Conflict(id) => CommentErrorView::Conflict(id@),
        }
    }
}

/// The text of each error, as its `Display` writes it.
pub open spec fn comment_error_text(e: CommentErrorView) -> Seq<char> {
    match e {
        CommentErrorView::NotFound => "Comment not found"@,
        CommentErrorView::InvalidGameId(s) => "Invalid game id: "@ + s,
        CommentErrorView::InvalidReviewId(s) => "Invalid review id: "@ + s,
        CommentErrorView::CatalogueServiceError(m) => "Catalogue service error: "@ + m,
        CommentErrorView::DatabaseError { message, duplicate_key } => "Database error: "@ + message,
        CommentErrorView::AnyhowError(m) => m,
        CommentErrorView::Unauthorized => "Unauthorized"@,
        CommentErrorView::Conflict(id) => "Version mismatch for comment with id "@ + hex_lower(id),
    }
}

/// The reply each error turns into: a bad target id or malformed data 400,
/// catalogue trouble 502, someone else's comment 403, a missing comment 404,
/// a version conflict or duplicate key 409, other database errors the hidden
/// internal-error reply.
pub open spec fn comment_error_reply(e: CommentErrorView) -> ErrorReplyView {
    match e {
        CommentErrorView::InvalidGameId(_) | CommentErrorView::InvalidReviewId(_) | CommentErrorView::AnyhowError(
            _,
        ) => ErrorReplyView { status: 400, message: Some(comment_error_text(e)) },
        CommentErrorView::CatalogueServiceError(_) => ErrorReplyView {
            status: 502,
            message: Some(comment_error_text(e)),
        },
        CommentErrorView::Unauthorized => ErrorReplyView { status: 403, message: Some(comment_error_text(e)) },
        CommentErrorView::NotFound => ErrorReplyView { status: 404, message: Some(comment_error_text(e)) },
        CommentErrorView::Conflict(_) => ErrorReplyView { status: 409, message: Some(comment_error_text(e)) },
        CommentErrorView::DatabaseError { message, duplicate_key } => if duplicate_key {
            ErrorReplyView { status: 409, message: Some(message) }
        } else {
            ErrorReplyView { status: 500, message: None }
        },
    }
}

impl CommentError {
    /// The error's text, as its `Display` writes it.
    pub fn message(&self) -> (s: String)
        ensures
            s@ == comment_error_text(self@),
    {
        match self {
            CommentError::NotFound => String::from_str("Comment not found"),
            CommentError::InvalidGameId(s) => String::from_str("Invalid game id: ").concat(s.as_str()),
            CommentError::InvalidReviewId(s) => String::from_str("Invalid review id: ").concat(s.as_str()),
            CommentError::CatalogueServiceError(m) => String::from_str("Catalogue service error: ").concat(
                m.as_str(),
            ),
            CommentError::DatabaseError { message, .. } => String::from_str("Database error: ").concat(
                message.as_str(),
            ),
            CommentError::AnyhowError(m) => m.clone(),
            CommentError::Unauthorized => String::from_str("Unauthorized"),
            CommentError::Conflict(id) => {
                let hex = object_id_to_hex(*id);
                String::from_str("Version mismatch for comment with id ").concat(hex.as_str())
            },
        }
    }

    /// The HTTP reply this error turns into.
    pub fn reply(&self) -> (r: ErrorReply)
        ensures
            r@ == comment_error_reply(self@),
    {
        match self {
            CommentError::InvalidGameId(_) | CommentError::InvalidReviewId(_) | CommentError::AnyhowError(_) => shown(
                400,
                self.message(),
            ),
            CommentError::CatalogueServiceError(_) => shown(502, self.message()),
            CommentError::Unauthorized => shown(403, self.message()),
            CommentError::NotFound => shown(404, self.message()),
            CommentError::Conflict(_) => shown(409, self.message()),
            CommentError::DatabaseError { message, duplicate_key } => {
                if *duplicate_key {
                    shown(409, message.clone())
                } else {
                    hidden()
                }
            },
        }
    }

    /// The error a failed catalogue check of a commented game becomes: an
    /// unknown game is an invalid game id, an unreachable catalogue a
    /// catalogue service error.
    pub fn from_catalogue(error: CatalogueError) -> (r: CommentError)
        ensures
            r@ == match error {
                CatalogueError::NotFound(g) => CommentErrorView::InvalidGameId(int_decimal(g as int)),
                CatalogueError::Unavailable(m) => CommentErrorView::CatalogueServiceError(m@),
            },
    {
        match error {
            CatalogueError::NotFound(g) => CommentError::InvalidGameId(i32_to_text(g)),
            CatalogueError::Unavailable(m) => CommentError::CatalogueServiceError(m),
        }
    }
}

} // verus!
