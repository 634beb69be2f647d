//! Errors of the review service and the replies they turn into.

use crate::adapters::{hex_lower, object_id_to_hex};
use crate::catalogue::CatalogueError;
use crate::reply::{hidden, shown, ErrorReply, ErrorReplyView};
use crate::text::{int_decimal, push_signed_decimal};
use vstd::prelude::*;

verus! {

/// Errors of the review service. `Conflict` carries the review's object id.
#[derive(Debug, Clone, PartialEq, Eq)]
pub enum ReviewError {
    NotFound,
    InvalidGameId(i32),
    CatalogueServiceError(String),
    DatabaseError(String),
    AnyhowError(String),
    Unauthorized,
    Conflict([u8; 12]),
}

/// The mathematical value of a [`ReviewError`].
pub enum ReviewErrorView {
    NotFound,
    InvalidGameId(i32),
    CatalogueServiceError(Seq<char>),
    DatabaseError(Seq<char>),
    AnyhowError(Seq<char>),
    Unauthorized,
    Conflict(Seq<u8>),
}

impl View for ReviewError {
    type V = ReviewErrorView;

    open spec fn view(&self) -> ReviewErrorView {
        match self {
            ReviewError::NotFound => ReviewErrorView::NotFound,
            ReviewError::InvalidGameId(g) => ReviewErrorView::InvalidGameId(*g),
            ReviewError::CatalogueServiceError(m) => ReviewErrorView::CatalogueServiceError(m@),
            ReviewError::DatabaseError(m) => ReviewErrorView::DatabaseError(m@),
            ReviewError::AnyhowError(m) => ReviewErrorView::AnyhowError(m@),
            ReviewError::Unauthorized => ReviewErrorView::Unauthorized,
            ReviewError::Conflict(id) => ReviewErrorView::Conflict(id@),
        }
    }
}

/// The text of each error, as its `Display` writes it.
pub open spec fn review_error_text(e: ReviewErrorView) -> Seq<char> {
    match e {
        ReviewErrorView::NotFound => "Review not found"@,
        ReviewErrorView::InvalidGameId(g) => "Game with ID "@ + int_decimal(g as int) + " does not exist"@,
        ReviewErrorView::CatalogueServiceError(m) => "Catalogue service error: "@ + m,
        ReviewErrorView::DatabaseError(m) => "Database error: "@ + m,
        ReviewErrorView::AnyhowError(m) => m,
        ReviewErrorView::Unauthorized => "Unauthorized"@,
        ReviewErrorView::Conflict(id) => "Version mismatch for review with id "@ + hex_lower(id),
    }
}

/// The reply each error turns into: a missing review 404, a bad game id or
/// malformed data 400, someone else's review 403, a version conflict 409,
/// catalogue trouble 502, database errors the hidden internal-error reply.
pub open spec fn review_error_reply(e: ReviewErrorView) -> ErrorReplyView {
    match e {
        ReviewErrorView::InvalidGameId(_) | ReviewErrorView::AnyhowError(_) => ErrorReplyView {
            status: 400,
            message: Some(review_error_text(e)),
        },
        ReviewErrorView::Unauthorized => ErrorReplyView { status: 403, message: Some(review_error_text(e)) },
        ReviewErrorView::Conflict(_) => ErrorReplyView { status: 409, message: Some(review_error_text(e)) },
        ReviewErrorView::NotFound => ErrorReplyView { status: 404, message: Some(review_error_text(e)) },
        ReviewErrorView::CatalogueServiceError(_) => ErrorReplyView {
            status: 502,
            message: Some(review_error_text(e)),
        },
        ReviewErrorView::DatabaseError(_) => ErrorReplyView { status: 500, message: None },
    }
}

impl ReviewError {
    /// The error's text, as its `Display` writes it.
    pub fn message(&self) -> (s: String)
        ensures
            s@ == review_error_text(self@),
    {
        match self {
            ReviewError::NotFound => String::from_str("Review not found"),
            ReviewError::InvalidGameId(g) => {
                let mut s = String::from_str("Game with ID ");
                push_signed_decimal(&mut s, *g as i64);
                s.append(" does not exist");
                s
            },
            ReviewError::CatalogueServiceError(m) => String::from_str("Catalogue service error: ").concat(
                m.as_str(),
            ),
            ReviewError::DatabaseError(m) => String::from_str("Database error: ").concat(m.as_str()),
            ReviewError::AnyhowError(m) => m.clone(),
            ReviewError::Unauthorized => String::from_str("Unauthorized"),
            ReviewError::Conflict(id) => {
                let hex = object_id_to_hex(*id);
                String::from_str("Version mismatch for review with id ").concat(hex.as_str())
            },
        }
    }

    /// The HTTP reply this error turns into.
    pub fn reply(&self) -> (r: ErrorReply)
        ensures
            r@ == review_error_reply(self@),
    {
        match self {
            ReviewError::InvalidGameId(_) | ReviewError::AnyhowError(_) => shown(400, self.message()),
            ReviewError::Unauthorized => shown(403, self.message()),
            ReviewError::Conflict(_) => shown(409, self.message()),
            ReviewError::NotFound => shown(404, self.message()),
            ReviewError::CatalogueServiceError(_) => shown(502, self.message()),
            ReviewError::DatabaseError(_) => hidden(),
        }
    }

    /// The error a failed catalogue check becomes: an unknown game is an
    /// invalid game id, an unreachable catalogue a catalogue service error.
    pub fn from_catalogue(error: CatalogueError) -> (r: ReviewError)
        ensures
            r@ == match error {
                CatalogueError::NotFound(g) => ReviewErrorView::InvalidGameId(g),
                CatalogueError::Unavailable(m) => ReviewErrorView::CatalogueServiceError(m@),
            },
    {
        match error {
            CatalogueError::NotFound(g) => ReviewError::InvalidGameId(g),
            CatalogueError::Unavailable(m) => ReviewError::CatalogueServiceError(m),
        }
    }
}

} // verus!
