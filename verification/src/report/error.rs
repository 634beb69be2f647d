//! Errors of the report endpoints and the replies they turn into.

use crate::adapters::{hex_lower, object_id_to_hex};
use crate::comment::error::{comment_error_reply, comment_error_text, CommentError, CommentErrorView};
use crate::reply::{hidden, shown, ErrorReply, ErrorReplyView};
use crate::review::error::{review_error_reply, review_error_text, ReviewError, ReviewErrorView};
use vstd::prelude::*;

verus! {

/// Errors of the report endpoints; errors of the review and comment stores
/// pass through.
#[derive(Debug, Clone, PartialEq, Eq)]
pub enum ReportError {
    IllegalStatus(String),
    CantResolveOwnReport,
    NotFound,
    AlreadyReported,
    DatabaseError(String),
    Conflict([u8; 12]),
    AnyhowError(String),
    ReviewError(ReviewError),
    CommentError(CommentError),
}

/// The mathematical value of a [`ReportError`].
pub enum ReportErrorView {
    IllegalStatus(Seq<char>),
    CantResolveOwnReport,
    NotFound,
    AlreadyReported,
    DatabaseError(Seq<char>),
    Conflict(Seq<u8>),
    AnyhowError(Seq<char>),
    ReviewError(ReviewErrorView),
    CommentError(CommentErrorView),
}

impl View for ReportError {
    type V = ReportErrorView;

    open spec fn view(&self) -> ReportErrorView {
        match self {
            ReportError::IllegalStatus(s) => ReportErrorView::IllegalStatus(s@),
            ReportError::CantResolveOwnReport => ReportErrorView::CantResolveOwnReport,
            ReportError::NotFound => ReportErrorView::NotFound,
            ReportError::AlreadyReported => ReportErrorView::AlreadyReported,
            ReportError::DatabaseError(m) => ReportErrorView::DatabaseError(m@),
            ReportError::Conflict(id) => ReportErrorView::Conflict(id@),
            ReportError::AnyhowError(m) => ReportErrorView::AnyhowError(m@),
            ReportError::ReviewError(e) => ReportErrorView::ReviewError(e@),
            ReportError::CommentError(e) => ReportErrorView::CommentError(e@),
        }
    }
}

/// The text of each error, as its `Display` writes it.
pub open spec fn report_error_text(e: ReportErrorView) -> Seq<char> {
    match e {
        ReportErrorView::IllegalStatus(s) => "Illegal status: "@ + s,
        ReportErrorView::CantResolveOwnReport => "You can't resolve your own report"@,
        ReportErrorView::NotFound => "Report not found"@,
        ReportErrorView::AlreadyReported => "You have already reported this content and it is still under review"@,
        ReportErrorView::DatabaseError(m) => "Database error: "@ + m,
        ReportErrorView::Conflict(id) => "Version mismatch for report with id "@ + hex_lower(id),
        ReportErrorView::AnyhowError(m) => m,
        ReportErrorView::ReviewError(e) => "Review error: "@ + review_error_text(e),
        ReportErrorView::CommentError(e) => "Comment error: "@ + comment_error_text(e),
    }
}

/// The reply each error turns into: review and comment errors reply as they
/// would on their own; a bad status, one's own report or malformed data 400;
/// a missing report 404; a version conflict or a repeated report 409;
/// database errors the hidden internal-error reply.
pub open spec fn report_error_reply(e: ReportErrorView) -> ErrorReplyView {
    match e {
        ReportErrorView::ReviewError(inner) => review_error_reply(inner),
        ReportErrorView::CommentError(inner) => comment_error_reply(inner),
        ReportErrorView::IllegalStatus(_) | ReportErrorView::CantResolveOwnReport | ReportErrorView::AnyhowError(
            _,
        ) => ErrorReplyView { status: 400, message: Some(report_error_text(e)) },
        ReportErrorView::NotFound => ErrorReplyView { status: 404, message: Some(report_error_text(e)) },
        ReportErrorView::Conflict(_) | ReportErrorView::AlreadyReported => ErrorReplyView {
            status: 409,
            message: Some(report_error_text(e)),
        },
        ReportErrorView::DatabaseError(_) => ErrorReplyView { status: 500, message: None },
    }
}

impl ReportError {
    /// The error's text, as its `Display` writes it.
    pub fn message(&self) -> (s: String)
        ensures
            s@ == report_error_text(self@),
    {
        match self {
            ReportError::IllegalStatus(s) => String::from_str("Illegal status: ").concat(s.as_str()),
            ReportError::CantResolveOwnReport => String::from_str("You can't resolve your own report"),
            ReportError::NotFound => String::from_str("Report not found"),
            ReportError::AlreadyReported => String::from_str(
                "You have already reported this content and it is still under review",
            ),
            ReportError::DatabaseError(m) => String::from_str("Database error: ").concat(m.as_str()),
            ReportError::Conflict(id) => {
                let hex = object_id_to_hex(*id);
                String::from_str("Version mismatch for report with id ").concat(hex.as_str())
            },
            ReportError::AnyhowError(m) => m.clone(),
            ReportError::ReviewError(e) => {
                let inner = e.message();
                String::from_str("Review error: ").concat(inner.as_str())
            },
            ReportError::CommentError(e) => {
                let inner = e.message();
                String::from_str("Comment error: ").concat(inner.as_str())
            },
        }
    }

    /// The HTTP reply this error turns into.
    pub fn reply(&self) -> (r: ErrorReply)
        ensures
            r@ == report_error_reply(self@),
    {
        match self {
            ReportError::ReviewError(e) => e.reply(),
            ReportError::CommentError(e) => e.reply(),
            ReportError::IllegalStatus(_) | ReportError::CantResolveOwnReport | ReportError::AnyhowError(_) => shown(
                400,
                self.message(),
            ),
            ReportError::NotFound => shown(404, self.message()),
            ReportError::Conflict(_) | ReportError::AlreadyReported => shown(409, self.message()),
            ReportError::DatabaseError(_) => hidden(),
        }
    }
}

} // verus!
