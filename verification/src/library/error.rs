//! Errors of the library service and the replies they turn into.

use crate::catalogue::CatalogueError;
use crate::reply::{hidden, shown, ErrorReply, ErrorReplyView};
use crate::text::{int_decimal, push_signed_decimal};
use vstd::prelude::*;

verus! {

/// What a failed database call reports, as far as the replies tell it apart.
#[derive(Debug, Clone, Copy, PartialEq, Eq, Structural)]
pub enum DbErrorKind {
    RowNotFound,
    UniqueViolation,
    ForeignKeyViolation,
    Other,
}

/// Errors of the library service.
#[derive(Debug, Clone, PartialEq, Eq)]
pub enum LibraryError {
    NotFound,
    InvalidGameId(i32),
    CatalogueServiceError(String),
    DatabaseError { message: String, kind: DbErrorKind },
}

/// The mathematical value of a [`LibraryError`].
pub enum LibraryErrorView {
    NotFound,
    InvalidGameId(i32),
    CatalogueServiceError(Seq<char>),
    DatabaseError { message: Seq<char>, kind: DbErrorKind },
}

impl View for LibraryError {
    type V = LibraryErrorView;

    open spec fn view(&self) -> LibraryErrorView {
        match self {
            LibraryError::NotFound => LibraryErrorView::NotFound,
            LibraryError::InvalidGameId(g) => LibraryErrorView::InvalidGameId(*g),
            LibraryError::CatalogueServiceError(m) => LibraryErrorView::CatalogueServiceError(m@),
            LibraryError::DatabaseError { message, kind } => LibraryErrorView::DatabaseError {
                message: message@,
                kind: *kind,
            },
        }
    }
}

/// The text of each error, as its `Display` writes it.
pub open spec fn library_error_text(e: LibraryErrorView) -> Seq<char> {
    match e {
        LibraryErrorView::NotFound => "Game not found in library"@,
        LibraryErrorView::InvalidGameId(g) => "Game with ID "@ + int_decimal(g as int) + " does not exist"@,
        LibraryErrorView::CatalogueServiceError(m) => "Catalogue service error: "@ + m,
        LibraryErrorView::DatabaseError { message, kind } => "Database error: "@ + message,
    }
}

/// The reply each error turns into: a missing entry 404, a game the
/// catalogue does not know 400, a missing row 404, a unique or foreign-key violation 409 with the database's
/// message, catalogue trouble 502, any other database error the hidden
/// internal-error reply.
pub open spec fn library_error_reply(e: LibraryErrorView) -> ErrorReplyView {
    match e {
        LibraryErrorView::NotFound => ErrorReplyView { status: 404, message: Some(library_error_text(e)) },
        LibraryErrorView::InvalidGameId(_) => ErrorReplyView {
            status: 400,
            message: Some(library_error_text(e)),
        },
        LibraryErrorView::DatabaseError { message, kind } => match kind {
            DbErrorKind::RowNotFound => ErrorReplyView { status: 404, message: Some("Resource not found"@) },
            DbErrorKind::UniqueViolation | DbErrorKind::ForeignKeyViolation => ErrorReplyView {
                status: 409,
                message: Some(message),
            },
            DbErrorKind::Other => ErrorReplyView { status: 500, message: None },
        },
        LibraryErrorView::CatalogueServiceError(_) => ErrorReplyView {
            status: 502,
            message: Some(library_error_text(e)),
        },
    }
}

impl LibraryError {
    /// The error's text, as its `Display` writes it.
    pub fn message(&self) -> (s: String)
        ensures
            s@ == library_error_text(self@),
    {
        match self {
            LibraryError::NotFound => String::from_str("Game not found in library"),
            LibraryError::InvalidGameId(g) => {
                let mut s = String::from_str("Game with ID ");
                push_signed_decimal(&mut s, *g as i64);
                s.append(" does not exist");
                s
            },
            LibraryError::CatalogueServiceError(m) => String::from_str("Catalogue service error: ").concat(
                m.as_str(),
            ),
            LibraryError::DatabaseError { message, .. } => String::from_str("Database error: ").concat(
                message.as_str(),
            ),
        }
    }

    /// The HTTP reply this error turns into.
    pub fn reply(&self) -> (r: ErrorReply)
        ensures
            r@ == library_error_reply(self@),
    {
        match self {
            LibraryError::NotFound => shown(404, self.message()),
            LibraryError::InvalidGameId(_) => shown(400, self.message()),
            LibraryError::DatabaseError { message, kind } => match kind {
                DbErrorKind::RowNotFound => shown(404, String::from_str("Resource not found")),
                DbErrorKind::UniqueViolation | DbErrorKind::ForeignKeyViolation => shown(409, message.clone()),
                DbErrorKind::Other => hidden(),
            },
            LibraryError::CatalogueServiceError(_) => shown(502, self.message()),
        }
    }

    /// The error a failed catalogue check becomes: an unknown game is an
    /// invalid game id, an unreachable catalogue a catalogue service error.
    pub fn from_catalogue(error: CatalogueError) -> (r: LibraryError)
        ensures
            r@ == match error {
                CatalogueError::NotFound(g) => LibraryErrorView::InvalidGameId(g),
                CatalogueError::Unavailable(m) => LibraryErrorView::CatalogueServiceError(m@),
            },
    {
        match error {
            CatalogueError::NotFound(g) => LibraryError::InvalidGameId(g),
            CatalogueError::Unavailable(m) => LibraryError::CatalogueServiceError(m),
        }
    }
}

/// The outcome of removing a game from a library: removing nothing means
/// the game was not there.
pub fn removal_outcome(rows_affected: u64) -> (r: Result<(), LibraryError>)
    ensures
        r is Ok <==> rows_affected > 0,
        r matches Err(e) ==> e@ == LibraryErrorView::NotFound,
{
    if rows_affected == 0 {
        Err(LibraryError::NotFound)
    } else {
        Ok(())
    }
}

} // verus!
