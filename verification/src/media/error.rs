//! Errors of the multimedia service and the replies they turn into.

use crate::adapters::status_reason;
use crate::catalogue::{catalogue_answer, CatalogueError};
use crate::reply::{hidden, shown, ErrorReply, ErrorReplyView};
use crate::text::{int_decimal, nat_decimal, push_decimal, push_signed_decimal};
use vstd::prelude::*;

verus! {

/// Errors of the multimedia service. A database error carries its message
/// and whether it reports a duplicate key.
#[derive(Debug, Clone, PartialEq, Eq)]
pub enum MediaError {
    NotFound(i32),
    InvalidGameId(i32),
    CatalogueServiceError(String),
    NoFilesProvided,
    UnknownField(String),
    FileTooLarge { field: String, limit_mb: usize },
    MissingContentType(String),
    InvalidContentType { field: String, mime_type: String },
    DuplicateField(String),
    TooManyFiles(String),
    DatabaseError { message: String, duplicate_key: bool },
    StorageError(String),
    Conflict(i32),
}

/// The mathematical value of a [`MediaError`].
pub enum MediaErrorView {
    NotFound(i32),
    InvalidGameId(i32),
    CatalogueServiceError(Seq<char>),
    NoFilesProvided,
    UnknownField(Seq<char>),
    FileTooLarge { field: Seq<char>, limit_mb: usize },
    MissingContentType(Seq<char>),
    InvalidContentType { field: Seq<char>, mime_type: Seq<char> },
    DuplicateField(Seq<char>),
    TooManyFiles(Seq<char>),
    DatabaseError { message: Seq<char>, duplicate_key: bool },
    StorageError(Seq<char>),
    Conflict(i32),
}

impl View for MediaError {
    type V = MediaErrorView;

    open spec fn view(&self) -> MediaErrorView {
        match self {
            MediaError::NotFound(g) => MediaErrorView::NotFound(*g),
            MediaError::InvalidGameId(g) => MediaErrorView::InvalidGameId(*g),
            MediaError::CatalogueServiceError(m) => MediaErrorView::CatalogueServiceError(m@),
            MediaError::NoFilesProvided => MediaErrorView::NoFilesProvided,
            MediaError::UnknownField(f) => MediaErrorView::UnknownField(f@),
            MediaError::FileTooLarge { field, limit_mb } => MediaErrorView::FileTooLarge {
                field: field@,
                limit_mb: *limit_mb,
            },
            MediaError::MissingContentType(f) => MediaErrorView::MissingContentType(f@),
            MediaError::InvalidContentType { field, mime_type } => MediaErrorView::InvalidContentType {
                field: field@,
                mime_type: mime_type@,
            },
            MediaError::DuplicateField(f) => MediaErrorView::DuplicateField(f@),
            MediaError::TooManyFiles(m) => MediaErrorView::TooManyFiles(m@),
            MediaError::DatabaseError { message, duplicate_key } => MediaErrorView::DatabaseError {
                message: message@,
                duplicate_key: *duplicate_key,
            },
            MediaError::StorageError(m) => MediaErrorView::StorageError(m@),
            MediaError::Conflict(g) => MediaErrorView::Conflict(*g),
        }
    }
}

/// The text of each error, as its `Display` writes it.
pub open spec fn media_error_text(e: MediaErrorView) -> Seq<char> {
    match e {
        MediaErrorView::NotFound(g) => "Media not found for game "@ + int_decimal(g as int),
        MediaErrorView::InvalidGameId(g) => "Game with ID "@ + int_decimal(g as int) + " does not exist"@,
        MediaErrorView::CatalogueServiceError(m) => "Catalogue service error: "@ + m,
        MediaErrorView::NoFilesProvided => "No files were provided"@,
        MediaErrorView::UnknownField(f) => "Unknown multipart field '"@ + f
            + "' - expected 'cover', 'screenshot', or 'trailer'"@,
        MediaErrorView::FileTooLarge { field, limit_mb } => "File in field '"@ + field + "' exceeds the "@
            + nat_decimal(limit_mb as nat) + " MB limit"@,
        MediaErrorView::MissingContentType(f) => "Missing content-type on field '"@ + f + "'"@,
        MediaErrorView::InvalidContentType { field, mime_type } => "Invalid content-type '"@ + mime_type
            + "' for field '"@ + field + "'"@,
        MediaErrorView::DuplicateField(f) => "Duplicate '"@ + f
            + "' field - only one file per cover/trailer is allowed"@,
        MediaErrorView::TooManyFiles(m) => "Too many files: "@ + m,
        MediaErrorView::DatabaseError { message, duplicate_key } => "Database error: "@ + message,
        MediaErrorView::StorageError(m) => "Storage error: "@ + m,
        MediaErrorView::Conflict(g) => "Conflict: Version mismatch for game "@ + int_decimal(g as int),
    }
}

/// The reply each error turns into: not found 404; bad input 400; version
/// conflicts and duplicate keys 409; catalogue trouble 502; other database
/// and all storage errors the hidden internal-error reply.
pub open spec fn media_error_reply(e: MediaErrorView) -> ErrorReplyView {
    match e {
        MediaErrorView::NotFound(_) | MediaErrorView::InvalidGameId(_) => ErrorReplyView {
            status: 404,
            message: Some(media_error_text(e)),
        },
        MediaErrorView::NoFilesProvided
        | MediaErrorView::UnknownField(_)
        | MediaErrorView::FileTooLarge { .. }
        | MediaErrorView::MissingContentType(_)
        | MediaErrorView::InvalidContentType { .. }
        | MediaErrorView::DuplicateField(_)
        | MediaErrorView::TooManyFiles(_) => ErrorReplyView { status: 400, message: Some(media_error_text(e)) },
        MediaErrorView::DatabaseError { message, duplicate_key } => if duplicate_key {
            ErrorReplyView { status: 409, message: Some(message) }
        } else {
            ErrorReplyView { status: 500, message: None }
        },
        MediaErrorView::StorageError(_) => ErrorReplyView { status: 500, message: None },
        MediaErrorView::CatalogueServiceError(_) => ErrorReplyView {
            status: 502,
            message: Some(media_error_text(e)),
        },
        MediaErrorView::Conflict(_) => ErrorReplyView { status: 409, message: Some(media_error_text(e)) },
    }
}

/// The error a catalogue outcome becomes in this service.
pub open spec fn media_error_of_catalogue(e: CatalogueError) -> MediaErrorView {
    match e {
        CatalogueError::NotFound(g) => MediaErrorView::InvalidGameId(g),
        CatalogueError::Unavailable(m) => MediaErrorView::CatalogueServiceError(m@),
    }
}

/// The outcome of the catalogue's answer to `GET /api/games/{game_id}` with
/// the given status: 200 confirms the game, 404 denies it, anything else is
/// reported as an unexpected status.
pub open spec fn catalogue_status_outcome(game_id: i32, status: u16) -> Result<(), MediaErrorView> {
    if status == 200 {
        Ok(())
    } else if status == 404 {
        Err(MediaErrorView::InvalidGameId(game_id))
    } else {
        Err(MediaErrorView::CatalogueServiceError(
            "Unexpected status from catalogue service: "@ + nat_decimal(status as nat) + seq![' ']
                + status_reason(status),
        ))
    }
}

impl MediaError {
    /// The error's text, as its `Display` writes it.
    pub fn message(&self) -> (s: String)
        ensures
            s@ == media_error_text(self@),
    {
        match self {
            MediaError::NotFound(g) => {
                let mut s = String::from_str("Media not found for game ");
                push_signed_decimal(&mut s, *g as i64);
                s
            },
            MediaError::InvalidGameId(g) => {
                let mut s = String::from_str("Game with ID ");
                push_signed_decimal(&mut s, *g as i64);
                s.append(" does not exist");
                s
            },
            MediaError::CatalogueServiceError(m) => String::from_str("Catalogue service error: ").concat(
                m.as_str(),
            ),
            MediaError::NoFilesProvided => String::from_str("No files were provided"),
            MediaError::UnknownField(f) => {
                let mut s = String::from_str("Unknown multipart field '");
                s.append(f.as_str());
                s.append("' - expected 'cover', 'screenshot', or 'trailer'");
                s
            },
            MediaError::FileTooLarge { field, limit_mb } => {
                let mut s = String::from_str("File in field '");
                s.append(field.as_str());
                s.append("' exceeds the ");
                push_decimal(&mut s, *limit_mb as u64);
                s.append(" MB limit");
                s
            },
            MediaError::MissingContentType(f) => {
                let mut s = String::from_str("Missing content-type on field '");
                s.append(f.as_str());
                s.append("'");
                s
            },
            MediaError::InvalidContentType { field, mime_type } => {
                let mut s = String::from_str("Invalid content-type '");
                s.append(mime_type.as_str());
                s.append("' for field '");
                s.append(field.as_str());
                s.append("'");
                s
            },
            MediaError::DuplicateField(f) => {
                let mut s = String::from_str("Duplicate '");
                s.append(f.as_str());
                s.append("' field - only one file per cover/trailer is allowed");
                s
            },
            MediaError::TooManyFiles(m) => String::from_str("Too many files: ").concat(m.as_str()),
            MediaError::DatabaseError { message, .. } => String::from_str("Database error: ").concat(
                message.as_str(),
            ),
            MediaError::StorageError(m) => String::from_str("Storage error: ").concat(m.as_str()),
            MediaError::Conflict(g) => {
                let mut s = String::from_str("Conflict: Version mismatch for game ");
                push_signed_decimal(&mut s, *g as i64);
                s
            },
        }
    }

    /// The HTTP reply this error turns into.
    pub fn reply(&self) -> (r: ErrorReply)
        ensures
            r@ == media_error_reply(self@),
    {
        match self {
            MediaError::NotFound(_) | MediaError::InvalidGameId(_) => shown(404, self.message()),
            MediaError::NoFilesProvided
            | MediaError::UnknownField(_)
            | MediaError::FileTooLarge { .. }
            | MediaError::MissingContentType(_)
            | MediaError::InvalidContentType { .. }
            | MediaError::DuplicateField(_)
            | MediaError::TooManyFiles(_) => shown(400, self.message()),
            MediaError::DatabaseError { message, duplicate_key } => {
                if *duplicate_key {
                    shown(409, message.clone())
                } else {
                    hidden()
                }
            },
            MediaError::StorageError(_) => hidden(),
            MediaError::CatalogueServiceError(_) => shown(502, self.message()),
            MediaError::Conflict(_) => shown(409, self.message()),
        }
    }

    /// The error a failed catalogue check becomes: an unknown game is an
    /// invalid game id, an unreachable catalogue a catalogue service error.
    pub fn from_catalogue(error: CatalogueError) -> (r: MediaError)
        ensures
            r@ == media_error_of_catalogue(error),
    {
        match error {
            CatalogueError::NotFound(g) => MediaError::InvalidGameId(g),
            CatalogueError::Unavailable(m) => MediaError::CatalogueServiceError(m),
        }
    }
}

/// Decides the catalogue's answer about `game_id` from the HTTP status it
/// replied with.
pub fn catalogue_outcome(game_id: i32, status: u16) -> (r: Result<(), MediaError>)
    requires
        100 <= status <= 999,
    ensures
        match r {
            Ok(()) => catalogue_status_outcome(game_id, status) == Ok::<(), MediaErrorView>(()),
            Err(e) => catalogue_status_outcome(game_id, status) == Err::<(), MediaErrorView>(e@),
        },
{
    match catalogue_answer(game_id, status) {
        Ok(()) => Ok(()),
        Err(e) => Err(MediaError::from_catalogue(e)),
    }
}

} // verus!
