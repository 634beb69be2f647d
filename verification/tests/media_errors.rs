use playlog::catalogue::CatalogueError;
use playlog::media::error::{catalogue_outcome, MediaError};
use playlog::media::model::FieldName;
use playlog::reply::ErrorReply;

fn reply(status: u16, message: &str) -> ErrorReply {
    ErrorReply { status, message: Some(message.to_string()) }
}

#[test]
fn field_names() {
    assert_eq!(FieldName::from_str("cover"), Ok(FieldName::Cover));
    assert_eq!(FieldName::from_str("screenshot"), Ok(FieldName::Screenshot));
    assert_eq!(FieldName::from_str("trailer"), Ok(FieldName::Trailer));
    assert_eq!(FieldName::from_str("Cover"), Err(MediaError::UnknownField("Cover".to_string())));
    assert_eq!(FieldName::Screenshot.as_string(), "Screenshot");
    assert_eq!(FieldName::Cover.as_string(), format!("{:?}", FieldName::Cover));
}

#[test]
fn messages_of_every_error() {
    let cases = vec![
        (MediaError::NotFound(5), "Media not found for game 5"),
        (MediaError::InvalidGameId(-2), "Game with ID -2 does not exist"),
        (MediaError::CatalogueServiceError("down".into()), "Catalogue service error: down"),
        (MediaError::NoFilesProvided, "No files were provided"),
        (
            MediaError::UnknownField("x".into()),
            "Unknown multipart field 'x' - expected 'cover', 'screenshot', or 'trailer'",
        ),
        (
            MediaError::FileTooLarge { field: "Cover".into(), limit_mb: 10 },
            "File in field 'Cover' exceeds the 10 MB limit",
        ),
        (MediaError::MissingContentType("Trailer".into()), "Missing content-type on field 'Trailer'"),
        (
            MediaError::InvalidContentType { field: "Cover".into(), mime_type: "text/plain".into() },
            "Invalid content-type 'text/plain' for field 'Cover'",
        ),
        (
            MediaError::DuplicateField("cover".into()),
            "Duplicate 'cover' field - only one file per cover/trailer is allowed",
        ),
        (MediaError::TooManyFiles("why".into()), "Too many files: why"),
        (MediaError::DatabaseError { message: "boom".into(), duplicate_key: false }, "Database error: boom"),
        (MediaError::StorageError("s3".into()), "Storage error: s3"),
        (MediaError::Conflict(9), "Conflict: Version mismatch for game 9"),
    ];
    for (e, text) in cases {
        assert_eq!(e.message(), text);
    }
}

#[test]
fn replies_of_every_error() {
    assert_eq!(MediaError::NotFound(1).reply(), reply(404, "Media not found for game 1"));
    assert_eq!(MediaError::InvalidGameId(1).reply(), reply(404, "Game with ID 1 does not exist"));
    assert_eq!(MediaError::NoFilesProvided.reply().status, 400);
    assert_eq!(MediaError::UnknownField("a".into()).reply().status, 400);
    assert_eq!(MediaError::FileTooLarge { field: "Cover".into(), limit_mb: 10 }.reply().status, 400);
    assert_eq!(MediaError::MissingContentType("a".into()).reply().status, 400);
    assert_eq!(
        MediaError::InvalidContentType { field: "a".into(), mime_type: "b".into() }.reply().status,
        400
    );
    assert_eq!(MediaError::DuplicateField("a".into()).reply().status, 400);
    assert_eq!(MediaError::TooManyFiles("a".into()).reply().status, 400);
    assert_eq!(
        MediaError::DatabaseError { message: "E11000 dup".into(), duplicate_key: true }.reply(),
        reply(409, "E11000 dup")
    );
    assert_eq!(
        MediaError::DatabaseError { message: "x".into(), duplicate_key: false }.reply(),
        ErrorReply { status: 500, message: None }
    );
    assert_eq!(MediaError::StorageError("x".into()).reply(), ErrorReply { status: 500, message: None });
    assert_eq!(
        MediaError::CatalogueServiceError("x".into()).reply(),
        reply(502, "Catalogue service error: x")
    );
    assert_eq!(MediaError::Conflict(3).reply(), reply(409, "Conflict: Version mismatch for game 3"));
}

#[test]
fn catalogue_answers() {
    assert_eq!(catalogue_outcome(4, 200), Ok(()));
    assert_eq!(catalogue_outcome(4, 404), Err(MediaError::InvalidGameId(4)));
    assert_eq!(
        catalogue_outcome(4, 503),
        Err(MediaError::CatalogueServiceError(
            "Unexpected status from catalogue service: 503 Service Unavailable".to_string()
        ))
    );
    assert_eq!(
        catalogue_outcome(4, 599),
        Err(MediaError::CatalogueServiceError(
            "Unexpected status from catalogue service: 599 <unknown status code>".to_string()
        ))
    );
    assert_eq!(
        MediaError::from_catalogue(CatalogueError::NotFound(8)),
        MediaError::InvalidGameId(8)
    );
    assert_eq!(
        MediaError::from_catalogue(CatalogueError::Unavailable("t".into())),
        MediaError::CatalogueServiceError("t".into())
    );
}
