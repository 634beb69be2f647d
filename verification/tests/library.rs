use playlog::catalogue::CatalogueError;
use playlog::library::dto::{default_limit, default_page, AddUpdateGameRequest, LibraryFilterQuery, LibraryPagedResponse};
use playlog::library::error::{removal_outcome, DbErrorKind, LibraryError};
use playlog::library::model::{GameLibraryStatus, LibraryGame};
use playlog::library::paging::{page_window, total_pages};
use playlog::reply::ErrorReply;

#[test]
fn defaults() {
    assert_eq!(default_page(), 1);
    assert_eq!(default_limit(), 50);
    assert_eq!(GameLibraryStatus::default(), GameLibraryStatus::Owned);
    let q = LibraryFilterQuery::new(Some(GameLibraryStatus::Playing));
    assert_eq!((q.page, q.limit), (1, 50));
}

#[test]
fn library_request_validation() {
    let bad = AddUpdateGameRequest { game_id: 0, status: GameLibraryStatus::Wishlist };
    assert_eq!(bad.invalid_fields(), vec!["game_id".to_string()]);
    let good = AddUpdateGameRequest { game_id: 1, status: GameLibraryStatus::Wishlist };
    assert!(good.invalid_fields().is_empty());
    let q = LibraryFilterQuery { status: None, page: 0, limit: 101 };
    assert_eq!(q.invalid_fields(), vec!["page".to_string(), "limit".to_string()]);
    let q = LibraryFilterQuery { status: None, page: 1000, limit: 100 };
    assert!(q.invalid_fields().is_empty());
}

#[test]
fn page_windows_are_clamped() {
    let w = page_window(0, 0);
    assert_eq!((w.page, w.limit, w.offset), (1, 1, 0));
    let w = page_window(5000, 500);
    assert_eq!((w.page, w.limit, w.offset), (1000, 100, 99900));
    let w = page_window(3, 20);
    assert_eq!((w.page, w.limit, w.offset), (3, 20, 40));
}

#[test]
fn page_counts_round_up() {
    for (total, limit) in [(0i64, 10u64), (1, 10), (10, 10), (11, 10), (99, 100), (250, 50), (i64::MAX, 1)] {
        let expected = (total as f64 / limit as f64).ceil() as i64;
        if total < (1i64 << 46) {
            assert_eq!(total_pages(total, limit), expected, "{} {}", total, limit);
        }
    }
    assert_eq!(total_pages(i64::MAX, 1), i64::MAX);
    assert_eq!(total_pages(21, 10), 3);
}

#[test]
fn paged_response() {
    let w = page_window(2, 1);
    let g = LibraryGame { game_id: 3, status: GameLibraryStatus::Completed, added_at: 1, last_updated: 2 };
    let r = LibraryPagedResponse::new(vec![g], 5, total_pages(5, w.limit), w);
    assert_eq!((r.total_items, r.total_pages, r.page, r.limit), (5, 5, 2, 1));
    assert_eq!(r.items, vec![g]);
}

#[test]
fn library_errors() {
    assert_eq!(LibraryError::NotFound.message(), "Game not found in library");
    assert_eq!(
        LibraryError::NotFound.reply(),
        ErrorReply { status: 404, message: Some("Game not found in library".into()) }
    );
    assert_eq!(LibraryError::InvalidGameId(12).reply().message.unwrap(), "Game with ID 12 does not exist");
    assert_eq!(LibraryError::InvalidGameId(12).reply().status, 400);
    assert_eq!(LibraryError::CatalogueServiceError("x".into()).reply().status, 502);
    let db = |kind| LibraryError::DatabaseError { message: "dbmsg".into(), kind };
    assert_eq!(db(DbErrorKind::RowNotFound).reply(), ErrorReply { status: 404, message: Some("Resource not found".into()) });
    assert_eq!(db(DbErrorKind::UniqueViolation).reply(), ErrorReply { status: 409, message: Some("dbmsg".into()) });
    assert_eq!(db(DbErrorKind::ForeignKeyViolation).reply().status, 409);
    assert_eq!(db(DbErrorKind::Other).reply(), ErrorReply { status: 500, message: None });
    assert_eq!(db(DbErrorKind::Other).message(), "Database error: dbmsg");
    assert_eq!(removal_outcome(0), Err(LibraryError::NotFound));
    assert_eq!(removal_outcome(1), Ok(()));
    assert_eq!(LibraryError::from_catalogue(CatalogueError::NotFound(4)), LibraryError::InvalidGameId(4));
    assert_eq!(
        LibraryError::from_catalogue(CatalogueError::Unavailable("u".into())),
        LibraryError::CatalogueServiceError("u".into())
    );
}
