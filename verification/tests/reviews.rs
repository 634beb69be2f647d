use playlog::catalogue::CatalogueError;
use playlog::pagination::page_skip;
use playlog::reply::ErrorReply;
use playlog::review::config::collection_name;
use playlog::review::dto::{
    CreateUpdateReviewRequest, GameRatingStatsResponse, GameReviewResponse, ReviewDetailedResponse,
    ReviewSimpleResponse,
};
use playlog::review::error::ReviewError;
use playlog::review::model::{Rating, RatingParseError, Review};
use playlog::review::service::{
    authorize_delete, found_review, prepare_replace, prepare_upsert, rating_stats, write_outcome,
};

const ID: [u8; 12] = [0x65, 0x1f, 0, 1, 2, 3, 4, 5, 6, 7, 0xab, 0xff];

fn stored(user: u128) -> Review {
    let mut r = Review::new(3, user, "ana".into(), Rating::Good, Some("a fine game".into()), 100);
    r.id = Some(ID);
    r.version = 4;
    r
}

#[test]
fn rating_names() {
    assert_eq!(Rating::NotRecommended.as_db_value(), "NOT_RECOMMENDED");
    assert_eq!(Rating::HighlyRecommended.as_db_value(), "HIGHLY_RECOMMENDED");
    assert_eq!(Rating::Good.as_db_value(), "GOOD");
    assert_eq!(Rating::Okay.as_db_value(), "OKAY");
    assert_eq!(Rating::from_str("NOT_RECOMMENDED"), Ok(Rating::NotRecommended));
    assert_eq!(Rating::from_str("HIGHLY_RECOMMENDED"), Ok(Rating::HighlyRecommended));
    assert_eq!(Rating::from_str("good"), Err(RatingParseError("good".into())));
    assert_eq!(RatingParseError("x".into()).message(), "invalid rating: x");
}

#[test]
fn db_values_read_back() {
    for r in [Rating::NotRecommended, Rating::Okay, Rating::Good, Rating::HighlyRecommended] {
        assert_eq!(Rating::from_str(&r.as_db_value()), Ok(r));
    }
}

#[test]
fn new_review_defaults() {
    let r = Review::new(1, 2, "u".into(), Rating::Okay, None, 50);
    assert_eq!((r.id, r.version, r.deleted, r.updated_at), (None, 0, false, 50));
}

#[test]
fn review_request_validation() {
    let short = CreateUpdateReviewRequest { game_id: 1, rating: Rating::Good, text: Some("ćao ćao".into()) };
    assert_eq!(short.invalid_fields(), vec!["text".to_string()]);
    let exact = CreateUpdateReviewRequest { game_id: 1, rating: Rating::Good, text: Some("čćžšđčćžšđ".into()) };
    assert!(exact.invalid_fields().is_empty());
    let none = CreateUpdateReviewRequest { game_id: 1, rating: Rating::Good, text: None };
    assert!(none.invalid_fields().is_empty());
}

#[test]
fn responses_carry_hex_ids() {
    let r = stored(9);
    assert_eq!(GameReviewResponse::from(r.clone()).id, "651f0001020304050607abff");
    let s = ReviewSimpleResponse::from(r.clone());
    assert_eq!((s.game_id, s.user_id, s.username.as_str()), (3, 9, "ana"));
    let d = ReviewDetailedResponse::from(r);
    assert_eq!(d.version, 4);
    assert_eq!(d.id, bson::oid::ObjectId::from_bytes(ID).to_hex());
}

#[test]
fn upsert_updates_or_creates() {
    let request = CreateUpdateReviewRequest { game_id: 3, rating: Rating::Okay, text: None };
    let updated = prepare_upsert(Some(stored(9)), 9, "other".into(), request.clone(), 500);
    assert_eq!(updated.id, Some(ID));
    assert_eq!(updated.username, "ana");
    assert_eq!((updated.rating, updated.text.clone(), updated.created_at, updated.updated_at), (Rating::Okay, None, 100, 500));
    assert_eq!(updated.version, 4);
    let created = prepare_upsert(None, 9, "bo".into(), request, 500);
    assert_eq!(created, Review::new(3, 9, "bo".into(), Rating::Okay, None, 500));
}

#[test]
fn only_the_author_deletes() {
    assert_eq!(authorize_delete(None, 1), Err(ReviewError::NotFound));
    assert_eq!(authorize_delete(Some(stored(2)), 1), Err(ReviewError::Unauthorized));
    assert_eq!(authorize_delete(Some(stored(1)), 1), Ok(4));
    assert_eq!(found_review(None), Err(ReviewError::NotFound));
}

#[test]
fn versioned_writes() {
    let (expected, next) = prepare_replace(stored(1));
    assert_eq!((expected, next.version), (4, 5));
    assert_eq!(write_outcome(ID, 0), Err(ReviewError::Conflict(ID)));
    assert_eq!(write_outcome(ID, 1), Ok(()));
}

#[test]
fn stats_from_groups() {
    let groups = vec![("GOOD".to_string(), 3), ("NOT_RECOMMENDED".to_string(), 1), ("OKAY".to_string(), 7)];
    assert_eq!(rating_stats(&groups), Ok(GameRatingStatsResponse::new(0, 3, 7, 1)));
    assert_eq!(rating_stats(&[]), Ok(GameRatingStatsResponse::new(0, 0, 0, 0)));
    let bad = vec![("GOOD".to_string(), 3), ("MEH".to_string(), 1), ("WORSE".to_string(), 1)];
    assert_eq!(rating_stats(&bad), Err(ReviewError::AnyhowError("invalid rating: MEH".into())));
}

#[test]
fn review_errors() {
    assert_eq!(ReviewError::NotFound.reply(), ErrorReply { status: 404, message: Some("Review not found".into()) });
    assert_eq!(ReviewError::InvalidGameId(2).reply().status, 400);
    assert_eq!(ReviewError::AnyhowError("m".into()).reply(), ErrorReply { status: 400, message: Some("m".into()) });
    assert_eq!(ReviewError::Unauthorized.reply(), ErrorReply { status: 403, message: Some("Unauthorized".into()) });
    assert_eq!(
        ReviewError::Conflict(ID).message(),
        "Version mismatch for review with id 651f0001020304050607abff"
    );
    assert_eq!(ReviewError::Conflict(ID).reply().status, 409);
    assert_eq!(ReviewError::DatabaseError("x".into()).reply(), ErrorReply { status: 500, message: None });
    assert_eq!(ReviewError::DatabaseError("x".into()).message(), "Database error: x");
    assert_eq!(ReviewError::CatalogueServiceError("x".into()).reply().status, 502);
    assert_eq!(ReviewError::from_catalogue(CatalogueError::NotFound(5)), ReviewError::InvalidGameId(5));
    assert_eq!(
        ReviewError::from_catalogue(CatalogueError::Unavailable("t".into())),
        ReviewError::CatalogueServiceError("t".into())
    );
}

#[test]
fn paging_and_config() {
    assert_eq!(page_skip(0), 0);
    assert_eq!(page_skip(1), 0);
    assert_eq!(page_skip(4), 30);
    assert_eq!(collection_name(None, "reviews"), "reviews");
    assert_eq!(collection_name(Some("r2".into()), "reviews"), "r2");
}
