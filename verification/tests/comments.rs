use playlog::comment::dto::{CommentQuery, CreateCommentRequest, DetailedCommentResponse, SimpleCommentResponse, UpdateCommentRequest};
use playlog::comment::error::CommentError;
use playlog::comment::model::{Comment, CommentTargetType};
use playlog::comment::service::{
    authorize_delete, comment_target, found_comment, prepare_replace, review_lookup_failure,
    with_new_text, write_outcome, CommentTarget,
};
use playlog::reply::ErrorReply;

const ID: [u8; 12] = [0xaa, 0, 0, 0, 0, 0, 0, 0, 0, 0, 0, 1];

fn stored(user: u128) -> Comment {
    let mut c = Comment::new(CommentTargetType::Game, "12".into(), user, "mi".into(), "nice comment text".into(), 10);
    c.id = Some(ID);
    c.version = 2;
    c
}

#[test]
fn target_type_names() {
    assert_eq!(CommentTargetType::Game.as_string(), "Game");
    assert_eq!(CommentTargetType::Review.as_string(), "Review");
}

#[test]
fn targets_are_read() {
    assert_eq!(comment_target(CommentTargetType::Game, "12"), Ok(CommentTarget::Game(12)));
    assert_eq!(comment_target(CommentTargetType::Game, "+7"), Ok(CommentTarget::Game(7)));
    assert_eq!(
        comment_target(CommentTargetType::Game, "12x"),
        Err(CommentError::InvalidGameId("12x".into()))
    );
    assert_eq!(
        comment_target(CommentTargetType::Game, "99999999999"),
        Err(CommentError::InvalidGameId("99999999999".into()))
    );
    assert_eq!(
        comment_target(CommentTargetType::Review, "AA0000000000000000000001"),
        Ok(CommentTarget::Review(ID))
    );
    assert_eq!(
        comment_target(CommentTargetType::Review, "aa00000000000000000001"),
        Err(CommentError::InvalidReviewId("aa00000000000000000001".into()))
    );
    assert_eq!(
        comment_target(CommentTargetType::Review, "zz0000000000000000000001"),
        Err(CommentError::InvalidReviewId("zz0000000000000000000001".into()))
    );
    assert_eq!(review_lookup_failure(ID), CommentError::InvalidReviewId("aa0000000000000000000001".into()));
}

#[test]
fn comment_request_validation() {
    let r = CreateCommentRequest { target_type: CommentTargetType::Game, target_id: "".into(), text: "short".into() };
    assert_eq!(r.invalid_fields(), vec!["target_id".to_string(), "text".to_string()]);
    let r = CreateCommentRequest { target_type: CommentTargetType::Game, target_id: "1".into(), text: "long enough".into() };
    assert!(r.invalid_fields().is_empty());
    assert_eq!(UpdateCommentRequest { text: "123456789".into() }.invalid_fields(), vec!["text".to_string()]);
    assert!(UpdateCommentRequest { text: "1234567890".into() }.invalid_fields().is_empty());
    let q = CommentQuery { target_type: CommentTargetType::Review, target_id: "".into(), page: 1 };
    assert_eq!(q.invalid_fields(), vec!["target_id".to_string()]);
}

#[test]
fn new_comment_and_edits() {
    let c = Comment::new(CommentTargetType::Review, "r".into(), 1, "u".into(), "t".into(), 77);
    assert_eq!((c.id, c.version, c.deleted, c.updated_at), (None, 0, false, 77));
    let edited = with_new_text(stored(1), "changed text!".into(), 99);
    assert_eq!((edited.text.as_str(), edited.updated_at, edited.created_at, edited.version), ("changed text!", 99, 10, 2));
}

#[test]
fn responses() {
    let s = SimpleCommentResponse::from(stored(5));
    assert_eq!((s.id.as_str(), s.user_id, s.created_at), ("aa0000000000000000000001", 5, 10));
    let d = DetailedCommentResponse::from(stored(5));
    assert_eq!((d.target_type, d.target_id.as_str()), (CommentTargetType::Game, "12"));
}

#[test]
fn deletion_and_versions() {
    assert_eq!(authorize_delete(&stored(1), 2), Err(CommentError::Unauthorized));
    assert_eq!(authorize_delete(&stored(1), 1), Ok(2));
    assert_eq!(found_comment(None), Err(CommentError::NotFound));
    let (v, next) = prepare_replace(stored(1));
    assert_eq!((v, next.version), (2, 3));
    assert_eq!(write_outcome(ID, 0), Err(CommentError::Conflict(ID)));
    assert_eq!(write_outcome(ID, 2), Ok(()));
}

#[test]
fn comment_errors() {
    assert_eq!(CommentError::NotFound.reply(), ErrorReply { status: 404, message: Some("Comment not found".into()) });
    assert_eq!(CommentError::InvalidGameId("x".into()).reply(), ErrorReply { status: 400, message: Some("Invalid game id: x".into()) });
    assert_eq!(CommentError::InvalidReviewId("y".into()).message(), "Invalid review id: y");
    assert_eq!(CommentError::InvalidReviewId("y".into()).reply().status, 400);
    assert_eq!(CommentError::AnyhowError("z".into()).reply().status, 400);
    assert_eq!(CommentError::CatalogueServiceError("c".into()).reply().status, 502);
    assert_eq!(CommentError::Unauthorized.reply().status, 403);
    assert_eq!(CommentError::Conflict(ID).message(), "Version mismatch for comment with id aa0000000000000000000001");
    assert_eq!(CommentError::Conflict(ID).reply().status, 409);
    assert_eq!(
        CommentError::DatabaseError { message: "dup".into(), duplicate_key: true }.reply(),
        ErrorReply { status: 409, message: Some("dup".into()) }
    );
    assert_eq!(
        CommentError::DatabaseError { message: "x".into(), duplicate_key: false }.reply(),
        ErrorReply { status: 500, message: None }
    );
}
