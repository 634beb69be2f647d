use playlog::media::upload::{cleanup_keys, UploadOutcome};
use playlog::comment::service::{authorize_update, edit_comment_now, review_target_found};
use playlog::review::model::Review;
use playlog::media::media_keys::leftover_keys;
use playlog::media::model::{GameMedia, MediaFile};
use playlog::catalogue::{catalogue_answer, CatalogueError};
use playlog::comment::error::CommentError;
use playlog::library::model::GameLibraryStatus;
use bytes::Bytes;
use playlog::comment::model::{Comment, CommentTargetType};
use playlog::comment::service::{new_comment_now, with_new_text_now};
use playlog::media::error::MediaError;
use playlog::media::media_keys::{add_listed_page, cap_listing, MAX_LISTED_KEYS};
use playlog::media::model::{FieldName, UploadedFile};
use playlog::media::multipart::{classify_part, parse_version, require_version, UploadPart};
use playlog::media::upload::{assemble_uploads_now, plan_uploads};
use playlog::reply::{object_id_or_bad_request, ErrorReply};
use playlog::report::model::{ReportStatus, ReportTargetType};
use playlog::report::service::admit_report_now;
use playlog::review::dto::CreateUpdateReviewRequest;
use playlog::review::model::Rating;
use playlog::review::service::prepare_upsert_now;

fn bad(message: &str) -> ErrorReply {
    ErrorReply { status: 400, message: Some(message.to_string()) }
}

#[test]
fn parts_are_classified() {
    assert_eq!(classify_part(None, None, Some("image/png")), Err(bad("Multipart field missing name")));
    assert_eq!(classify_part(Some("version"), None, None), Ok(UploadPart::Version));
    assert_eq!(
        classify_part(Some("poster"), Some("p.png"), Some("image/png")),
        Err(MediaError::UnknownField("poster".to_string()).reply())
    );
    assert_eq!(
        classify_part(Some("poster"), Some("p.png"), Some("image/png")),
        Err(bad("Unknown multipart field 'poster' - expected 'cover', 'screenshot', or 'trailer'"))
    );
    assert_eq!(
        classify_part(Some("cover"), Some("c.png"), None),
        Err(bad("Missing content-type on field 'Cover'"))
    );
    assert_eq!(
        classify_part(Some("screenshot"), Some("s.webp"), Some("image/webp")),
        Ok(UploadPart::File {
            field: FieldName::Screenshot,
            file_name: "s.webp".to_string(),
            content_type: "image/webp".to_string()
        })
    );
    assert_eq!(
        classify_part(Some("trailer"), None, Some("video/mp4")),
        Ok(UploadPart::File {
            field: FieldName::Trailer,
            file_name: "upload".to_string(),
            content_type: "video/mp4".to_string()
        })
    );
}

#[test]
fn versions_are_read() {
    assert_eq!(parse_version("7"), Ok(7));
    assert_eq!(parse_version("  -3\n"), Ok(-3));
    assert_eq!(parse_version("+12"), Ok(12));
    assert_eq!(parse_version("\u{3000}\t12\u{a0}\u{2029}"), Ok(12));
    assert_eq!(parse_version("\u{200b}12"), Err(bad("Invalid version format")));
    assert_eq!(parse_version("9223372036854775807"), Ok(i64::MAX));
    assert_eq!(parse_version("9223372036854775808"), Err(bad("Invalid version format")));
    assert_eq!(parse_version("v1"), Err(bad("Invalid version format")));
    assert_eq!(parse_version(""), Err(bad("Invalid version format")));
    assert_eq!(require_version(Some(4)), Ok(4));
    assert_eq!(require_version(None), Err(bad("Version field is required")));
}

#[test]
fn listing_pages_gather_object_names() {
    let mut keys: Vec<String> = vec!["a".to_string()];
    let enough = add_listed_page(
        &mut keys,
        vec![("b".to_string(), false), ("dir/".to_string(), true), ("c".to_string(), false)],
    );
    assert!(!enough);
    assert_eq!(keys, vec!["a".to_string(), "b".to_string(), "c".to_string()]);
    let page: Vec<(String, bool)> = (0..MAX_LISTED_KEYS).map(|i| (format!("k{}", i), false)).collect();
    assert!(add_listed_page(&mut keys, page));
    assert_eq!(keys.len(), MAX_LISTED_KEYS + 3);
    let capped = cap_listing(keys.clone());
    assert_eq!(capped.len(), MAX_LISTED_KEYS);
    assert_eq!(capped[..], keys[..MAX_LISTED_KEYS]);
    assert_eq!(cap_listing(vec!["x".to_string()]), vec!["x".to_string()]);
}

#[test]
fn object_ids_are_read_or_refused() {
    let id = object_id_or_bad_request("0123456789abcdefABCDEF01", "Invalid id");
    assert_eq!(id, Ok([0x01, 0x23, 0x45, 0x67, 0x89, 0xab, 0xcd, 0xef, 0xab, 0xcd, 0xef, 0x01]));
    assert_eq!(object_id_or_bad_request("0123", "Invalid id"), Err(bad("Invalid id")));
    assert_eq!(object_id_or_bad_request("0123456789abcdefABCDEF0g", "Bad"), Err(bad("Bad")));
}

fn upload(field: FieldName, name: &str) -> UploadedFile {
    UploadedFile::new(field, name.to_string(), "image/png".to_string(), Bytes::from(vec![1u8; 3]))
}

#[test]
fn keys_of_one_attempt_differ_but_for_repeated_covers() {
    let files = vec![
        upload(FieldName::Screenshot, "a.png"),
        upload(FieldName::Screenshot, "a.png"),
        upload(FieldName::Cover, "a.png"),
        upload(FieldName::Trailer, "a.png"),
        upload(FieldName::Cover, "a.png"),
    ];
    let plan = plan_uploads(1, &files, "ab12");
    assert_ne!(plan[0].object_key, plan[1].object_key);
    assert_ne!(plan[0].object_key, plan[2].object_key);
    assert_ne!(plan[2].object_key, plan[3].object_key);
    assert_eq!(plan[2].object_key, plan[4].object_key);
}

#[test]
fn stamped_now_uses_one_time() {
    let files = vec![upload(FieldName::Cover, "c.png"), upload(FieldName::Screenshot, "s.png")];
    let plan = plan_uploads(2, &files, "f0");
    let (cover, shots, trailer) = assemble_uploads_now(&plan);
    let cover = cover.unwrap();
    let shots = shots.unwrap();
    assert_eq!(cover.object_key, "games/2/cover_f0.png");
    assert_eq!(shots.len(), 1);
    assert_eq!(shots[0].uploaded_at, cover.uploaded_at);
    assert!(cover.uploaded_at > 0);
    assert!(trailer.is_none());

    let c = new_comment_now(CommentTargetType::Game, "9".to_string(), 5, "ann".to_string(), "hi".to_string());
    assert_eq!(c.created_at, c.updated_at);
    assert_eq!(c.id, None);
    assert_eq!(c.version, 0);
    let edited: Comment = with_new_text_now(c.clone(), "bye".to_string());
    assert_eq!(edited.text, "bye");
    assert_eq!(edited.created_at, c.created_at);
    assert!(edited.updated_at >= c.updated_at);

    let r = admit_report_now(false, 3, "bo".to_string(), ReportTargetType::Review, [7u8; 12], "spam".to_string())
        .unwrap();
    assert_eq!(r.status, ReportStatus::Pending);
    assert!(r.created_at > 0);
    assert!(admit_report_now(true, 3, "bo".to_string(), ReportTargetType::Review, [7u8; 12], "spam".to_string())
        .is_err());

    let request = CreateUpdateReviewRequest { game_id: 4, rating: Rating::Good, text: None };
    let review = prepare_upsert_now(None, 8, "cy".to_string(), request);
    assert_eq!(review.created_at, review.updated_at);
    assert_eq!(review.rating, Rating::Good);
}

#[test]
fn catalogue_answers_by_status() {
    assert_eq!(catalogue_answer(3, 200), Ok(()));
    assert_eq!(catalogue_answer(3, 404), Err(CatalogueError::NotFound(3)));
    assert_eq!(
        catalogue_answer(3, 503),
        Err(CatalogueError::Unavailable(
            "Unexpected status from catalogue service: 503 Service Unavailable".to_string()
        ))
    );
    assert_eq!(
        catalogue_answer(3, 299),
        Err(CatalogueError::Unavailable(
            "Unexpected status from catalogue service: 299 <unknown status code>".to_string()
        ))
    );
}

#[test]
fn comment_catalogue_failures() {
    assert_eq!(CommentError::from_catalogue(CatalogueError::NotFound(-12)), CommentError::InvalidGameId("-12".to_string()));
    assert_eq!(
        CommentError::from_catalogue(CatalogueError::Unavailable("down".to_string())),
        CommentError::CatalogueServiceError("down".to_string())
    );
    let reply = CommentError::from_catalogue(CatalogueError::NotFound(7)).reply();
    assert_eq!(reply, ErrorReply { status: 400, message: Some("Invalid game id: 7".to_string()) });
}

#[test]
fn library_statuses_read_back() {
    let all = [
        (GameLibraryStatus::Owned, "OWNED"),
        (GameLibraryStatus::Playing, "PLAYING"),
        (GameLibraryStatus::Wishlist, "WISHLIST"),
        (GameLibraryStatus::Completed, "COMPLETED"),
        (GameLibraryStatus::Dropped, "DROPPED"),
    ];
    for (status, text) in all {
        assert_eq!(status.as_db_value(), text);
        assert_eq!(GameLibraryStatus::from_db_value(text), Some(status));
        assert_eq!(GameLibraryStatus::from_db_value(&status.as_db_value()), Some(status));
    }
    assert_eq!(GameLibraryStatus::from_db_value("owned"), None);
    assert_eq!(GameLibraryStatus::from_db_value(""), None);
}

#[test]
fn cleanup_after_each_upload_outcome() {
    let files = vec![
        upload(FieldName::Cover, "c.png"),
        upload(FieldName::Screenshot, "s.png"),
        upload(FieldName::Trailer, "t.mp4"),
    ];
    let plan = plan_uploads(6, &files, "ab");
    let uploaded = vec!["u1".to_string(), "u2".to_string()];
    let replaced = vec!["old".to_string()];
    assert_eq!(
        cleanup_keys(UploadOutcome::StoreFailed(2), &plan, uploaded.clone(), replaced.clone()),
        vec!["games/6/cover_ab.png".to_string(), "games/6/screenshot_ab_1.png".to_string()]
    );
    assert!(cleanup_keys(UploadOutcome::StoreFailed(0), &plan, uploaded.clone(), replaced.clone()).is_empty());
    assert_eq!(cleanup_keys(UploadOutcome::SaveFailed, &plan, uploaded.clone(), replaced.clone()), uploaded);
    assert_eq!(cleanup_keys(UploadOutcome::Saved, &plan, uploaded, replaced.clone()), replaced);
}

#[test]
fn comments_need_their_review_and_their_author() {
    let id = [0xabu8; 12];
    let review = Review::new(1, 2, "ann".to_string(), Rating::Okay, None, 5);
    assert_eq!(review_target_found(Some(review), id), Ok(()));
    let refused = review_target_found(None, id).unwrap_err();
    assert_eq!(refused, CommentError::InvalidReviewId("abababababababababababab".to_string()));
    assert_eq!(refused.reply().status, 400);

    let comment = Comment::new(CommentTargetType::Game, "3".to_string(), 7, "bo".to_string(), "a long text".to_string(), 10);
    assert_eq!(authorize_update(&comment, 7), Ok(()));
    assert_eq!(authorize_update(&comment, 8), Err(CommentError::Unauthorized));
    let other = edit_comment_now(Some(comment.clone()), 8, "changed text".to_string()).unwrap_err();
    assert_eq!(other, CommentError::Unauthorized);
    assert_eq!(other.reply().status, 403);
    assert_eq!(edit_comment_now(None, 7, "changed text".to_string()), Err(CommentError::NotFound));
    let edited = edit_comment_now(Some(comment.clone()), 7, "changed text".to_string()).unwrap();
    assert_eq!(edited.text, "changed text");
    assert_eq!(edited.created_at, 10);
    assert_eq!(edited.version, comment.version);
    assert!(edited.updated_at > 10);
}

#[test]
fn sweep_lists_leftovers_in_listed_order() {
    let current = GameMedia::new(None, 3, Some(MediaFile::new("k2".to_string(), "image/png".to_string(), 1, 0)), vec![], None, 1);
    let listed: Vec<String> = ["k5", "k1", "k2", "k4", "k3"].iter().map(|s| s.to_string()).collect();
    let left = leftover_keys(&["k4".to_string()], &Some(current), listed);
    assert_eq!(left, vec!["k5".to_string(), "k1".to_string(), "k3".to_string()]);
}
