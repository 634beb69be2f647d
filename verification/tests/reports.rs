use playlog::comment::error::CommentError;
use playlog::reply::ErrorReply;
use playlog::report::dto::{CreateReportRequest, ReportResponse};
use playlog::report::error::ReportError;
use playlog::report::model::{Report, ReportStatus, ReportTargetType};
use playlog::report::service::{admit_report, found_report, plan_resolution, write_outcome, Resolution};
use playlog::review::error::ReviewError;

const TARGET: [u8; 12] = [1, 2, 3, 4, 5, 6, 7, 8, 9, 10, 11, 12];

fn report(reporter: u128) -> Report {
    let mut r = Report::new(ReportTargetType::Review, TARGET, reporter, "rep".into(), "spam spam spam".into(), 5);
    r.id = Some([0; 12]);
    r
}

#[test]
fn db_values() {
    assert_eq!(ReportTargetType::Review.as_db_value(), "REVIEW");
    assert_eq!(ReportTargetType::Comment.as_db_value(), "COMMENT");
    assert_eq!(ReportStatus::Pending.as_db_value(), "PENDING");
    assert_eq!(ReportStatus::Resolved.as_db_value(), "RESOLVED");
    assert_eq!(ReportStatus::Dismissed.as_db_value(), "DISMISSED");
}

#[test]
fn reporting() {
    assert_eq!(
        admit_report(true, 1, "a".into(), ReportTargetType::Comment, TARGET, "bad words here".into(), 9),
        Err(ReportError::AlreadyReported)
    );
    let r = admit_report(false, 1, "a".into(), ReportTargetType::Comment, TARGET, "bad words here".into(), 9).unwrap();
    assert_eq!((r.status, r.version, r.id, r.created_at), (ReportStatus::Pending, 0, None, 9));
    let req = CreateReportRequest { target_type: ReportTargetType::Review, target_id: "x".into(), reason: "too short".into() };
    assert_eq!(req.invalid_fields(), vec!["reason".to_string()]);
}

#[test]
fn resolving() {
    assert_eq!(plan_resolution(None, 2, ReportStatus::Resolved), Err(ReportError::NotFound));
    assert_eq!(plan_resolution(Some(report(2)), 2, ReportStatus::Resolved), Err(ReportError::CantResolveOwnReport));
    assert_eq!(
        plan_resolution(Some(report(1)), 2, ReportStatus::Pending),
        Err(ReportError::IllegalStatus("PENDING".into()))
    );
    assert_eq!(
        plan_resolution(Some(report(1)), 2, ReportStatus::Resolved),
        Ok(Resolution { delete_target: Some((ReportTargetType::Review, TARGET)) })
    );
    assert_eq!(plan_resolution(Some(report(1)), 2, ReportStatus::Dismissed), Ok(Resolution { delete_target: None }));
    assert_eq!(found_report(None), Err(ReportError::NotFound));
    assert_eq!(write_outcome(TARGET, 0), Err(ReportError::Conflict(TARGET)));
    assert_eq!(write_outcome(TARGET, 1), Ok(()));
}

#[test]
fn response() {
    let r = ReportResponse::from(report(3));
    assert_eq!(r.id, "000000000000000000000000");
    assert_eq!(r.target_id, "0102030405060708090a0b0c");
    assert_eq!((r.reporter_id, r.version), (3, 0));
}

#[test]
fn report_errors() {
    assert_eq!(ReportError::IllegalStatus("PENDING".into()).reply(), ErrorReply { status: 400, message: Some("Illegal status: PENDING".into()) });
    assert_eq!(ReportError::CantResolveOwnReport.message(), "You can't resolve your own report");
    assert_eq!(ReportError::CantResolveOwnReport.reply().status, 400);
    assert_eq!(ReportError::AnyhowError("q".into()).reply().status, 400);
    assert_eq!(ReportError::NotFound.reply().status, 404);
    assert_eq!(
        ReportError::AlreadyReported.reply(),
        ErrorReply { status: 409, message: Some("You have already reported this content and it is still under review".into()) }
    );
    assert_eq!(ReportError::Conflict(TARGET).message(), "Version mismatch for report with id 0102030405060708090a0b0c");
    assert_eq!(ReportError::Conflict(TARGET).reply().status, 409);
    assert_eq!(ReportError::DatabaseError("d".into()).reply(), ErrorReply { status: 500, message: None });
    assert_eq!(ReportError::ReviewError(ReviewError::Unauthorized).reply(), ReviewError::Unauthorized.reply());
    assert_eq!(ReportError::ReviewError(ReviewError::NotFound).message(), "Review error: Review not found");
    assert_eq!(ReportError::CommentError(CommentError::NotFound).reply().status, 404);
    assert_eq!(ReportError::CommentError(CommentError::NotFound).message(), "Comment error: Comment not found");
}
