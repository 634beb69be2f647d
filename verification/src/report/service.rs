//! The decisions of the report endpoints: when a report is accepted, and
//! what resolving one does.

use crate::adapters::now_millis;
use crate::report::error::{ReportError, ReportErrorView};
use crate::report::model::{status_db_text, Report, ReportStatus, ReportTargetType};
use vstd::prelude::*;

verus! {

/// Accepts a report unless the reporter already has a pending report of
/// the same target; the accepted report is new and pending.
pub fn admit_report(
    pending_exists: bool,
    reporter_id: u128,
    reporter_username: String,
    target_type: ReportTargetType,
    target_id: [u8; 12],
    reason: String,
    now: i64,
) -> (r: Result<Report, ReportError>)
    ensures
        pending_exists ==> (r matches Err(e) && e@ == ReportErrorView::AlreadyReported),
        !pending_exists ==> r == Ok::<Report, ReportError>(
            Report {
                id: None,
                target_type,
                target_id,
                reporter_id,
                reporter_username,
                reason,
                status: ReportStatus::Pending,
                created_at: now,
                version: 0,
            },
        ),
{
    if pending_exists {
        return Err(ReportError::AlreadyReported);
    }
    Ok(Report::new(target_type, target_id, reporter_id, reporter_username, reason, now))
}

/// Accepts a report as [`admit_report`] does, created at the current time
/// as the clock reads.
pub fn admit_report_now(
    pending_exists: bool,
    reporter_id: u128,
    reporter_username: String,
    target_type: ReportTargetType,
    target_id: [u8; 12],
    reason: String,
) -> (r: Result<Report, ReportError>)
    ensures
        pending_exists ==> (r matches Err(e) && e@ == ReportErrorView::AlreadyReported),
        !pending_exists ==> exists|t: i64|
            r == Ok::<Report, ReportError>(
                Report {
                    id: None,
                    target_type,
                    target_id,
                    reporter_id,
                    reporter_username,
                    reason,
                    status: ReportStatus::Pending,
                    created_at: t,
                    version: 0,
                },
            ),
{
    let now = now_millis();
    admit_report(pending_exists, reporter_id, reporter_username, target_type, target_id, reason, now)
}

/// The report a lookup found, or the not-found error.
pub fn found_report(found: Option<Report>) -> (r: Result<Report, ReportError>)
    ensures
        match found {
            Some(v) => r == Ok::<Report, ReportError>(v),
            None => r matches Err(e) && e@ == ReportErrorView::NotFound,
        },
{
    match found {
        Some(v) => Ok(v),
        None => Err(ReportError::NotFound),
    }
}

/// What resolving a report does besides recording the new status: the
/// reported review or comment to delete, if any.
#[derive(Debug, Clone, Copy, PartialEq, Eq)]
pub struct Resolution {
    pub delete_target: Option<(ReportTargetType, [u8; 12])>,
}

/// Decides a moderator's resolution of a report: the report must exist,
/// must not be the moderator's own, and the new status must not be
/// pending. Resolving deletes the reported content; dismissing does not.
pub fn plan_resolution(found: Option<Report>, resolver_id: u128, status: ReportStatus) -> (r: Result<
    Resolution,
    ReportError,
>)
    ensures
        match found {
            None => r matches Err(e) && e@ == ReportErrorView::NotFound,
            Some(report) => if report.reporter_id == resolver_id {
                r matches Err(e) && e@ == ReportErrorView::CantResolveOwnReport
            } else if status == ReportStatus::Pending {
                r matches Err(e) && e@ == ReportErrorView::IllegalStatus(status_db_text(status))
            } else if status == ReportStatus::Resolved {
                r == Ok::<Resolution, ReportError>(
                    Resolution { delete_target: Some((report.target_type, report.target_id)) },
                )
            } else {
                r == Ok::<Resolution, ReportError>(Resolution { delete_target: None })
            },
        },
        r is Ok ==> found is Some && found->0.reporter_id != resolver_id && status != ReportStatus::Pending,
        r matches Ok(res) ==> (res.delete_target is Some <==> status == ReportStatus::Resolved),
{
    let report = match found {
        Some(report) => report,
        None => return Err(ReportError::NotFound),
    };
    if report.reporter_id == resolver_id {
        return Err(ReportError::CantResolveOwnReport);
    }
    if status == ReportStatus::Pending {
        return Err(ReportError::IllegalStatus(status.as_db_value()));
    }
    match status {
        ReportStatus::Resolved => Ok(Resolution { delete_target: Some((report.target_type, report.target_id)) }),
        _ => Ok(Resolution { delete_target: None }),
    }
}

/// The outcome of a versioned status change of report `id`: matching no
/// stored report means another change came first.
pub fn write_outcome(id: [u8; 12], matched_count: u64) -> (r: Result<(), ReportError>)
    ensures
        r is Ok <==> matched_count > 0,
        r matches Err(e) ==> e@ == ReportErrorView::Conflict(id@),
{
    if matched_count == 0 {
        Err(ReportError::Conflict(id))
    } else {
        Ok(())
    }
}

} // verus!
