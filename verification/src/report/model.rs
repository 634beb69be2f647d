//! Reports.

use vstd::prelude::*;

verus! {

/// What a report is about.
#[derive(Debug, Clone, Copy, PartialEq, Eq, Structural)]
pub enum ReportTargetType {
    Review,
    Comment,
}

/// Where a report stands: open, acted on, or dismissed.
#[derive(Debug, Clone, Copy, PartialEq, Eq, Structural)]
pub enum ReportStatus {
    Pending,
    Resolved,
    Dismissed,
}

/// The database value of a target type: its `Debug` name in upper case.
pub open spec fn target_type_db_text(t: ReportTargetType) -> Seq<char> {
    match t {
        ReportTargetType::Review => "REVIEW"@,
        ReportTargetType::Comment => "COMMENT"@,
    }
}

/// The database value of a status: its `Debug` name in upper case.
pub open spec fn status_db_text(s: ReportStatus) -> Seq<char> {
    match s {
        ReportStatus::Pending => "PENDING"@,
        ReportStatus::Resolved => "RESOLVED"@,
        ReportStatus::Dismissed => "DISMISSED"@,
    }
}

impl ReportTargetType {
    /// The target type's database value, `format!("{:?}", self).to_uppercase()`.
    pub fn as_db_value(&self) -> (s: String)
        ensures
            s@ == target_type_db_text(*self),
    {
        match self {
            ReportTargetType::Review => String::from_str("REVIEW"),
            ReportTargetType::Comment => String::from_str("COMMENT"),
        }
    }
}

impl ReportStatus {
    /// The status's database value, `format!("{:?}", self).to_uppercase()`.
    pub fn as_db_value(&self) -> (s: String)
        ensures
            s@ == status_db_text(*self),
    {
        match self {
            ReportStatus::Pending => String::from_str("PENDING"),
            ReportStatus::Resolved => String::from_str("RESOLVED"),
            ReportStatus::Dismissed => String::from_str("DISMISSED"),
        }
    }
}

/// A report of a review or comment. `id` and `target_id` hold object id
/// bytes, `reporter_id` the reporter's UUID as a number, `created_at`
/// milliseconds since the Unix epoch.
#[derive(Debug, Clone, PartialEq, Eq)]
pub struct Report {
    pub id: Option<[u8; 12]>,
    pub target_type: ReportTargetType,
    pub target_id: [u8; 12],
    pub reporter_id: u128,
    pub reporter_username: String,
    pub reason: String,
    pub status: ReportStatus,
    pub created_at: i64,
    pub version: i64,
}

impl Report {
    /// A new pending report, not yet stored, at version 0.
    pub fn new(
        target_type: ReportTargetType,
        target_id: [u8; 12],
        reporter_id: u128,
        reporter_username: String,
        reason: String,
        created_at: i64,
    ) -> (r: Self)
        ensures
            r == (Report {
                id: None,
                target_type,
                target_id,
                reporter_id,
                reporter_username,
                reason,
                status: ReportStatus::Pending,
                created_at,
                version: 0,
            }),
    {
        Report {
            id: None,
            target_type,
            target_id,
            reporter_id,
            reporter_username,
            reason,
            status: ReportStatus::Pending,
            created_at,
            version: 0,
        }
    }
}

} // verus!
