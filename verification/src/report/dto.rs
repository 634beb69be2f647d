//! Requests and responses of the report endpoints.

use crate::adapters::{hex_lower, object_id_to_hex};
use crate::comment::dto::too_short;
use crate::report::model::{Report, ReportStatus, ReportTargetType};
use crate::text::texts;
use vstd::prelude::*;

verus! {

/// Reports a review or comment.
#[derive(Debug, Clone, PartialEq, Eq)]
pub struct CreateReportRequest {
    pub target_type: ReportTargetType,
    pub target_id: String,
    pub reason: String,
}

impl CreateReportRequest {
    /// The fields that break their rule: the reason must have at least 10
    /// characters.
    pub fn invalid_fields(&self) -> (r: Vec<String>)
        ensures
            texts(r@) == too_short("reason"@, self.reason@, 10),
    {
        let mut r: Vec<String> = Vec::new();
        if self.reason.as_str().unicode_len() < 10 {
            r.push(String::from_str("reason"));
        }
        assert(texts(r@) =~= too_short("reason"@, self.reason@, 10));
        r
    }
}

/// Resolves or dismisses a report seen at `version`.
#[derive(Debug, Clone, Copy, PartialEq, Eq)]
pub struct UpdateReportStatusRequest {
    pub status: ReportStatus,
    pub version: i64,
}

/// Which page of pending reports to list.
#[derive(Debug, Clone, Copy, PartialEq, Eq)]
pub struct ReportQuery {
    pub page: Option<u64>,
}

/// A report as moderators see it.
#[derive(Debug, Clone, PartialEq, Eq)]
pub struct ReportResponse {
    pub id: String,
    pub target_type: ReportTargetType,
    pub target_id: String,
    pub reporter_id: u128,
    pub reason: String,
    pub created_at: i64,
    pub version: i64,
}

impl ReportResponse {
    /// The response for a stored report; its id and its target's id in
    /// hexadecimal.
    pub fn from(value: Report) -> (r: Self)
        requires
            value.id is Some,
        ensures
            r.id@ == hex_lower(value.id->0@),
            r.target_type == value.target_type,
            r.target_id@ == hex_lower(value.target_id@),
            r.reporter_id == value.reporter_id,
            r.reason == value.reason,
            r.created_at == value.created_at,
            r.version == value.version,
    {
        let id = match value.id {
            Some(id) => object_id_to_hex(id),
            None => String::new(),
        };
        ReportResponse {
            id,
            target_type: value.target_type,
            target_id: object_id_to_hex(value.target_id),
            reporter_id: value.reporter_id,
            reason: value.reason,
            created_at: value.created_at,
            version: value.version,
        }
    }
}

} // verus!
