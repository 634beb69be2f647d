//! Verified core of the Playlog backend services: media object keys and
//! upload rules, library pagination, review/comment/report decisions,
//! error classification, and the text helpers they rest on.

pub mod adapters;
pub mod catalogue;
pub mod comment;
pub mod library;
pub mod media;
pub mod pagination;
pub mod reply;
pub mod report;
pub mod review;
pub mod text;
