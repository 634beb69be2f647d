//! The multimedia service: game covers, screenshots and trailers kept in
//! object storage, with their metadata in a document store.

pub mod config;
pub mod dto;
pub mod error;
pub mod media_keys;
pub mod model;
pub mod multipart;
pub mod upload;
