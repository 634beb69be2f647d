//! Comments on games and on reviews.

pub mod dto;
pub mod error;
pub mod model;
pub mod service;
