//! The library service: which games a user keeps, and in what state.

pub mod dto;
pub mod error;
pub mod model;
pub mod paging;
