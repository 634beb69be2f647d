//! Reports of inappropriate reviews and comments, and their resolution.

pub mod dto;
pub mod error;
pub mod model;
pub mod service;
