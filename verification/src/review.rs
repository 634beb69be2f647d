//! Reviews and ratings of games.

pub mod config;
pub mod dto;
pub mod error;
pub mod model;
pub mod service;
