//! Storage and the repositories that work on it.

pub mod chat;
pub mod repository;
pub mod storage;
