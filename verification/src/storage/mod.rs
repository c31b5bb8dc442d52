//! Storage.

pub mod database;
