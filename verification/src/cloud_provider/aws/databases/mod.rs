//! The databases.

pub mod postgresql;
