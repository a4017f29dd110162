//! The resources as they run at one cloud provider.

pub mod application;
pub mod databases;
pub mod router;
