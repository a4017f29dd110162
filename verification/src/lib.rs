//! Lifecycle and chart deployment engine for declaratively described cloud
//! resources: the decisions are verified here, the outside work is requested
//! from the caller and its outcome handed back.

pub mod cloud_provider;
pub mod container_registry;
pub mod dns_provider;
pub mod error;
pub mod events;
pub mod models;
pub mod text;
pub mod text_map;
pub mod utilities;
