//! The value types the repository seam speaks in.

pub mod repository;
pub mod project_store;
