//! Storage of tasks, keyed by their identifier.

pub mod memory;
pub mod store;
