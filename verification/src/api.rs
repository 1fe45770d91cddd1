//! The request adapter: what a client sends and what it is told.

pub mod task;
