//! A task-tracking core: clients submit units of work, and every task moves
//! through a fixed lifecycle by checked state transitions against a store.
//!
//! * [`model`] holds the task entity, its lifecycle states and its identifier.
//! * [`repo`] is the storage interface, with an in-memory store.
//! * [`lifecycle`] is the only code that changes a task's state.
//! * [`api`] turns requests into lifecycle calls and outcomes into signals.

pub mod api;
pub mod lifecycle;
pub mod model;
pub mod repo;
