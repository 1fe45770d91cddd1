//! The task entity: lifecycle states, identifiers and the task itself.

pub mod ident;
pub mod state;
pub mod task;
