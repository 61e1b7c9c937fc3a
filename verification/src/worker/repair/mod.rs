//! Repair of blocks: what has to be done, who does it, and how it went.

pub mod actions;
pub mod laws;
pub mod orphan;
pub mod planner;
pub mod queue;
pub mod task_laws;
pub mod types;
