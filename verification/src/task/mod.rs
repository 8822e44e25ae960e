//! Cooperative tasks and the executor that schedules them.

pub mod executor;
