//! Synchronization primitives for tasks on a cooperative scheduler.

pub mod mutex;
