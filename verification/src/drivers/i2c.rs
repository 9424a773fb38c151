//! Exclusive access to a shared two-wire bus.

pub mod arbiter;
