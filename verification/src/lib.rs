//! Concurrency and shared-resource runtime for a cooperatively scheduled
//! sensor platform: a lock-free mutex model, an exclusive-bus arbiter,
//! a scheduler load estimator, and a time-windowed sensor store.

pub mod color_temp;
pub mod drivers;
pub mod load_indicator;
pub mod sensor_data;
pub mod sync;
