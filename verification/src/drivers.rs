//! Device-facing components: the shared-bus arbiter and sensor and LED
//! data handling.

pub mod i2c;
pub mod led;
pub mod sensors;
