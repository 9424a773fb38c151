//! Sensor protocol decoding.

pub mod dht22;
pub mod lm75b;
