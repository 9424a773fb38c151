//! LED signal encoding.

pub mod ws2812;
