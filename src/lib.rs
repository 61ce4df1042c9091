//! Value types and parameter-buffer builders for hardware-accelerated image decoding.

pub mod pixelformat;
pub mod shared;
pub mod jpeg;
pub mod picture;
pub mod resources;
pub mod mapping;
pub mod wire;
