//! Verified decoding of packed colour words into 8-bit channel levels.

pub mod color;

pub use color::Color;
