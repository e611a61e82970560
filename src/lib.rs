//! Pixel value types with 8 bits per channel, the conversions between
//! them, and the "overdraw" alpha-compositing operator.

pub mod color;
pub mod convert;
pub mod laws;
pub mod overdraw;

pub use color::{ColorFn, ColorFormat, Grey8, Rgb8, Rgba8};
pub use overdraw::Overdraw;
