//! Bezier curves made of segments.
pub mod cube;
pub mod quad;

pub use quad::{QuadBezier, QuadSegment};
