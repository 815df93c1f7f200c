//! Helpers for writing tables.
pub use crate::buf::SizeOnlyBufWriter;
