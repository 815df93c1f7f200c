//! High-level data structures that are mapped to the tables of [`crate::model`].
pub mod glyf;
pub mod cmap;
pub mod loca;
pub mod maxp;
