//! Verified encoding of TrueType font tables.
pub mod buf;
pub mod curve;
pub mod dev;
pub mod hl;
pub mod bytes_spec;
pub mod model;
pub mod seq_util;
pub mod sort;
pub mod spiro;
pub mod text;
pub mod util;
