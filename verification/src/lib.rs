//! Decoding of typed, nullable database column values into a generic value
//! tree, together with a verified parser and renderer for the binary
//! text-search-vector format.

pub mod column;
pub mod dispatch;
pub mod json;
pub mod temporal;
pub mod text;
pub mod tsvector;
pub mod wire;
