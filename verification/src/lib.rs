//! Clip sources of a rendered element and the conservative rectangles
//! derived from them, in integer layer units and whole device pixels.

pub mod geometry;
pub mod transform;
pub mod clip;
pub mod store;
pub mod laws;
