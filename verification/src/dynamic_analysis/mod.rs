//! Removing bounds by trial: coordinates, the single-bound edit, and the
//! trial engine.

pub mod common;
pub mod edit;
pub mod laws;
pub mod trial;
