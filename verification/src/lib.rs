//! Prunes over-constrained generic bound lists, one verified trial at a time.

pub mod analysis;
pub mod cli;
pub mod config;
pub mod discover;
pub mod dynamic_analysis;
pub mod info;
pub mod syntax;
pub mod target;
pub mod text;
