//! Layout blocks.

pub mod container;
pub mod footer;
pub mod level;
