//! Form blocks.

pub mod control;
pub mod input;
