//! Element blocks.

pub mod block;
pub mod delete;
pub mod panel;
