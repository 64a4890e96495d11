//! Declarative building blocks for Bulma-styled markup.
//!
//! Every block turns an immutable property snapshot into a rendered node: a
//! tag, a composed set of CSS class tokens and the children in the order in
//! which they were supplied. Child nodes and callbacks belong to the caller and
//! are referred to by the caller's handles.

pub mod classes;
pub mod component;
pub mod elements;
pub mod form;
pub mod layout;
pub mod node;
