//! Decisions of the code renderer.

pub mod docs;
pub mod validation;
