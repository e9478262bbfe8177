//! Verified core of an XML schema (XSD) to Rust code generator.

pub mod codec;
pub mod config;
pub mod interpreter;
pub mod models;
pub mod renderer;
pub mod text;
pub mod xml;
