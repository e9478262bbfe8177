//! Identifiers, namespaces and the type information that the interpreter produces.

pub mod ident;
pub mod meta;
pub mod schema;
