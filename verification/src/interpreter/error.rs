use vstd::prelude::*;

use super::attribute::AttributeDecl;
use crate::models::ident::TypeIdent;
use crate::models::schema::{Facet, Namespace, NamespacePrefix};

verus! {

/// Errors of the schema interpreter.
#[derive(Debug)]
pub enum InterpreterError {
    /// The anonymous namespace is not known to the schemas.
    AnonymousNamespaceIsUndefined,
    /// The namespace is not known to the schemas.
    UnknownNamespace(Namespace),
    /// The namespace prefix is not known to the schemas.
    UnknownNamespacePrefix(NamespacePrefix),
    /// The builder was finished before a type was set.
    NoType,
    /// The referenced type is not known.
    UnknownType(TypeIdent),
    /// A group type was expected.
    ExpectedGroupType,
    /// The attribute declaration has neither a name nor a reference.
    InvalidAttributeReference(AttributeDecl),
    /// The head of a substitution group is no element that can be substituted.
    ExpectedDynamicElement(TypeIdent),
    /// The value of the facet is invalid.
    InvalidFacet(Facet),
}

} // verus!
