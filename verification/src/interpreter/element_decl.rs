//! The elements a group declares: by reference to a global element, or by name with a named
//! type or with a type made from their inline content.

use vstd::prelude::*;

use super::members::{
    can_hold_elements, can_reference_element, element_referenced, group_kept, held_elements,
    holds_group,
};
use super::variant_builder::VariantBuilder;
use crate::models::ident::{IdentType, Name, NamespaceId, SchemaId, TypeIdent};
use crate::models::meta::{FormChoiceType, MaxOccurs};

verus! {

/// An element as a group declares it; the qualified names it uses are resolved.
#[derive(Debug)]
pub struct ElementDecl {
    /// The name of the element.
    pub name: Option<String>,
    /// The global element the declaration refers to.
    pub ref_: Option<TypeIdent>,
    /// The type the element names.
    pub type_: Option<TypeIdent>,
    /// The type made from the inline content of the element, used where it names no type.
    pub content_type: Option<TypeIdent>,
    /// The form the element states.
    pub form: Option<FormChoiceType>,
    /// The minimal number of occurrences.
    pub min_occurs: usize,
    /// The maximal number of occurrences.
    pub max_occurs: MaxOccurs,
    /// The nillability the element states.
    pub nillable: Option<bool>,
    /// The documentation of the element.
    pub documentation: Vec<String>,
}

/// `true` if the declaration names an element: it refers to one, or it has a name and a
/// type (named or made from its content).
pub open spec fn is_complete_element_decl(d: ElementDecl) -> bool {
    d.ref_ is Some || (d.name is Some && (d.type_ is Some || d.content_type is Some))
}

/// The identifier of the element the (complete) declaration `d` adds in the namespace `ns`:
/// an element referred to, in the namespace of that element and named as the declaration
/// names it or else as the element it refers to; or a named element of the namespace `ns`.
pub open spec fn element_decl_ident(d: ElementDecl, ns: NamespaceId) -> TypeIdent {
    match d.ref_ {
        Some(r) => TypeIdent {
            ns: r.ns,
            schema: SchemaId(SchemaId::UNKNOWN),
            name: match d.name {
                Some(n) => Name(n),
                None => r.name,
            },
            type_: IdentType::Element,
        },
        None => TypeIdent {
            ns: ns,
            schema: SchemaId(SchemaId::UNKNOWN),
            name: Name(d.name.unwrap()),
            type_: IdentType::Element,
        },
    }
}

/// The type of the element the (complete) declaration `d` adds: the element referred to, or
/// the named type, or else the type made from the content.
pub open spec fn element_decl_type(d: ElementDecl) -> TypeIdent {
    match d.ref_ {
        Some(r) => TypeIdent { type_: IdentType::Element, ..r },
        None => match d.type_ {
            Some(t) => t,
            None => d.content_type.unwrap(),
        },
    }
}

impl VariantBuilder {
    /// Adds the element the declaration `decl` declares to the group of the constructed type
    /// (see [`VariantBuilder::apply_element_ref`]). The form is the declared one, or else
    /// `element_form_default`; a named element belongs to the namespace `current_ns`.
    pub fn apply_element_decl(
        &mut self,
        decl: ElementDecl,
        current_ns: NamespaceId,
        element_form_default: FormChoiceType,
    )
        requires
            is_complete_element_decl(decl),
            can_hold_elements(old(self).variant, old(self).fixed),
            can_reference_element(
                held_elements(old(self).variant),
                element_decl_ident(decl, current_ns)@,
            ),
        ensures
            group_kept(old(self).variant, final(self).variant),
            element_referenced(
                held_elements(old(self).variant),
                held_elements(final(self).variant),
                element_decl_ident(decl, current_ns),
                element_decl_type(decl),
                match decl.form {
                    Some(f) => f,
                    None => element_form_default,
                },
                decl.min_occurs,
                decl.max_occurs,
                decl.nillable,
                decl.documentation@,
            ),
            final(self).fixed == (old(self).fixed || !holds_group(old(self).variant)),
            final(self).type_mode == old(self).type_mode,
            final(self).content_mode == old(self).content_mode,
            final(self).documentation == old(self).documentation,
            final(self).is_simple_content_unique == old(self).is_simple_content_unique,
    {
        let ghost d = decl;
        let ElementDecl {
            name,
            ref_,
            type_,
            content_type,
            form,
            min_occurs,
            max_occurs,
            nillable,
            documentation,
        } = decl;
        let form = match form {
            Some(f) => f,
            None => element_form_default,
        };
        let (ident, element_type) = match ref_ {
            Some(r) => {
                let name = match name {
                    Some(n) => Name(n),
                    None => r.name.duplicate(),
                };
                let ident = TypeIdent {
                    ns: r.ns,
                    schema: SchemaId::unknown(),
                    name,
                    type_: IdentType::Element,
                };
                (ident, TypeIdent { type_: IdentType::Element, ..r })
            },
            None => {
                let name = match name {
                    Some(n) => n,
                    None => {
                        proof {
                            assert(false);
                        }
                        String::new()
                    },
                };
                let ident = TypeIdent {
                    ns: current_ns,
                    schema: SchemaId::unknown(),
                    name: Name(name),
                    type_: IdentType::Element,
                };
                let t = match (type_, content_type) {
                    (Some(t), _) => t,
                    (None, Some(c)) => c,
                    (None, None) => {
                        proof {
                            assert(false);
                        }
                        TypeIdent::new(Name(String::new()))
                    },
                };
                (ident, t)
            },
        };
        proof {
            assert(ident == element_decl_ident(d, current_ns));
            assert(element_type == element_decl_type(d));
        }
        self.apply_element_ref(
            ident,
            element_type,
            form,
            min_occurs,
            max_occurs,
            nillable,
            &documentation,
        );
    }
}

} // verus!
