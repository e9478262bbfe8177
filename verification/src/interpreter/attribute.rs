//! The attributes a complex type declares: by name and type, by reference to a global
//! attribute, or by name with an inline simple type.

use vstd::prelude::*;

use super::error::InterpreterError;
use super::members::{
    attribute_updated, can_hold_attributes, complex_kept, first_attribute_with_ident,
    held_attributes,
};
use super::variant_builder::VariantBuilder;
use crate::models::ident::{IdentType, Name, NamespaceId, SchemaId, TypeIdent, TypeIdentView};
use crate::models::meta::{AttributeMeta, AttributeMetaVariant, FormChoiceType, MetaTypeVariant, Use};

verus! {

/// An attribute as a complex type declares it; the qualified names it uses are resolved.
#[derive(Debug)]
pub struct AttributeDecl {
    /// The name of the attribute.
    pub name: Option<String>,
    /// The type the attribute names.
    pub type_: Option<TypeIdent>,
    /// The global attribute the declaration refers to.
    pub ref_: Option<TypeIdent>,
    /// The type made from the inline simple type of the attribute.
    pub simple_type: Option<TypeIdent>,
    /// The form the attribute states.
    pub form: Option<FormChoiceType>,
    /// The use of the attribute.
    pub use_: Use,
    /// The default value of the attribute.
    pub default: Option<String>,
    /// The documentation of the attribute.
    pub documentation: Vec<String>,
}

/// `true` if the declaration names an attribute: it has a name or refers to one.
pub open spec fn is_valid_attribute_decl(d: AttributeDecl) -> bool {
    d.name is Some || d.ref_ is Some
}

/// The identifier of the attribute the (valid) declaration `d` adds in the namespace `ns`:
/// a named attribute of the current namespace, or an attribute referred to, named as the
/// declaration names it or else as the attribute it refers to.
pub open spec fn decl_ident_view(d: AttributeDecl, ns: NamespaceId) -> TypeIdentView {
    if d.name is Some && d.type_ is Some {
        TypeIdentView {
            ns: ns,
            schema: SchemaId(SchemaId::UNKNOWN),
            name: d.name.unwrap()@,
            type_: IdentType::Attribute,
        }
    } else if d.ref_ is Some {
        let r = d.ref_.unwrap();
        TypeIdentView {
            ns: r.ns,
            schema: SchemaId(SchemaId::UNKNOWN),
            name: match d.name {
                Some(n) => n@,
                None => r.name@,
            },
            type_: IdentType::Attribute,
        }
    } else {
        TypeIdentView {
            ns: ns,
            schema: SchemaId(SchemaId::UNKNOWN),
            name: d.name.unwrap()@,
            type_: IdentType::Attribute,
        }
    }
}

/// The type of the attribute the (valid) declaration `d` adds: the named type, the attribute
/// referred to, or the inline simple type (the build-in string type if there is none).
pub open spec fn decl_type_view(d: AttributeDecl) -> TypeIdentView {
    if d.name is Some && d.type_ is Some {
        d.type_.unwrap()@
    } else if d.ref_ is Some {
        TypeIdentView { type_: IdentType::Attribute, ..d.ref_.unwrap()@ }
    } else {
        match d.simple_type {
            Some(s) => s@,
            None => TypeIdentView {
                ns: NamespaceId(NamespaceId::ANONYMOUS),
                schema: SchemaId(SchemaId::UNKNOWN),
                name: "String"@,
                type_: IdentType::BuildIn,
            },
        }
    }
}

/// `new` is `old` after the attribute `ident` of the type `type_` was declared: an existing
/// attribute with that identifier is updated, else a new one is appended.
pub open spec fn attribute_declared(
    old: Seq<AttributeMeta>,
    new: Seq<AttributeMeta>,
    ident: TypeIdentView,
    type_: TypeIdentView,
    form: FormChoiceType,
    use_: Use,
    default: Option<String>,
    docs: Seq<String>,
) -> bool {
    let i = first_attribute_with_ident(old, ident, 0);
    if i < old.len() {
        &&& new.len() == old.len()
        &&& forall|j: int| 0 <= j < old.len() && j != i ==> #[trigger] new[j] == old[j]
        &&& attribute_updated(old[i], new[i], use_, default, docs)
    } else {
        let e = new.last();
        &&& new.len() == old.len() + 1
        &&& new.drop_last() == old
        &&& e.ident@ == ident
        &&& e.variant matches AttributeMetaVariant::Type(t)
        &&& e.variant->Type_0@ == type_
        &&& e.form == form
        &&& e.display_name is None
        &&& e.use_ == use_
        &&& e.default == default
        &&& e.documentation@ == docs
    }
}

impl VariantBuilder {
    /// Adds the attribute the declaration `decl` declares to the constructed complex type
    /// (see [`VariantBuilder::apply_attribute_ref`]). A named attribute with a type is an
    /// attribute of the namespace `current_ns`; a reference adds the attribute it refers to
    /// (under the declared name, if any); a named attribute without a type gets its inline
    /// simple type, or else the build-in string type. The form is the declared one, or else
    /// `attribute_form_default`.
    ///
    /// # Errors
    ///
    /// Returns [`InterpreterError::InvalidAttributeReference`] with the declaration if it
    /// has neither a name nor a reference; the builder is left unchanged.
    pub fn apply_attribute_decl(
        &mut self,
        decl: AttributeDecl,
        current_ns: NamespaceId,
        attribute_form_default: FormChoiceType,
    ) -> (r: Result<(), InterpreterError>)
        requires
            is_valid_attribute_decl(decl) ==> can_hold_attributes(old(self).variant, old(self).fixed),
        ensures
            r is Ok <==> is_valid_attribute_decl(decl),
            !is_valid_attribute_decl(decl) ==> {
                &&& r == Err::<(), InterpreterError>(InterpreterError::InvalidAttributeReference(decl))
                &&& *final(self) == *old(self)
            },
            is_valid_attribute_decl(decl) ==> {
                &&& complex_kept(old(self).variant, final(self).variant)
                &&& attribute_declared(
                    held_attributes(old(self).variant),
                    held_attributes(final(self).variant),
                    decl_ident_view(decl, current_ns),
                    decl_type_view(decl),
                    match decl.form {
                        Some(f) => f,
                        None => attribute_form_default,
                    },
                    decl.use_,
                    decl.default,
                    decl.documentation@,
                )
                &&& final(self).fixed == (old(self).fixed || !(old(self).variant matches Some(
                    MetaTypeVariant::ComplexType(_),
                )))
                &&& final(self).type_mode == old(self).type_mode
                &&& final(self).content_mode == old(self).content_mode
                &&& final(self).documentation == old(self).documentation
                &&& final(self).is_simple_content_unique == old(self).is_simple_content_unique
            },
    {
        if decl.name.is_none() && decl.ref_.is_none() {
            return Err(InterpreterError::InvalidAttributeReference(decl));
        }
        let ghost d = decl;
        let AttributeDecl { name, type_, ref_, simple_type, form, use_, default, documentation } =
            decl;
        let form = match form {
            Some(f) => f,
            None => attribute_form_default,
        };
        let (ident, type_) = match (name, type_, ref_) {
            (Some(n), Some(t), _) => (
                TypeIdent {
                    ns: current_ns,
                    schema: SchemaId::unknown(),
                    name: Name::new_named(n),
                    type_: IdentType::Attribute,
                },
                t,
            ),
            (n, _, Some(r)) => {
                let name = match n {
                    Some(n) => Name::new_named(n),
                    None => r.name.duplicate(),
                };
                let ident = TypeIdent {
                    ns: r.ns,
                    schema: SchemaId::unknown(),
                    name,
                    type_: IdentType::Attribute,
                };
                (ident, r.with_type(IdentType::Attribute))
            },
            (Some(n), _, None) => (
                TypeIdent {
                    ns: current_ns,
                    schema: SchemaId::unknown(),
                    name: Name::new_named(n),
                    type_: IdentType::Attribute,
                },
                match simple_type {
                    Some(s) => s,
                    None => TypeIdent::build_in("String"),
                },
            ),
            (None, _, None) => {
                proof {
                    assert(false);
                }
                return Ok(());
            },
        };
        proof {
            reveal_strlit("String");
            assert(ident@ == decl_ident_view(d, current_ns));
            assert(type_@ == decl_type_view(d));
        }
        self.apply_attribute_ref(ident, type_, form, use_, default, &documentation);
        Ok(())
    }
}

} // verus!
