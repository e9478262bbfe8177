//! The modes of the builder and the bases of derived types.

use vstd::prelude::*;

use super::base_type::UpdateMode;
use super::members::{can_hold_attributes, complex_kept};
use super::variant_builder::{ContentMode, TypeMode, VariantBuilder};
use crate::models::ident::TypeIdent;
use crate::models::meta::{Base, ComplexMeta, MetaTypeVariant, ReferenceMeta};

verus! {

/// The base `base` as it is recorded for the derivation `mode`.
pub open spec fn derived_base(base: TypeIdent, mode: UpdateMode) -> Base {
    match mode {
        UpdateMode::Extension => Base::Extension(base),
        UpdateMode::Restriction => Base::Restriction(base),
    }
}

/// Returns the base `base` as it is recorded for the derivation `mode`.
fn make_base(base: TypeIdent, mode: UpdateMode) -> (r: Base)
    ensures
        r == derived_base(base, mode),
{
    match mode {
        UpdateMode::Extension => Base::Extension(base),
        UpdateMode::Restriction => Base::Restriction(base),
    }
}

impl VariantBuilder {
    /// Starts a simple type: the type becomes simple unless its mode is known already, and its
    /// content is simple.
    pub fn begin_simple_type(&mut self)
        ensures
            final(self).type_mode == if old(self).type_mode == TypeMode::Unknown {
                TypeMode::Simple
            } else {
                old(self).type_mode
            },
            final(self).content_mode == ContentMode::Simple,
            *final(self) == (VariantBuilder {
                type_mode: final(self).type_mode,
                content_mode: final(self).content_mode,
                ..*old(self)
            }),
    {
        if self.type_mode == TypeMode::Unknown {
            self.type_mode = TypeMode::Simple;
        }
        self.content_mode = ContentMode::Simple;
    }

    /// Starts a complex type (or its complex content): the type and its content become
    /// complex, the variant becomes a complex type (unless it is one), which is mixed if
    /// `mixed` says so, and dynamic if it is abstract with complex content.
    pub fn begin_complex_type(&mut self, mixed: Option<bool>, is_dynamic: Option<bool>)
        requires
            can_hold_attributes(old(self).variant, old(self).fixed),
        ensures
            final(self).type_mode == TypeMode::Complex,
            final(self).content_mode == ContentMode::Complex,
            final(self).variant matches Some(MetaTypeVariant::ComplexType(ci)),
            ({
                let (o, n) = (old(self).variant, final(self).variant.unwrap()->ComplexType_0);
                &&& match o {
                    Some(MetaTypeVariant::ComplexType(a)) => n == ComplexMeta {
                        is_mixed: n.is_mixed,
                        is_dynamic: n.is_dynamic,
                        ..a
                    },
                    _ => {
                        &&& n.base is NoBase
                        &&& n.content is None
                        &&& n.attributes.0@.len() == 0
                        &&& n.min_occurs == 1
                    },
                }
                &&& n.is_mixed == match mixed {
                    Some(m) => m,
                    None => o matches Some(MetaTypeVariant::ComplexType(a)) && a.is_mixed,
                }
                &&& n.is_dynamic == match is_dynamic {
                    Some(d) => d,
                    None => o matches Some(MetaTypeVariant::ComplexType(a)) && a.is_dynamic,
                }
            }),
            final(self).fixed == (old(self).fixed || !(old(self).variant matches Some(
                MetaTypeVariant::ComplexType(_),
            ))),
            final(self).documentation == old(self).documentation,
            final(self).is_simple_content_unique == old(self).is_simple_content_unique,
    {
        self.type_mode = TypeMode::Complex;
        self.content_mode = ContentMode::Complex;
        let v = self.variant.take();
        let mut ci = match v {
            Some(MetaTypeVariant::ComplexType(ci)) => ci,
            _ => {
                self.fixed = true;
                ComplexMeta::default()
            },
        };
        if let Some(m) = mixed {
            ci.is_mixed = m;
        }
        if let Some(d) = is_dynamic {
            ci.is_dynamic = d;
        }
        self.variant = Some(MetaTypeVariant::ComplexType(ci));
    }

    /// Starts the simple content of a complex type.
    pub fn begin_simple_content(&mut self)
        ensures
            *final(self) == (VariantBuilder { content_mode: ContentMode::Simple, ..*old(self) }),
    {
        self.content_mode = ContentMode::Simple;
    }

    /// Starts a group (`xs:all`, `xs:choice` or `xs:sequence`): the group is mixed if its
    /// complex type is.
    pub fn begin_group(&mut self, is_mixed: bool)
        ensures
            match (old(self).variant, final(self).variant) {
                (Some(MetaTypeVariant::All(a)), Some(MetaTypeVariant::All(b))) => b.is_mixed
                    == is_mixed && b.elements == a.elements,
                (Some(MetaTypeVariant::Choice(a)), Some(MetaTypeVariant::Choice(b))) => b.is_mixed
                    == is_mixed && b.elements == a.elements,
                (Some(MetaTypeVariant::Sequence(a)), Some(MetaTypeVariant::Sequence(b))) => b.is_mixed
                    == is_mixed && b.elements == a.elements,
                (o, n) => o == n && !(o matches Some(MetaTypeVariant::All(_))) && !(o matches Some(
                    MetaTypeVariant::Choice(_),
                )) && !(o matches Some(MetaTypeVariant::Sequence(_))),
            },
            final(self).fixed == old(self).fixed,
            final(self).type_mode == old(self).type_mode,
            final(self).content_mode == old(self).content_mode,
            final(self).documentation == old(self).documentation,
            final(self).is_simple_content_unique == old(self).is_simple_content_unique,
    {
        let v = self.variant.take();
        self.variant = match v {
            Some(MetaTypeVariant::All(g)) => {
                let mut g = g;
                g.is_mixed = is_mixed;
                Some(MetaTypeVariant::All(g))
            },
            Some(MetaTypeVariant::Choice(g)) => {
                let mut g = g;
                g.is_mixed = is_mixed;
                Some(MetaTypeVariant::Choice(g))
            },
            Some(MetaTypeVariant::Sequence(g)) => {
                let mut g = g;
                g.is_mixed = is_mixed;
                Some(MetaTypeVariant::Sequence(g))
            },
            other => other,
        };
    }

    /// Gives an attribute its type: a reference to `type_` that can still be changed (an
    /// attribute without a type keeps its variant; its inline simple type is applied then).
    pub fn apply_attribute(&mut self, type_: Option<TypeIdent>)
        ensures
            match type_ {
                Some(t) => {
                    &&& final(self).variant == Some(
                        MetaTypeVariant::Reference(
                            ReferenceMeta {
                                type_: t,
                                nillable: false,
                                min_occurs: 1,
                                max_occurs: crate::models::meta::MaxOccurs::Bounded(1),
                            },
                        ),
                    )
                    &&& !final(self).fixed
                },
                None => final(self).variant == old(self).variant && final(self).fixed
                    == old(self).fixed,
            },
            final(self).type_mode == old(self).type_mode,
            final(self).content_mode == old(self).content_mode,
            final(self).documentation == old(self).documentation,
            final(self).is_simple_content_unique == old(self).is_simple_content_unique,
    {
        if let Some(t) = type_ {
            self.variant = Some(MetaTypeVariant::Reference(ReferenceMeta::new(t)));
            self.fixed = false;
        }
    }

    /// Records the base of a complex type with simple content after its extension or
    /// restriction: a union, an enumeration or a complex type gets the base; a reference keeps
    /// its variant.
    pub fn apply_simple_content_base(&mut self, base: TypeIdent, mode: UpdateMode)
        requires
            old(self).variant is Some,
            ({
                let v = old(self).variant.unwrap();
                v is Reference || v is Union || v is Enumeration || v is ComplexType
            }),
        ensures
            match (old(self).variant, final(self).variant) {
                (Some(MetaTypeVariant::Union(a)), Some(MetaTypeVariant::Union(b))) => b
                    == (crate::models::meta::UnionMeta { base: derived_base(base, mode), ..a }),
                (
                    Some(MetaTypeVariant::Enumeration(a)),
                    Some(MetaTypeVariant::Enumeration(b)),
                ) => b == (crate::models::meta::EnumerationMeta {
                    base: derived_base(base, mode),
                    ..a
                }),
                (
                    Some(MetaTypeVariant::ComplexType(a)),
                    Some(MetaTypeVariant::ComplexType(b)),
                ) => b == (ComplexMeta { base: derived_base(base, mode), ..a }),
                (o, n) => o == n && o matches Some(MetaTypeVariant::Reference(_)),
            },
            final(self).fixed == old(self).fixed,
            final(self).type_mode == old(self).type_mode,
            final(self).content_mode == old(self).content_mode,
            final(self).documentation == old(self).documentation,
            final(self).is_simple_content_unique == old(self).is_simple_content_unique,
    {
        let v = self.variant.take();
        self.variant = match v {
            Some(MetaTypeVariant::Union(u)) => {
                let mut u = u;
                u.base = make_base(base, mode);
                Some(MetaTypeVariant::Union(u))
            },
            Some(MetaTypeVariant::Enumeration(e)) => {
                let mut e = e;
                e.base = make_base(base, mode);
                Some(MetaTypeVariant::Enumeration(e))
            },
            Some(MetaTypeVariant::ComplexType(c)) => {
                let mut c = c;
                c.base = make_base(base, mode);
                Some(MetaTypeVariant::ComplexType(c))
            },
            other => other,
        };
    }

    /// Records the base of a complex type with complex content after its extension or
    /// restriction (the variant becomes a complex type unless it is one).
    pub fn apply_complex_content_base(&mut self, base: TypeIdent, mode: UpdateMode)
        requires
            can_hold_attributes(old(self).variant, old(self).fixed),
        ensures
            final(self).variant matches Some(MetaTypeVariant::ComplexType(ci)),
            final(self).variant.unwrap()->ComplexType_0.base == derived_base(base, mode),
            complex_kept(
                old(self).variant,
                Some(
                    MetaTypeVariant::ComplexType(
                        ComplexMeta {
                            base: match old(self).variant {
                                Some(MetaTypeVariant::ComplexType(a)) => a.base,
                                _ => Base::NoBase,
                            },
                            ..final(self).variant.unwrap()->ComplexType_0
                        },
                    ),
                ),
            ),
            final(self).fixed == (old(self).fixed || !(old(self).variant matches Some(
                MetaTypeVariant::ComplexType(_),
            ))),
            final(self).type_mode == old(self).type_mode,
            final(self).content_mode == old(self).content_mode,
            final(self).documentation == old(self).documentation,
            final(self).is_simple_content_unique == old(self).is_simple_content_unique,
    {
        let v = self.variant.take();
        let mut ci = match v {
            Some(MetaTypeVariant::ComplexType(ci)) => ci,
            _ => {
                self.fixed = true;
                ComplexMeta::default()
            },
        };
        ci.base = make_base(base, mode);
        self.variant = Some(MetaTypeVariant::ComplexType(ci));
    }
}

} // verus!
