//! The type of an element: a reference to its type, wrapped for nillable, substitutable and
//! abstract elements.

use vstd::prelude::*;

use super::error::InterpreterError;
use super::variant_builder::{append_strings, BuilderContext, TypeMode, ContentMode, VariantBuilder};
use crate::models::ident::{IdentType, NamespaceId, TypeIdent, TypeIdentView, type_ident_view};
use crate::models::meta::{DynamicMeta, MaxOccurs, MetaType, MetaTypeVariant, ReferenceMeta};
use crate::models::schema::{xs_uri, Namespace, Schemas};

verus! {

/// `v` refers to exactly one value of the type `t` and is nillable as given.
pub open spec fn is_ref_to(v: MetaTypeVariant, t: TypeIdentView, nillable: bool) -> bool {
    &&& v matches MetaTypeVariant::Reference(r)
    &&& v->Reference_0.type_@ == t
    &&& v->Reference_0.nillable == nillable
    &&& v->Reference_0.min_occurs == 1
    &&& v->Reference_0.max_occurs == MaxOccurs::Bounded(1)
}

/// The identifier `current` with the identifier type `t`.
pub open spec fn with_ident_type(current: TypeIdentView, t: IdentType) -> TypeIdentView {
    TypeIdentView { type_: t, ..current }
}

/// `t` is a type that the builder finished: made from the context `ctx`, with the
/// documentation `docs`.
pub open spec fn is_finished_type(t: MetaType, ctx: BuilderContext, docs: Seq<String>) -> bool {
    &&& t.form == Some(ctx.element_form_default)
    &&& t.schema == Some(ctx.schema_id)
    &&& t.display_name is None
    &&& t.documentation@ == docs
}

/// The builder `n` with the types `nt` is the builder `o` with the types `ot` (and the context
/// `ctx`) after the element `current` was given the type `r0` and the documentation `docs`,
/// and wrapped as it is nillable, substitutable or abstract.
pub open spec fn element_applied(
    o: VariantBuilder,
    n: VariantBuilder,
    ot: Map<TypeIdentView, MetaType>,
    nt: Map<TypeIdentView, MetaType>,
    ctx: BuilderContext,
    current: TypeIdentView,
    r0: TypeIdentView,
    docs: Seq<String>,
    nillable: bool,
    substitutable: bool,
    is_abstract: bool,
) -> bool {
    let nid = with_ident_type(current, IdentType::NillableContent);
    let did = with_ident_type(current, IdentType::DynamicElement);
    let all_docs = o.documentation@ + docs;
    let after_nillable = if nillable {
        nid
    } else {
        r0
    };
    let last = if substitutable {
        did
    } else {
        after_nillable
    };
    &&& n.fixed
    &&& if nillable || substitutable {
        &&& n.type_mode == TypeMode::Unknown
        &&& n.content_mode == ContentMode::Unknown
        &&& !n.is_simple_content_unique
        &&& n.documentation@.len() == 0
    } else {
        &&& n.type_mode == o.type_mode
        &&& n.content_mode == o.content_mode
        &&& n.is_simple_content_unique == o.is_simple_content_unique
        &&& n.documentation@ == all_docs
    }
    &&& if is_abstract {
        &&& n.variant matches Some(MetaTypeVariant::Dynamic(d))
        &&& n.variant.unwrap()->Dynamic_0.type_ matches Some(x)
        &&& n.variant.unwrap()->Dynamic_0.type_.unwrap()@ == last
        &&& n.variant.unwrap()->Dynamic_0.derived_types@.len() == 0
    } else {
        &&& n.variant matches Some(v)
        &&& is_ref_to(n.variant.unwrap(), last, nillable && !substitutable)
    }
    &&& nt == if nillable && substitutable {
        ot.insert(nid, nt[nid]).insert(did, nt[did])
    } else if nillable {
        ot.insert(nid, nt[nid])
    } else if substitutable {
        ot.insert(did, nt[did])
    } else {
        ot
    }
    &&& nillable ==> is_ref_to(nt[nid].variant, r0, false) && is_finished_type(nt[nid], ctx, all_docs)
    &&& substitutable ==> is_ref_to(nt[did].variant, after_nillable, nillable) && is_finished_type(
        nt[did],
        ctx,
        if nillable {
            Seq::empty()
        } else {
            all_docs
        },
    )
}

/// The type an element declares.
#[derive(Debug)]
pub enum ElementContent {
    /// The element names its type.
    Named(TypeIdent),
    /// The type built from the inline simple or complex type of the element.
    Inline(MetaType),
    /// The element declares no type.
    Empty,
}

/// The identifier under which the inline type of the element `current` is stored.
pub open spec fn element_type_ident(current: TypeIdentView) -> TypeIdentView {
    with_ident_type(current, IdentType::ElementType)
}

/// The identifier of `xs:anyType` in the namespace `xs`.
pub open spec fn any_type_ident(xs: NamespaceId) -> TypeIdentView {
    type_ident_view(xs, "anyType"@)
}

impl VariantBuilder {
    /// Gives the element `current` its type: a reference to the type it names, to its inline
    /// type (stored as the element type `current`), or to `xs:anyType` if it declares no type.
    /// The documentation `docs` is added. A
    /// nillable element then refers to its type through a nillable reference to a new type
    /// `current` (as nillable content), an element with a substitution group refers to a new
    /// type `current` (as dynamic element), and an abstract element becomes dynamic.
    ///
    /// # Errors
    ///
    /// Returns [`InterpreterError::UnknownNamespace`] if `xs:anyType` is needed and the schemas
    /// do not know the XML schema namespace.
    pub fn apply_element(
        &mut self,
        ctx: &mut BuilderContext,
        schemas: &Schemas,
        current: &TypeIdent,
        type_: ElementContent,
        docs: &Vec<String>,
        nillable: bool,
        substitutable: bool,
        is_abstract: bool,
    ) -> (r: Result<(), InterpreterError>)
        requires
            old(ctx).types.wf(),
        ensures
            final(ctx).types.wf(),
            final(ctx).current_ns == old(ctx).current_ns,
            final(ctx).element_form_default == old(ctx).element_form_default,
            final(ctx).schema_id == old(ctx).schema_id,
            final(ctx).next_content_id == old(ctx).next_content_id,
            ({
                match type_ {
                    ElementContent::Named(t) => r is Ok && element_applied(
                        *old(self),
                        *final(self),
                        old(ctx).types@,
                        final(ctx).types@,
                        *old(ctx),
                        current@,
                        t@,
                        docs@,
                        nillable,
                        substitutable,
                        is_abstract,
                    ),
                    ElementContent::Inline(t) => r is Ok && element_applied(
                        *old(self),
                        *final(self),
                        old(ctx).types@.insert(element_type_ident(current@), t),
                        final(ctx).types@,
                        *old(ctx),
                        current@,
                        element_type_ident(current@),
                        docs@,
                        nillable,
                        substitutable,
                        is_abstract,
                    ),
                    ElementContent::Empty => match schemas.spec_resolve_namespace(Some(xs_uri())) {
                        Some(xs) => r is Ok && element_applied(
                            *old(self),
                            *final(self),
                            old(ctx).types@,
                            final(ctx).types@,
                            *old(ctx),
                            current@,
                            any_type_ident(xs),
                            docs@,
                            nillable,
                            substitutable,
                            is_abstract,
                        ),
                        None => {
                            &&& r matches Err(InterpreterError::UnknownNamespace(ns))
                            &&& ns@ == xs_uri()
                            &&& *final(self) == *old(self)
                            &&& *final(ctx) == *old(ctx)
                        },
                    },
                }
            }),
    {
        let reference = match type_ {
            ElementContent::Named(t) => t,
            ElementContent::Inline(t) => {
                let ident = TypeIdent {
                    ns: current.ns,
                    schema: current.schema,
                    name: current.name.duplicate(),
                    type_: IdentType::ElementType,
                };
                ctx.types.insert(ident.duplicate(), t);
                ident
            },
            ElementContent::Empty => {
                let xs_ns = Namespace::xs();
                match schemas.resolve_namespace(&Some(xs_ns)) {
                    Some(xs) => TypeIdent::type_("anyType").with_ns(xs),
                    None => return Err(InterpreterError::UnknownNamespace(Namespace::xs())),
                }
            },
        };
        let ghost r0 = reference@;
        self.variant = Some(MetaTypeVariant::Reference(ReferenceMeta::new(reference)));
        self.fixed = true;
        append_strings(&mut self.documentation, docs);
        if nillable {
            let ident = TypeIdent {
                ns: current.ns,
                schema: current.schema,
                name: current.name.duplicate(),
                type_: IdentType::NillableContent,
            };
            let t = match self.finish_mut(ctx) {
                Ok(t) => t,
                Err(e) => {
                    proof {
                        assert(false);
                    }
                    return Err(e);
                },
            };
            ctx.types.insert(ident.duplicate(), t);
            let mut r = ReferenceMeta::new(ident);
            r.nillable = true;
            self.variant = Some(MetaTypeVariant::Reference(r));
            self.fixed = true;
        }
        if substitutable {
            let ident = TypeIdent {
                ns: current.ns,
                schema: current.schema,
                name: current.name.duplicate(),
                type_: IdentType::DynamicElement,
            };
            let t = match self.finish_mut(ctx) {
                Ok(t) => t,
                Err(e) => {
                    proof {
                        assert(false);
                    }
                    return Err(e);
                },
            };
            ctx.types.insert(ident.duplicate(), t);
            self.variant = Some(MetaTypeVariant::Reference(ReferenceMeta::new(ident)));
            self.fixed = true;
        }
        if is_abstract {
            let type_ = match self.variant.take() {
                Some(MetaTypeVariant::Reference(ti)) => Some(ti.type_),
                _ => {
                    proof {
                        assert(false);
                    }
                    None
                },
            };
            self.variant = Some(MetaTypeVariant::Dynamic(DynamicMeta { type_, derived_types: Vec::new() }));
            self.fixed = true;
        }
        proof {
            if nillable && substitutable {
                let did = with_ident_type(current@, IdentType::DynamicElement);
                assert(ctx.types@[did].documentation@ =~= Seq::<String>::empty());
            }
        }
        Ok(())
    }
}

/// Adds the element `ident` to the substitution group of the element type `base_ty` (named
/// `base_ident`): a reference becomes a dynamic element whose derived types start with the
/// referenced type.
///
/// # Errors
///
/// Returns [`InterpreterError::ExpectedDynamicElement`] if `base_ty` is neither a reference
/// nor a dynamic element.
pub fn add_substitution(base_ty: &mut MetaType, base_ident: &TypeIdent, ident: TypeIdent) -> (r:
    Result<(), InterpreterError>)
    ensures
        final(base_ty).form == old(base_ty).form,
        final(base_ty).schema == old(base_ty).schema,
        final(base_ty).display_name == old(base_ty).display_name,
        final(base_ty).documentation == old(base_ty).documentation,
        match old(base_ty).variant {
            MetaTypeVariant::Reference(ti) => {
                &&& r is Ok
                &&& final(base_ty).variant matches MetaTypeVariant::Dynamic(d)
                &&& final(base_ty).variant->Dynamic_0.type_ == Some(ti.type_)
                &&& final(base_ty).variant->Dynamic_0.derived_types@ == seq![ti.type_, ident]
            },
            MetaTypeVariant::Dynamic(d) => {
                &&& r is Ok
                &&& final(base_ty).variant matches MetaTypeVariant::Dynamic(e)
                &&& final(base_ty).variant->Dynamic_0.type_ == d.type_
                &&& final(base_ty).variant->Dynamic_0.derived_types@ == d.derived_types@.push(ident)
            },
            _ => {
                &&& r matches Err(InterpreterError::ExpectedDynamicElement(b))
                &&& r->Err_0->ExpectedDynamicElement_0 == *base_ident
                &&& *final(base_ty) == *old(base_ty)
            },
        },
{
    let mut v = MetaTypeVariant::BuildIn(crate::models::meta::BuildInMeta::String);
    core::mem::swap(&mut v, &mut base_ty.variant);
    match v {
        MetaTypeVariant::Reference(ti) => {
            let mut derived: Vec<TypeIdent> = Vec::new();
            derived.push(ti.type_.duplicate());
            derived.push(ident);
            base_ty.variant = MetaTypeVariant::Dynamic(
                DynamicMeta { type_: Some(ti.type_), derived_types: derived },
            );
            Ok(())
        },
        MetaTypeVariant::Dynamic(d) => {
            let mut d = d;
            d.derived_types.push(ident);
            base_ty.variant = MetaTypeVariant::Dynamic(d);
            Ok(())
        },
        other => {
            base_ty.variant = other;
            Err(InterpreterError::ExpectedDynamicElement(base_ident.duplicate()))
        },
    }
}


/// `n` is the element type `o` after the element `ident` joined its substitution group: a
/// reference became a dynamic element whose derived types are the referenced type and
/// `ident`, or `ident` was added to the derived types of a dynamic element.
pub open spec fn substituted(o: MetaType, n: MetaType, ident: TypeIdent) -> bool {
    &&& n.form == o.form
    &&& n.schema == o.schema
    &&& n.display_name == o.display_name
    &&& n.documentation == o.documentation
    &&& match o.variant {
        MetaTypeVariant::Reference(ti) => {
            &&& n.variant matches MetaTypeVariant::Dynamic(d)
            &&& n.variant->Dynamic_0.type_ == Some(ti.type_)
            &&& n.variant->Dynamic_0.derived_types@ == seq![ti.type_, ident]
        },
        MetaTypeVariant::Dynamic(d) => {
            &&& n.variant matches MetaTypeVariant::Dynamic(e)
            &&& n.variant->Dynamic_0.type_ == d.type_
            &&& n.variant->Dynamic_0.derived_types@ == d.derived_types@.push(ident)
        },
        _ => false,
    }
}

/// The types `n` and the result `r` are the types `o` after the element `ident` joined the
/// substitution groups of the elements `heads`, one after the other: the walk stops at the
/// first head whose type is unknown or is no element that can be substituted.
pub open spec fn substitutions_applied(
    o: Map<TypeIdentView, MetaType>,
    n: Map<TypeIdentView, MetaType>,
    heads: Seq<TypeIdent>,
    ident: TypeIdent,
    r: Result<(), InterpreterError>,
) -> bool
    decreases heads.len(),
{
    if heads.len() == 0 {
        n == o && r is Ok
    } else {
        let h = heads[0];
        if !o.contains_key(h@) {
            n == o && r == Err::<(), InterpreterError>(InterpreterError::UnknownType(h))
        } else if !(o[h@].variant is Reference || o[h@].variant is Dynamic) {
            n == o && r == Err::<(), InterpreterError>(InterpreterError::ExpectedDynamicElement(h))
        } else {
            exists|t: MetaType|
                #![trigger substituted(o[h@], t, ident)]
                substituted(o[h@], t, ident) && substitutions_applied(
                    o.insert(h@, t),
                    n,
                    heads.drop_first(),
                    ident,
                    r,
                )
        }
    }
}

/// Adds the element `ident` to the substitution groups of the elements `heads`, in their
/// order (the heads an element names, each followed by the heads it names in turn): the
/// type of each head becomes dynamic, with `ident` among its derived types.
///
/// # Errors
///
/// Returns [`InterpreterError::UnknownType`] with the first head whose type is not known, and
/// [`InterpreterError::ExpectedDynamicElement`] with the first head whose type is no element
/// that can be substituted; the heads before it keep their changes.
pub fn apply_substitution_groups(ctx: &mut BuilderContext, heads: &Vec<TypeIdent>, ident: &TypeIdent) -> (r:
    Result<(), InterpreterError>)
    requires
        old(ctx).types.wf(),
    ensures
        final(ctx).types.wf(),
        final(ctx).current_ns == old(ctx).current_ns,
        final(ctx).element_form_default == old(ctx).element_form_default,
        final(ctx).schema_id == old(ctx).schema_id,
        final(ctx).next_content_id == old(ctx).next_content_id,
        substitutions_applied(old(ctx).types@, final(ctx).types@, heads@, *ident, r),
{
    let ghost start = ctx.types@;
    let mut i: usize = 0;
    assert(heads@.skip(0) =~= heads@);
    while i < heads.len()
        invariant
            ctx.types.wf(),
            ctx.current_ns == old(ctx).current_ns,
            ctx.element_form_default == old(ctx).element_form_default,
            ctx.schema_id == old(ctx).schema_id,
            ctx.next_content_id == old(ctx).next_content_id,
            start == old(ctx).types@,
            i <= heads@.len(),
            forall|n: Map<TypeIdentView, MetaType>, r: Result<(), InterpreterError>|
                #[trigger] substitutions_applied(ctx.types@, n, heads@.skip(i as int), *ident, r)
                    ==> substitutions_applied(start, n, heads@, *ident, r),
        decreases heads@.len() - i,
    {
        let h = &heads[i];
        let ghost cur = ctx.types@;
        let ghost rest = heads@.skip(i as int);
        assert(rest[0] == *h);
        assert(rest.drop_first() =~= heads@.skip(i + 1));
        let placeholder = MetaType::new(MetaTypeVariant::BuildIn(crate::models::meta::BuildInMeta::String));
        match ctx.types.replace(h, placeholder) {
            None => {
                let r = Err(InterpreterError::UnknownType(h.duplicate()));
                assert(substitutions_applied(cur, cur, rest, *ident, r));
                return r;
            },
            Some(t) => {
                let mut t = t;
                let ghost ot = t;
                match add_substitution(&mut t, h, ident.duplicate()) {
                    Ok(()) => {
                        ctx.types.insert(h.duplicate(), t);
                        proof {
                            assert(ctx.types@ =~= cur.insert(h@, t));
                            assert(substituted(cur[h@], t, *ident));
                            assert forall|n: Map<TypeIdentView, MetaType>, r: Result<(), InterpreterError>|
                                #[trigger] substitutions_applied(ctx.types@, n, heads@.skip(i + 1), *ident, r)
                                implies substitutions_applied(start, n, heads@, *ident, r) by {
                                assert(substitutions_applied(cur, n, rest, *ident, r));
                            }
                        }
                    },
                    Err(e) => {
                        ctx.types.insert(h.duplicate(), t);
                        proof {
                            assert(ctx.types@ =~= cur);
                            assert(substitutions_applied(cur, cur, rest, *ident, Err(e)));
                        }
                        return Err(e);
                    },
                }
            },
        }
        i = i + 1;
    }
    proof {
        assert(heads@.skip(i as int) =~= Seq::<TypeIdent>::empty());
        assert(substitutions_applied(ctx.types@, ctx.types@, heads@.skip(i as int), *ident, Ok(())));
    }
    Ok(())
}

} // verus!
