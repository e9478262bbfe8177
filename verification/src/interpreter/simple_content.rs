//! Lists and unions: simple types made from other simple types.

use vstd::prelude::*;

use super::error::InterpreterError;
use super::variant_builder::{
    append_strings, complex_content_step, fresh_content_names, lemma_content_stored,
    lemma_generated_is_fresh, copy_simple_content, is_constrained, is_copy,
    simple_content_ident, BuilderContext, ContentMode, TypeMode,
    VariantBuilder,
};
use crate::models::ident::{TypeIdent, TypeIdentView};
use crate::models::meta::{
    default_constrains_view, MaxOccurs, MetaType, MetaTypeVariant, ReferenceMeta, UnionMeta,
    UnionMetaType,
};

verus! {

/// `r` is the list of `item` made from the variant `o`: a reference to any number of items,
/// which keeps the nillability of a reference it replaces.
pub open spec fn list_applied(o: Option<MetaTypeVariant>, r: ReferenceMeta, item: TypeIdentView) -> bool {
    &&& r.type_@ == item
    &&& r.min_occurs == 0
    &&& r.max_occurs == MaxOccurs::Unbounded
    &&& r.nillable == (o matches Some(MetaTypeVariant::Reference(x)) && x.nillable)
}

/// `v` is the list of `item` made from the content variant `c`.
pub open spec fn is_list_of(c: MetaTypeVariant, v: MetaTypeVariant, item: TypeIdentView) -> bool {
    v matches MetaTypeVariant::Reference(r) && list_applied(Some(c), r, item)
}

/// `n` is the union made from the variant `o` by adding the member types `members`.
pub open spec fn union_applied(o: Option<MetaTypeVariant>, n: UnionMeta, members: Seq<TypeIdentView>) -> bool {
    let old_types = union_types(o);
    &&& match o {
        Some(MetaTypeVariant::Union(u)) => n.base == u.base && n.constrains@ == u.constrains@,
        _ => n.base is NoBase && n.constrains@ == default_constrains_view(),
    }
    &&& n.types@.len() == old_types.len() + members.len()
    &&& forall|j: int| 0 <= j < old_types.len() ==> #[trigger] n.types@[j] == old_types[j]
    &&& forall|k: int|
        old_types.len() <= k < n.types@.len() ==> (#[trigger] n.types@[k]).type_@ == members[k
            - old_types.len()] && n.types@[k].display_name is None
}

/// The member types of the variant `o` if it is a union.
pub open spec fn union_types(o: Option<MetaTypeVariant>) -> Seq<UnionMetaType> {
    match o {
        Some(MetaTypeVariant::Union(u)) => u.types@,
        _ => Seq::empty(),
    }
}

/// `v` is the union made from the content variant `c`.
pub open spec fn is_union_of(c: MetaTypeVariant, v: MetaTypeVariant, members: Seq<TypeIdentView>) -> bool {
    v matches MetaTypeVariant::Union(u) && union_applied(Some(c), u, members)
}

/// `true` if a variant of another kind may be replaced: only if it is not fixed.
pub open spec fn can_replace(o: Option<MetaTypeVariant>, fixed: bool, keeps: bool) -> bool {
    o is None || keeps || !fixed
}

/// `true` if the builder can build a list or union of simple content: a simple type whose
/// variant is a `keeps` one, absent or not fixed, or a complex type with simple content.
pub open spec fn can_build_made_type(b: VariantBuilder, keeps: bool) -> bool {
    match b.type_mode {
        TypeMode::Simple => can_replace(b.variant, b.fixed, keeps),
        TypeMode::Complex => {
            &&& b.content_mode == ContentMode::Simple
            &&& b.variant matches Some(MetaTypeVariant::ComplexType(ci))
            &&& ci.content is Some
        },
        TypeMode::Unknown => false,
    }
}

/// The views of the identifiers `v`.
pub open spec fn ident_views(v: Seq<TypeIdent>) -> Seq<TypeIdentView> {
    v.map_values(|t: TypeIdent| t@)
}

/// Makes the variant `o` a list of `item`.
fn list_on_variant(o: Option<MetaTypeVariant>, item: TypeIdent) -> (r: ReferenceMeta)
    ensures
        list_applied(o, r, item@),
{
    match o {
        Some(MetaTypeVariant::Reference(x)) => {
            let mut x = x;
            x.type_ = item;
            x.min_occurs = 0;
            x.max_occurs = MaxOccurs::Unbounded;
            x
        },
        _ => {
            let mut x = ReferenceMeta::new(item);
            x.min_occurs = 0;
            x.max_occurs = MaxOccurs::Unbounded;
            x
        },
    }
}

/// Makes the variant `o` a union and adds the member types `members`.
fn union_on_variant(o: Option<MetaTypeVariant>, members: &Vec<TypeIdent>) -> (r: UnionMeta)
    ensures
        union_applied(o, r, ident_views(members@)),
{
    let mut u = match o {
        Some(MetaTypeVariant::Union(u)) => u,
        _ => UnionMeta::default(),
    };
    let ghost before = u.types@;
    assert(before == union_types(o));
    let ghost u0 = u;
    let mut i: usize = 0;
    while i < members.len()
        invariant
            i <= members@.len(),
            u.base == u0.base,
            u.constrains == u0.constrains,
            u.types@.len() == before.len() + i,
            forall|j: int| 0 <= j < before.len() ==> #[trigger] u.types@[j] == before[j],
            forall|k: int|
                before.len() <= k < u.types@.len() ==> (#[trigger] u.types@[k]).type_@
                    == members@[k - before.len()]@ && u.types@[k].display_name is None,
        decreases members@.len() - i,
    {
        u.types.push(UnionMetaType { type_: members[i].duplicate(), display_name: None });
        i = i + 1;
    }
    assert(ident_views(members@).len() == members@.len());
    assert forall|j: int| 0 <= j < members@.len() implies #[trigger] ident_views(members@)[j]
        == members@[j]@ by {}
    u
}

/// Adding to a copy of the variant `o` is adding to `o`.
proof fn lemma_made_from_copy(o: MetaTypeVariant, c: MetaTypeVariant)
    requires
        is_copy(o, c),
    ensures
        o is Union <==> c is Union,
        o is Reference <==> c is Reference,
        c matches MetaTypeVariant::Union(b) ==> o matches MetaTypeVariant::Union(a) && a.base
            == b.base && a.types@ == b.types@ && a.constrains@ == b.constrains@,
        c matches MetaTypeVariant::Reference(b) ==> o == c,
{
}

impl VariantBuilder {
    /// Makes the simple content of the constructed type a list of `item` (if the item type is
    /// known), and appends the documentation `docs` of the list to the type.
    ///
    /// # Errors
    ///
    /// Returns [`InterpreterError::UnknownType`] if the content type of a complex type is
    /// unknown.
    pub fn apply_list(
        &mut self,
        ctx: &mut BuilderContext,
        item: Option<TypeIdent>,
        docs: &Vec<String>,
    ) -> (r: Result<(), InterpreterError>)
        requires
            old(ctx).types.wf(),
            item is Some ==> can_build_made_type(
                *old(self),
                old(self).variant matches Some(MetaTypeVariant::Reference(_)),
            ),
        ensures
            final(ctx).types.wf(),
            final(self).type_mode == old(self).type_mode,
            final(self).content_mode == old(self).content_mode,
            r is Err ==> (r matches Err(InterpreterError::UnknownType(_))),
            r is Ok ==> final(self).documentation@ == old(self).documentation@ + docs@,
            r is Err ==> final(self).documentation == old(self).documentation,
            item is None ==> {
                &&& r is Ok
                &&& final(self).variant == old(self).variant
                &&& final(self).fixed == old(self).fixed
                &&& final(self).is_simple_content_unique == old(self).is_simple_content_unique
                &&& *final(ctx) == *old(ctx)
            },
            item is Some && old(self).type_mode == TypeMode::Simple ==> {
                &&& r is Ok
                &&& *final(ctx) == *old(ctx)
                &&& final(self).variant matches Some(MetaTypeVariant::Reference(x))
                &&& list_applied(
                    old(self).variant,
                    final(self).variant.unwrap()->Reference_0,
                    item.unwrap()@,
                )
                &&& final(self).fixed == (old(self).fixed || !(old(self).variant matches Some(
                    MetaTypeVariant::Reference(_),
                )))
                &&& final(self).is_simple_content_unique == old(self).is_simple_content_unique
            },
            item is Some && old(self).type_mode == TypeMode::Complex ==> {
                &&& (r is Ok <==> old(ctx).types@.contains_key(
                    simple_content_ident(old(self).variant).unwrap()@,
                ))
                &&& complex_content_step(
                    *old(self),
                    *final(self),
                    *old(ctx),
                    *final(ctx),
                    r,
                    |c: MetaTypeVariant, v: MetaTypeVariant| is_list_of(c, v, item.unwrap()@),
                )
            },
    {
        if let Some(item) = item {
            if self.type_mode == TypeMode::Simple {
                let v = self.variant.take();
                let keeps = match &v {
                    Some(MetaTypeVariant::Reference(_)) => true,
                    _ => false,
                };
                let x = list_on_variant(v, item);
                self.variant = Some(MetaTypeVariant::Reference(x));
                if !keeps {
                    self.fixed = true;
                }
            } else {
                let cid = self.simple_content(ctx);
                let content = match ctx.types.get(&cid) {
                    Some(t) => match &t.variant {
                        MetaTypeVariant::Reference(_) => Some(copy_simple_content(&t.variant)),
                        _ => None,
                    },
                    None => return Err(InterpreterError::UnknownType(cid)),
                };
                let ghost c = ctx.types@[cid@].variant;
                let ghost copied = content;
                let ghost cidv = cid@;
        proof {
            if fresh_content_names(*old(ctx)) {
                lemma_generated_is_fresh(*old(ctx));
            }
        }
        let nid = self.unique_content_ident(ctx, cid);
                let x = list_on_variant(content, item);
                proof {
                    if copied is Some {
                        lemma_made_from_copy(c, copied.unwrap());
                    }
                }
                let ghost nidv = nid@;
                ctx.types.insert(nid, MetaType::new(MetaTypeVariant::Reference(x)));
                proof {
                    lemma_content_stored(*old(ctx), *ctx, old(self).is_simple_content_unique, cidv, ctx.types@[nidv]);
                }
            }
        }
        append_strings(&mut self.documentation, docs);
        Ok(())
    }

    /// Makes the simple content of the constructed type a union and adds the member types
    /// `members`; the documentation `docs` of the union is appended to a simple type.
    ///
    /// # Errors
    ///
    /// Returns [`InterpreterError::UnknownType`] if the content type of a complex type is
    /// unknown.
    pub fn apply_union(
        &mut self,
        ctx: &mut BuilderContext,
        members: &Vec<TypeIdent>,
        docs: &Vec<String>,
    ) -> (r: Result<(), InterpreterError>)
        requires
            old(ctx).types.wf(),
            can_build_made_type(
                *old(self),
                old(self).variant matches Some(MetaTypeVariant::Union(_)),
            ),
        ensures
            final(ctx).types.wf(),
            final(self).type_mode == old(self).type_mode,
            final(self).content_mode == old(self).content_mode,
            r is Err ==> (r matches Err(InterpreterError::UnknownType(_))),
            old(self).type_mode == TypeMode::Simple ==> {
                &&& r is Ok
                &&& *final(ctx) == *old(ctx)
                &&& final(self).variant matches Some(MetaTypeVariant::Union(u))
                &&& union_applied(
                    old(self).variant,
                    final(self).variant.unwrap()->Union_0,
                    ident_views(members@),
                )
                &&& final(self).fixed == (old(self).fixed || !(old(self).variant matches Some(
                    MetaTypeVariant::Union(_),
                )))
                &&& final(self).documentation@ == old(self).documentation@ + docs@
                &&& final(self).is_simple_content_unique == old(self).is_simple_content_unique
            },
            old(self).type_mode == TypeMode::Complex ==> {
                &&& (r is Ok <==> old(ctx).types@.contains_key(
                    simple_content_ident(old(self).variant).unwrap()@,
                ))
                &&& final(self).documentation == old(self).documentation
                &&& complex_content_step(
                    *old(self),
                    *final(self),
                    *old(ctx),
                    *final(ctx),
                    r,
                    |c: MetaTypeVariant, v: MetaTypeVariant|
                        is_union_of(c, v, ident_views(members@)),
                )
            },
    {
        if self.type_mode == TypeMode::Simple {
            let v = self.variant.take();
            let keeps = match &v {
                Some(MetaTypeVariant::Union(_)) => true,
                _ => false,
            };
            let u = union_on_variant(v, members);
            self.variant = Some(MetaTypeVariant::Union(u));
            if !keeps {
                self.fixed = true;
            }
            append_strings(&mut self.documentation, docs);
            return Ok(());
        }
        let cid = self.simple_content(ctx);
        let content = match ctx.types.get(&cid) {
            Some(t) => if is_constrained(&t.variant) {
                Some(copy_simple_content(&t.variant))
            } else {
                None
            },
            None => return Err(InterpreterError::UnknownType(cid)),
        };
        let ghost c = ctx.types@[cid@].variant;
        let ghost copied = content;
        let ghost cidv = cid@;
        proof {
            if fresh_content_names(*old(ctx)) {
                lemma_generated_is_fresh(*old(ctx));
            }
        }
        let nid = self.unique_content_ident(ctx, cid);
        let u = union_on_variant(content, members);
        proof {
            if copied is Some {
                lemma_made_from_copy(c, copied.unwrap());
            }
        }
        let ghost nidv = nid@;
        ctx.types.insert(nid, MetaType::new(MetaTypeVariant::Union(u)));
        proof {
            lemma_content_stored(*old(ctx), *ctx, old(self).is_simple_content_unique, cidv, ctx.types@[nidv]);
        }
        Ok(())
    }
}

} // verus!
