//! Deriving a type from a base type: the variant of the base is copied into the builder.

use vstd::prelude::*;

use super::complex_content::{copy_group, group_of, is_group, is_group_copy, same_element};
use super::error::InterpreterError;
use super::variant_builder::{
    content_ident_view, content_name_made, fresh_content_names, lemma_fresh_after_generated,
    lemma_generated_is_fresh, copy_simple_content, is_copy,
    BuilderContext, ContentMode, TypeMode, VariantBuilder,
};
use crate::models::ident::{TypeIdent, TypeIdentView};
use crate::models::meta::{
    AnyAttributeMeta, AttributeMeta, AttributeMetaVariant, AttributesMeta, ComplexMeta,
    CustomDefault, CustomMeta, CustomMetaNamespace, DynamicMeta, ElementMeta, MetaType, MetaTypeVariant,
};

verus! {

/// How a type is derived from its base.
#[derive(Clone, Copy, Debug, PartialEq, Eq, Structural)]
pub enum UpdateMode {
    Extension,
    Restriction,
}

/// Two attributes are equal, up to the identity of their documentation vectors.
pub open spec fn same_attribute(a: AttributeMeta, b: AttributeMeta) -> bool {
    &&& a.ident == b.ident
    &&& a.variant == b.variant
    &&& a.form == b.form
    &&& a.use_ == b.use_
    &&& a.default == b.default
    &&& a.display_name == b.display_name
    &&& a.documentation@ == b.documentation@
}

/// `b` is a copy of the complex type `a`.
pub open spec fn is_complex_copy(a: ComplexMeta, b: ComplexMeta) -> bool {
    &&& a.base == b.base
    &&& a.content == b.content
    &&& a.min_occurs == b.min_occurs
    &&& a.max_occurs == b.max_occurs
    &&& a.is_dynamic == b.is_dynamic
    &&& a.is_mixed == b.is_mixed
    &&& a.attributes.0@.len() == b.attributes.0@.len()
    &&& forall|i: int|
        0 <= i < a.attributes.0@.len() ==> same_attribute(
            #[trigger] a.attributes.0@[i],
            b.attributes.0@[i],
        )
}

/// `b` is a copy of the variant `a`: equal, up to the identity of the vectors it holds.
pub open spec fn is_variant_copy(a: MetaTypeVariant, b: MetaTypeVariant) -> bool {
    match (a, b) {
        (MetaTypeVariant::BuildIn(x), MetaTypeVariant::BuildIn(y)) => x == y,
        (MetaTypeVariant::Custom(x), MetaTypeVariant::Custom(y)) => {
            &&& x.name == y.name
            &&& x.include_path == y.include_path
            &&& x.default == y.default
            &&& x.namespaces@ == y.namespaces@
        },
        (MetaTypeVariant::Dynamic(x), MetaTypeVariant::Dynamic(y)) => {
            &&& x.type_ == y.type_
            &&& x.derived_types@ == y.derived_types@
        },
        (MetaTypeVariant::ComplexType(x), MetaTypeVariant::ComplexType(y)) => is_complex_copy(x, y),
        (x, y) => if is_group(x) {
            is_group_copy(x, y)
        } else {
            is_copy(x, y)
        },
    }
}

/// `b` is a copy of the type `a`.
pub open spec fn is_type_copy(a: MetaType, b: MetaType) -> bool {
    &&& is_variant_copy(a.variant, b.variant)
    &&& a.form == b.form
    &&& a.schema == b.schema
    &&& a.display_name == b.display_name
    &&& a.documentation@ == b.documentation@
}

/// Returns a copy of the strings `v`.
fn copy_strings(v: &Vec<String>) -> (r: Vec<String>)
    ensures
        r@ == v@,
{
    let mut r: Vec<String> = Vec::new();
    let mut i: usize = 0;
    while i < v.len()
        invariant
            i <= v@.len(),
            r@ == v@.take(i as int),
        decreases v@.len() - i,
    {
        r.push(v[i].clone());
        assert(r@ =~= v@.take(i + 1));
        i = i + 1;
    }
    assert(v@.take(v@.len() as int) =~= v@);
    r
}

/// Returns a copy of the optional string `s`.
fn copy_opt_string(s: &Option<String>) -> (r: Option<String>)
    ensures
        r == *s,
{
    match s {
        Some(x) => Some(x.clone()),
        None => None,
    }
}

/// Returns a copy of the attribute `a`.
fn copy_attribute(a: &AttributeMeta) -> (r: AttributeMeta)
    ensures
        same_attribute(*a, r),
{
    let variant = match &a.variant {
        AttributeMetaVariant::Any(x) => AttributeMetaVariant::Any(
            AnyAttributeMeta {
                id: copy_opt_string(&x.id),
                namespace: copy_opt_string(&x.namespace),
                not_q_name: copy_opt_string(&x.not_q_name),
                not_namespace: copy_opt_string(&x.not_namespace),
                process_contents: x.process_contents,
            },
        ),
        AttributeMetaVariant::Type(t) => AttributeMetaVariant::Type(t.duplicate()),
    };
    AttributeMeta {
        ident: a.ident.duplicate(),
        variant,
        form: a.form,
        use_: a.use_,
        default: copy_opt_string(&a.default),
        display_name: copy_opt_string(&a.display_name),
        documentation: copy_strings(&a.documentation),
    }
}

/// Returns a copy of the complex type `c`.
fn copy_complex(c: &ComplexMeta) -> (r: ComplexMeta)
    ensures
        is_complex_copy(*c, r),
{
    let mut attributes: Vec<AttributeMeta> = Vec::new();
    let mut i: usize = 0;
    while i < c.attributes.0.len()
        invariant
            i <= c.attributes.0@.len(),
            attributes@.len() == i,
            forall|j: int|
                0 <= j < i ==> same_attribute(#[trigger] c.attributes.0@[j], attributes@[j]),
        decreases c.attributes.0@.len() - i,
    {
        attributes.push(copy_attribute(&c.attributes.0[i]));
        i = i + 1;
    }
    let base = match &c.base {
        crate::models::meta::Base::NoBase => crate::models::meta::Base::NoBase,
        crate::models::meta::Base::Extension(x) => crate::models::meta::Base::Extension(x.duplicate()),
        crate::models::meta::Base::Restriction(x) => crate::models::meta::Base::Restriction(
            x.duplicate(),
        ),
    };
    let content = match &c.content {
        Some(x) => Some(x.duplicate()),
        None => None,
    };
    ComplexMeta {
        base,
        content,
        min_occurs: c.min_occurs,
        max_occurs: c.max_occurs,
        is_dynamic: c.is_dynamic,
        is_mixed: c.is_mixed,
        attributes: AttributesMeta(attributes),
    }
}

/// Returns a copy of the custom type `c`.
fn copy_custom(c: &CustomMeta) -> (r: CustomMeta)
    ensures
        r.name == c.name,
        r.include_path == c.include_path,
        r.default == c.default,
        r.namespaces@ == c.namespaces@,
{
    let mut namespaces: Vec<CustomMetaNamespace> = Vec::new();
    let mut i: usize = 0;
    while i < c.namespaces.len()
        invariant
            i <= c.namespaces@.len(),
            namespaces@ == c.namespaces@.take(i as int),
        decreases c.namespaces@.len() - i,
    {
        let n = match &c.namespaces[i] {
            CustomMetaNamespace::Id(id) => CustomMetaNamespace::Id(*id),
            CustomMetaNamespace::Namespace(ns) => CustomMetaNamespace::Namespace(ns.duplicate()),
        };
        namespaces.push(n);
        assert(namespaces@ =~= c.namespaces@.take(i + 1));
        i = i + 1;
    }
    assert(c.namespaces@.take(c.namespaces@.len() as int) =~= c.namespaces@);
    let default = match &c.default {
        None => None,
        Some(CustomDefault::QName) => Some(CustomDefault::QName),
        Some(CustomDefault::FromStr(p)) => Some(CustomDefault::FromStr(p.clone())),
    };
    CustomMeta {
        name: c.name.clone(),
        include_path: copy_opt_string(&c.include_path),
        default,
        namespaces,
    }
}

/// Returns a copy of the dynamic type `d`.
fn copy_dynamic(d: &DynamicMeta) -> (r: DynamicMeta)
    ensures
        r.type_ == d.type_,
        r.derived_types@ == d.derived_types@,
{
    let mut derived: Vec<TypeIdent> = Vec::new();
    let mut i: usize = 0;
    while i < d.derived_types.len()
        invariant
            i <= d.derived_types@.len(),
            derived@ == d.derived_types@.take(i as int),
        decreases d.derived_types@.len() - i,
    {
        derived.push(d.derived_types[i].duplicate());
        assert(derived@ =~= d.derived_types@.take(i + 1));
        i = i + 1;
    }
    assert(d.derived_types@.take(d.derived_types@.len() as int) =~= d.derived_types@);
    let type_ = match &d.type_ {
        Some(x) => Some(x.duplicate()),
        None => None,
    };
    DynamicMeta { type_, derived_types: derived }
}

/// Returns a copy of the variant `v`.
pub fn copy_variant(v: &MetaTypeVariant) -> (r: MetaTypeVariant)
    ensures
        is_variant_copy(*v, r),
{
    match v {
        MetaTypeVariant::BuildIn(x) => MetaTypeVariant::BuildIn(*x),
        MetaTypeVariant::Custom(x) => MetaTypeVariant::Custom(copy_custom(x)),
        MetaTypeVariant::Dynamic(x) => MetaTypeVariant::Dynamic(copy_dynamic(x)),
        MetaTypeVariant::ComplexType(x) => MetaTypeVariant::ComplexType(copy_complex(x)),
        MetaTypeVariant::All(g) => MetaTypeVariant::All(copy_group(g)),
        MetaTypeVariant::Choice(g) => MetaTypeVariant::Choice(copy_group(g)),
        MetaTypeVariant::Sequence(g) => MetaTypeVariant::Sequence(copy_group(g)),
        _ => copy_simple_content(v),
    }
}

/// Returns a copy of the type `t`.
pub fn copy_type(t: &MetaType) -> (r: MetaType)
    ensures
        is_type_copy(*t, r),
{
    MetaType {
        variant: copy_variant(&t.variant),
        form: t.form,
        schema: t.schema,
        display_name: copy_opt_string(&t.display_name),
        documentation: copy_strings(&t.documentation),
    }
}

/// The required elements of `s` (those that occur at least once), in their order.
pub open spec fn required_elements(s: Seq<ElementMeta>) -> Seq<ElementMeta> {
    s.filter(|e: ElementMeta| e.min_occurs > 0)
}

/// Keeps the required elements of `v` (those that occur at least once), in their order.
fn retain_required(v: &mut Vec<ElementMeta>)
    ensures
        final(v)@ == required_elements(old(v)@),
{
    let ghost s = v@;
    let mut out: Vec<ElementMeta> = Vec::new();
    let mut taken: usize = 0;
    assert(s.len() == v.len());
    while v.len() > 0
        invariant
            taken <= s.len(),
            s.len() <= usize::MAX,
            v@ == s.skip(taken as int),
            out@ == required_elements(s.take(taken as int)),
        decreases v@.len(),
    {
        let e = v.remove(0);
        proof {
            reveal(Seq::filter);
            assert(s.take(taken + 1).drop_last() =~= s.take(taken as int));
            assert(s.take(taken + 1).last() == e);
            assert(s.skip(taken + 1) =~= s.skip(taken as int).drop_first());
        }
        if e.min_occurs > 0 {
            out.push(e);
        }
        taken = taken + 1;
    }
    proof {
        assert(s.take(taken as int) =~= s);
    }
    *v = out;
}

/// The elements `b` are copies of the elements `a`.
pub open spec fn same_elements(a: Seq<ElementMeta>, b: Seq<ElementMeta>) -> bool {
    &&& a.len() == b.len()
    &&& forall|i: int| 0 <= i < a.len() ==> same_element(#[trigger] a[i], b[i])
}

/// Filtering copies keeps them copies.
proof fn lemma_required_of_copies(a: Seq<ElementMeta>, b: Seq<ElementMeta>)
    requires
        same_elements(a, b),
    ensures
        same_elements(required_elements(a), required_elements(b)),
    decreases a.len(),
{
    reveal(Seq::filter);
    if a.len() > 0 {
        let (a1, b1) = (a.drop_last(), b.drop_last());
        assert forall|i: int| 0 <= i < a1.len() implies same_element(#[trigger] a1[i], b1[i]) by {
            assert(same_element(a[i], b[i]));
        }
        lemma_required_of_copies(a1, b1);
        assert(same_element(a.last(), b.last()));
        let (ra, rb) = (required_elements(a1), required_elements(b1));
        if a.last().min_occurs > 0 {
            assert forall|i: int| 0 <= i < ra.len() + 1 implies same_element(
                #[trigger] ra.push(a.last())[i],
                rb.push(b.last())[i],
            ) by {
                if i < ra.len() {
                    assert(same_element(ra[i], rb[i]));
                }
            }
        }
    }
}

/// `true` if the variant `v` is of a simple kind: no complex type and no group.
pub open spec fn is_simple_kind(v: MetaTypeVariant) -> bool {
    !(v is ComplexType) && !is_group(v)
}

/// `v` is the simple base variant `c` as it is taken over: a restricted enumeration starts
/// without values.
pub open spec fn simple_base_taken(c: MetaTypeVariant, v: MetaTypeVariant) -> bool {
    match c {
        MetaTypeVariant::Enumeration(a) => {
            &&& v matches MetaTypeVariant::Enumeration(b)
            &&& v->Enumeration_0.base == a.base
            &&& v->Enumeration_0.constrains@ == a.constrains@
            &&& v->Enumeration_0.variants@.len() == 0
        },
        _ => is_variant_copy(c, v),
    }
}

/// `v` is the complex base variant `c` as it is taken over: a complex type gets the mixedness
/// `is_mixed` and, if `content` is given, a new content identifier.
pub open spec fn complex_base_taken(
    c: MetaTypeVariant,
    v: MetaTypeVariant,
    content: Option<TypeIdentView>,
    is_mixed: bool,
) -> bool {
    match c {
        MetaTypeVariant::ComplexType(a) => v is ComplexType && {
            let b = v->ComplexType_0;
            &&& a.base == b.base
            &&& a.min_occurs == b.min_occurs
            &&& a.max_occurs == b.max_occurs
            &&& a.is_dynamic == b.is_dynamic
            &&& b.is_mixed == is_mixed
            &&& a.attributes.0@.len() == b.attributes.0@.len()
            &&& forall|i: int|
                0 <= i < a.attributes.0@.len() ==> same_attribute(
                    #[trigger] a.attributes.0@[i],
                    b.attributes.0@[i],
                )
            &&& match content {
                None => b.content == a.content,
                Some(k) => b.content matches Some(x) && x@ == k,
            }
        },
        _ => is_variant_copy(c, v),
    }
}

/// `nt` is the content type `ct` of a complex base as it is taken over: a restriction keeps
/// only the required elements of a group.
pub open spec fn content_type_taken(ct: MetaType, nt: MetaType, mode: UpdateMode) -> bool {
    &&& nt.form == ct.form
    &&& nt.schema == ct.schema
    &&& nt.display_name == ct.display_name
    &&& nt.documentation@ == ct.documentation@
    &&& if is_group(ct.variant) && mode == UpdateMode::Restriction {
        &&& ((ct.variant is All && nt.variant is All) || (ct.variant is Choice && nt.variant is Choice)
            || (ct.variant is Sequence && nt.variant is Sequence))
        &&& group_of(nt.variant).is_mixed == group_of(ct.variant).is_mixed
        &&& same_elements(
            required_elements(group_of(ct.variant).elements.0@),
            group_of(nt.variant).elements.0@,
        )
    } else {
        is_variant_copy(ct.variant, nt.variant)
    }
}

/// `true` if the builder is in a mode in which a type is derived from a base: a simple type
/// with simple content, or a complex type.
pub open spec fn can_copy_base(b: VariantBuilder) -> bool {
    ||| b.type_mode == TypeMode::Simple && b.content_mode == ContentMode::Simple
    ||| b.type_mode == TypeMode::Complex && (b.content_mode == ContentMode::Simple
        || b.content_mode == ContentMode::Complex)
}

/// The builder `n` with the context `nctx` is the builder `o` with `octx` after the type was
/// derived from the base `base` in the mode `mode`, with the result `r`.
pub open spec fn base_copied(
    o: VariantBuilder,
    n: VariantBuilder,
    octx: BuilderContext,
    nctx: BuilderContext,
    base: TypeIdent,
    mode: UpdateMode,
    is_mixed: bool,
    r: Result<(), InterpreterError>,
) -> bool {
    let found = octx.types@.contains_key(base@);
    let c = octx.types@[base@].variant;
    let simple = found && is_simple_kind(c);
    let unknown = Err::<(), InterpreterError>(InterpreterError::UnknownType(base));
    if o.type_mode == TypeMode::Simple {
        if simple {
            &&& r is Ok
            &&& nctx == octx
            &&& n == VariantBuilder { variant: n.variant, fixed: false, ..o }
            &&& n.variant matches Some(v) && simple_base_taken(c, v)
        } else {
            &&& r == unknown
            &&& nctx == octx
            &&& n == VariantBuilder { fixed: false, ..o }
        }
    } else if o.content_mode == ContentMode::Simple && simple {
        let old_complex = o.variant matches Some(MetaTypeVariant::ComplexType(_));
        &&& r is Ok
        &&& nctx == octx
        &&& n == VariantBuilder { variant: n.variant, fixed: !old_complex, ..o }
        &&& n.variant matches Some(MetaTypeVariant::ComplexType(b))
        &&& if old_complex {
            let a = o.variant.unwrap()->ComplexType_0;
            let b = n.variant.unwrap()->ComplexType_0;
            &&& b == ComplexMeta { content: b.content, ..a }
            &&& match a.content {
                Some(_) => b.content == a.content,
                None => b.content == Some(base),
            }
        } else {
            n.variant.unwrap()->ComplexType_0.content == Some(base)
                && n.variant.unwrap()->ComplexType_0.base is NoBase
        }
    } else if !found {
        &&& r == unknown
        &&& nctx == octx
        &&& n == VariantBuilder { fixed: o.fixed || o.content_mode == ContentMode::Simple, ..o }
    } else {
        let fixed = o.fixed || o.content_mode == ContentMode::Simple;
        let complex_content = o.content_mode == ContentMode::Complex && (c is ComplexType
            && c->ComplexType_0.content is Some);
        let cid = c->ComplexType_0.content.unwrap();
        if complex_content && !octx.types@.contains_key(cid@) {
            &&& r == Err::<(), InterpreterError>(InterpreterError::UnknownType(cid))
            &&& nctx == octx
            &&& n == VariantBuilder { fixed: fixed, ..o }
        } else {
            &&& r is Ok
            &&& n == VariantBuilder { variant: n.variant, fixed: fixed, ..o }
            &&& n.variant matches Some(v)
            &&& if complex_content {
                let nid = content_ident_view(octx.current_ns, octx.next_content_id);
                &&& content_name_made(octx, nctx)
                &&& nctx.types@ == octx.types@.insert(nid, nctx.types@[nid])
                &&& content_type_taken(octx.types@[cid@], nctx.types@[nid], mode)
                &&& complex_base_taken(c, n.variant.unwrap(), Some(nid), is_mixed)
                &&& fresh_content_names(octx) ==> !octx.types@.contains_key(nid) && nid != cid@
            } else {
                &&& nctx == octx
                &&& complex_base_taken(c, n.variant.unwrap(), None, is_mixed)
            }
        }
    }
}

/// Returns `true` if the variant `v` is of a simple kind.
fn simple_kind(v: &MetaTypeVariant) -> (r: bool)
    ensures
        r == is_simple_kind(*v),
{
    match v {
        MetaTypeVariant::ComplexType(_) | MetaTypeVariant::All(_) | MetaTypeVariant::Choice(_)
        | MetaTypeVariant::Sequence(_) => false,
        _ => true,
    }
}

impl VariantBuilder {
    /// Derives the constructed type from the base `base` (by extension or restriction).
    ///
    /// A simple type takes over the variant of a simple base (a restricted enumeration starts
    /// without values). A complex type with simple content of a simple base gets the base as
    /// its content. Otherwise the complex type takes over the variant of the base: its content
    /// is copied under a new generated identifier (a restriction keeps only the required
    /// elements of a group), and it gets the mixedness `is_mixed`. A type counts as simple
    /// unless it is a complex type or a group.
    ///
    /// # Errors
    ///
    /// Returns [`InterpreterError::UnknownType`] if the base, or the content of a complex
    /// base, is unknown (or a simple type derives from a complex base).
    pub fn copy_base_type(
        &mut self,
        ctx: &mut BuilderContext,
        base: &TypeIdent,
        mode: UpdateMode,
        is_mixed: bool,
    ) -> (r: Result<(), InterpreterError>)
        requires
            old(ctx).types.wf(),
            can_copy_base(*old(self)),
        ensures
            final(ctx).types.wf(),
            base_copied(*old(self), *final(self), *old(ctx), *final(ctx), *base, mode, is_mixed, r),
            fresh_content_names(*old(ctx)) && old(ctx).next_content_id < u64::MAX
                ==> fresh_content_names(*final(ctx)),
    {
        let (found, simple) = match ctx.types.get(base) {
            Some(t) => (true, simple_kind(&t.variant)),
            None => (false, false),
        };
        if self.type_mode == TypeMode::Simple {
            self.fixed = false;
            if !simple {
                return Err(InterpreterError::UnknownType(base.duplicate()));
            }
        } else if self.content_mode == ContentMode::Simple {
            if simple {
                self.fixed = false;
                let v = self.variant.take();
                let mut ci = match v {
                    Some(MetaTypeVariant::ComplexType(ci)) => ci,
                    _ => {
                        self.fixed = true;
                        ComplexMeta::default()
                    },
                };
                if ci.content.is_none() {
                    ci.content = Some(base.duplicate());
                }
                self.variant = Some(MetaTypeVariant::ComplexType(ci));
                return Ok(());
            }
            self.fixed = true;
            if !found {
                return Err(InterpreterError::UnknownType(base.duplicate()));
            }
        } else if !found {
            return Err(InterpreterError::UnknownType(base.duplicate()));
        }
        let ghost c = ctx.types@[base@].variant;
        let base_v = match ctx.types.get(base) {
            Some(t) => copy_variant(&t.variant),
            None => {
                proof {
                    assert(false);
                }
                return Ok(());
            },
        };
        if self.type_mode == TypeMode::Simple {
            let base_v = match base_v {
                MetaTypeVariant::Enumeration(e) => {
                    let mut e = e;
                    e.variants = Vec::new();
                    MetaTypeVariant::Enumeration(e)
                },
                other => other,
            };
            self.variant = Some(base_v);
            return Ok(());
        }
        let base_v = match base_v {
            MetaTypeVariant::ComplexType(ci) => {
                let mut ci = ci;
                ci.is_mixed = is_mixed;
                if self.content_mode == ContentMode::Complex {
                    let cid = match &ci.content {
                        Some(x) => Some(x.duplicate()),
                        None => None,
                    };
                    if let Some(cid) = cid {
                        let content = match ctx.types.get(&cid) {
                            Some(t) => copy_type(t),
                            None => return Err(InterpreterError::UnknownType(cid)),
                        };
                        let ghost ct = ctx.types@[cid@];
                        let ghost copied = content;
                        let content = if mode == UpdateMode::Restriction {
                            restrict_content(content)
                        } else {
                            content
                        };
                        proof {
                            if is_group(ct.variant) && mode == UpdateMode::Restriction {
                                let (ga, gb) = (group_of(ct.variant), group_of(copied.variant));
                                assert(is_group_copy(ct.variant, copied.variant));
                                assert(same_elements(ga.elements.0@, gb.elements.0@));
                                lemma_required_of_copies(ga.elements.0@, gb.elements.0@);
                            }
                            assert(content_type_taken(ct, content, mode));
                        }
                        proof {
                            if fresh_content_names(*old(ctx)) {
                                lemma_generated_is_fresh(*old(ctx));
                            }
                        }
                        let name = ctx.make_content_name();
                        let nid = TypeIdent::new(name).with_ns(ctx.current_ns);
                        let ghost t = content;
                        ctx.types.insert(nid.duplicate(), content);
                        proof {
                            if fresh_content_names(*old(ctx)) && old(ctx).next_content_id < u64::MAX {
                                lemma_fresh_after_generated(*old(ctx), *ctx, t);
                            }
                        }
                        ci.content = Some(nid);
                    }
                }
                MetaTypeVariant::ComplexType(ci)
            },
            other => other,
        };
        self.variant = Some(base_v);
        Ok(())
    }
}

/// The content type `t` of a restricted complex base: a group keeps only its required
/// elements.
fn restrict_content(t: MetaType) -> (r: MetaType)
    ensures
        r.form == t.form,
        r.schema == t.schema,
        r.display_name == t.display_name,
        r.documentation == t.documentation,
        if is_group(t.variant) {
            &&& ((t.variant is All && r.variant is All) || (t.variant is Choice && r.variant is Choice)
                || (t.variant is Sequence && r.variant is Sequence))
            &&& group_of(r.variant).is_mixed == group_of(t.variant).is_mixed
            &&& group_of(r.variant).elements.0@ == required_elements(group_of(t.variant).elements.0@)
        } else {
            r == t
        },
{
    let MetaType { variant, form, schema, display_name, documentation } = t;
    let variant = match variant {
        MetaTypeVariant::All(g) => {
            let mut g = g;
            retain_required(&mut g.elements.0);
            MetaTypeVariant::All(g)
        },
        MetaTypeVariant::Choice(g) => {
            let mut g = g;
            retain_required(&mut g.elements.0);
            MetaTypeVariant::Choice(g)
        },
        MetaTypeVariant::Sequence(g) => {
            let mut g = g;
            retain_required(&mut g.elements.0);
            MetaTypeVariant::Sequence(g)
        },
        other => other,
    };
    MetaType { variant, form, schema, display_name, documentation }
}

} // verus!
