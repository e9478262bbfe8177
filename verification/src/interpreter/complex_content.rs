//! How the builder places the group (`xs:all`, `xs:choice`, `xs:sequence`) of a complex
//! content.
//!
//! Building a complex content happens in two steps around the builder of the group itself:
//! [`VariantBuilder::begin_complex_content`] decides where the group goes and what it starts
//! from, the caller builds the group, and [`VariantBuilder::end_complex_content`] stores it.

use vstd::prelude::*;

use super::elements::{
    first_free_exponent, first_renamed, first_with_ident, has_ident,
    suffixed, doubled,
};
use super::error::InterpreterError;
use super::group_cache::GroupCache;
use super::variant_builder::{simple_content_ident, BuilderContext, VariantBuilder};
use crate::models::ident::{IdentType, Name, TypeIdent, TypeIdentView};
use crate::models::meta::{
    max_occurs_max, min_occurs_min, spec_max_occurs_max, AnyMeta, ComplexMeta, ElementMeta,
    ElementMetaVariant, ElementMode, ElementsMeta, FormChoiceType, GroupMeta, MaxOccurs,
    MetaType, MetaTypeVariant,
};

verus! {

/// The kind of group a complex content is built from.
#[derive(Clone, Copy, Debug, PartialEq, Eq, Structural)]
pub enum ComplexContentType {
    All,
    Choice,
    Sequence,
}

/// How a new group changes the content of the constructed complex type.
#[derive(Clone, Copy, Debug, PartialEq, Eq, Structural)]
pub enum UpdateContentMode {
    /// The type has no content yet: the group becomes its content.
    Unknown,
    /// The content is a group of the same kind: it is extended.
    Update,
    /// The content is a group of another kind: the new group is added to it as an element.
    Append,
}

/// What a complex content starts from.
#[derive(Debug)]
pub enum ContentSource {
    /// The type of the referenced group was built before and is used again.
    Cached(TypeIdent),
    /// The group is built, starting from this variant.
    Build(MetaTypeVariant),
}

/// Where the group of a complex content goes and what it starts from.
#[derive(Debug)]
pub struct ComplexContentStart {
    pub mode: UpdateContentMode,
    pub source: ContentSource,
    /// `true` if a type was cached for the referenced group; the group is then not cached
    /// again.
    pub is_cached: bool,
}

/// The type cached for the referenced group `group`, if there is a cache and it holds one.
pub open spec fn cached_group(group: Option<TypeIdent>, cache: Option<&GroupCache>) -> Option<TypeIdent> {
    match (group, cache) {
        (Some(g), Some(c)) => if c@.contains_key(g@) {
            Some(c@[g@])
        } else {
            None
        },
        _ => None,
    }
}

/// `new` is the cache `old` after a complex content ended: if the group was stored (`stored`),
/// the type `type_ident` is cached for the referenced group `group`, if there is one and a
/// cache; else the cache is unchanged.
pub open spec fn group_cached(
    old: Option<GroupCache>,
    new: Option<GroupCache>,
    stored: bool,
    group: Option<TypeIdent>,
    type_ident: TypeIdent,
) -> bool {
    if stored && group is Some && old is Some {
        &&& new matches Some(n)
        &&& new.unwrap().wf()
        &&& new.unwrap()@ == old.unwrap()@.insert(group.unwrap()@, type_ident)
    } else {
        new == old
    }
}

/// The group of a complex content, as built by the caller.
#[derive(Debug)]
pub enum ContentOutput {
    /// The type of the referenced group that was built before.
    Cached(TypeIdent),
    /// The newly built group.
    Type(MetaType),
}

/// `true` if `v` is a group (`xs:all`, `xs:choice` or `xs:sequence`).
pub open spec fn is_group(v: MetaTypeVariant) -> bool {
    v is All || v is Choice || v is Sequence
}

/// The group of the group variant `v`.
pub open spec fn group_of(v: MetaTypeVariant) -> GroupMeta {
    match v {
        MetaTypeVariant::All(g) => g,
        MetaTypeVariant::Choice(g) => g,
        MetaTypeVariant::Sequence(g) => g,
        _ => arbitrary(),
    }
}

/// `true` if `v` is a group of the kind `kind`.
pub open spec fn is_group_of_kind(kind: ComplexContentType, v: MetaTypeVariant) -> bool {
    match kind {
        ComplexContentType::All => v is All,
        ComplexContentType::Choice => v is Choice,
        ComplexContentType::Sequence => v is Sequence,
    }
}

/// `true` if `v` is an empty group of the kind `kind`.
pub open spec fn is_empty_group(kind: ComplexContentType, v: MetaTypeVariant) -> bool {
    &&& is_group_of_kind(kind, v)
    &&& !group_of(v).is_mixed
    &&& group_of(v).elements.0@.len() == 0
}

/// Two elements are equal, up to the identity of their documentation vectors.
pub open spec fn same_element(a: ElementMeta, b: ElementMeta) -> bool {
    &&& a.ident == b.ident
    &&& a.variant == b.variant
    &&& a.form == b.form
    &&& a.nillable == b.nillable
    &&& a.min_occurs == b.min_occurs
    &&& a.max_occurs == b.max_occurs
    &&& a.display_name == b.display_name
    &&& a.documentation@ == b.documentation@
}

/// `b` is a copy of the group variant `a`.
pub open spec fn is_group_copy(a: MetaTypeVariant, b: MetaTypeVariant) -> bool {
    let (ga, gb) = (group_of(a), group_of(b));
    &&& (a is All && b is All) || (a is Choice && b is Choice) || (a is Sequence && b is Sequence)
    &&& ga.is_mixed == gb.is_mixed
    &&& ga.elements.0@.len() == gb.elements.0@.len()
    &&& forall|i: int|
        0 <= i < ga.elements.0@.len() ==> same_element(
            #[trigger] ga.elements.0@[i],
            gb.elements.0@[i],
        )
}

/// The start of a complex content of the kind `kind` for the builder `b`, where `cached` is
/// the type built before for the referenced group, if any. `None` if the content type of the
/// constructed complex type is unknown.
pub open spec fn is_complex_content_start(
    b: VariantBuilder,
    types: Map<TypeIdentView, MetaType>,
    kind: ComplexContentType,
    cached: Option<TypeIdent>,
    s: ComplexContentStart,
) -> bool {
    match simple_content_ident(b.variant) {
        Some(cid) => {
            let cv = types[cid@].variant;
            if is_group_of_kind(kind, cv) {
                &&& s.mode == UpdateContentMode::Update
                &&& s.source matches ContentSource::Build(v) && is_group_copy(cv, v)
            } else {
                &&& s.mode == UpdateContentMode::Append
                &&& fresh_source(kind, cached, s.source)
            }
        },
        None => {
            &&& s.mode == UpdateContentMode::Unknown
            &&& fresh_source(kind, cached, s.source)
        },
    }
}

/// The group starts from the cached type, or, if there is none, from an empty group.
pub open spec fn fresh_source(kind: ComplexContentType, cached: Option<TypeIdent>, s: ContentSource) -> bool {
    match cached {
        Some(c) => s == ContentSource::Cached(c),
        None => s matches ContentSource::Build(v) && is_empty_group(kind, v),
    }
}

/// A group that was built and stored under a reference is found in the cache when it is
/// referred to again: the type stored for it is used again, and other groups keep what was
/// cached for them.
pub proof fn law_stored_group_is_cached(
    old: Option<GroupCache>,
    new: Option<GroupCache>,
    group: TypeIdent,
    type_ident: TypeIdent,
    other: TypeIdent,
)
    requires
        old is Some,
        group_cached(old, new, true, Some(group), type_ident),
    ensures
        new matches Some(c) && cached_group(Some(group), Some(&c)) == Some(type_ident),
        other@ != group@ ==> cached_group(Some(other), Some(&new.unwrap())) == cached_group(
            Some(other),
            Some(&old.unwrap()),
        ),
{
}

/// Returns a copy of the element `e`.
fn copy_element(e: &ElementMeta) -> (r: ElementMeta)
    ensures
        same_element(*e, r),
{
    let variant = match &e.variant {
        ElementMetaVariant::Any(a) => ElementMetaVariant::Any(
            AnyMeta {
                id: copy_opt_string(&a.id),
                namespace: copy_opt_string(&a.namespace),
                not_q_name: copy_opt_string(&a.not_q_name),
                not_namespace: copy_opt_string(&a.not_namespace),
                process_contents: a.process_contents,
            },
        ),
        ElementMetaVariant::Type { type_, mode } => ElementMetaVariant::Type {
            type_: type_.duplicate(),
            mode: *mode,
        },
    };
    let mut documentation: Vec<String> = Vec::new();
    let mut i: usize = 0;
    while i < e.documentation.len()
        invariant
            i <= e.documentation@.len(),
            documentation@ == e.documentation@.take(i as int),
        decreases e.documentation@.len() - i,
    {
        documentation.push(e.documentation[i].clone());
        assert(documentation@ =~= e.documentation@.take(i + 1));
        i = i + 1;
    }
    assert(e.documentation@.take(e.documentation@.len() as int) =~= e.documentation@);
    ElementMeta {
        ident: e.ident.duplicate(),
        variant,
        form: e.form,
        nillable: e.nillable,
        min_occurs: e.min_occurs,
        max_occurs: e.max_occurs,
        display_name: copy_opt_string(&e.display_name),
        documentation,
    }
}

/// Returns a copy of the optional string `s`.
fn copy_opt_string(s: &Option<String>) -> (r: Option<String>)
    ensures
        r == *s,
{
    match s {
        Some(x) => Some(x.clone()),
        None => None,
    }
}

/// Returns a copy of the group `g`.
pub(crate) fn copy_group(g: &GroupMeta) -> (r: GroupMeta)
    ensures
        r.is_mixed == g.is_mixed,
        r.elements.0@.len() == g.elements.0@.len(),
        forall|i: int|
            0 <= i < g.elements.0@.len() ==> same_element(
                #[trigger] g.elements.0@[i],
                r.elements.0@[i],
            ),
{
    let mut elements: Vec<ElementMeta> = Vec::new();
    let mut i: usize = 0;
    while i < g.elements.0.len()
        invariant
            i <= g.elements.0@.len(),
            elements@.len() == i,
            forall|j: int|
                0 <= j < i ==> same_element(#[trigger] g.elements.0@[j], elements@[j]),
        decreases g.elements.0@.len() - i,
    {
        elements.push(copy_element(&g.elements.0[i]));
        i = i + 1;
    }
    GroupMeta { is_mixed: g.is_mixed, elements: ElementsMeta(elements) }
}

/// Returns an empty group of the kind `kind`.
fn empty_group(kind: ComplexContentType) -> (r: MetaTypeVariant)
    ensures
        is_empty_group(kind, r),
{
    match kind {
        ComplexContentType::All => MetaTypeVariant::All(GroupMeta::default()),
        ComplexContentType::Choice => MetaTypeVariant::Choice(GroupMeta::default()),
        ComplexContentType::Sequence => MetaTypeVariant::Sequence(GroupMeta::default()),
    }
}

/// Returns the source of a group that is not merged into an existing one.
fn fresh(kind: ComplexContentType, cached: Option<TypeIdent>) -> (r: ContentSource)
    ensures
        fresh_source(kind, cached, r),
{
    match cached {
        Some(c) => ContentSource::Cached(c),
        None => ContentSource::Build(empty_group(kind)),
    }
}

/// The identifier the group is stored under: the cached type, or `type_ident` for a newly
/// built group.
pub open spec fn output_ident(output: ContentOutput, type_ident: TypeIdentView) -> TypeIdentView {
    match output {
        ContentOutput::Cached(c) => c@,
        ContentOutput::Type(_) => type_ident,
    }
}

/// The types after a newly built group was stored under `type_ident`.
pub open spec fn placed_types(
    types: Map<TypeIdentView, MetaType>,
    output: ContentOutput,
    type_ident: TypeIdentView,
) -> Map<TypeIdentView, MetaType> {
    match output {
        ContentOutput::Cached(_) => types,
        ContentOutput::Type(t) => types.insert(type_ident, t),
    }
}

/// The built output is no group at all.
pub open spec fn output_is_invalid(output: ContentOutput) -> bool {
    output matches ContentOutput::Type(t) && !is_group(t.variant)
}

/// The built output is an empty group, which changes nothing.
pub open spec fn output_is_empty(output: ContentOutput) -> bool {
    output matches ContentOutput::Type(t) && is_group(t.variant) && group_of(t.variant).elements.0@.len() == 0
}

/// `b` is a group of the same kind as the group `a`.
pub open spec fn same_group_kind(a: MetaTypeVariant, b: MetaTypeVariant) -> bool {
    (a is All && b is All) || (a is Choice && b is Choice) || (a is Sequence && b is Sequence)
}

/// The identifier of the element a group named `field` gets in the namespace `ns`.
pub open spec fn group_field_ident(ns: crate::models::ident::NamespaceId, field: Seq<char>) -> TypeIdentView {
    TypeIdentView {
        ns: ns,
        schema: crate::models::ident::SchemaId(crate::models::ident::SchemaId::UNKNOWN),
        name: field,
        type_: IdentType::Group,
    }
}

/// `true` if an element with the identifier `field` can be added to the elements `s`.
pub open spec fn can_add_group_element(s: Seq<ElementMeta>, field: TypeIdentView) -> bool {
    !has_ident(s, field) || first_free_exponent(s, field, 1) <= 30
}

/// `new` is `old` after the group `target` was added as an element with the identifier
/// `field` (renamed if it is taken) that occurs between `min` and `max` times.
pub open spec fn group_element_added(
    old: Seq<ElementMeta>,
    new: Seq<ElementMeta>,
    field: TypeIdentView,
    target: TypeIdentView,
    min: usize,
    max: MaxOccurs,
) -> bool {
    let n = old.len() as int;
    let e = new[n];
    &&& new.len() == n + 1
    &&& forall|j: int| 0 <= j < n ==> (#[trigger] new[j]).ident@ != e.ident@
    &&& e.variant matches ElementMetaVariant::Type { type_, mode } && type_@ == target && mode
        == ElementMode::Group
    &&& e.form == FormChoiceType::Unqualified
    &&& !e.nillable
    &&& e.min_occurs == (if 1 <= min { 1 } else { min })
    &&& e.max_occurs == spec_max_occurs_max(MaxOccurs::Bounded(1), max)
    &&& e.display_name is None
    &&& e.documentation@.len() == 0
    &&& if !has_ident(old, field) {
        &&& e.ident@ == field
        &&& forall|j: int| 0 <= j < n ==> #[trigger] new[j] == old[j]
    } else {
        let i = first_with_ident(old, field, 0);
        &&& forall|j: int| 0 <= j < n && j != i ==> #[trigger] new[j] == old[j]
        &&& first_renamed(old[i], new[i], field)
        &&& e.ident@ == suffixed(field, doubled(first_free_exponent(old, field, 1)))
    }
}

/// `true` if the group can be stored: the variant of the builder can take it, and the
/// element it becomes, if any, can be added.
pub open spec fn can_end_complex_content(
    b: VariantBuilder,
    types: Map<TypeIdentView, MetaType>,
    mode: UpdateContentMode,
    output: ContentOutput,
    field: TypeIdentView,
    type_ident: TypeIdentView,
) -> bool {
    let placed = placed_types(types, output, type_ident);
    if output_is_invalid(output) || output_is_empty(output) {
        true
    } else {
        match b.variant {
            Some(MetaTypeVariant::ComplexType(ci)) => match mode {
                UpdateContentMode::Unknown => true,
                UpdateContentMode::Update => output is Type && ci.content is Some,
                UpdateContentMode::Append => {
                    &&& ci.content matches Some(cid)
                    &&& placed.contains_key(ci.content.unwrap()@)
                    &&& is_group(placed[ci.content.unwrap()@].variant)
                    &&& can_add_group_element(
                        group_of(placed[ci.content.unwrap()@].variant).elements.0@,
                        field,
                    )
                },
            },
            Some(MetaTypeVariant::All(g)) => can_add_group_element(g.elements.0@, field),
            Some(MetaTypeVariant::Choice(g)) => can_add_group_element(g.elements.0@, field),
            Some(MetaTypeVariant::Sequence(g)) => can_add_group_element(g.elements.0@, field),
            None => true,
            Some(_) => false,
        }
    }
}

/// `b` is the complex type `a` with other occurrences (and possibly another content).
pub open spec fn same_complex_shape(a: ComplexMeta, b: ComplexMeta) -> bool {
    &&& a.base == b.base
    &&& a.is_dynamic == b.is_dynamic
    &&& a.is_mixed == b.is_mixed
    &&& a.attributes == b.attributes
}

/// `b` is the type `a` with another variant.
pub open spec fn same_type_except_variant(a: MetaType, b: MetaType) -> bool {
    &&& a.form == b.form
    &&& a.schema == b.schema
    &&& a.display_name == b.display_name
    &&& a.documentation == b.documentation
}

/// The builder `n` with the types `nt` is the builder `o` with the types `ot` after the group
/// `output` of a complex content was stored in the mode `mode`, with the result `r`.
pub open spec fn complex_content_ended(
    o: VariantBuilder,
    n: VariantBuilder,
    ot: Map<TypeIdentView, MetaType>,
    nt: Map<TypeIdentView, MetaType>,
    mode: UpdateContentMode,
    output: ContentOutput,
    field: TypeIdentView,
    type_ident: TypeIdentView,
    min: usize,
    max: MaxOccurs,
    r: Result<(), InterpreterError>,
) -> bool {
    let placed = placed_types(ot, output, type_ident);
    let target = output_ident(output, type_ident);
    if output_is_invalid(output) {
        &&& r == Err::<(), InterpreterError>(InterpreterError::ExpectedGroupType)
        &&& n == o
        &&& nt == ot
    } else if output_is_empty(output) {
        &&& r is Ok
        &&& n == o
        &&& nt == ot
    } else {
        &&& r is Ok
        &&& match o.variant {
            Some(MetaTypeVariant::ComplexType(ci)) => {
                let nci = n.variant.unwrap()->ComplexType_0;
                &&& n.variant matches Some(MetaTypeVariant::ComplexType(_))
                &&& n.fixed == o.fixed
                &&& same_complex_shape(ci, nci)
                &&& nci.min_occurs == (if ci.min_occurs <= min { ci.min_occurs } else { min })
                &&& nci.max_occurs == spec_max_occurs_max(ci.max_occurs, max)
                &&& match mode {
                    UpdateContentMode::Unknown => {
                        &&& nci.content matches Some(x)
                        &&& nci.content.unwrap()@ == target
                        &&& nt == placed
                    },
                    UpdateContentMode::Update => {
                        &&& nci.content == ci.content
                        &&& nt == ot.insert(ci.content.unwrap()@, output->Type_0)
                    },
                    UpdateContentMode::Append => {
                        let cid = ci.content.unwrap()@;
                        &&& nci.content == ci.content
                        &&& nt == placed.insert(cid, nt[cid])
                        &&& same_type_except_variant(placed[cid], nt[cid])
                        &&& same_group_kind(placed[cid].variant, nt[cid].variant)
                        &&& group_of(nt[cid].variant).is_mixed == group_of(placed[cid].variant).is_mixed
                        &&& group_element_added(
                            group_of(placed[cid].variant).elements.0@,
                            group_of(nt[cid].variant).elements.0@,
                            field,
                            target,
                            min,
                            max,
                        )
                    },
                }
            },
            None => {
                let nci = n.variant.unwrap()->ComplexType_0;
                &&& n.variant matches Some(MetaTypeVariant::ComplexType(_))
                &&& n.fixed
                &&& nci.base is NoBase
                &&& nci.content matches Some(x)
                &&& nci.content.unwrap()@ == target
                &&& nci.min_occurs == (if 1 <= min { 1 } else { min })
                &&& nci.max_occurs == spec_max_occurs_max(MaxOccurs::Bounded(1), max)
                &&& !nci.is_dynamic
                &&& !nci.is_mixed
                &&& nci.attributes.0@.len() == 0
                &&& nt == placed
            },
            Some(v) => {
                &&& n.variant matches Some(nv)
                &&& same_group_kind(v, n.variant.unwrap())
                &&& group_of(n.variant.unwrap()).is_mixed == group_of(v).is_mixed
                &&& group_element_added(
                    group_of(v).elements.0@,
                    group_of(n.variant.unwrap()).elements.0@,
                    field,
                    target,
                    min,
                    max,
                )
                &&& n.fixed == o.fixed
                &&& nt == placed
            },
        }
    }
}

/// Adds the group `target` to the elements `elements` as an element `field` that occurs
/// between `min` and `max` times.
fn add_group_element(
    elements: &mut ElementsMeta,
    field: TypeIdent,
    target: TypeIdent,
    min: usize,
    max: MaxOccurs,
)
    requires
        can_add_group_element(old(elements).0@, field@),
    ensures
        group_element_added(old(elements).0@, final(elements).0@, field@, target@, min, max),
{
    let ghost k = field@;
    let ghost t = target@;
    let mut element = ElementMeta::new(field, target, ElementMode::Group, FormChoiceType::Unqualified);
    element.min_occurs = min_occurs_min(1, min);
    element.max_occurs = max_occurs_max(MaxOccurs::Bounded(1), max);
    let ghost e = element;
    let i = elements.insert_checked(element);
    proof {
        assert(e.ident@ == k);
        assert(e.variant matches ElementMetaVariant::Type { type_, mode } && type_@ == t);
    }
}

/// Stores a newly built group under `type_ident`; returns the identifier of the group.
fn place_output(ctx: &mut BuilderContext, output: ContentOutput, type_ident: TypeIdent) -> (r: TypeIdent)
    requires
        old(ctx).types.wf(),
    ensures
        final(ctx).types.wf(),
        r@ == output_ident(output, type_ident@),
        final(ctx).types@ == placed_types(old(ctx).types@, output, type_ident@),
        final(ctx).current_ns == old(ctx).current_ns,
        final(ctx).element_form_default == old(ctx).element_form_default,
        final(ctx).schema_id == old(ctx).schema_id,
        final(ctx).next_content_id == old(ctx).next_content_id,
{
    match output {
        ContentOutput::Cached(c) => c,
        ContentOutput::Type(t) => {
            ctx.types.insert(type_ident.duplicate(), t);
            type_ident
        },
    }
}

impl VariantBuilder {
    /// Decides where the group of a complex content of the kind `kind` goes and what it is
    /// built from. If the complex content is the group `group` referred to, and `cache`
    /// holds a type built for it before, that type is used again.
    ///
    /// A complex type whose content is a group of the same kind extends that group (the cache
    /// is not used then); a content of another kind gets the new group appended as an
    /// element; a type without content gets the group as its content.
    ///
    /// # Errors
    ///
    /// Returns [`InterpreterError::UnknownType`] if the content type of the constructed complex
    /// type is unknown.
    pub fn begin_complex_content(
        &self,
        ctx: &BuilderContext,
        kind: ComplexContentType,
        group: Option<TypeIdent>,
        cache: Option<&GroupCache>,
    ) -> (r: Result<ComplexContentStart, InterpreterError>)
        requires
            ctx.types.wf(),
            cache matches Some(c) ==> c.wf(),
        ensures
            r matches Ok(s) ==> s.is_cached == (cached_group(group, cache) is Some),
            match simple_content_ident(self.variant) {
                Some(cid) => if ctx.types@.contains_key(cid@) {
                    r matches Ok(s) && is_complex_content_start(
                        *self,
                        ctx.types@,
                        kind,
                        cached_group(group, cache),
                        s,
                    )
                } else {
                    r == Err::<ComplexContentStart, InterpreterError>(
                        InterpreterError::UnknownType(cid),
                    )
                },
                None => r matches Ok(s) && is_complex_content_start(
                    *self,
                    ctx.types@,
                    kind,
                    cached_group(group, cache),
                    s,
                ),
            },
    {
        let cached = match (group, cache) {
            (Some(g), Some(c)) => c.get(&g),
            _ => None,
        };
        let is_cached = cached.is_some();
        let cid = match &self.variant {
            Some(MetaTypeVariant::ComplexType(ci)) => match &ci.content {
                Some(c) => c.duplicate(),
                None => return Ok(ComplexContentStart { mode: UpdateContentMode::Unknown, source: fresh(kind, cached), is_cached }),
            },
            _ => return Ok(ComplexContentStart { mode: UpdateContentMode::Unknown, source: fresh(kind, cached), is_cached }),
        };
        let content = match ctx.types.get(&cid) {
            Some(t) => t,
            None => return Err(InterpreterError::UnknownType(cid)),
        };
        match (kind, &content.variant) {
            (ComplexContentType::All, MetaTypeVariant::All(g)) => Ok(
                ComplexContentStart {
                    mode: UpdateContentMode::Update,
                    source: ContentSource::Build(MetaTypeVariant::All(copy_group(g))),
                    is_cached,
                },
            ),
            (ComplexContentType::Choice, MetaTypeVariant::Choice(g)) => Ok(
                ComplexContentStart {
                    mode: UpdateContentMode::Update,
                    source: ContentSource::Build(MetaTypeVariant::Choice(copy_group(g))),
                    is_cached,
                },
            ),
            (ComplexContentType::Sequence, MetaTypeVariant::Sequence(g)) => Ok(
                ComplexContentStart {
                    mode: UpdateContentMode::Update,
                    source: ContentSource::Build(MetaTypeVariant::Sequence(copy_group(g))),
                    is_cached,
                },
            ),
            _ => Ok(ComplexContentStart { mode: UpdateContentMode::Append, source: fresh(kind, cached), is_cached }),
        }
    }
}

impl VariantBuilder {
    /// Stores the group `output` of a complex content, as decided by
    /// [`VariantBuilder::begin_complex_content`] in the mode `mode`.
    ///
    /// A newly built group is stored under `type_ident`; an empty group changes nothing. The
    /// group then becomes the content of the constructed type (`Unknown`), replaces the content
    /// it extends (`Update`), or is added as an element named `field_name` to the content
    /// (`Append`) or to the constructed group; the occurrences of the content are widened by
    /// `min_occurs` and `max_occurs`. Unless the group came from the cache (`is_cached`), a
    /// stored group is then cached under the referenced group `group`.
    ///
    /// # Errors
    ///
    /// Returns [`InterpreterError::ExpectedGroupType`] if the built output is no group.
    pub fn end_complex_content(
        &mut self,
        ctx: &mut BuilderContext,
        mode: UpdateContentMode,
        output: ContentOutput,
        field_name: Name,
        min_occurs: usize,
        max_occurs: MaxOccurs,
        type_ident: TypeIdent,
        is_cached: bool,
        group: Option<TypeIdent>,
        cache: &mut Option<GroupCache>,
    ) -> (r: Result<(), InterpreterError>)
        requires
            old(ctx).types.wf(),
            old(cache).is_some() ==> old(cache).unwrap().wf(),
            can_end_complex_content(
                *old(self),
                old(ctx).types@,
                mode,
                output,
                group_field_ident(old(ctx).current_ns, field_name@),
                type_ident@,
            ),
        ensures
            final(ctx).types.wf(),
            final(ctx).current_ns == old(ctx).current_ns,
            final(ctx).element_form_default == old(ctx).element_form_default,
            final(ctx).schema_id == old(ctx).schema_id,
            final(ctx).next_content_id == old(ctx).next_content_id,
            group_cached(
                *old(cache),
                *final(cache),
                r is Ok && !is_cached && !output_is_empty(output),
                group,
                type_ident,
            ),
            final(self).type_mode == old(self).type_mode,
            final(self).content_mode == old(self).content_mode,
            final(self).documentation == old(self).documentation,
            final(self).is_simple_content_unique == old(self).is_simple_content_unique,
            complex_content_ended(
                *old(self),
                *final(self),
                old(ctx).types@,
                final(ctx).types@,
                mode,
                output,
                group_field_ident(old(ctx).current_ns, field_name@),
                type_ident@,
                min_occurs,
                max_occurs,
                r,
            ),
    {
        match &output {
            ContentOutput::Type(t) => match &t.variant {
                MetaTypeVariant::All(g) | MetaTypeVariant::Choice(g) | MetaTypeVariant::Sequence(
                    g,
                ) => if g.elements.0.len() == 0 {
                    return Ok(());
                },
                _ => return Err(InterpreterError::ExpectedGroupType),
            },
            ContentOutput::Cached(_) => {},
        }
        let ghost out = output;
        let ghost ti = type_ident@;
        let cached_ident = type_ident.duplicate();
        let field = TypeIdent::new(field_name).with_ns(ctx.current_ns).with_type(IdentType::Group);
        let v = self.variant.take();
        match v {
            Some(MetaTypeVariant::ComplexType(ci)) => {
                let mut ci = ci;
                match mode {
                    UpdateContentMode::Unknown => {
                        let id = place_output(ctx, output, type_ident);
                        ci.content = Some(id);
                    },
                    UpdateContentMode::Update => {
                        let cid = match &ci.content {
                            Some(c) => c.duplicate(),
                            None => {
                                proof {
                                    assert(false);
                                }
                                type_ident
                            },
                        };
                        match output {
                            ContentOutput::Type(t) => ctx.types.insert(cid, t),
                            ContentOutput::Cached(_) => {
                                proof {
                                    assert(false);
                                }
                            },
                        }
                    },
                    UpdateContentMode::Append => {
                        let id = place_output(ctx, output, type_ident);
                        let cid = match &ci.content {
                            Some(c) => c.duplicate(),
                            None => {
                                proof {
                                    assert(false);
                                }
                                TypeIdent::new(Name::from_str(""))
                            },
                        };
                        let ghost placed = ctx.types@;
                        let placeholder = MetaType::new(
                            MetaTypeVariant::BuildIn(crate::models::meta::BuildInMeta::String),
                        );
                        match ctx.types.replace(&cid, placeholder) {
                            Some(content) => {
                                let MetaType { variant, form, schema, display_name, documentation } =
                                    content;
                                let variant = match variant {
                                    MetaTypeVariant::All(g) => {
                                        let mut g = g;
                                        add_group_element(&mut g.elements, field, id, min_occurs, max_occurs);
                                        MetaTypeVariant::All(g)
                                    },
                                    MetaTypeVariant::Choice(g) => {
                                        let mut g = g;
                                        add_group_element(&mut g.elements, field, id, min_occurs, max_occurs);
                                        MetaTypeVariant::Choice(g)
                                    },
                                    MetaTypeVariant::Sequence(g) => {
                                        let mut g = g;
                                        add_group_element(&mut g.elements, field, id, min_occurs, max_occurs);
                                        MetaTypeVariant::Sequence(g)
                                    },
                                    other => {
                                        proof {
                                            assert(false);
                                        }
                                        other
                                    },
                                };
                                ctx.types.insert(
                                    cid,
                                    MetaType { variant, form, schema, display_name, documentation },
                                );
                                proof {
                                    assert(ctx.types@ =~= placed.insert(
                                        ci.content.unwrap()@,
                                        ctx.types@[ci.content.unwrap()@],
                                    ));
                                }
                            },
                            None => {
                                proof {
                                    assert(false);
                                }
                            },
                        }
                    },
                }
                ci.min_occurs = min_occurs_min(ci.min_occurs, min_occurs);
                ci.max_occurs = max_occurs_max(ci.max_occurs, max_occurs);
                self.variant = Some(MetaTypeVariant::ComplexType(ci));
            },
            Some(MetaTypeVariant::All(g)) => {
                let id = place_output(ctx, output, type_ident);
                let mut g = g;
                add_group_element(&mut g.elements, field, id, min_occurs, max_occurs);
                self.variant = Some(MetaTypeVariant::All(g));
            },
            Some(MetaTypeVariant::Choice(g)) => {
                let id = place_output(ctx, output, type_ident);
                let mut g = g;
                add_group_element(&mut g.elements, field, id, min_occurs, max_occurs);
                self.variant = Some(MetaTypeVariant::Choice(g));
            },
            Some(MetaTypeVariant::Sequence(g)) => {
                let id = place_output(ctx, output, type_ident);
                let mut g = g;
                add_group_element(&mut g.elements, field, id, min_occurs, max_occurs);
                self.variant = Some(MetaTypeVariant::Sequence(g));
            },
            None => {
                let id = place_output(ctx, output, type_ident);
                let mut ci = ComplexMeta::default();
                ci.content = Some(id);
                ci.min_occurs = min_occurs_min(1, min_occurs);
                ci.max_occurs = max_occurs_max(MaxOccurs::Bounded(1), max_occurs);
                self.variant = Some(MetaTypeVariant::ComplexType(ci));
                self.fixed = true;
            },
            other => {
                proof {
                    assert(false);
                }
                self.variant = other;
            },
        }
        if !is_cached {
            match group {
                Some(g) => match cache {
                    Some(c) => c.insert(g, cached_ident),
                    None => {},
                },
                None => {},
            }
        }
        Ok(())
    }
}

} // verus!
