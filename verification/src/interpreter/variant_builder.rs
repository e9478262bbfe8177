//! The builder that constructs the variant of a type from the facets, enumerations and
//! content of a schema definition.

use vstd::prelude::*;

use super::error::InterpreterError;
use crate::models::ident::{IdentType, Name, NamespaceId, SchemaId, TypeIdent, TypeIdentView};
use crate::models::meta::{
    default_constrains_view, is_new_meta_type, Base, Constrains, ConstrainsView, EnumerationMeta, EnumerationMetaVariant, FormChoiceType, MaxOccurs, MetaType,
    ComplexMeta, MetaTypeVariant, MetaTypes, ReferenceMeta, SimpleMeta, UnionMeta, UnionMetaType, Use,
    ValueBound, WhiteSpace,
};
use crate::models::schema::Facet;
use crate::text::{decimal_digits, lemma_decimal_digits_injective, push_decimal, ascii_lowercase, ascii_lowercase_eq, parse_usize, parse_usize_spec, trim, trim_spec};

verus! {

/// Mode of the constructed type.
#[derive(Clone, Copy, Debug, PartialEq, Eq, Structural)]
pub enum TypeMode {
    Unknown,
    Simple,
    Complex,
}

/// Mode of the content of the constructed type.
#[derive(Clone, Copy, Debug, PartialEq, Eq, Structural)]
pub enum ContentMode {
    Unknown,
    Simple,
    Complex,
}

/// What the builder needs from the interpreter of the current schema.
#[derive(Debug)]
pub struct BuilderContext {
    /// The types interpreted so far.
    pub types: MetaTypes,
    /// The namespace of the current schema.
    pub current_ns: NamespaceId,
    /// The default form of elements of the current schema.
    pub element_form_default: FormChoiceType,
    /// The id of the current schema.
    pub schema_id: SchemaId,
    /// Number that makes the next generated content name unique.
    pub next_content_id: u64,
}

impl BuilderContext {
    /// Returns a new name for a content type: `Content` followed by a number that is
    /// counted up.
    pub fn make_content_name(&mut self) -> (r: Name)
        ensures
            r@ == "Content"@ + decimal_digits(old(self).next_content_id as nat),
            final(self).next_content_id == if old(self).next_content_id < u64::MAX {
                (old(self).next_content_id + 1) as u64
            } else {
                old(self).next_content_id
            },
            final(self).types == old(self).types,
            final(self).current_ns == old(self).current_ns,
            final(self).element_form_default == old(self).element_form_default,
            final(self).schema_id == old(self).schema_id,
    {
        let mut s = "Content".to_string();
        push_decimal(&mut s, self.next_content_id);
        if self.next_content_id < u64::MAX {
            self.next_content_id = self.next_content_id + 1;
        }
        Name(s)
    }
}

/// Builder of the variant of a type.
#[derive(Debug)]
pub struct VariantBuilder {
    /// Type variant that is constructed by the builder.
    pub variant: Option<MetaTypeVariant>,
    /// `true` if the variant is fixed and can not be changed anymore.
    pub fixed: bool,
    /// Mode of the constructed type.
    pub type_mode: TypeMode,
    /// Mode of the content of the constructed type.
    pub content_mode: ContentMode,
    /// Documentation of the currently build type.
    pub documentation: Vec<String>,
    /// `true` if the simple content type of a complex type was already duplicated and is now
    /// unique for this type.
    pub is_simple_content_unique: bool,
}

/// `b` is a builder in its initial state.
pub open spec fn is_initial(b: VariantBuilder) -> bool {
    &&& b.variant is None
    &&& !b.fixed
    &&& b.type_mode == TypeMode::Unknown
    &&& b.content_mode == ContentMode::Unknown
    &&& b.documentation@.len() == 0
    &&& !b.is_simple_content_unique
}

/// `true` if `f` restricts the value of a simple type (and is no enumeration).
pub open spec fn is_simple_type_facet(f: Facet) -> bool {
    match f {
        Facet::Enumeration { .. } | Facet::Assertion(_) | Facet::ExplicitTimezone(_) => false,
        _ => true,
    }
}

/// The whitespace handling the facet value `v` names (ignoring ASCII case).
pub open spec fn white_space_of(v: Seq<char>) -> Option<WhiteSpace> {
    let l = ascii_lowercase(v);
    if l == "preserve"@ {
        Some(WhiteSpace::Preserve)
    } else if l == "replace"@ {
        Some(WhiteSpace::Replace)
    } else if l == "collapse"@ {
        Some(WhiteSpace::Collapse)
    } else {
        None
    }
}

/// A `xs:whiteSpace` facet sets the handling its value names, in any ASCII case: `preserve`
/// keeps whitespace, `replace` replaces it and `collapse` collapses it; these are three
/// different handlings, and every other value is refused.
pub proof fn law_white_space_facet(o: ConstrainsView, x: String, is_hex_binary: bool)
    ensures
        ascii_lowercase(x@) == "preserve"@ ==> facet_value_ok(Facet::WhiteSpace(x)) && facet_view(
            o,
            Facet::WhiteSpace(x),
            is_hex_binary,
        ).whitespace == WhiteSpace::Preserve,
        ascii_lowercase(x@) == "replace"@ ==> facet_value_ok(Facet::WhiteSpace(x)) && facet_view(
            o,
            Facet::WhiteSpace(x),
            is_hex_binary,
        ).whitespace == WhiteSpace::Replace,
        ascii_lowercase(x@) == "collapse"@ ==> facet_value_ok(Facet::WhiteSpace(x)) && facet_view(
            o,
            Facet::WhiteSpace(x),
            is_hex_binary,
        ).whitespace == WhiteSpace::Collapse,
        WhiteSpace::Preserve != WhiteSpace::Replace && WhiteSpace::Replace != WhiteSpace::Collapse
            && WhiteSpace::Preserve != WhiteSpace::Collapse,
        ascii_lowercase(x@) != "preserve"@ && ascii_lowercase(x@) != "replace"@ && ascii_lowercase(
            x@,
        ) != "collapse"@ ==> !facet_value_ok(Facet::WhiteSpace(x)),
{
    reveal_strlit("preserve");
    reveal_strlit("replace");
    reveal_strlit("collapse");
    assert("preserve"@ != "replace"@) by {
        assert("preserve"@.len() != "replace"@.len());
    }
    assert("replace"@ != "collapse"@) by {
        assert("replace"@.len() != "collapse"@.len());
    }
    assert("preserve"@ != "collapse"@) by {
        assert("preserve"@[0] != "collapse"@[0]);
    }
}

/// `true` if the value of the facet `f` is valid.
pub open spec fn facet_value_ok(f: Facet) -> bool {
    match f {
        Facet::TotalDigits(x) => parse_usize_spec(x@) is Some,
        Facet::FractionDigits(x) => parse_usize_spec(x@) is Some,
        Facet::Length(x) => parse_usize_spec(x@) is Some,
        Facet::MinLength(x) => parse_usize_spec(x@) is Some,
        Facet::MaxLength(x) => parse_usize_spec(x@) is Some,
        Facet::WhiteSpace(x) => white_space_of(x@) is Some,
        _ => true,
    }
}

/// The constrains `o` after applying the (valid) simple type facet `f`.
pub open spec fn facet_view(o: ConstrainsView, f: Facet, is_hex_binary: bool) -> ConstrainsView {
    ConstrainsView {
        start: match f {
            Facet::MinExclusive(x) => ValueBound::Excluded(x),
            Facet::MinInclusive(x) => ValueBound::Included(x),
            _ => o.start,
        },
        end: match f {
            Facet::MaxExclusive(x) => ValueBound::Excluded(x),
            Facet::MaxInclusive(x) => ValueBound::Included(x),
            _ => o.end,
        },
        total_digits: match f {
            Facet::TotalDigits(x) => parse_usize_spec(x@),
            _ => o.total_digits,
        },
        fraction_digits: match f {
            Facet::FractionDigits(x) => parse_usize_spec(x@),
            _ => o.fraction_digits,
        },
        patterns: match f {
            Facet::Pattern(x) => o.patterns.push(x),
            _ => o.patterns,
        },
        min_length: match f {
            Facet::Length(x) => parse_usize_spec(x@),
            Facet::MinLength(x) => parse_usize_spec(x@),
            _ => o.min_length,
        },
        max_length: match f {
            Facet::Length(x) => parse_usize_spec(x@),
            Facet::MaxLength(x) => parse_usize_spec(x@),
            _ => o.max_length,
        },
        whitespace: match f {
            Facet::WhiteSpace(x) => white_space_of(x@).unwrap(),
            _ => o.whitespace,
        },
        is_hex_binary: o.is_hex_binary || is_hex_binary,
    }
}

/// The constrains of a simple type that is made from a reference `r` to `min_occurs` to
/// `max_occurs` values: a list gets length constrains from the occurrences.
pub open spec fn reference_constrains(r: ReferenceMeta) -> ConstrainsView {
    ConstrainsView {
        min_length: if r.min_occurs != 1 {
            Some(r.min_occurs)
        } else {
            None
        },
        max_length: match r.max_occurs {
            MaxOccurs::Bounded(m) => if m != 1 {
                Some(m)
            } else {
                None
            },
            MaxOccurs::Unbounded => None,
        },
        ..default_constrains_view()
    }
}

/// `true` if a reference with these occurrences is a list.
pub open spec fn reference_is_list(r: ReferenceMeta) -> bool {
    r.min_occurs != 1 || r.max_occurs != MaxOccurs::Bounded(1)
}

/// `true` if the variant `v` carries constrains a facet can be applied to.
pub open spec fn is_facet_target(v: MetaTypeVariant) -> bool {
    v is SimpleType || v is Reference || v is Enumeration || v is Union
}

/// The constrains of the variant `v` before a facet is applied to it (a reference is turned
/// into a simple type first).
pub open spec fn target_constrains(v: MetaTypeVariant) -> ConstrainsView {
    match v {
        MetaTypeVariant::SimpleType(s) => s.constrains@,
        MetaTypeVariant::Reference(r) => reference_constrains(r),
        MetaTypeVariant::Enumeration(e) => e.constrains@,
        MetaTypeVariant::Union(u) => u.constrains@,
        _ => default_constrains_view(),
    }
}

/// The constrains of the variant `v`.
pub open spec fn constrains_of(v: MetaTypeVariant) -> ConstrainsView {
    match v {
        MetaTypeVariant::SimpleType(s) => s.constrains@,
        MetaTypeVariant::Enumeration(e) => e.constrains@,
        MetaTypeVariant::Union(u) => u.constrains@,
        _ => default_constrains_view(),
    }
}

/// Two enumeration variants are equal, up to the identity of their documentation vectors.
pub open spec fn same_enum_variant(a: EnumerationMetaVariant, b: EnumerationMetaVariant) -> bool {
    &&& a.ident == b.ident
    &&& a.use_ == b.use_
    &&& a.type_ == b.type_
    &&& a.display_name == b.display_name
    &&& a.documentation@ == b.documentation@
}

/// Two sequences of enumeration variants are equal, up to the identity of the documentation
/// vectors.
pub open spec fn same_enum_variants(a: Seq<EnumerationMetaVariant>, b: Seq<EnumerationMetaVariant>) -> bool {
    a.len() == b.len() && forall|i: int| 0 <= i < a.len() ==> same_enum_variant(#[trigger] a[i], b[i])
}

/// `n` has the kind and the fields of `o`, except for the constrains, after a facet was
/// applied to `o` (a reference becomes a simple type).
pub open spec fn same_shape(o: MetaTypeVariant, n: MetaTypeVariant) -> bool {
    match (o, n) {
        (MetaTypeVariant::SimpleType(a), MetaTypeVariant::SimpleType(b)) => a.base == b.base
            && a.is_list == b.is_list,
        (MetaTypeVariant::Reference(r), MetaTypeVariant::SimpleType(b)) => b.base == r.type_
            && b.is_list == reference_is_list(r),
        (MetaTypeVariant::Enumeration(a), MetaTypeVariant::Enumeration(b)) => a.base == b.base
            && same_enum_variants(a.variants@, b.variants@),
        (MetaTypeVariant::Union(a), MetaTypeVariant::Union(b)) => a.base == b.base && a.types@
            == b.types@,
        _ => false,
    }
}

/// The simple-content variant `n` is a copy of `o`.
pub open spec fn is_copy(o: MetaTypeVariant, n: MetaTypeVariant) -> bool {
    &&& match (o, n) {
        (MetaTypeVariant::SimpleType(a), MetaTypeVariant::SimpleType(b)) => a.base == b.base
            && a.is_list == b.is_list,
        (MetaTypeVariant::Reference(a), MetaTypeVariant::Reference(b)) => a == b,
        (MetaTypeVariant::Enumeration(a), MetaTypeVariant::Enumeration(b)) => a.base == b.base
            && same_enum_variants(a.variants@, b.variants@),
        (MetaTypeVariant::Union(a), MetaTypeVariant::Union(b)) => a.base == b.base && a.types@
            == b.types@,
        _ => false,
    }
    &&& constrains_of(o) == constrains_of(n)
}

/// The result of applying the simple type facet `f` to the variant `o`, giving `n`.
pub open spec fn facet_applied(
    o: MetaTypeVariant,
    n: MetaTypeVariant,
    f: Facet,
    is_hex_binary: bool,
    ok: bool,
) -> bool {
    &&& same_shape(o, n)
    &&& constrains_of(n) == if ok {
        facet_view(target_constrains(o), f, is_hex_binary)
    } else {
        target_constrains(o)
    }
}

/// Returns a copy of the constrains `c`.
pub fn copy_constrains(c: &Constrains) -> (r: Constrains)
    ensures
        r@ == c@,
{
    Constrains {
        range: crate::models::meta::ValueRange {
            start: copy_bound(&c.range.start),
            end: copy_bound(&c.range.end),
        },
        total_digits: c.total_digits,
        fraction_digits: c.fraction_digits,
        patterns: copy_strings(&c.patterns),
        min_length: c.min_length,
        max_length: c.max_length,
        whitespace: c.whitespace,
        is_hex_binary: c.is_hex_binary,
    }
}

/// Returns a copy of the bound `b`.
fn copy_bound(b: &ValueBound) -> (r: ValueBound)
    ensures
        r == *b,
{
    match b {
        ValueBound::Unbounded => ValueBound::Unbounded,
        ValueBound::Included(x) => ValueBound::Included(x.clone()),
        ValueBound::Excluded(x) => ValueBound::Excluded(x.clone()),
    }
}

/// Returns a copy of the strings `v`.
fn copy_strings(v: &Vec<String>) -> (r: Vec<String>)
    ensures
        r@ == v@,
{
    let mut r: Vec<String> = Vec::new();
    let mut i: usize = 0;
    while i < v.len()
        invariant
            i <= v@.len(),
            r@ == v@.take(i as int),
        decreases v@.len() - i,
    {
        r.push(v[i].clone());
        assert(r@ =~= v@.take(i + 1));
        i = i + 1;
    }
    assert(v@.take(v@.len() as int) =~= v@);
    r
}

/// Returns a copy of the base `b`.
fn copy_base(b: &Base) -> (r: Base)
    ensures
        r == *b,
{
    match b {
        Base::NoBase => Base::NoBase,
        Base::Extension(x) => Base::Extension(x.duplicate()),
        Base::Restriction(x) => Base::Restriction(x.duplicate()),
    }
}

/// Returns a copy of the optional string `s`.
fn copy_opt_string(s: &Option<String>) -> (r: Option<String>)
    ensures
        r == *s,
{
    match s {
        Some(x) => Some(x.clone()),
        None => None,
    }
}

/// Returns a copy of the optional identifier `t`.
fn copy_opt_ident(t: &Option<TypeIdent>) -> (r: Option<TypeIdent>)
    ensures
        r == *t,
{
    match t {
        Some(x) => Some(x.duplicate()),
        None => None,
    }
}

/// Returns a copy of the simple-content variant `v`.
pub(crate) fn copy_simple_content(v: &MetaTypeVariant) -> (r: MetaTypeVariant)
    requires
        is_facet_target(*v),
    ensures
        is_copy(*v, r),
{
    match v {
        MetaTypeVariant::SimpleType(s) => MetaTypeVariant::SimpleType(
            SimpleMeta {
                base: s.base.duplicate(),
                is_list: s.is_list,
                constrains: copy_constrains(&s.constrains),
            },
        ),
        MetaTypeVariant::Reference(x) => MetaTypeVariant::Reference(
            ReferenceMeta {
                type_: x.type_.duplicate(),
                nillable: x.nillable,
                min_occurs: x.min_occurs,
                max_occurs: x.max_occurs,
            },
        ),
        MetaTypeVariant::Enumeration(e) => {
            let mut variants: Vec<EnumerationMetaVariant> = Vec::new();
            let mut i: usize = 0;
            while i < e.variants.len()
                invariant
                    i <= e.variants@.len(),
                    variants@.len() == i,
                    forall|j: int|
                        0 <= j < i ==> same_enum_variant(#[trigger] variants@[j], e.variants@[j]),
                decreases e.variants@.len() - i,
            {
                let x = &e.variants[i];
                variants.push(
                    EnumerationMetaVariant {
                        ident: x.ident.duplicate(),
                        use_: x.use_,
                        type_: copy_opt_ident(&x.type_),
                        display_name: copy_opt_string(&x.display_name),
                        documentation: copy_strings(&x.documentation),
                    },
                );
                i = i + 1;
            }
            MetaTypeVariant::Enumeration(
                EnumerationMeta {
                    base: copy_base(&e.base),
                    variants,
                    constrains: copy_constrains(&e.constrains),
                },
            )
        },
        MetaTypeVariant::Union(u) => {
            let mut types: Vec<UnionMetaType> = Vec::new();
            let mut i: usize = 0;
            while i < u.types.len()
                invariant
                    i <= u.types@.len(),
                    types@ == u.types@.take(i as int),
                decreases u.types@.len() - i,
            {
                let x = &u.types[i];
                types.push(
                    UnionMetaType {
                        type_: x.type_.duplicate(),
                        display_name: copy_opt_string(&x.display_name),
                    },
                );
                assert(types@ =~= u.types@.take(i + 1));
                i = i + 1;
            }
            assert(u.types@.take(u.types@.len() as int) =~= u.types@);
            MetaTypeVariant::Union(
                UnionMeta { base: copy_base(&u.base), types, constrains: copy_constrains(&u.constrains) },
            )
        },
        _ => MetaTypeVariant::BuildIn(crate::models::meta::BuildInMeta::String),
    }
}

/// Applies the value of the simple type facet `f` to the constrains `c`.
fn apply_facet_value(c: &mut Constrains, f: &Facet, is_hex_binary: bool) -> (r: Result<(), InterpreterError>)
    requires
        is_simple_type_facet(*f),
    ensures
        r is Ok <==> facet_value_ok(*f),
        r matches Err(e) ==> e == InterpreterError::InvalidFacet(*f),
        r is Ok ==> final(c)@ == facet_view(old(c)@, *f, is_hex_binary),
        r is Err ==> final(c)@ == old(c)@,
{
    match f {
        Facet::MinExclusive(x) => c.range.start = ValueBound::Excluded(x.clone()),
        Facet::MinInclusive(x) => c.range.start = ValueBound::Included(x.clone()),
        Facet::MaxExclusive(x) => c.range.end = ValueBound::Excluded(x.clone()),
        Facet::MaxInclusive(x) => c.range.end = ValueBound::Included(x.clone()),
        Facet::TotalDigits(x) => match parse_usize(x.as_str()) {
            Some(v) => c.total_digits = Some(v),
            None => return Err(InterpreterError::InvalidFacet(Facet::TotalDigits(x.clone()))),
        },
        Facet::FractionDigits(x) => match parse_usize(x.as_str()) {
            Some(v) => c.fraction_digits = Some(v),
            None => return Err(InterpreterError::InvalidFacet(Facet::FractionDigits(x.clone()))),
        },
        Facet::Length(x) => match parse_usize(x.as_str()) {
            Some(v) => {
                c.min_length = Some(v);
                c.max_length = Some(v);
            },
            None => return Err(InterpreterError::InvalidFacet(Facet::Length(x.clone()))),
        },
        Facet::MinLength(x) => match parse_usize(x.as_str()) {
            Some(v) => c.min_length = Some(v),
            None => return Err(InterpreterError::InvalidFacet(Facet::MinLength(x.clone()))),
        },
        Facet::MaxLength(x) => match parse_usize(x.as_str()) {
            Some(v) => c.max_length = Some(v),
            None => return Err(InterpreterError::InvalidFacet(Facet::MaxLength(x.clone()))),
        },
        Facet::WhiteSpace(x) => {
            let s = x.as_str();
            if ascii_lowercase_eq(s, "preserve") {
                c.whitespace = WhiteSpace::Preserve;
            } else if ascii_lowercase_eq(s, "replace") {
                c.whitespace = WhiteSpace::Replace;
            } else if ascii_lowercase_eq(s, "collapse") {
                c.whitespace = WhiteSpace::Collapse;
            } else {
                return Err(InterpreterError::InvalidFacet(Facet::WhiteSpace(x.clone())));
            }
        },
        Facet::Pattern(x) => c.patterns.push(x.clone()),
        _ => {},
    }
    if is_hex_binary {
        c.is_hex_binary = true;
    }
    Ok(())
}

/// Applies the simple type facet `f` to a variant that carries constrains; a reference is
/// turned into a simple type first.
fn facet_on_variant(v: MetaTypeVariant, f: &Facet, is_hex_binary: bool) -> (r: (
    MetaTypeVariant,
    Result<(), InterpreterError>,
))
    requires
        is_facet_target(v),
        is_simple_type_facet(*f),
    ensures
        r.1 is Ok <==> facet_value_ok(*f),
        r.1 matches Err(e) ==> e == InterpreterError::InvalidFacet(*f),
        facet_applied(v, r.0, *f, is_hex_binary, r.1 is Ok),
{
    match v {
        MetaTypeVariant::SimpleType(s) => {
            let mut s = s;
            let res = apply_facet_value(&mut s.constrains, f, is_hex_binary);
            (MetaTypeVariant::SimpleType(s), res)
        },
        MetaTypeVariant::Reference(x) => {
            let ghost old_x = x;
            let min = x.min_occurs;
            let max = x.max_occurs;
            let mut si = SimpleMeta::new(x.type_);
            if min != 1 {
                si.is_list = true;
                si.constrains.min_length = Some(min);
            }
            match max {
                MaxOccurs::Bounded(m) => if m != 1 {
                    si.is_list = true;
                    si.constrains.max_length = Some(m);
                },
                MaxOccurs::Unbounded => {
                    si.is_list = true;
                },
            }
            assert(si.constrains@ == reference_constrains(old_x));
            let res = apply_facet_value(&mut si.constrains, f, is_hex_binary);
            (MetaTypeVariant::SimpleType(si), res)
        },
        MetaTypeVariant::Enumeration(e) => {
            let mut e = e;
            let res = apply_facet_value(&mut e.constrains, f, is_hex_binary);
            (MetaTypeVariant::Enumeration(e), res)
        },
        MetaTypeVariant::Union(u) => {
            let mut u = u;
            let res = apply_facet_value(&mut u.constrains, f, is_hex_binary);
            (MetaTypeVariant::Union(u), res)
        },
        other => (other, Ok(())),
    }
}

/// The new documentation is the old one followed by `docs`.
pub open spec fn docs_appended(old: Seq<String>, new: Seq<String>, docs: Seq<String>) -> bool {
    new == old + docs
}

/// `v` is a new required enumeration variant `ident` with the documentation `docs`.
pub open spec fn is_new_enum_variant(v: EnumerationMetaVariant, ident: TypeIdentView, docs: Seq<String>) -> bool {
    &&& v.ident@ == ident
    &&& v.use_ == Use::Required
    &&& v.type_ is None
    &&& v.display_name is None
    &&& v.documentation@ == docs
}

/// Position of the first variant of `vs` with the identifier `ident` from `start` on (the
/// length if there is none).
pub open spec fn find_enum_variant(vs: Seq<EnumerationMetaVariant>, ident: TypeIdentView, start: int) -> int
    decreases vs.len() - start,
{
    if start < 0 || start >= vs.len() {
        vs.len() as int
    } else if vs[start].ident@ == ident {
        start
    } else {
        find_enum_variant(vs, ident, start + 1)
    }
}

/// `new` is `old` where the variant `ident` is made required and gets the documentation
/// `docs`; it is added at the end if it does not exist.
pub open spec fn enum_upserted(
    old: Seq<EnumerationMetaVariant>,
    new: Seq<EnumerationMetaVariant>,
    ident: TypeIdentView,
    docs: Seq<String>,
) -> bool {
    let i = find_enum_variant(old, ident, 0);
    if i < old.len() {
        &&& new.len() == old.len()
        &&& forall|j: int| 0 <= j < old.len() && j != i ==> same_enum_variant(#[trigger] new[j], old[j])
        &&& new[i].ident == old[i].ident
        &&& new[i].use_ == Use::Required
        &&& new[i].type_ == old[i].type_
        &&& new[i].display_name == old[i].display_name
        &&& docs_appended(old[i].documentation@, new[i].documentation@, docs)
    } else {
        &&& new.len() == old.len() + 1
        &&& forall|j: int| 0 <= j < old.len() ==> same_enum_variant(#[trigger] new[j], old[j])
        &&& is_new_enum_variant(new.last(), ident, docs)
    }
}

/// The result of adding the enumeration value `ident` to the variant `o` (`None` if there is
/// none yet), giving the enumeration `n`.
pub open spec fn enumeration_applied(
    o: Option<MetaTypeVariant>,
    n: EnumerationMeta,
    ident: TypeIdentView,
    docs: Seq<String>,
) -> bool {
    match o {
        Some(MetaTypeVariant::Enumeration(e)) => {
            &&& n.base == e.base
            &&& n.constrains@ == e.constrains@
            &&& enum_upserted(e.variants@, n.variants@, ident, docs)
        },
        _ => {
            &&& n.base is NoBase
            &&& n.constrains@ == match o {
                Some(MetaTypeVariant::SimpleType(s)) => s.constrains@,
                _ => default_constrains_view(),
            }
            &&& n.variants@.len() == 1
            &&& is_new_enum_variant(n.variants@[0], ident, docs)
        },
    }
}

/// `true` if the enumeration value can be added to the variant `o`: an existing variant of
/// another kind may only be replaced if it is not fixed.
pub open spec fn can_add_enumeration(o: Option<MetaTypeVariant>, fixed: bool) -> bool {
    match o {
        None => true,
        Some(MetaTypeVariant::SimpleType(_)) => true,
        Some(MetaTypeVariant::Enumeration(_)) => true,
        Some(_) => !fixed,
    }
}

/// Appends the strings `docs` to `v`.
pub(crate) fn append_strings(v: &mut Vec<String>, docs: &Vec<String>)
    ensures
        final(v)@ == old(v)@ + docs@,
{
    let mut i: usize = 0;
    while i < docs.len()
        invariant
            i <= docs@.len(),
            v@ == old(v)@ + docs@.take(i as int),
        decreases docs@.len() - i,
    {
        v.push(docs[i].clone());
        assert(v@ =~= old(v)@ + docs@.take(i + 1));
        i = i + 1;
    }
    assert(docs@.take(docs@.len() as int) =~= docs@);
}

/// Adds the enumeration value `ident` (with the documentation `docs`) to the variant `o`.
/// Returns the enumeration and whether the variant is fixed afterwards.
fn enumeration_on_variant(
    o: Option<MetaTypeVariant>,
    fixed: bool,
    ident: TypeIdent,
    docs: &Vec<String>,
) -> (r: (EnumerationMeta, bool))
    requires
        can_add_enumeration(o, fixed),
    ensures
        enumeration_applied(o, r.0, ident@, docs@),
        r.1 == if o matches Some(MetaTypeVariant::Enumeration(_)) {
            fixed
        } else {
            true
        },
{
    let ghost k = ident@;
    let (mut em, now_fixed) = match o {
        Some(MetaTypeVariant::Enumeration(e)) => (e, fixed),
        Some(MetaTypeVariant::SimpleType(sm)) => {
            let mut e = EnumerationMeta::default();
            e.constrains = sm.constrains;
            (e, true)
        },
        _ => (EnumerationMeta::default(), true),
    };
    let ghost before = em.variants@;
    let mut i: usize = 0;
    while i < em.variants.len()
        invariant_except_break
            i <= em.variants@.len(),
            em.variants@ == before,
            ident@ == k,
            find_enum_variant(before, k, 0) == find_enum_variant(before, k, i as int),
        ensures
            i <= em.variants@.len(),
            em.variants@ == before,
            find_enum_variant(before, k, 0) == i,
        decreases em.variants@.len() - i,
    {
        if em.variants[i].ident.is_same(&ident) {
            break;
        }
        i = i + 1;
    }
    if i < em.variants.len() {
        let mut var = em.variants.remove(i);
        var.use_ = Use::Required;
        append_strings(&mut var.documentation, docs);
        em.variants.insert(i, var);
        assert forall|j: int| 0 <= j < before.len() && j != i implies same_enum_variant(
            #[trigger] em.variants@[j],
            before[j],
        ) by {
            assert(em.variants@[j] == before[j]);
        }
    } else {
        let mut var = EnumerationMetaVariant::new(ident);
        var.use_ = Use::Required;
        append_strings(&mut var.documentation, docs);
        em.variants.push(var);
        assert forall|j: int| 0 <= j < before.len() implies same_enum_variant(
            #[trigger] em.variants@[j],
            before[j],
        ) by {
            assert(em.variants@[j] == before[j]);
        }
    }
    (em, now_fixed)
}

/// The identifier of the `n`-th generated content type in the namespace `ns`.
pub open spec fn content_ident_view(ns: NamespaceId, n: u64) -> TypeIdentView {
    TypeIdentView {
        ns: ns,
        schema: SchemaId(SchemaId::UNKNOWN),
        name: "Content"@ + decimal_digits(n as nat),
        type_: IdentType::Type,
    }
}

/// No identifier of a content type that is still to be generated is taken: the types hold
/// none of the identifiers `Content<n>` of the current namespace for `n` from the counter on.
pub open spec fn fresh_content_names(ctx: BuilderContext) -> bool {
    forall|n: u64|
        n >= ctx.next_content_id ==> !ctx.types@.contains_key(
            #[trigger] content_ident_view(ctx.current_ns, n),
        )
}

/// A context that holds no types yet has every content name still to be generated free.
pub proof fn lemma_fresh_without_types(ctx: BuilderContext)
    requires
        ctx.types@ == Map::<TypeIdentView, MetaType>::empty(),
    ensures
        fresh_content_names(ctx),
{
}

/// Storing a type under the next generated content identifier, while the counter moves on,
/// keeps the names still to be generated free.
pub proof fn lemma_fresh_after_generated(o: BuilderContext, n: BuilderContext, t: MetaType)
    requires
        fresh_content_names(o),
        o.next_content_id < u64::MAX,
        n.next_content_id == o.next_content_id + 1,
        n.current_ns == o.current_ns,
        n.types@ == o.types@.insert(content_ident_view(o.current_ns, o.next_content_id), t),
    ensures
        fresh_content_names(n),
{
    assert forall|m: u64| m >= n.next_content_id implies !n.types@.contains_key(
        #[trigger] content_ident_view(n.current_ns, m),
    ) by {
        law_content_idents_distinct(o.current_ns, m, o.next_content_id);
    }
}

/// Storing a type under an identifier that is taken already, while the counter does not go
/// back, keeps the names still to be generated free.
pub proof fn lemma_fresh_after_taken(o: BuilderContext, n: BuilderContext, k: TypeIdentView, t: MetaType)
    requires
        fresh_content_names(o),
        o.types@.contains_key(k),
        n.next_content_id >= o.next_content_id,
        n.current_ns == o.current_ns,
        n.types@ == o.types@.insert(k, t),
    ensures
        fresh_content_names(n),
{
    assert forall|m: u64| m >= n.next_content_id implies !n.types@.contains_key(
        #[trigger] content_ident_view(n.current_ns, m),
    ) by {
        assert(!o.types@.contains_key(content_ident_view(o.current_ns, m)));
    }
}

/// The next generated content identifier is free.
pub proof fn lemma_generated_is_fresh(ctx: BuilderContext)
    requires
        fresh_content_names(ctx),
    ensures
        !ctx.types@.contains_key(content_ident_view(ctx.current_ns, ctx.next_content_id)),
{
    assert(!ctx.types@.contains_key(content_ident_view(ctx.current_ns, ctx.next_content_id)));
}

/// Storing the changed copy of the content `cid` under `nid` (the content itself if it is
/// unique already, else the next generated identifier) keeps the generated names free.
pub proof fn lemma_content_stored(
    o: BuilderContext,
    n: BuilderContext,
    unique: bool,
    cid: TypeIdentView,
    t: MetaType,
)
    requires
        o.types@.contains_key(cid),
        n.current_ns == o.current_ns,
        unique ==> n.next_content_id == o.next_content_id,
        !unique ==> content_name_made(o, n),
        n.types@ == o.types@.insert(
            if unique {
                cid
            } else {
                content_ident_view(o.current_ns, o.next_content_id)
            },
            t,
        ),
    ensures
        fresh_content_names(o) && !unique ==> !o.types@.contains_key(
            content_ident_view(o.current_ns, o.next_content_id),
        ) && content_ident_view(o.current_ns, o.next_content_id) != cid,
        fresh_content_names(o) && o.next_content_id < u64::MAX ==> fresh_content_names(n),
{
    if fresh_content_names(o) {
        lemma_generated_is_fresh(o);
        if o.next_content_id < u64::MAX {
            if unique {
                lemma_fresh_after_taken(o, n, cid, t);
            } else {
                lemma_fresh_after_generated(o, n, t);
            }
        }
    }
}

/// The context after a content name was made: only the counter moved on.
pub open spec fn content_name_made(o: BuilderContext, n: BuilderContext) -> bool {
    &&& n.next_content_id == if o.next_content_id < u64::MAX {
        (o.next_content_id + 1) as u64
    } else {
        o.next_content_id
    }
    &&& n.current_ns == o.current_ns
    &&& n.element_form_default == o.element_form_default
    &&& n.schema_id == o.schema_id
}

/// `a` and `b` are the same complex type, except for the identifier of the content.
pub open spec fn same_complex_except_content(a: ComplexMeta, b: ComplexMeta) -> bool {
    &&& a.base == b.base
    &&& a.min_occurs == b.min_occurs
    &&& a.max_occurs == b.max_occurs
    &&& a.is_dynamic == b.is_dynamic
    &&& a.is_mixed == b.is_mixed
    &&& a.attributes == b.attributes
}

/// The simple content of the complex variant `v` (if it has one).
pub open spec fn simple_content_ident(v: Option<MetaTypeVariant>) -> Option<TypeIdent> {
    match v {
        Some(MetaTypeVariant::ComplexType(ci)) => ci.content,
        _ => None,
    }
}

/// `true` if the builder can reach the simple content it is asked to change: a simple type
/// that carries constrains, or a complex type with simple content whose content type, if it
/// is known, carries constrains.
pub open spec fn can_build_simple_content(b: VariantBuilder, types: Map<TypeIdentView, MetaType>) -> bool {
    match b.type_mode {
        TypeMode::Simple => b.variant matches Some(v) && is_facet_target(v),
        TypeMode::Complex => {
            &&& b.content_mode == ContentMode::Simple
            &&& b.variant matches Some(MetaTypeVariant::ComplexType(ci))
            &&& ci.content matches Some(c) && (types.contains_key(c@) ==> is_facet_target(
                types[c@].variant,
            ))
        },
        TypeMode::Unknown => false,
    }
}

/// Same-shape and copy relations compose: applying a facet to a copy of `o` is applying it
/// to `o`.
proof fn lemma_applied_to_copy(
    o: MetaTypeVariant,
    c: MetaTypeVariant,
    n: MetaTypeVariant,
    f: Facet,
    hex: bool,
    ok: bool,
)
    requires
        is_copy(o, c),
        facet_applied(c, n, f, hex, ok),
    ensures
        facet_applied(o, n, f, hex, ok),
{
    match (o, c, n) {
        (
            MetaTypeVariant::Enumeration(a),
            MetaTypeVariant::Enumeration(b),
            MetaTypeVariant::Enumeration(d),
        ) => {
            assert forall|i: int| 0 <= i < a.variants@.len() implies same_enum_variant(
                #[trigger] a.variants@[i],
                d.variants@[i],
            ) by {
                assert(same_enum_variant(a.variants@[i], b.variants@[i]));
                assert(same_enum_variant(b.variants@[i], d.variants@[i]));
            }
        },
        _ => {},
    }
}

/// The builder `n` (with the context `nctx`) is the simple-type builder `o` (with `octx`)
/// after the simple type facet `f` was applied to its variant, with the result `r`.
pub open spec fn simple_facet_step(
    o: VariantBuilder,
    n: VariantBuilder,
    f: Facet,
    is_hex_binary: bool,
    r: Result<(), InterpreterError>,
) -> bool {
    let v = o.variant.unwrap();
    &&& n.variant matches Some(nv) && facet_applied(v, nv, f, is_hex_binary, r is Ok)
    &&& n.fixed == (o.fixed || v is Reference)
    &&& n.is_simple_content_unique == o.is_simple_content_unique
}

/// Generated content types get different identifiers: different counter values give
/// different identifiers (the counter moves on with each name that is made).
pub proof fn law_content_idents_distinct(ns: NamespaceId, a: u64, b: u64)
    requires
        a != b,
    ensures
        content_ident_view(ns, a) != content_ident_view(ns, b),
{
    if content_ident_view(ns, a) == content_ident_view(ns, b) {
        reveal_strlit("Content");
        let x = "Content"@ + decimal_digits(a as nat);
        let y = "Content"@ + decimal_digits(b as nat);
        assert(x.skip(7) =~= decimal_digits(a as nat));
        assert(y.skip(7) =~= decimal_digits(b as nat));
        lemma_decimal_digits_injective(a as nat, b as nat);
    }
}

/// `find_enum_variant` finds the first variant with the identifier.
proof fn lemma_find_first(vs: Seq<EnumerationMetaVariant>, k: TypeIdentView, start: int, i: int)
    requires
        0 <= start <= i < vs.len(),
        vs[i].ident@ == k,
        forall|j: int| start <= j < i ==> (#[trigger] vs[j]).ident@ != k,
    ensures
        find_enum_variant(vs, k, start) == i,
    decreases i - start,
{
    if start < i {
        lemma_find_first(vs, k, start + 1, i);
    }
}

/// Nothing before the position `find_enum_variant` gives has the identifier.
proof fn lemma_find_none_before(vs: Seq<EnumerationMetaVariant>, k: TypeIdentView, start: int)
    requires
        0 <= start,
    ensures
        forall|j: int| start <= j < find_enum_variant(vs, k, start) && j < vs.len() ==> (
        #[trigger] vs[j]).ident@ != k,
        0 <= find_enum_variant(vs, k, start) < vs.len() ==> vs[find_enum_variant(vs, k, start)].ident@
            == k,
    decreases vs.len() - start,
{
    if start < vs.len() && vs[start].ident@ != k {
        lemma_find_none_before(vs, k, start + 1);
    }
}

/// An enumeration value is held once: after it was added, adding it again changes the
/// variant that holds it and adds none.
pub proof fn law_enumeration_value_added_once(
    s0: Seq<EnumerationMetaVariant>,
    s1: Seq<EnumerationMetaVariant>,
    s2: Seq<EnumerationMetaVariant>,
    k: TypeIdentView,
    d1: Seq<String>,
    d2: Seq<String>,
)
    requires
        enum_upserted(s0, s1, k, d1),
        enum_upserted(s1, s2, k, d2),
    ensures
        find_enum_variant(s1, k, 0) < s1.len(),
        s2.len() == s1.len(),
{
    let i = find_enum_variant(s0, k, 0);
    lemma_find_bounds(s0, k, 0);
    lemma_find_none_before(s0, k, 0);
    if i < s0.len() {
        assert forall|j: int| 0 <= j < i implies (#[trigger] s1[j]).ident@ != k by {
            assert(same_enum_variant(s1[j], s0[j]));
        }
        lemma_find_first(s1, k, 0, i);
    } else {
        assert forall|j: int| 0 <= j < s0.len() implies (#[trigger] s1[j]).ident@ != k by {
            assert(same_enum_variant(s1[j], s0[j]));
        }
        lemma_find_first(s1, k, 0, s0.len() as int);
    }
}

/// The builder `n` (with the context `nctx`) is the builder `o` of a complex type with simple
/// content (with `octx`) after a copy of its content type was changed, with the result `r`:
/// `applied(c, v)` says that `v` is the changed copy of the content variant `c`. The copy is
/// stored under a new identifier, unless the content was already made unique for this type.
pub open spec fn complex_content_step(
    o: VariantBuilder,
    n: VariantBuilder,
    octx: BuilderContext,
    nctx: BuilderContext,
    r: Result<(), InterpreterError>,
    applied: spec_fn(MetaTypeVariant, MetaTypeVariant) -> bool,
) -> bool {
    let ci = o.variant.unwrap()->ComplexType_0;
    let cid = ci.content.unwrap();
    if !octx.types@.contains_key(cid@) {
        &&& r == Err::<(), InterpreterError>(InterpreterError::UnknownType(cid))
        &&& n == o
        &&& nctx == octx
    } else {
        let c = octx.types@[cid@].variant;
        let nid = if o.is_simple_content_unique {
            cid@
        } else {
            content_ident_view(octx.current_ns, octx.next_content_id)
        };
        &&& n.is_simple_content_unique
        &&& n.fixed == o.fixed
        &&& n.variant matches Some(MetaTypeVariant::ComplexType(nci))
        &&& same_complex_except_content(ci, n.variant.unwrap()->ComplexType_0)
        &&& n.variant.unwrap()->ComplexType_0.content matches Some(x)
        &&& n.variant.unwrap()->ComplexType_0.content.unwrap()@ == nid
        &&& if o.is_simple_content_unique {
            &&& nctx.next_content_id == octx.next_content_id
            &&& nctx.current_ns == octx.current_ns
            &&& nctx.element_form_default == octx.element_form_default
            &&& nctx.schema_id == octx.schema_id
        } else {
            content_name_made(octx, nctx)
        }
        &&& r is Ok ==> {
            let t = nctx.types@[nid];
            &&& nctx.types@ == octx.types@.insert(nid, t)
            &&& is_new_meta_type(t, t.variant)
            &&& applied(c, t.variant)
        }
        &&& r is Err ==> nctx.types == octx.types
        &&& fresh_content_names(octx) ==> nid != cid@ || o.is_simple_content_unique
        &&& fresh_content_names(octx) && !o.is_simple_content_unique ==> !octx.types@.contains_key(
            nid,
        )
        &&& fresh_content_names(octx) && octx.next_content_id < u64::MAX ==> fresh_content_names(
            nctx,
        )
    }
}

/// The position found by `find_enum_variant` lies between `start` and the length.
proof fn lemma_find_bounds(vs: Seq<EnumerationMetaVariant>, k: TypeIdentView, start: int)
    requires
        0 <= start,
    ensures
        start <= find_enum_variant(vs, k, start) <= vs.len() || start > vs.len(),
        0 <= find_enum_variant(vs, k, start) <= vs.len(),
    decreases vs.len() - start,
{
    if start < vs.len() && vs[start].ident@ != k {
        lemma_find_bounds(vs, k, start + 1);
    }
}

/// `find_enum_variant` only looks at the identifiers.
proof fn lemma_find_same_idents(
    a: Seq<EnumerationMetaVariant>,
    b: Seq<EnumerationMetaVariant>,
    k: TypeIdentView,
    start: int,
)
    requires
        same_enum_variants(a, b),
    ensures
        find_enum_variant(a, k, start) == find_enum_variant(b, k, start),
    decreases a.len() - start,
{
    if 0 <= start < a.len() {
        assert(same_enum_variant(a[start], b[start]));
        lemma_find_same_idents(a, b, k, start + 1);
    }
}

/// Adding an enumeration value to a copy of `o` is adding it to `o`.
proof fn lemma_enumeration_on_copy(
    o: MetaTypeVariant,
    c: MetaTypeVariant,
    n: EnumerationMeta,
    k: TypeIdentView,
    docs: Seq<String>,
)
    requires
        is_copy(o, c),
        enumeration_applied(Some(c), n, k, docs),
    ensures
        enumeration_applied(Some(o), n, k, docs),
{
    match (o, c) {
        (MetaTypeVariant::Enumeration(a), MetaTypeVariant::Enumeration(b)) => {
            assert(same_enum_variants(a.variants@, b.variants@));
            lemma_find_same_idents(b.variants@, a.variants@, k, 0);
            let i = find_enum_variant(a.variants@, k, 0);
            lemma_find_bounds(a.variants@, k, 0);
            assert forall|j: int| 0 <= j < a.variants@.len() && j != i implies same_enum_variant(
                #[trigger] n.variants@[j],
                a.variants@[j],
            ) by {
                assert(same_enum_variant(a.variants@[j], b.variants@[j]));
            }
            if 0 <= i < a.variants@.len() {
                assert(same_enum_variant(a.variants@[i], b.variants@[i]));
            }

        },
        _ => {},
    }
}

/// `v` is the enumeration made by adding the value `k` to the variant `o`.
pub open spec fn is_enumeration_of(o: MetaTypeVariant, v: MetaTypeVariant, k: TypeIdentView, docs: Seq<String>) -> bool {
    v matches MetaTypeVariant::Enumeration(em) && enumeration_applied(Some(o), em, k, docs)
}

/// `true` if the builder can take an enumeration value: a simple type whose variant may
/// become an enumeration, or a complex type with simple content.
pub open spec fn can_build_enumeration(b: VariantBuilder) -> bool {
    match b.type_mode {
        TypeMode::Simple => can_add_enumeration(b.variant, b.fixed),
        TypeMode::Complex => {
            &&& b.content_mode == ContentMode::Simple
            &&& b.variant matches Some(MetaTypeVariant::ComplexType(ci))
            &&& ci.content is Some
        },
        TypeMode::Unknown => false,
    }
}

/// `true` if the facet `f` can be applied to the builder `b`.
pub open spec fn facet_can_apply(b: VariantBuilder, types: Map<TypeIdentView, MetaType>, f: Facet) -> bool {
    match f {
        Facet::Assertion(_) | Facet::ExplicitTimezone(_) => true,
        Facet::Enumeration { .. } => can_build_enumeration(b),
        _ => can_build_simple_content(b, types),
    }
}

/// Returns `true` if the variant `v` carries constrains.
pub(crate) fn is_constrained(v: &MetaTypeVariant) -> (r: bool)
    ensures
        r == is_facet_target(*v),
{
    match v {
        MetaTypeVariant::SimpleType(_) | MetaTypeVariant::Reference(_)
        | MetaTypeVariant::Enumeration(_) | MetaTypeVariant::Union(_) => true,
        _ => false,
    }
}

/// The identifier of the enumeration value `value` in the namespace `ns`.
pub open spec fn enumeration_ident_view(ns: NamespaceId, value: Seq<char>) -> TypeIdentView {
    TypeIdentView {
        ns: ns,
        schema: SchemaId(SchemaId::UNKNOWN),
        name: trim_spec(value),
        type_: IdentType::Enumeration,
    }
}

impl VariantBuilder {
    /// Creates a new builder without a variant.
    pub fn new() -> (r: VariantBuilder)
        ensures
            is_initial(r),
    {
        VariantBuilder {
            variant: None,
            fixed: false,
            type_mode: TypeMode::Unknown,
            content_mode: ContentMode::Unknown,
            documentation: Vec::new(),
            is_simple_content_unique: false,
        }
    }

    /// Resets the builder to its initial state.
    pub fn reset(&mut self)
        ensures
            is_initial(*final(self)),
    {
        self.variant = None;
        self.fixed = false;
        self.type_mode = TypeMode::Unknown;
        self.content_mode = ContentMode::Unknown;
        self.is_simple_content_unique = false;
        self.documentation.clear();
    }

    /// Returns the identifier of the simple content of the constructed complex type.
    pub(crate) fn simple_content(&self, ctx: &BuilderContext) -> (r: TypeIdent)
        requires
            self.variant matches Some(MetaTypeVariant::ComplexType(ci)) && ci.content is Some,
        ensures
            r == simple_content_ident(self.variant).unwrap(),
    {
        match &self.variant {
            Some(MetaTypeVariant::ComplexType(ci)) => match &ci.content {
                Some(c) => c.duplicate(),
                None => {
                    proof {
                        assert(false);
                    }
                    TypeIdent::new(Name::from_str(""))
                },
            },
            _ => {
                proof {
                    assert(false);
                }
                TypeIdent::new(Name::from_str(""))
            },
        }
    }

    /// Makes the simple content `cid` of the constructed complex type unique for this type:
    /// unless this was done before, the content gets a new generated identifier. Returns the
    /// identifier of the content.
    pub(crate) fn unique_content_ident(&mut self, ctx: &mut BuilderContext, cid: TypeIdent) -> (r: TypeIdent)
        requires
            old(self).variant matches Some(MetaTypeVariant::ComplexType(ci)) && ci.content
                == Some(cid),
        ensures
            r@ == if old(self).is_simple_content_unique {
                cid@
            } else {
                content_ident_view(old(ctx).current_ns, old(ctx).next_content_id)
            },
            final(self).is_simple_content_unique,
            final(self).fixed == old(self).fixed,
            final(self).type_mode == old(self).type_mode,
            final(self).content_mode == old(self).content_mode,
            final(self).documentation == old(self).documentation,
            final(self).variant matches Some(MetaTypeVariant::ComplexType(nci)),
            same_complex_except_content(
                old(self).variant.unwrap()->ComplexType_0,
                final(self).variant.unwrap()->ComplexType_0,
            ),
            final(self).variant.unwrap()->ComplexType_0.content == Some(r),
            final(ctx).types == old(ctx).types,
            if old(self).is_simple_content_unique {
                *final(ctx) == *old(ctx)
            } else {
                content_name_made(*old(ctx), *final(ctx))
            },
    {
        let nid = if self.is_simple_content_unique {
            cid
        } else {
            self.is_simple_content_unique = true;
            let name = ctx.make_content_name();
            TypeIdent::new(name).with_ns(ctx.current_ns)
        };
        let v = self.variant.take();
        match v {
            Some(MetaTypeVariant::ComplexType(ci)) => {
                let mut ci = ci;
                ci.content = Some(nid.duplicate());
                self.variant = Some(MetaTypeVariant::ComplexType(ci));
            },
            _ => {
                proof {
                    assert(false);
                }
            },
        }
        nid
    }

    /// Applies the simple type facet `f` to the simple content of the constructed type.
    ///
    /// For a simple type the facet restricts the variant itself (a reference is turned into a
    /// restricted simple type, which fixes the variant). For a complex type with simple content
    /// the content type is copied, the facet restricts the copy, and the copy is stored as the
    /// content of this type.
    ///
    /// # Errors
    ///
    /// Returns [`InterpreterError::UnknownType`] if the content type of a complex type is
    /// unknown, and [`InterpreterError::InvalidFacet`] if the value of the facet is invalid.
    pub fn apply_simple_type_facet(
        &mut self,
        ctx: &mut BuilderContext,
        f: &Facet,
        is_hex_binary: bool,
    ) -> (r: Result<(), InterpreterError>)
        requires
            is_simple_type_facet(*f),
            old(ctx).types.wf(),
            can_build_simple_content(*old(self), old(ctx).types@),
        ensures
            final(ctx).types.wf(),
            final(self).type_mode == old(self).type_mode,
            final(self).content_mode == old(self).content_mode,
            final(self).documentation == old(self).documentation,
            r matches Err(InterpreterError::InvalidFacet(k)) ==> k == *f,
            r is Err ==> r matches Err(InterpreterError::InvalidFacet(_))
                || r matches Err(InterpreterError::UnknownType(_)),
            old(self).type_mode == TypeMode::Simple ==> {
                &&& *final(ctx) == *old(ctx)
                &&& (r is Ok <==> facet_value_ok(*f))
                &&& (r is Err ==> r == Err::<(), InterpreterError>(InterpreterError::InvalidFacet(*f)))
                &&& simple_facet_step(*old(self), *final(self), *f, is_hex_binary, r)
            },
            old(self).type_mode == TypeMode::Complex ==> {
                &&& (r is Ok <==> (old(ctx).types@.contains_key(
                    simple_content_ident(old(self).variant).unwrap()@,
                ) && facet_value_ok(*f)))
                &&& (!old(ctx).types@.contains_key(simple_content_ident(old(self).variant).unwrap()@)
                    ==> r == Err::<(), InterpreterError>(
                    InterpreterError::UnknownType(simple_content_ident(old(self).variant).unwrap()),
                ))
                &&& (old(ctx).types@.contains_key(simple_content_ident(old(self).variant).unwrap()@)
                    && !facet_value_ok(*f) ==> r == Err::<(), InterpreterError>(
                    InterpreterError::InvalidFacet(*f),
                ))
                &&& complex_content_step(
                    *old(self),
                    *final(self),
                    *old(ctx),
                    *final(ctx),
                    r,
                    |c: MetaTypeVariant, v: MetaTypeVariant| facet_applied(c, v, *f, is_hex_binary, true),
                )
            },
    {
        if self.type_mode == TypeMode::Simple {
            let v = self.variant.take().unwrap();
            let is_reference = match &v {
                MetaTypeVariant::Reference(_) => true,
                _ => false,
            };
            let (nv, res) = facet_on_variant(v, f, is_hex_binary);
            self.variant = Some(nv);
            if is_reference {
                self.fixed = true;
            }
            return res;
        }
        let cid = self.simple_content(ctx);
        let content = match ctx.types.get(&cid) {
            Some(t) => copy_simple_content(&t.variant),
            None => return Err(InterpreterError::UnknownType(cid)),
        };
        let ghost c = ctx.types@[cid@].variant;
        let ghost cidv = cid@;
        proof {
            if fresh_content_names(*old(ctx)) {
                lemma_generated_is_fresh(*old(ctx));
            }
        }
        let nid = self.unique_content_ident(ctx, cid);
        let (nv, res) = facet_on_variant(content, f, is_hex_binary);
        proof {
            lemma_applied_to_copy(c, content, nv, *f, is_hex_binary, res is Ok);
        }
        if res.is_err() {
            return res;
        }
        let ghost nidv = nid@;
        ctx.types.insert(nid, MetaType::new(nv));
        proof {
            lemma_content_stored(*old(ctx), *ctx, old(self).is_simple_content_unique, cidv, ctx.types@[nidv]);
        }
        Ok(())
    }

    /// Adds the enumeration value `value` (trimmed, with the documentation `docs`) to the
    /// simple content of the constructed type.
    ///
    /// A simple type becomes an enumeration that keeps its constrains; an existing value of
    /// the same name is made required and gets the documentation appended. For a complex type
    /// with simple content the content type is copied, changed and stored as the content of
    /// this type.
    ///
    /// # Errors
    ///
    /// Returns [`InterpreterError::UnknownType`] if the content type of a complex type is
    /// unknown.
    pub fn apply_enumeration(
        &mut self,
        ctx: &mut BuilderContext,
        value: &str,
        docs: &Vec<String>,
    ) -> (r: Result<(), InterpreterError>)
        requires
            old(ctx).types.wf(),
            can_build_enumeration(*old(self)),
        ensures
            final(ctx).types.wf(),
            final(self).type_mode == old(self).type_mode,
            final(self).content_mode == old(self).content_mode,
            final(self).documentation == old(self).documentation,
            r is Err ==> r matches Err(InterpreterError::UnknownType(_)),
            old(self).type_mode == TypeMode::Simple ==> {
                &&& r is Ok
                &&& *final(ctx) == *old(ctx)
                &&& final(self).variant matches Some(MetaTypeVariant::Enumeration(em))
                &&& enumeration_applied(
                    old(self).variant,
                    final(self).variant.unwrap()->Enumeration_0,
                    enumeration_ident_view(old(ctx).current_ns, value@),
                    docs@,
                )
                &&& final(self).fixed == if old(self).variant matches Some(
                    MetaTypeVariant::Enumeration(_),
                ) {
                    old(self).fixed
                } else {
                    true
                }
                &&& final(self).is_simple_content_unique == old(self).is_simple_content_unique
            },
            old(self).type_mode == TypeMode::Complex ==> {
                &&& (r is Ok <==> old(ctx).types@.contains_key(
                    simple_content_ident(old(self).variant).unwrap()@,
                ))
                &&& complex_content_step(
                    *old(self),
                    *final(self),
                    *old(ctx),
                    *final(ctx),
                    r,
                    |c: MetaTypeVariant, v: MetaTypeVariant|
                        is_enumeration_of(
                            c,
                            v,
                            enumeration_ident_view(old(ctx).current_ns, value@),
                            docs@,
                        ),
                )
            },
    {
        let ident = TypeIdent::new(Name::from_str(trim(value))).with_ns(ctx.current_ns).with_type(
            IdentType::Enumeration,
        );
        let ghost k = ident@;
        if self.type_mode == TypeMode::Simple {
            let v = self.variant.take();
            let (em, fixed) = enumeration_on_variant(v, self.fixed, ident, docs);
            self.variant = Some(MetaTypeVariant::Enumeration(em));
            self.fixed = fixed;
            return Ok(());
        }
        let cid = self.simple_content(ctx);
        let content = match ctx.types.get(&cid) {
            Some(t) => if is_constrained(&t.variant) {
                Some(copy_simple_content(&t.variant))
            } else {
                None
            },
            None => return Err(InterpreterError::UnknownType(cid)),
        };
        let ghost c = ctx.types@[cid@].variant;
        let ghost cidv = cid@;
        proof {
            if fresh_content_names(*old(ctx)) {
                lemma_generated_is_fresh(*old(ctx));
            }
        }
        let nid = self.unique_content_ident(ctx, cid);
        let ghost copied = content;
        let (em, _) = enumeration_on_variant(content, false, ident, docs);
        proof {
            if copied is Some {
                lemma_enumeration_on_copy(c, copied.unwrap(), em, k, docs@);
            }
        }
        let ghost nidv = nid@;
        ctx.types.insert(nid, MetaType::new(MetaTypeVariant::Enumeration(em)));
        proof {
            lemma_content_stored(*old(ctx), *ctx, old(self).is_simple_content_unique, cidv, ctx.types@[nidv]);
        }
        Ok(())
    }

    /// Applies the facet `f` to the constructed type: an enumeration value is added, an
    /// assertion or an explicit timezone is ignored, and any other facet restricts the simple
    /// content.
    ///
    /// # Errors
    ///
    /// Returns the errors of [`VariantBuilder::apply_enumeration`] and
    /// [`VariantBuilder::apply_simple_type_facet`].
    pub fn apply_facet(
        &mut self,
        ctx: &mut BuilderContext,
        f: &Facet,
        is_hex_binary: bool,
    ) -> (r: Result<(), InterpreterError>)
        requires
            old(ctx).types.wf(),
            facet_can_apply(*old(self), old(ctx).types@, *f),
        ensures
            final(ctx).types.wf(),
            final(self).type_mode == old(self).type_mode,
            final(self).content_mode == old(self).content_mode,
            final(self).documentation == old(self).documentation,
            match *f {
                Facet::Assertion(_) | Facet::ExplicitTimezone(_) => {
                    &&& r is Ok
                    &&& *final(self) == *old(self)
                    &&& *final(ctx) == *old(ctx)
                },
                Facet::Enumeration { value, documentation } => {
                    &&& r is Err ==> (r matches Err(InterpreterError::UnknownType(_)))
                    &&& old(self).type_mode == TypeMode::Simple ==> {
                        &&& r is Ok
                        &&& *final(ctx) == *old(ctx)
                        &&& final(self).variant matches Some(MetaTypeVariant::Enumeration(em))
                        &&& enumeration_applied(
                            old(self).variant,
                            final(self).variant.unwrap()->Enumeration_0,
                            enumeration_ident_view(old(ctx).current_ns, value@),
                            documentation@,
                        )
                    }
                    &&& old(self).type_mode == TypeMode::Complex ==> (r is Ok
                        <==> old(ctx).types@.contains_key(
                        simple_content_ident(old(self).variant).unwrap()@,
                    ))
                    &&& old(self).type_mode == TypeMode::Complex ==> complex_content_step(
                        *old(self),
                        *final(self),
                        *old(ctx),
                        *final(ctx),
                        r,
                        |c: MetaTypeVariant, v: MetaTypeVariant|
                            is_enumeration_of(
                                c,
                                v,
                                enumeration_ident_view(old(ctx).current_ns, value@),
                                documentation@,
                            ),
                    )
                },
                _ => {
                    &&& (r matches Err(InterpreterError::InvalidFacet(k)) ==> k == *f)
                    &&& old(self).type_mode == TypeMode::Simple ==> {
                        &&& *final(ctx) == *old(ctx)
                        &&& (r is Ok <==> facet_value_ok(*f))
                        &&& (r is Err ==> r == Err::<(), InterpreterError>(
                            InterpreterError::InvalidFacet(*f),
                        ))
                        &&& simple_facet_step(*old(self), *final(self), *f, is_hex_binary, r)
                    }
                    &&& old(self).type_mode == TypeMode::Complex ==> {
                        &&& (r is Ok <==> (old(ctx).types@.contains_key(
                            simple_content_ident(old(self).variant).unwrap()@,
                        ) && facet_value_ok(*f)))
                        &&& (old(ctx).types@.contains_key(
                            simple_content_ident(old(self).variant).unwrap()@,
                        ) && !facet_value_ok(*f) ==> r == Err::<(), InterpreterError>(
                            InterpreterError::InvalidFacet(*f),
                        ))
                    }
                    &&& old(self).type_mode == TypeMode::Complex ==> complex_content_step(
                        *old(self),
                        *final(self),
                        *old(ctx),
                        *final(ctx),
                        r,
                        |c: MetaTypeVariant, v: MetaTypeVariant|
                            facet_applied(c, v, *f, is_hex_binary, true),
                    )
                },
            },
    {
        match f {
            Facet::Enumeration { value, documentation } => self.apply_enumeration(
                ctx,
                value.as_str(),
                documentation,
            ),
            Facet::Assertion(_) | Facet::ExplicitTimezone(_) => Ok(()),
            _ => self.apply_simple_type_facet(ctx, f, is_hex_binary),
        }
    }

    /// Finishes the constructed type and resets the builder.
    ///
    /// # Errors
    ///
    /// Returns [`InterpreterError::NoType`] if no variant was constructed; the builder is
    /// left unchanged.
    pub fn finish_mut(&mut self, ctx: &BuilderContext) -> (r: Result<MetaType, InterpreterError>)
        ensures
            match old(self).variant {
                None => r matches Err(InterpreterError::NoType) && *final(self) == *old(self),
                Some(v) => r matches Ok(t) && {
                    &&& t.variant == v
                    &&& t.form == Some(ctx.element_form_default)
                    &&& t.schema == Some(ctx.schema_id)
                    &&& t.display_name is None
                    &&& t.documentation == old(self).documentation
                    &&& is_initial(*final(self))
                },
            },
    {
        let variant = match self.variant.take() {
            Some(v) => v,
            None => return Err(InterpreterError::NoType),
        };
        let mut type_ = MetaType::new(variant);
        type_.form = Some(ctx.element_form_default);
        type_.schema = Some(ctx.schema_id);
        core::mem::swap(&mut type_.documentation, &mut self.documentation);
        self.reset();
        Ok(type_)
    }

    /// Finishes the constructed type.
    ///
    /// # Errors
    ///
    /// Returns [`InterpreterError::NoType`] if no variant was constructed.
    pub fn finish(self, ctx: &BuilderContext) -> (r: Result<MetaType, InterpreterError>)
        ensures
            match self.variant {
                None => r matches Err(InterpreterError::NoType),
                Some(v) => r matches Ok(t) && {
                    &&& t.variant == v
                    &&& t.form == Some(ctx.element_form_default)
                    &&& t.schema == Some(ctx.schema_id)
                    &&& t.display_name is None
                    &&& t.documentation == self.documentation
                },
            },
    {
        let VariantBuilder { variant, documentation, .. } = self;
        let variant = match variant {
            Some(v) => v,
            None => return Err(InterpreterError::NoType),
        };
        let mut type_ = MetaType::new(variant);
        type_.form = Some(ctx.element_form_default);
        type_.schema = Some(ctx.schema_id);
        type_.documentation = documentation;
        Ok(type_)
    }
}

} // verus!
