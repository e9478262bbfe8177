use vstd::prelude::*;

use super::ident::{NamespaceId, SchemaId, TypeIdent, TypeIdentView};
use super::schema::Namespace;

verus! {

/// Maximum number of occurrences of an element.
#[derive(Clone, Copy, Debug, PartialEq, Eq, Structural)]
pub enum MaxOccurs {
    /// The element may occur any number of times.
    Unbounded,
    /// The element may occur at most the given number of times.
    Bounded(usize),
}

/// Returns the smaller of two minimum occurrence values.
pub fn min_occurs_min(a: usize, b: usize) -> (r: usize)
    ensures
        r == if a <= b { a } else { b },
{
    if a <= b { a } else { b }
}

/// Returns the larger of two maximum occurrence values (`Unbounded` is the largest).
pub fn max_occurs_max(a: MaxOccurs, b: MaxOccurs) -> (r: MaxOccurs)
    ensures
        r == spec_max_occurs_max(a, b),
{
    match (a, b) {
        (MaxOccurs::Bounded(x), MaxOccurs::Bounded(y)) => MaxOccurs::Bounded(if x >= y { x } else { y }),
        _ => MaxOccurs::Unbounded,
    }
}

/// The larger of two maximum occurrence values.
pub open spec fn spec_max_occurs_max(a: MaxOccurs, b: MaxOccurs) -> MaxOccurs {
    match (a, b) {
        (MaxOccurs::Bounded(x), MaxOccurs::Bounded(y)) => MaxOccurs::Bounded(if x >= y { x } else { y }),
        _ => MaxOccurs::Unbounded,
    }
}

/// Form of an element or attribute (qualified or unqualified names).
#[derive(Clone, Copy, Debug, PartialEq, Eq, Structural)]
pub enum FormChoiceType {
    /// Names are qualified with a namespace.
    Qualified,
    /// Names are not qualified.
    Unqualified,
}

/// How the content of `xs:any` and `xs:anyAttribute` is processed.
#[derive(Clone, Copy, Debug, PartialEq, Eq, Structural)]
pub enum ProcessContentsType {
    /// The content must be valid.
    Strict,
    /// The content is validated if possible.
    Lax,
    /// The content is not validated.
    Skip,
}

/// Usage of an attribute or an enumeration variant.
#[derive(Clone, Copy, Debug, PartialEq, Eq, Structural)]
pub enum Use {
    /// The value must not be used.
    Prohibited,
    /// The value may be used.
    Optional,
    /// The value must be used.
    Required,
}

/// Whitespace handling of a simple value.
#[derive(Clone, Copy, Debug, PartialEq, Eq, Structural)]
pub enum WhiteSpace {
    /// Whitespace is kept as it is.
    Preserve,
    /// Every whitespace character is replaced by a space.
    Replace,
    /// Whitespace is replaced and consecutive spaces are collapsed.
    Collapse,
}

/// One end of the value range of a simple type.
#[derive(Debug)]
pub enum ValueBound {
    /// The range is not limited at this end.
    Unbounded,
    /// The value itself is part of the range.
    Included(String),
    /// The value itself is not part of the range.
    Excluded(String),
}

/// Range of values a simple type may take.
#[derive(Debug)]
pub struct ValueRange {
    /// Lower end of the range.
    pub start: ValueBound,
    /// Upper end of the range.
    pub end: ValueBound,
}

/// Constrains defined by the different facets of a type.
#[derive(Debug)]
pub struct Constrains {
    /// Range the value should be in.
    pub range: ValueRange,
    /// Number of total digits the value maximal should have.
    pub total_digits: Option<usize>,
    /// Number of fraction digits the value maximal should have.
    pub fraction_digits: Option<usize>,
    /// Regex pattern the value should fulfill.
    pub patterns: Vec<String>,
    /// The minimum length the value should have.
    pub min_length: Option<usize>,
    /// The maximum length the value should have.
    pub max_length: Option<usize>,
    /// Defines the whitespace handling.
    pub whitespace: WhiteSpace,
    /// Indicates if the value is a hexadecimal binary.
    pub is_hex_binary: bool,
}

/// Abstract value of [`Constrains`].
pub struct ConstrainsView {
    pub start: ValueBound,
    pub end: ValueBound,
    pub total_digits: Option<usize>,
    pub fraction_digits: Option<usize>,
    pub patterns: Seq<String>,
    pub min_length: Option<usize>,
    pub max_length: Option<usize>,
    pub whitespace: WhiteSpace,
    pub is_hex_binary: bool,
}

impl View for Constrains {
    type V = ConstrainsView;

    open spec fn view(&self) -> ConstrainsView {
        ConstrainsView {
            start: self.range.start,
            end: self.range.end,
            total_digits: self.total_digits,
            fraction_digits: self.fraction_digits,
            patterns: self.patterns@,
            min_length: self.min_length,
            max_length: self.max_length,
            whitespace: self.whitespace,
            is_hex_binary: self.is_hex_binary,
        }
    }
}

/// The abstract value of constrains without any facet applied.
pub open spec fn default_constrains_view() -> ConstrainsView {
    ConstrainsView {
        start: ValueBound::Unbounded,
        end: ValueBound::Unbounded,
        total_digits: None,
        fraction_digits: None,
        patterns: Seq::empty(),
        min_length: None,
        max_length: None,
        whitespace: WhiteSpace::Preserve,
        is_hex_binary: false,
    }
}

/// `true` if `c` is the default value of [`Constrains`]: no facet applied.
pub open spec fn is_default_constrains(c: Constrains) -> bool {
    &&& c.range.start is Unbounded
    &&& c.range.end is Unbounded
    &&& c.total_digits is None
    &&& c.fraction_digits is None
    &&& c.patterns@.len() == 0
    &&& c.min_length is None
    &&& c.max_length is None
    &&& c.whitespace == WhiteSpace::Preserve
    &&& !c.is_hex_binary
}

impl Constrains {
    /// Creates constrains without any facet applied.
    pub fn default() -> (r: Constrains)
        ensures
            is_default_constrains(r),
            r@ == default_constrains_view(),
    {
        Constrains {
            range: ValueRange { start: ValueBound::Unbounded, end: ValueBound::Unbounded },
            total_digits: None,
            fraction_digits: None,
            patterns: Vec::new(),
            min_length: None,
            max_length: None,
            whitespace: WhiteSpace::Preserve,
            is_hex_binary: false,
        }
    }
}

/// Base type of a derived type.
#[derive(Debug)]
pub enum Base {
    /// The type has no base type.
    NoBase,
    /// The type extends the base type.
    Extension(TypeIdent),
    /// The type restricts the base type.
    Restriction(TypeIdent),
}

/// Build-in types of the generated code.
#[derive(Clone, Copy, Debug, PartialEq, Eq, Structural)]
pub enum BuildInMeta {
    U8,
    U16,
    U32,
    U64,
    U128,
    Usize,
    I8,
    I16,
    I32,
    I64,
    I128,
    Isize,
    F32,
    F64,
    Bool,
    Str,
    String,
}

/// How the default value of a custom type is generated.
#[derive(Debug)]
pub enum CustomDefault {
    /// A qualified name is built from the default value.
    QName,
    /// The default value is parsed by `FromStr` of the type at the given path.
    FromStr(String),
}

/// Namespace a custom type needs for its serialization.
#[derive(Debug)]
pub enum CustomMetaNamespace {
    /// Namespace given by its id.
    Id(NamespaceId),
    /// Namespace given by its URI.
    Namespace(Namespace),
}

/// A type that is defined outside of the generated code.
#[derive(Debug)]
pub struct CustomMeta {
    /// Name of the type.
    pub name: String,
    /// Path the type is included from.
    pub include_path: Option<String>,
    /// How the default value of the type is generated.
    pub default: Option<CustomDefault>,
    /// Namespaces the type needs.
    pub namespaces: Vec<CustomMetaNamespace>,
}

impl CustomMeta {
    /// Creates a new custom type with the passed `name`.
    pub fn new(name: &str) -> (r: CustomMeta)
        ensures
            r.name@ == name@,
            r.include_path is None,
            r.default is None,
            r.namespaces@.len() == 0,
    {
        CustomMeta { name: name.to_string(), include_path: None, default: None, namespaces: Vec::new() }
    }

    /// Sets the path the type is included from.
    pub fn include_from(self, path: &str) -> (r: CustomMeta)
        ensures
            r.name == self.name,
            r.include_path matches Some(p) && p@ == path@,
            r.default == self.default,
            r.namespaces == self.namespaces,
    {
        CustomMeta { include_path: Some(path.to_string()), ..self }
    }

    /// Adds a namespace the type needs.
    pub fn with_namespace(self, ns: CustomMetaNamespace) -> (r: CustomMeta)
        ensures
            r.name == self.name,
            r.include_path == self.include_path,
            r.default == self.default,
            r.namespaces@ == self.namespaces@.push(ns),
    {
        let mut this = self;
        this.namespaces.push(ns);
        this
    }

    /// Sets how the default value of the type is generated.
    pub fn with_default(self, default: CustomDefault) -> (r: CustomMeta)
        ensures
            r.name == self.name,
            r.include_path == self.include_path,
            r.default == Some(default),
            r.namespaces == self.namespaces,
    {
        CustomMeta { default: Some(default), ..self }
    }
}

/// A reference to (a list of) another type.
#[derive(Debug)]
pub struct ReferenceMeta {
    /// The referenced type.
    pub type_: TypeIdent,
    /// `true` if the value may be nil.
    pub nillable: bool,
    /// Minimum number of occurrences.
    pub min_occurs: usize,
    /// Maximum number of occurrences.
    pub max_occurs: MaxOccurs,
}

impl ReferenceMeta {
    /// Creates a reference to exactly one value of the passed type.
    pub fn new(type_: TypeIdent) -> (r: ReferenceMeta)
        ensures
            r.type_ == type_,
            !r.nillable,
            r.min_occurs == 1,
            r.max_occurs == MaxOccurs::Bounded(1),
    {
        ReferenceMeta { type_, nillable: false, min_occurs: 1, max_occurs: MaxOccurs::Bounded(1) }
    }

    /// Sets the minimum number of occurrences.
    pub fn min_occurs(self, min: usize) -> (r: ReferenceMeta)
        ensures
            r == (ReferenceMeta { min_occurs: min, ..self }),
    {
        ReferenceMeta { min_occurs: min, ..self }
    }

    /// Sets the maximum number of occurrences.
    pub fn max_occurs(self, max: MaxOccurs) -> (r: ReferenceMeta)
        ensures
            r == (ReferenceMeta { max_occurs: max, ..self }),
    {
        ReferenceMeta { max_occurs: max, ..self }
    }
}

/// A simple type that restricts a base type by facets.
#[derive(Debug)]
pub struct SimpleMeta {
    /// The base type.
    pub base: TypeIdent,
    /// `true` if the type is a list of the base type.
    pub is_list: bool,
    /// Constrains of the facets.
    pub constrains: Constrains,
}

impl SimpleMeta {
    /// Creates a simple type without facets.
    pub fn new(base: TypeIdent) -> (r: SimpleMeta)
        ensures
            r.base == base,
            !r.is_list,
            is_default_constrains(r.constrains),
            r.constrains@ == default_constrains_view(),
    {
        SimpleMeta { base, is_list: false, constrains: Constrains::default() }
    }
}

/// Information of `xs:any`.
#[derive(Debug)]
pub struct AnyMeta {
    pub id: Option<String>,
    pub namespace: Option<String>,
    pub not_q_name: Option<String>,
    pub not_namespace: Option<String>,
    pub process_contents: ProcessContentsType,
}

/// Information of `xs:anyAttribute`.
#[derive(Debug)]
pub struct AnyAttributeMeta {
    pub id: Option<String>,
    pub namespace: Option<String>,
    pub not_q_name: Option<String>,
    pub not_namespace: Option<String>,
    pub process_contents: ProcessContentsType,
}

/// How an element refers to its type.
#[derive(Clone, Copy, Debug, PartialEq, Eq, Structural)]
pub enum ElementMode {
    /// The element is an actual XML element.
    Element,
    /// The element is a group that is inlined.
    Group,
}

/// Variant of an element.
#[derive(Debug)]
pub enum ElementMetaVariant {
    /// An `xs:any` element.
    Any(AnyMeta),
    /// An element of the given type.
    Type { type_: TypeIdent, mode: ElementMode },
}

/// An element of a group.
#[derive(Debug)]
pub struct ElementMeta {
    pub ident: TypeIdent,
    pub variant: ElementMetaVariant,
    pub form: FormChoiceType,
    pub nillable: bool,
    pub min_occurs: usize,
    pub max_occurs: MaxOccurs,
    pub display_name: Option<String>,
    pub documentation: Vec<String>,
}

impl ElementMeta {
    /// Creates a new element of the passed type that occurs exactly once.
    pub fn new(ident: TypeIdent, type_: TypeIdent, mode: ElementMode, form: FormChoiceType) -> (r:
        ElementMeta)
        ensures
            r.ident == ident,
            r.variant == (ElementMetaVariant::Type { type_: type_, mode: mode }),
            r.form == form,
            !r.nillable,
            r.min_occurs == 1,
            r.max_occurs == MaxOccurs::Bounded(1),
            r.display_name is None,
            r.documentation@.len() == 0,
    {
        ElementMeta {
            ident,
            variant: ElementMetaVariant::Type { type_, mode },
            form,
            nillable: false,
            min_occurs: 1,
            max_occurs: MaxOccurs::Bounded(1),
            display_name: None,
            documentation: Vec::new(),
        }
    }

    /// Creates a new `xs:any` element that occurs exactly once.
    pub fn any(ident: TypeIdent, any: AnyMeta) -> (r: ElementMeta)
        ensures
            r.ident == ident,
            r.variant == ElementMetaVariant::Any(any),
            r.form == FormChoiceType::Unqualified,
            !r.nillable,
            r.min_occurs == 1,
            r.max_occurs == MaxOccurs::Bounded(1),
            r.display_name is None,
            r.documentation@.len() == 0,
    {
        ElementMeta {
            ident,
            variant: ElementMetaVariant::Any(any),
            form: FormChoiceType::Unqualified,
            nillable: false,
            min_occurs: 1,
            max_occurs: MaxOccurs::Bounded(1),
            display_name: None,
            documentation: Vec::new(),
        }
    }
}

/// Variant of an attribute.
#[derive(Debug)]
pub enum AttributeMetaVariant {
    /// An `xs:anyAttribute`.
    Any(AnyAttributeMeta),
    /// An attribute of the given type.
    Type(TypeIdent),
}

/// An attribute of a complex type.
#[derive(Debug)]
pub struct AttributeMeta {
    pub ident: TypeIdent,
    pub variant: AttributeMetaVariant,
    pub form: FormChoiceType,
    pub use_: Use,
    pub default: Option<String>,
    pub display_name: Option<String>,
    pub documentation: Vec<String>,
}

impl AttributeMeta {
    /// Creates a new optional attribute of the passed type.
    pub fn new(ident: TypeIdent, type_: TypeIdent, form: FormChoiceType) -> (r: AttributeMeta)
        ensures
            r.ident == ident,
            r.variant == AttributeMetaVariant::Type(type_),
            r.form == form,
            r.use_ == Use::Optional,
            r.default is None,
            r.display_name is None,
            r.documentation@.len() == 0,
    {
        AttributeMeta {
            ident,
            variant: AttributeMetaVariant::Type(type_),
            form,
            use_: Use::Optional,
            default: None,
            display_name: None,
            documentation: Vec::new(),
        }
    }

    /// Creates a new optional `xs:anyAttribute`.
    pub fn any(ident: TypeIdent, any: AnyAttributeMeta) -> (r: AttributeMeta)
        ensures
            r.ident == ident,
            r.variant == AttributeMetaVariant::Any(any),
            r.form == FormChoiceType::Unqualified,
            r.use_ == Use::Optional,
            r.default is None,
            r.display_name is None,
            r.documentation@.len() == 0,
    {
        AttributeMeta {
            ident,
            variant: AttributeMetaVariant::Any(any),
            form: FormChoiceType::Unqualified,
            use_: Use::Optional,
            default: None,
            display_name: None,
            documentation: Vec::new(),
        }
    }
}

/// Elements of a group.
#[derive(Debug)]
pub struct ElementsMeta(pub Vec<ElementMeta>);

/// Attributes of a complex type.
#[derive(Debug)]
pub struct AttributesMeta(pub Vec<AttributeMeta>);

/// An `xs:all`, `xs:choice` or `xs:sequence` group.
#[derive(Debug)]
pub struct GroupMeta {
    pub is_mixed: bool,
    pub elements: ElementsMeta,
}

impl GroupMeta {
    /// Creates an empty group.
    pub fn default() -> (r: GroupMeta)
        ensures
            !r.is_mixed,
            r.elements.0@.len() == 0,
    {
        GroupMeta { is_mixed: false, elements: ElementsMeta(Vec::new()) }
    }
}

/// A complex type.
#[derive(Debug)]
pub struct ComplexMeta {
    pub base: Base,
    pub content: Option<TypeIdent>,
    pub min_occurs: usize,
    pub max_occurs: MaxOccurs,
    pub is_dynamic: bool,
    pub is_mixed: bool,
    pub attributes: AttributesMeta,
}

impl ComplexMeta {
    /// Creates an empty complex type that occurs exactly once.
    pub fn default() -> (r: ComplexMeta)
        ensures
            r.base is NoBase,
            r.content is None,
            r.min_occurs == 1,
            r.max_occurs == MaxOccurs::Bounded(1),
            !r.is_dynamic,
            !r.is_mixed,
            r.attributes.0@.len() == 0,
    {
        ComplexMeta {
            base: Base::NoBase,
            content: None,
            min_occurs: 1,
            max_occurs: MaxOccurs::Bounded(1),
            is_dynamic: false,
            is_mixed: false,
            attributes: AttributesMeta(Vec::new()),
        }
    }
}

/// A variant of an enumeration.
#[derive(Debug)]
pub struct EnumerationMetaVariant {
    pub ident: TypeIdent,
    pub use_: Use,
    pub type_: Option<TypeIdent>,
    pub display_name: Option<String>,
    pub documentation: Vec<String>,
}

impl EnumerationMetaVariant {
    /// Creates a new optional variant without a type.
    pub fn new(ident: TypeIdent) -> (r: EnumerationMetaVariant)
        ensures
            r.ident == ident,
            r.use_ == Use::Optional,
            r.type_ is None,
            r.display_name is None,
            r.documentation@.len() == 0,
    {
        EnumerationMetaVariant {
            ident,
            use_: Use::Optional,
            type_: None,
            display_name: None,
            documentation: Vec::new(),
        }
    }
}

/// An enumeration.
#[derive(Debug)]
pub struct EnumerationMeta {
    pub base: Base,
    pub variants: Vec<EnumerationMetaVariant>,
    pub constrains: Constrains,
}

impl EnumerationMeta {
    /// Creates an enumeration without variants.
    pub fn default() -> (r: EnumerationMeta)
        ensures
            r.base is NoBase,
            r.variants@.len() == 0,
            is_default_constrains(r.constrains),
            r.constrains@ == default_constrains_view(),
    {
        EnumerationMeta { base: Base::NoBase, variants: Vec::new(), constrains: Constrains::default() }
    }
}

/// A member type of a union.
#[derive(Debug)]
pub struct UnionMetaType {
    pub type_: TypeIdent,
    pub display_name: Option<String>,
}

/// A union of simple types.
#[derive(Debug)]
pub struct UnionMeta {
    pub base: Base,
    pub types: Vec<UnionMetaType>,
    pub constrains: Constrains,
}

impl UnionMeta {
    /// Creates a union without member types.
    pub fn default() -> (r: UnionMeta)
        ensures
            r.base is NoBase,
            r.types@.len() == 0,
            is_default_constrains(r.constrains),
            r.constrains@ == default_constrains_view(),
    {
        UnionMeta { base: Base::NoBase, types: Vec::new(), constrains: Constrains::default() }
    }
}

/// A type that may be replaced by any of its derived types.
#[derive(Debug)]
pub struct DynamicMeta {
    pub type_: Option<TypeIdent>,
    pub derived_types: Vec<TypeIdent>,
}

/// The different kinds of types.
#[derive(Debug)]
pub enum MetaTypeVariant {
    Union(UnionMeta),
    BuildIn(BuildInMeta),
    Custom(CustomMeta),
    Reference(ReferenceMeta),
    Enumeration(EnumerationMeta),
    Dynamic(DynamicMeta),
    All(GroupMeta),
    Choice(GroupMeta),
    Sequence(GroupMeta),
    ComplexType(ComplexMeta),
    SimpleType(SimpleMeta),
}

/// A type of the interpreted schema.
#[derive(Debug)]
pub struct MetaType {
    pub variant: MetaTypeVariant,
    pub form: Option<FormChoiceType>,
    pub schema: Option<SchemaId>,
    pub display_name: Option<String>,
    pub documentation: Vec<String>,
}

impl MetaType {
    /// Creates a new type of the passed variant.
    pub fn new(variant: MetaTypeVariant) -> (r: MetaType)
        ensures
            is_new_meta_type(r, variant),
    {
        MetaType { variant, form: None, schema: None, display_name: None, documentation: Vec::new() }
    }
}

/// `true` if `t` is a type of the variant `variant` without any further information.
pub open spec fn is_new_meta_type(t: MetaType, variant: MetaTypeVariant) -> bool {
    &&& t.variant == variant
    &&& t.form is None
    &&& t.schema is None
    &&& t.display_name is None
    &&& t.documentation@.len() == 0
}

/// All types of the interpreted schemas, each stored under its identifier.
#[derive(Debug)]
pub struct MetaTypes {
    pub items: Vec<(TypeIdent, MetaType)>,
}

impl MetaTypes {
    /// `true` if the type with the identifier `k` is stored.
    pub open spec fn contains(self, k: TypeIdentView) -> bool {
        exists|i: int| 0 <= i < self.items@.len() && (#[trigger] self.items@[i]).0@ == k
    }

    /// Position of the type with the identifier `k`.
    pub open spec fn index_of(self, k: TypeIdentView) -> int {
        choose|i: int| 0 <= i < self.items@.len() && (#[trigger] self.items@[i]).0@ == k
    }

    /// Each identifier is stored at most once.
    pub open spec fn wf(self) -> bool {
        forall|i: int, j: int|
            0 <= i < self.items@.len() && 0 <= j < self.items@.len() && i != j ==> (
            #[trigger] self.items@[i]).0@ != (#[trigger] self.items@[j]).0@
    }
}

impl View for MetaTypes {
    type V = Map<TypeIdentView, MetaType>;

    open spec fn view(&self) -> Map<TypeIdentView, MetaType> {
        Map::new(|k: TypeIdentView| self.contains(k), |k: TypeIdentView| self.items@[self.index_of(k)].1)
    }
}

/// What is stored is what is found: after a type is stored under an identifier, that
/// identifier holds it, and every other identifier holds what it held before.
pub proof fn law_types_store_then_find(
    m: Map<TypeIdentView, MetaType>,
    k: TypeIdentView,
    t: MetaType,
    other: TypeIdentView,
)
    ensures
        m.insert(k, t).contains_key(k),
        m.insert(k, t)[k] == t,
        other != k ==> (m.insert(k, t).contains_key(other) == m.contains_key(other)),
        other != k && m.contains_key(other) ==> m.insert(k, t)[other] == m[other],
{
}

impl MetaTypes {
    /// Creates an empty set of types.
    pub fn new() -> (r: MetaTypes)
        ensures
            r.wf(),
            r@ == Map::<TypeIdentView, MetaType>::empty(),
    {
        let r = MetaTypes { items: Vec::new() };
        assert(r@ =~= Map::<TypeIdentView, MetaType>::empty());
        r
    }

    /// Position of the type with the passed identifier, if it is stored.
    pub fn position(&self, ident: &TypeIdent) -> (r: Option<usize>)
        requires
            self.wf(),
        ensures
            match r {
                Some(i) => i < self.items@.len() && self.items@[i as int].0@ == ident@,
                None => !self.contains(ident@),
            },
    {
        let mut i: usize = 0;
        while i < self.items.len()
            invariant
                i <= self.items@.len(),
                forall|j: int| 0 <= j < i ==> (#[trigger] self.items@[j]).0@ != ident@,
            decreases self.items@.len() - i,
        {
            if self.items[i].0.is_same(ident) {
                return Some(i);
            }
            i = i + 1;
        }
        None
    }

    /// Returns the type stored under the passed identifier.
    pub fn get(&self, ident: &TypeIdent) -> (r: Option<&MetaType>)
        requires
            self.wf(),
        ensures
            match r {
                Some(t) => self@.contains_key(ident@) && self@[ident@] == *t,
                None => !self@.contains_key(ident@),
            },
    {
        match self.position(ident) {
            Some(i) => {
                proof {
                    let k = self.index_of(ident@);
                    assert(self.contains(ident@));
                    assert(self.items@[k].0@ == ident@);
                    if k != i {
                        assert(self.items@[k].0@ != self.items@[i as int].0@);
                    }
                }
                Some(&self.items[i].1)
            },
            None => None,
        }
    }

    /// Replaces the type stored under `ident` by `ty` and returns the type stored there
    /// before; nothing is stored if there was none.
    pub fn replace(&mut self, ident: &TypeIdent, ty: MetaType) -> (r: Option<MetaType>)
        requires
            old(self).wf(),
        ensures
            final(self).wf(),
            match r {
                Some(t) => {
                    &&& old(self)@.contains_key(ident@)
                    &&& old(self)@[ident@] == t
                    &&& final(self)@ == old(self)@.insert(ident@, ty)
                },
                None => {
                    &&& !old(self)@.contains_key(ident@)
                    &&& *final(self) == *old(self)
                },
            },
    {
        let ghost k = ident@;
        match self.position(ident) {
            Some(i) => {
                let (id, t) = self.items.remove(i);
                let ghost old_t = t;
                self.items.insert(i, (id, ty));
                proof {
                    assert(self.items@ =~= old(self).items@.update(i as int, (id, ty)));
                    assert(id@ == k);
                    let oi = old(self).index_of(k);
                    assert(old(self).contains(k));
                    if oi != i {
                        assert(old(self).items@[oi].0@ != old(self).items@[i as int].0@);
                    }
                    assert forall|key: TypeIdentView|
                        #![auto]
                        self.contains(key) == old(self)@.insert(k, ty).contains_key(key) by {
                        if old(self).contains(key) {
                            let j = old(self).index_of(key);
                            assert(self.items@[j].0@ == key || j == i);
                        }
                        if key == k {
                            assert(self.items@[i as int].0@ == key);
                        }
                        if self.contains(key) {
                            let j = self.index_of(key);
                            assert(old(self).items@[j].0@ == key || j == i);
                        }
                    }
                    assert forall|key: TypeIdentView| #[trigger] self.contains(key) implies self@[key]
                        == old(self)@.insert(k, ty)[key] by {
                        let j = self.index_of(key);
                        if key == k {
                            if j != i {
                                assert(self.items@[j].0@ != self.items@[i as int].0@);
                            }
                        } else {
                            let oj = old(self).index_of(key);
                            assert(old(self).items@[j].0@ == key);
                            if oj != j {
                                assert(old(self).items@[oj].0@ != old(self).items@[j].0@);
                            }
                        }
                    }
                    assert(self@ =~= old(self)@.insert(k, ty));
                }
                Some(t)
            },
            None => None,
        }
    }

    /// Stores `ty` under `ident`, replacing any type stored there before.
    pub fn insert(&mut self, ident: TypeIdent, ty: MetaType)
        requires
            old(self).wf(),
        ensures
            final(self).wf(),
            final(self)@ == old(self)@.insert(ident@, ty),
    {
        let ghost k = ident@;
        match self.position(&ident) {
            Some(i) => {
                self.items.set(i, (ident, ty));
                proof {
                    assert forall|key: TypeIdentView|
                        #![auto]
                        self.contains(key) == old(self)@.insert(k, ty).contains_key(key) by {
                        if old(self).contains(key) {
                            let j = old(self).index_of(key);
                            assert(self.items@[j].0@ == key || j == i);
                        }
                        if key == k {
                            assert(self.items@[i as int].0@ == key);
                        }
                    }
                    assert forall|key: TypeIdentView| #[trigger] self.contains(key) implies self@[key]
                        == old(self)@.insert(k, ty)[key] by {
                        let j = self.index_of(key);
                        if key == k {
                            assert(j == i);
                        } else {
                            let oj = old(self).index_of(key);
                            assert(old(self).items@[j].0@ == key);
                            assert(oj == j);
                        }
                    }
                    assert(self@ =~= old(self)@.insert(k, ty));
                }
            },
            None => {
                self.items.push((ident, ty));
                proof {
                    let n = old(self).items@.len() as int;
                    assert(self.items@[n].0@ == k);
                    assert forall|key: TypeIdentView|
                        #![auto]
                        self.contains(key) == old(self)@.insert(k, ty).contains_key(key) by {
                        if old(self).contains(key) {
                            let j = old(self).index_of(key);
                            assert(self.items@[j] == old(self).items@[j]);
                        }
                        if self.contains(key) && key != k {
                            let j = self.index_of(key);
                            assert(j < n);
                            assert(old(self).items@[j].0@ == key);
                        }
                    }
                    assert forall|key: TypeIdentView| #[trigger] self.contains(key) implies self@[key]
                        == old(self)@.insert(k, ty)[key] by {
                        let j = self.index_of(key);
                        if key == k {
                            assert(j == n);
                        } else {
                            let oj = old(self).index_of(key);
                            assert(j < n);
                            assert(old(self).items@[j].0@ == key);
                            assert(oj == j);
                        }
                    }
                    assert(self@ =~= old(self)@.insert(k, ty));
                }
            },
        }
    }
}

} // verus!
