//! Elements and attributes that the builder adds to the constructed type.

use vstd::prelude::*;

use super::elements::first_with_ident;
use super::variant_builder::{append_strings, VariantBuilder};
use crate::models::ident::{TypeIdent, TypeIdentView};
use crate::models::meta::{
    AnyAttributeMeta, AttributeMeta, AttributeMetaVariant, Base, ComplexMeta, ElementMeta,
    ElementMetaVariant, ElementMode, FormChoiceType, GroupMeta, MaxOccurs, MetaTypeVariant,
    Use,
};

verus! {

/// `true` if the builder's variant can hold elements: it is a group, there is none, or it is
/// not fixed (and is replaced by a sequence).
pub open spec fn can_hold_elements(o: Option<MetaTypeVariant>, fixed: bool) -> bool {
    match o {
        None => true,
        Some(MetaTypeVariant::All(_)) | Some(MetaTypeVariant::Choice(_)) | Some(
            MetaTypeVariant::Sequence(_),
        ) => true,
        Some(_) => !fixed,
    }
}

/// The elements of the group the variant `o` holds (none if it is no group).
pub open spec fn held_elements(o: Option<MetaTypeVariant>) -> Seq<ElementMeta> {
    match o {
        Some(MetaTypeVariant::All(g)) => g.elements.0@,
        Some(MetaTypeVariant::Choice(g)) => g.elements.0@,
        Some(MetaTypeVariant::Sequence(g)) => g.elements.0@,
        _ => Seq::empty(),
    }
}

/// `true` if the variant `o` is a group.
pub open spec fn holds_group(o: Option<MetaTypeVariant>) -> bool {
    o matches Some(MetaTypeVariant::All(_)) || o matches Some(MetaTypeVariant::Choice(_))
        || o matches Some(MetaTypeVariant::Sequence(_))
}

/// `n` is the group variant `o` with other elements, or a new sequence if `o` is no group.
pub open spec fn group_kept(o: Option<MetaTypeVariant>, n: Option<MetaTypeVariant>) -> bool {
    match (o, n) {
        (Some(MetaTypeVariant::All(a)), Some(MetaTypeVariant::All(b))) => a.is_mixed == b.is_mixed,
        (Some(MetaTypeVariant::Choice(a)), Some(MetaTypeVariant::Choice(b))) => a.is_mixed
            == b.is_mixed,
        (Some(MetaTypeVariant::Sequence(a)), Some(MetaTypeVariant::Sequence(b))) => a.is_mixed
            == b.is_mixed,
        (_, Some(MetaTypeVariant::Sequence(b))) => !holds_group(o) && !b.is_mixed,
        _ => false,
    }
}

/// `true` if an element `ident` can be referenced: if it exists, it refers to an element (not
/// to an inlined group or to `xs:any`).
pub open spec fn can_reference_element(s: Seq<ElementMeta>, ident: TypeIdentView) -> bool {
    let i = first_with_ident(s, ident, 0);
    i < s.len() ==> (s[i].variant matches ElementMetaVariant::Type { mode, .. } && mode
        == ElementMode::Element)
}

/// `e` is `o` after a reference to it was applied: the occurrences are set, the nillability
/// is set if it is given, and the documentation is appended.
pub open spec fn element_updated(
    o: ElementMeta,
    e: ElementMeta,
    min: usize,
    max: MaxOccurs,
    nillable: Option<bool>,
    docs: Seq<String>,
) -> bool {
    &&& e.ident == o.ident
    &&& e.variant == o.variant
    &&& e.form == o.form
    &&& e.display_name == o.display_name
    &&& e.min_occurs == min
    &&& e.max_occurs == max
    &&& e.nillable == match nillable {
        Some(v) => v,
        None => o.nillable,
    }
    &&& e.documentation@ == o.documentation@ + docs
}

/// `new` is `old` after the element `ident` of the type `type_` was referenced: an existing
/// element with that identifier is updated, else a new one is appended and updated.
pub open spec fn element_referenced(
    old: Seq<ElementMeta>,
    new: Seq<ElementMeta>,
    ident: TypeIdent,
    type_: TypeIdent,
    form: FormChoiceType,
    min: usize,
    max: MaxOccurs,
    nillable: Option<bool>,
    docs: Seq<String>,
) -> bool {
    let i = first_with_ident(old, ident@, 0);
    if i < old.len() {
        &&& new.len() == old.len()
        &&& forall|j: int| 0 <= j < old.len() && j != i ==> #[trigger] new[j] == old[j]
        &&& element_updated(old[i], new[i], min, max, nillable, docs)
    } else {
        let e = new.last();
        &&& new.len() == old.len() + 1
        &&& new.drop_last() == old
        &&& e.ident == ident
        &&& e.variant == (ElementMetaVariant::Type { type_: type_, mode: ElementMode::Element })
        &&& e.form == form
        &&& e.display_name is None
        &&& e.min_occurs == min
        &&& e.max_occurs == max
        &&& e.nillable == match nillable {
            Some(v) => v,
            None => false,
        }
        &&& e.documentation@ == docs
    }
}

/// `true` if the builder's variant can hold attributes: it is a complex type, there is none,
/// or it is not fixed (and is replaced by a complex type).
pub open spec fn can_hold_attributes(o: Option<MetaTypeVariant>, fixed: bool) -> bool {
    match o {
        None => true,
        Some(MetaTypeVariant::ComplexType(_)) => true,
        Some(_) => !fixed,
    }
}

/// Position of the first attribute of `s` with the identifier `k`, from `start` on (the
/// length if there is none).
pub open spec fn first_attribute_with_ident(s: Seq<AttributeMeta>, k: TypeIdentView, start: int) -> int
    decreases s.len() - start,
{
    if start < 0 || start >= s.len() {
        s.len() as int
    } else if s[start].ident@ == k {
        start
    } else {
        first_attribute_with_ident(s, k, start + 1)
    }
}

/// The attributes of the complex type the variant `o` holds (none if it is none).
pub open spec fn held_attributes(o: Option<MetaTypeVariant>) -> Seq<AttributeMeta> {
    match o {
        Some(MetaTypeVariant::ComplexType(c)) => c.attributes.0@,
        _ => Seq::empty(),
    }
}

/// `n` is the complex type `o` with other attributes, or a new complex type if `o` is none.
pub open spec fn complex_kept(o: Option<MetaTypeVariant>, n: Option<MetaTypeVariant>) -> bool {
    match (o, n) {
        (Some(MetaTypeVariant::ComplexType(a)), Some(MetaTypeVariant::ComplexType(b))) => {
            &&& a.base == b.base
            &&& a.content == b.content
            &&& a.min_occurs == b.min_occurs
            &&& a.max_occurs == b.max_occurs
            &&& a.is_dynamic == b.is_dynamic
            &&& a.is_mixed == b.is_mixed
        },
        (_, Some(MetaTypeVariant::ComplexType(b))) => {
            &&& !(o matches Some(MetaTypeVariant::ComplexType(_)))
            &&& b.base is NoBase
            &&& b.content is None
            &&& b.min_occurs == 1
            &&& b.max_occurs == MaxOccurs::Bounded(1)
            &&& !b.is_dynamic
            &&& !b.is_mixed
        },
        _ => false,
    }
}

/// `new` is `old` where the attribute `a` is added unless one with its identifier exists;
/// returns its position in `p`.
pub open spec fn attribute_found_or_inserted(
    old: Seq<AttributeMeta>,
    new: Seq<AttributeMeta>,
    a: AttributeMeta,
    p: int,
) -> bool {
    let i = first_attribute_with_ident(old, a.ident@, 0);
    if i < old.len() {
        &&& new == old
        &&& p == i
    } else {
        &&& new == old.push(a)
        &&& p == old.len()
    }
}

/// `e` is the attribute `o` after a reference to it was applied: its use is set, its default
/// is set if one is given, and the documentation is appended.
pub open spec fn attribute_updated(
    o: AttributeMeta,
    e: AttributeMeta,
    use_: Use,
    default: Option<String>,
    docs: Seq<String>,
) -> bool {
    &&& e.ident == o.ident
    &&& e.variant == o.variant
    &&& e.form == o.form
    &&& e.display_name == o.display_name
    &&& e.use_ == use_
    &&& e.default == match default {
        Some(d) => Some(d),
        None => o.default,
    }
    &&& e.documentation@ == o.documentation@ + docs
}

/// `new` is `old` after the attribute `ident` of the type `type_` was referenced: an existing
/// attribute with that identifier is updated, else a new one is appended and updated.
pub open spec fn attribute_referenced(
    old: Seq<AttributeMeta>,
    new: Seq<AttributeMeta>,
    ident: TypeIdent,
    type_: TypeIdent,
    form: FormChoiceType,
    use_: Use,
    default: Option<String>,
    docs: Seq<String>,
) -> bool {
    let i = first_attribute_with_ident(old, ident@, 0);
    if i < old.len() {
        &&& new.len() == old.len()
        &&& forall|j: int| 0 <= j < old.len() && j != i ==> #[trigger] new[j] == old[j]
        &&& attribute_updated(old[i], new[i], use_, default, docs)
    } else {
        let e = new.last();
        &&& new.len() == old.len() + 1
        &&& new.drop_last() == old
        &&& e.ident == ident
        &&& e.variant == AttributeMetaVariant::Type(type_)
        &&& e.form == form
        &&& e.display_name is None
        &&& e.use_ == use_
        &&& e.default == default
        &&& e.documentation@ == docs
    }
}

proof fn lemma_first_attribute_bounds(s: Seq<AttributeMeta>, k: TypeIdentView, start: int)
    requires
        0 <= start,
    ensures
        0 <= first_attribute_with_ident(s, k, start) <= s.len(),
    decreases s.len() - start,
{
    if start < s.len() && s[start].ident@ != k {
        lemma_first_attribute_bounds(s, k, start + 1);
    }
}

proof fn lemma_first_element_bounds(s: Seq<ElementMeta>, k: TypeIdentView, start: int)
    requires
        0 <= start,
    ensures
        0 <= first_with_ident(s, k, start) <= s.len(),
    decreases s.len() - start,
{
    if start < s.len() && s[start].ident@ != k {
        lemma_first_element_bounds(s, k, start + 1);
    }
}

/// Returns the position of the first of the elements `v` with the identifier `ident`.
fn element_position(v: &Vec<ElementMeta>, ident: &TypeIdent) -> (r: usize)
    ensures
        r == first_with_ident(v@, ident@, 0),
{
    let mut i: usize = 0;
    while i < v.len()
        invariant
            i <= v@.len(),
            first_with_ident(v@, ident@, 0) == first_with_ident(v@, ident@, i as int),
        decreases v@.len() - i,
    {
        if v[i].ident.is_same(ident) {
            return i;
        }
        i = i + 1;
    }
    i
}

/// Returns the position of the first of the attributes `v` with the identifier `ident`.
fn attribute_position(v: &Vec<AttributeMeta>, ident: &TypeIdent) -> (r: usize)
    ensures
        r == first_attribute_with_ident(v@, ident@, 0),
{
    let mut i: usize = 0;
    while i < v.len()
        invariant
            i <= v@.len(),
            first_attribute_with_ident(v@, ident@, 0) == first_attribute_with_ident(
                v@,
                ident@,
                i as int,
            ),
        decreases v@.len() - i,
    {
        if v[i].ident.is_same(ident) {
            return i;
        }
        i = i + 1;
    }
    i
}

/// Applies a reference to the element `ident` of the type `type_` to the elements `v`.
fn reference_element(
    v: &mut Vec<ElementMeta>,
    ident: TypeIdent,
    type_: TypeIdent,
    form: FormChoiceType,
    min_occurs: usize,
    max_occurs: MaxOccurs,
    nillable: Option<bool>,
    docs: &Vec<String>,
)
    ensures
        element_referenced(
            old(v)@,
            final(v)@,
            ident,
            type_,
            form,
            min_occurs,
            max_occurs,
            nillable,
            docs@,
        ),
{
    let i = element_position(v, &ident);
    proof {
        lemma_first_element_bounds(old(v)@, ident@, 0);
    }
    let found = i < v.len();
    let mut e = if found {
        v.remove(i)
    } else {
        ElementMeta::new(ident, type_, ElementMode::Element, form)
    };
    e.min_occurs = min_occurs;
    e.max_occurs = max_occurs;
    if let Some(n) = nillable {
        e.nillable = n;
    }
    append_strings(&mut e.documentation, docs);
    if found {
        v.insert(i, e);
        assert forall|j: int| 0 <= j < old(v)@.len() && j != i implies #[trigger] v@[j]
            == old(v)@[j] by {}
    } else {
        v.push(e);
        assert(v@.drop_last() =~= old(v)@);
    }
}

impl VariantBuilder {
    /// Adds a reference to the element `ident` of the type `type_` to the group of the
    /// constructed type (which becomes a sequence if it is no group yet): an existing element
    /// with that identifier is updated, else a new one is added. The element gets the
    /// occurrences `min_occurs` and `max_occurs`, the nillability `nillable` if it is given,
    /// and the documentation `docs`.
    pub fn apply_element_ref(
        &mut self,
        ident: TypeIdent,
        type_: TypeIdent,
        form: FormChoiceType,
        min_occurs: usize,
        max_occurs: MaxOccurs,
        nillable: Option<bool>,
        docs: &Vec<String>,
    )
        requires
            can_hold_elements(old(self).variant, old(self).fixed),
            can_reference_element(held_elements(old(self).variant), ident@),
        ensures
            group_kept(old(self).variant, final(self).variant),
            element_referenced(
                held_elements(old(self).variant),
                held_elements(final(self).variant),
                ident,
                type_,
                form,
                min_occurs,
                max_occurs,
                nillable,
                docs@,
            ),
            final(self).fixed == (old(self).fixed || !holds_group(old(self).variant)),
            final(self).type_mode == old(self).type_mode,
            final(self).content_mode == old(self).content_mode,
            final(self).documentation == old(self).documentation,
            final(self).is_simple_content_unique == old(self).is_simple_content_unique,
    {
        let v = self.variant.take();
        match v {
            Some(MetaTypeVariant::All(g)) => {
                let mut g = g;
                reference_element(&mut g.elements.0, ident, type_, form, min_occurs, max_occurs, nillable, docs);
                self.variant = Some(MetaTypeVariant::All(g));
            },
            Some(MetaTypeVariant::Choice(g)) => {
                let mut g = g;
                reference_element(&mut g.elements.0, ident, type_, form, min_occurs, max_occurs, nillable, docs);
                self.variant = Some(MetaTypeVariant::Choice(g));
            },
            Some(MetaTypeVariant::Sequence(g)) => {
                let mut g = g;
                reference_element(&mut g.elements.0, ident, type_, form, min_occurs, max_occurs, nillable, docs);
                self.variant = Some(MetaTypeVariant::Sequence(g));
            },
            _ => {
                let mut g = GroupMeta::default();
                assert(g.elements.0@ =~= held_elements(v));
                reference_element(&mut g.elements.0, ident, type_, form, min_occurs, max_occurs, nillable, docs);
                self.variant = Some(MetaTypeVariant::Sequence(g));
                self.fixed = true;
            },
        }
    }

    /// Adds a reference to the attribute `ident` of the type `type_` to the constructed
    /// complex type (which is created if there is none yet): an existing attribute with that
    /// identifier is updated, else a new optional one is added. The attribute gets the use
    /// `use_`, the default value `default` if it is given, and the documentation `docs`.
    pub fn apply_attribute_ref(
        &mut self,
        ident: TypeIdent,
        type_: TypeIdent,
        form: FormChoiceType,
        use_: Use,
        default: Option<String>,
        docs: &Vec<String>,
    )
        requires
            can_hold_attributes(old(self).variant, old(self).fixed),
        ensures
            complex_kept(old(self).variant, final(self).variant),
            attribute_referenced(
                held_attributes(old(self).variant),
                held_attributes(final(self).variant),
                ident,
                type_,
                form,
                use_,
                default,
                docs@,
            ),
            final(self).fixed == (old(self).fixed || !(old(self).variant matches Some(
                MetaTypeVariant::ComplexType(_),
            ))),
            final(self).type_mode == old(self).type_mode,
            final(self).content_mode == old(self).content_mode,
            final(self).documentation == old(self).documentation,
            final(self).is_simple_content_unique == old(self).is_simple_content_unique,
    {
        let mut ci = self.take_complex();
        let ghost old_attrs = ci.attributes.0@;
        let i = attribute_position(&ci.attributes.0, &ident);
        proof {
            lemma_first_attribute_bounds(old_attrs, ident@, 0);
        }
        let found = i < ci.attributes.0.len();
        let mut a = if found {
            ci.attributes.0.remove(i)
        } else {
            AttributeMeta::new(ident, type_, form)
        };
        a.use_ = use_;
        if let Some(d) = default {
            a.default = Some(d);
        }
        append_strings(&mut a.documentation, docs);
        if found {
            ci.attributes.0.insert(i, a);
            assert forall|j: int| 0 <= j < old_attrs.len() && j != i implies #[trigger] ci.attributes.0@[j]
                == old_attrs[j] by {}
        } else {
            ci.attributes.0.push(a);
            assert(ci.attributes.0@.drop_last() =~= old_attrs);
        }
        self.variant = Some(MetaTypeVariant::ComplexType(ci));
    }

    /// Adds the `xs:anyAttribute` `ident` to the constructed complex type (which is created if
    /// there is none yet), unless an attribute with that identifier exists.
    pub fn apply_any_attribute(&mut self, ident: TypeIdent, any: AnyAttributeMeta)
        requires
            can_hold_attributes(old(self).variant, old(self).fixed),
        ensures
            complex_kept(old(self).variant, final(self).variant),
            ({
                let old_attrs = held_attributes(old(self).variant);
                let new_attrs = held_attributes(final(self).variant);
                let i = first_attribute_with_ident(old_attrs, ident@, 0);
                if i < old_attrs.len() {
                    new_attrs == old_attrs
                } else {
                    &&& new_attrs.drop_last() == old_attrs
                    &&& new_attrs.len() == old_attrs.len() + 1
                    &&& new_attrs.last().ident == ident
                    &&& new_attrs.last().variant == AttributeMetaVariant::Any(any)
                    &&& new_attrs.last().form == FormChoiceType::Unqualified
                    &&& new_attrs.last().use_ == Use::Optional
                    &&& new_attrs.last().default is None
                    &&& new_attrs.last().display_name is None
                    &&& new_attrs.last().documentation@.len() == 0
                }
            }),
            final(self).fixed == (old(self).fixed || !(old(self).variant matches Some(
                MetaTypeVariant::ComplexType(_),
            ))),
            final(self).type_mode == old(self).type_mode,
            final(self).content_mode == old(self).content_mode,
            final(self).documentation == old(self).documentation,
            final(self).is_simple_content_unique == old(self).is_simple_content_unique,
    {
        let mut ci = self.take_complex();
        let ghost old_attrs = ci.attributes.0@;
        let i = attribute_position(&ci.attributes.0, &ident);
        proof {
            lemma_first_attribute_bounds(old_attrs, ident@, 0);
        }
        if i >= ci.attributes.0.len() {
            ci.attributes.0.push(AttributeMeta::any(ident, any));
            assert(ci.attributes.0@.drop_last() =~= old_attrs);
        }
        self.variant = Some(MetaTypeVariant::ComplexType(ci));
    }

    /// Takes the complex type out of the builder's variant: a new one if the variant is no
    /// complex type (the variant is fixed then).
    fn take_complex(&mut self) -> (r: ComplexMeta)
        ensures
            final(self).variant is None,
            complex_kept(old(self).variant, Some(MetaTypeVariant::ComplexType(r))),
            r.attributes.0@ == held_attributes(old(self).variant),
            final(self).fixed == (old(self).fixed || !(old(self).variant matches Some(
                MetaTypeVariant::ComplexType(_),
            ))),
            final(self).type_mode == old(self).type_mode,
            final(self).content_mode == old(self).content_mode,
            final(self).documentation == old(self).documentation,
            final(self).is_simple_content_unique == old(self).is_simple_content_unique,
    {
        let v = self.variant.take();
        match v {
            Some(MetaTypeVariant::ComplexType(ci)) => ci,
            _ => {
                self.fixed = true;
                ComplexMeta::default()
            },
        }
    }

    /// Sets the base of a restricted union, enumeration or complex type to `base`; other
    /// simple types keep their variant.
    pub fn apply_restriction_base(&mut self, base: TypeIdent)
        requires
            old(self).variant is Some,
            ({
                let v = old(self).variant.unwrap();
                v is BuildIn || v is Reference || v is SimpleType || v is Union || v is Enumeration
                    || v is ComplexType
            }),
        ensures
            match (old(self).variant, final(self).variant) {
                (Some(MetaTypeVariant::Union(a)), Some(MetaTypeVariant::Union(b))) => b
                    == (crate::models::meta::UnionMeta { base: Base::Extension(base), ..a }),
                (
                    Some(MetaTypeVariant::Enumeration(a)),
                    Some(MetaTypeVariant::Enumeration(b)),
                ) => b == (crate::models::meta::EnumerationMeta { base: Base::Extension(base), ..a }),
                (
                    Some(MetaTypeVariant::ComplexType(a)),
                    Some(MetaTypeVariant::ComplexType(b)),
                ) => b == (ComplexMeta { base: Base::Extension(base), ..a }),
                (o, n) => {
                    &&& o == n
                    &&& !(o matches Some(MetaTypeVariant::Union(_)))
                    &&& !(o matches Some(MetaTypeVariant::Enumeration(_)))
                    &&& !(o matches Some(MetaTypeVariant::ComplexType(_)))
                },
            },
            final(self).fixed == old(self).fixed,
            final(self).type_mode == old(self).type_mode,
            final(self).content_mode == old(self).content_mode,
            final(self).documentation == old(self).documentation,
            final(self).is_simple_content_unique == old(self).is_simple_content_unique,
    {
        let v = self.variant.take();
        self.variant = match v {
            Some(MetaTypeVariant::Union(u)) => {
                let mut u = u;
                u.base = Base::Extension(base);
                Some(MetaTypeVariant::Union(u))
            },
            Some(MetaTypeVariant::Enumeration(e)) => {
                let mut e = e;
                e.base = Base::Extension(base);
                Some(MetaTypeVariant::Enumeration(e))
            },
            Some(MetaTypeVariant::ComplexType(c)) => {
                let mut c = c;
                c.base = Base::Extension(base);
                Some(MetaTypeVariant::ComplexType(c))
            },
            other => other,
        };
    }
}

/// Returns `true` if a restriction of the type named `name` restricts binary data, whose
/// length facets count bytes (`hexBinary` or `base64Binary`).
pub fn is_binary_base(name: &str) -> (r: bool)
    ensures
        r == (name@ == "hexBinary"@ || name@ == "base64Binary"@),
{
    crate::text::str_eq(name, "hexBinary") || crate::text::str_eq(name, "base64Binary")
}

} // verus!
