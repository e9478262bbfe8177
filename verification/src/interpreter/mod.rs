//! The [`Interpreter`] that turns parsed schemas into type information.
//!
//! The interpreter collects [`MetaTypes`]: build-in types, type definitions of the common
//! XML types and custom types, each stored under its [`TypeIdent`].

pub mod attribute;
pub mod base_type;
pub mod complex_content;
pub mod element;
pub mod element_decl;
pub mod elements;
pub mod error;
pub mod group_cache;
pub mod members;
pub mod modes;
pub mod simple_content;
pub mod variant_builder;

use vstd::prelude::*;

use crate::models::ident::{
    type_ident_view, IdentType, Name, NamespaceId, SchemaId, TypeIdent, TypeIdentView,
};
use crate::models::meta::{
    AnyAttributeMeta, AnyMeta, AttributeMeta, BuildInMeta, ComplexMeta,
    CustomDefault, CustomMeta, CustomMetaNamespace, ElementMeta, FormChoiceType, GroupMeta,
    MaxOccurs, MetaType, MetaTypeVariant, MetaTypes, ProcessContentsType, ReferenceMeta,
    SimpleMeta, Use, default_constrains_view,
};
use crate::models::schema::{xs_uri, xsi_uri, Namespace, Schemas};
use crate::text::{type_name_from_path, type_name_of_path};

use self::error::InterpreterError;

verus! {

/// The shape a type added by the interpreter has.
pub enum TypeShape {
    /// A build-in type.
    BuildIn(BuildInMeta),
    /// A reference to the type `target` that occurs `min_occurs` to `max_occurs` times.
    Reference { target: TypeIdentView, min_occurs: usize, max_occurs: MaxOccurs },
    /// A custom type named `name`, included from `path`, whose default value is parsed
    /// by `FromStr` of the type at `path`.
    FromStrCustom { name: Seq<char>, path: Seq<char> },
}

/// `true` if the type `t` has the shape `s` (and no further information).
pub open spec fn has_shape(t: MetaType, s: TypeShape) -> bool {
    &&& t.form is None
    &&& t.schema is None
    &&& t.display_name is None
    &&& t.documentation@.len() == 0
    &&& match s {
        TypeShape::BuildIn(b) => t.variant == MetaTypeVariant::BuildIn(b),
        TypeShape::Reference { target, min_occurs, max_occurs } => t.variant matches MetaTypeVariant::Reference(
            r,
        ) && r.type_@ == target && !r.nillable && r.min_occurs == min_occurs && r.max_occurs
            == max_occurs,
        TypeShape::FromStrCustom { name, path } => t.variant matches MetaTypeVariant::Custom(c)
            && c.name@ == name && (c.include_path matches Some(p) && p@ == path) && (
        c.default matches Some(CustomDefault::FromStr(d)) && d@ == path) && c.namespaces@.len()
            == 0,
    }
}

/// Position of the last entry of `entries` with the identifier `k` (`-1` if there is none).
pub open spec fn last_index(entries: Seq<(TypeIdentView, TypeShape)>, k: TypeIdentView) -> int
    decreases entries.len(),
{
    if entries.len() == 0 {
        -1
    } else if entries.last().0 == k {
        entries.len() - 1
    } else {
        last_index(entries.drop_last(), k)
    }
}

/// `new` is `old` with the types of `entries` added in order: each identifier of `entries`
/// holds a type of the shape of its last entry, all other types are kept.
pub open spec fn entries_applied(
    old: Map<TypeIdentView, MetaType>,
    new: Map<TypeIdentView, MetaType>,
    entries: Seq<(TypeIdentView, TypeShape)>,
) -> bool {
    &&& forall|k: TypeIdentView| #[trigger]
        new.contains_key(k) <==> old.contains_key(k) || last_index(entries, k) >= 0
    &&& forall|k: TypeIdentView|
        #[trigger] new.contains_key(k) && last_index(entries, k) >= 0 ==> has_shape(
            new[k],
            entries[last_index(entries, k)].1,
        )
    &&& forall|k: TypeIdentView| #[trigger]
        new.contains_key(k) && last_index(entries, k) < 0 ==> new[k] == old[k]
}

/// Properties of [`last_index`].
proof fn lemma_last_index(entries: Seq<(TypeIdentView, TypeShape)>, k: TypeIdentView)
    ensures
        -1 <= last_index(entries, k) < entries.len(),
        last_index(entries, k) >= 0 ==> entries[last_index(entries, k)].0 == k,
    decreases entries.len(),
{
    if entries.len() > 0 && entries.last().0 != k {
        lemma_last_index(entries.drop_last(), k);
    }
}

/// Adding one more entry keeps [`entries_applied`].
proof fn lemma_entries_step(
    old: Map<TypeIdentView, MetaType>,
    cur: Map<TypeIdentView, MetaType>,
    entries: Seq<(TypeIdentView, TypeShape)>,
    i: int,
    t: MetaType,
)
    requires
        0 <= i < entries.len(),
        entries_applied(old, cur, entries.take(i)),
        has_shape(t, entries[i].1),
    ensures
        entries_applied(old, cur.insert(entries[i].0, t), entries.take(i + 1)),
{
    let next = cur.insert(entries[i].0, t);
    let e1 = entries.take(i + 1);
    assert(e1.drop_last() =~= entries.take(i));
    assert(e1.last() == entries[i]);
    assert forall|k: TypeIdentView| #[trigger] next.contains_key(k) implies (last_index(e1, k)
        >= 0 ==> has_shape(next[k], e1[last_index(e1, k)].1)) && (last_index(e1, k) < 0
        ==> next[k] == old[k]) by {
        if k != entries[i].0 {
            lemma_last_index(entries.take(i), k);
            assert(last_index(e1, k) == last_index(entries.take(i), k));
            if last_index(e1, k) >= 0 {
                assert(e1[last_index(e1, k)] == entries.take(i)[last_index(e1, k)]);
            }
        }
    }
    assert forall|k: TypeIdentView| #[trigger]
        next.contains_key(k) <==> old.contains_key(k) || last_index(e1, k) >= 0 by {
        if k != entries[i].0 {
            assert(last_index(e1, k) == last_index(entries.take(i), k));
        }
    }
}

/// Adds the types `metas` under the identifiers `idents`, in order.
fn add_entries(
    types: &mut MetaTypes,
    idents: Vec<TypeIdent>,
    metas: Vec<MetaType>,
    Ghost(entries): Ghost<Seq<(TypeIdentView, TypeShape)>>,
)
    requires
        old(types).wf(),
        idents@.len() == entries.len(),
        metas@.len() == entries.len(),
        forall|i: int| 0 <= i < entries.len() ==> (#[trigger] idents@[i])@ == entries[i].0,
        forall|i: int| 0 <= i < entries.len() ==> has_shape(#[trigger] metas@[i], entries[i].1),
    ensures
        final(types).wf(),
        entries_applied(old(types)@, final(types)@, entries),
{
    let ghost start = types@;
    let ghost n = entries.len();
    let mut idents = idents;
    let mut metas = metas;
    let ghost orig_idents = idents@;
    let ghost orig_metas = metas@;
    assert(entries.take(0) =~= Seq::<(TypeIdentView, TypeShape)>::empty());
    assert(types@ =~= start);
    assert(orig_idents.skip(0) =~= orig_idents);
    assert(orig_metas.skip(0) =~= orig_metas);
    while idents.len() > 0
        invariant
            types.wf(),
            idents@.len() == metas@.len(),
            idents@.len() <= n,
            n == entries.len(),
            orig_idents.len() == n,
            orig_metas.len() == n,
            idents@ == orig_idents.skip(n - idents@.len()),
            metas@ == orig_metas.skip(n - metas@.len()),
            forall|i: int| 0 <= i < n ==> (#[trigger] orig_idents[i])@ == entries[i].0,
            forall|i: int| 0 <= i < n ==> has_shape(#[trigger] orig_metas[i], entries[i].1),
            entries_applied(start, types@, entries.take(n - idents@.len())),
        decreases idents@.len(),
    {
        let ghost done = n - idents@.len();
        let ghost bi = idents@;
        let ghost bm = metas@;
        let ident = idents.remove(0);
        let meta = metas.remove(0);
        assert(ident == orig_idents[done]);
        assert(meta == orig_metas[done]);
        let ghost cur = types@;
        types.insert(ident, meta);
        proof {
            lemma_entries_step(start, cur, entries, done, meta);
            assert(idents@ =~= bi.drop_first());
            assert(metas@ =~= bm.drop_first());
            assert(idents@ =~= orig_idents.skip(n - idents@.len()));
            assert(metas@ =~= orig_metas.skip(n - metas@.len()));
        }
    }
    assert(entries.take(n as int) =~= entries);
}

/// Identifier of the build-in type `name` in the namespace `ns`.
pub open spec fn build_in_view(ns: NamespaceId, name: Seq<char>) -> TypeIdentView {
    TypeIdentView {
        ns: ns,
        schema: SchemaId(SchemaId::UNKNOWN),
        name: name,
        type_: IdentType::BuildIn,
    }
}

/// The build-in types: the name of each and the type it is.
pub open spec fn build_in_table() -> Seq<(&'static str, BuildInMeta)> {
    seq![
        ("u8", BuildInMeta::U8),
        ("u16", BuildInMeta::U16),
        ("u32", BuildInMeta::U32),
        ("u64", BuildInMeta::U64),
        ("u128", BuildInMeta::U128),
        ("usize", BuildInMeta::Usize),
        ("i8", BuildInMeta::I8),
        ("i16", BuildInMeta::I16),
        ("i32", BuildInMeta::I32),
        ("i64", BuildInMeta::I64),
        ("i128", BuildInMeta::I128),
        ("isize", BuildInMeta::Isize),
        ("f32", BuildInMeta::F32),
        ("f64", BuildInMeta::F64),
        ("bool", BuildInMeta::Bool),
        ("str", BuildInMeta::Str),
        ("String", BuildInMeta::String),
    ]
}

/// The types [`Interpreter::with_buildin_types`] adds, with the anonymous namespace `anon`.
pub open spec fn build_in_entries(anon: NamespaceId) -> Seq<(TypeIdentView, TypeShape)> {
    build_in_table().map_values(
        |e: (&'static str, BuildInMeta)| (build_in_view(anon, e.0@), TypeShape::BuildIn(e.1)),
    )
}

/// The type definitions of the common XML types: the name of the XML type, the name of the
/// build-in type it refers to, and whether it is a list.
pub open spec fn default_typedef_table() -> Seq<(&'static str, &'static str, bool)> {
    seq![
        ("string", "String", false),
        ("boolean", "bool", false),
        ("decimal", "f64", false),
        ("float", "f32", false),
        ("double", "f64", false),
        ("duration", "String", false),
        ("dateTime", "String", false),
        ("time", "String", false),
        ("date", "String", false),
        ("gYearMonth", "String", false),
        ("gYear", "String", false),
        ("gMonthDay", "String", false),
        ("gMonth", "String", false),
        ("gDay", "String", false),
        ("hexBinary", "String", false),
        ("base64Binary", "String", false),
        ("anyURI", "String", false),
        ("QName", "String", false),
        ("NOTATION", "String", false),
        ("long", "i64", false),
        ("int", "i32", false),
        ("integer", "i32", false),
        ("short", "i16", false),
        ("byte", "i8", false),
        ("negativeInteger", "isize", false),
        ("nonPositiveInteger", "isize", false),
        ("unsignedLong", "u64", false),
        ("unsignedInt", "u32", false),
        ("unsignedShort", "u16", false),
        ("unsignedByte", "u8", false),
        ("positiveInteger", "usize", false),
        ("nonNegativeInteger", "usize", false),
        ("normalizedString", "String", false),
        ("token", "String", false),
        ("language", "String", false),
        ("NMTOKEN", "String", false),
        ("Name", "String", false),
        ("NCName", "String", false),
        ("ID", "String", false),
        ("IDREF", "String", false),
        ("ENTITY", "String", false),
        ("anySimpleType", "String", false),
        ("NMTOKENS", "String", true),
        ("IDREFS", "String", true),
        ("ENTITIES", "String", true),
    ]
}

/// The shape of a reference to the build-in type `target` in `anon` (a list if `is_list`).
pub open spec fn typedef_shape(anon: NamespaceId, target: Seq<char>, is_list: bool) -> TypeShape {
    TypeShape::Reference {
        target: build_in_view(anon, target),
        min_occurs: if is_list { 0 } else { 1 },
        max_occurs: if is_list { MaxOccurs::Unbounded } else { MaxOccurs::Bounded(1) },
    }
}

/// The types [`Interpreter::with_default_typedefs`] adds.
pub open spec fn default_typedef_entries(xs: NamespaceId, anon: NamespaceId) -> Seq<
    (TypeIdentView, TypeShape),
> {
    default_typedef_table().map_values(
        |e: (&'static str, &'static str, bool)|
            (type_ident_view(xs, e.0@), typedef_shape(anon, e.1@, e.2)),
    )
}

/// `true` if the types `types` hold the type `name` of the namespace `xs` as a reference to
/// exactly one value of the build-in type `target` of the namespace `anon`.
pub open spec fn refers_to_build_in(
    types: Map<TypeIdentView, MetaType>,
    xs: NamespaceId,
    anon: NamespaceId,
    name: Seq<char>,
    target: Seq<char>,
) -> bool {
    let k = type_ident_view(xs, name);
    &&& types.contains_key(k)
    &&& types[k].variant matches MetaTypeVariant::Reference(r)
    &&& types[k].variant->Reference_0.type_@ == build_in_view(anon, target)
    &&& types[k].variant->Reference_0.min_occurs == 1
    &&& types[k].variant->Reference_0.max_occurs == MaxOccurs::Bounded(1)
}

/// `true` if the types `types` hold the type `name` of the namespace `xs` as a list of any
/// number of values of the build-in type `target` of the namespace `anon`.
pub open spec fn lists_build_in(
    types: Map<TypeIdentView, MetaType>,
    xs: NamespaceId,
    anon: NamespaceId,
    name: Seq<char>,
    target: Seq<char>,
) -> bool {
    let k = type_ident_view(xs, name);
    &&& types.contains_key(k)
    &&& types[k].variant matches MetaTypeVariant::Reference(r)
    &&& types[k].variant->Reference_0.type_@ == build_in_view(anon, target)
    &&& types[k].variant->Reference_0.min_occurs == 0
    &&& types[k].variant->Reference_0.max_occurs == MaxOccurs::Unbounded
}

/// The last entry of `entries` with the identifier `k` is the one at `i` if no later entry
/// has that identifier.
proof fn lemma_last_index_at(entries: Seq<(TypeIdentView, TypeShape)>, k: TypeIdentView, i: int)
    requires
        0 <= i < entries.len(),
        entries[i].0 == k,
        forall|j: int| i < j < entries.len() ==> (#[trigger] entries[j]).0 != k,
    ensures
        last_index(entries, k) == i,
    decreases entries.len(),
{
    if entries.len() - 1 != i {
        let d = entries.drop_last();
        assert forall|j: int| i < j < d.len() implies (#[trigger] d[j]).0 != k by {
            assert(d[j] == entries[j]);
        }
        lemma_last_index_at(d, k, i);
    }
}

/// The default typedef of the XML type at position `i` of the table, if no later row names
/// the same XML type, is what the types hold after the typedefs were added.
proof fn lemma_default_typedef_row(
    old: Map<TypeIdentView, MetaType>,
    new: Map<TypeIdentView, MetaType>,
    xs: NamespaceId,
    anon: NamespaceId,
    i: int,
)
    requires
        entries_applied(old, new, default_typedef_entries(xs, anon)),
        0 <= i < default_typedef_table().len(),
        forall|j: int|
            i < j < default_typedef_table().len() ==> (#[trigger] default_typedef_table()[j]).0@
                != default_typedef_table()[i].0@,
    ensures
        !default_typedef_table()[i].2 ==> refers_to_build_in(
            new,
            xs,
            anon,
            default_typedef_table()[i].0@,
            default_typedef_table()[i].1@,
        ),
        default_typedef_table()[i].2 ==> lists_build_in(
            new,
            xs,
            anon,
            default_typedef_table()[i].0@,
            default_typedef_table()[i].1@,
        ),
{
    let t = default_typedef_table();
    let e = default_typedef_entries(xs, anon);
    let k = type_ident_view(xs, t[i].0@);
    assert forall|j: int| i < j < e.len() implies (#[trigger] e[j]).0 != k by {
        assert(e[j].0 == type_ident_view(xs, t[j].0@));
    }
    lemma_last_index_at(e, k, i);
    assert(new.contains_key(k));
}

/// The default typedefs give each XML type the build-in type that holds its values: each
/// fixed-width integer type the integer type of its width and sign (`xs:long` is `i64`,
/// `xs:int` is `i32`, `xs:short` is `i16`, `xs:byte` is `i8`, and their unsigned forms `u64`,
/// `u32`, `u16`, `u8`), `xs:integer` the `i32`, the integer types bounded on one side the
/// pointer-sized integers of their sign, `xs:float` the `f32`, `xs:double` and `xs:decimal`
/// the `f64`, `xs:boolean` the `bool`, the other types the `String`, and the list types
/// (`xs:NMTOKENS`, `xs:IDREFS`, `xs:ENTITIES`) lists of `String`.
pub proof fn law_default_typedefs(
    old: Map<TypeIdentView, MetaType>,
    new: Map<TypeIdentView, MetaType>,
    xs: NamespaceId,
    anon: NamespaceId,
)
    requires
        entries_applied(old, new, default_typedef_entries(xs, anon)),
    ensures
        refers_to_build_in(new, xs, anon, "string"@, "String"@),
        refers_to_build_in(new, xs, anon, "boolean"@, "bool"@),
        refers_to_build_in(new, xs, anon, "decimal"@, "f64"@),
        refers_to_build_in(new, xs, anon, "float"@, "f32"@),
        refers_to_build_in(new, xs, anon, "double"@, "f64"@),
        refers_to_build_in(new, xs, anon, "duration"@, "String"@),
        refers_to_build_in(new, xs, anon, "dateTime"@, "String"@),
        refers_to_build_in(new, xs, anon, "time"@, "String"@),
        refers_to_build_in(new, xs, anon, "date"@, "String"@),
        refers_to_build_in(new, xs, anon, "gYearMonth"@, "String"@),
        refers_to_build_in(new, xs, anon, "gYear"@, "String"@),
        refers_to_build_in(new, xs, anon, "gMonthDay"@, "String"@),
        refers_to_build_in(new, xs, anon, "gMonth"@, "String"@),
        refers_to_build_in(new, xs, anon, "gDay"@, "String"@),
        refers_to_build_in(new, xs, anon, "hexBinary"@, "String"@),
        refers_to_build_in(new, xs, anon, "base64Binary"@, "String"@),
        refers_to_build_in(new, xs, anon, "anyURI"@, "String"@),
        refers_to_build_in(new, xs, anon, "QName"@, "String"@),
        refers_to_build_in(new, xs, anon, "NOTATION"@, "String"@),
        refers_to_build_in(new, xs, anon, "long"@, "i64"@),
        refers_to_build_in(new, xs, anon, "int"@, "i32"@),
        refers_to_build_in(new, xs, anon, "integer"@, "i32"@),
        refers_to_build_in(new, xs, anon, "short"@, "i16"@),
        refers_to_build_in(new, xs, anon, "byte"@, "i8"@),
        refers_to_build_in(new, xs, anon, "negativeInteger"@, "isize"@),
        refers_to_build_in(new, xs, anon, "nonPositiveInteger"@, "isize"@),
        refers_to_build_in(new, xs, anon, "unsignedLong"@, "u64"@),
        refers_to_build_in(new, xs, anon, "unsignedInt"@, "u32"@),
        refers_to_build_in(new, xs, anon, "unsignedShort"@, "u16"@),
        refers_to_build_in(new, xs, anon, "unsignedByte"@, "u8"@),
        refers_to_build_in(new, xs, anon, "positiveInteger"@, "usize"@),
        refers_to_build_in(new, xs, anon, "nonNegativeInteger"@, "usize"@),
        refers_to_build_in(new, xs, anon, "normalizedString"@, "String"@),
        refers_to_build_in(new, xs, anon, "token"@, "String"@),
        refers_to_build_in(new, xs, anon, "language"@, "String"@),
        refers_to_build_in(new, xs, anon, "NMTOKEN"@, "String"@),
        refers_to_build_in(new, xs, anon, "Name"@, "String"@),
        refers_to_build_in(new, xs, anon, "NCName"@, "String"@),
        refers_to_build_in(new, xs, anon, "ID"@, "String"@),
        refers_to_build_in(new, xs, anon, "IDREF"@, "String"@),
        refers_to_build_in(new, xs, anon, "ENTITY"@, "String"@),
        refers_to_build_in(new, xs, anon, "anySimpleType"@, "String"@),
        lists_build_in(new, xs, anon, "NMTOKENS"@, "String"@),
        lists_build_in(new, xs, anon, "IDREFS"@, "String"@),
        lists_build_in(new, xs, anon, "ENTITIES"@, "String"@),
{
    reveal_strlit("string");
    reveal_strlit("boolean");
    reveal_strlit("decimal");
    reveal_strlit("float");
    reveal_strlit("double");
    reveal_strlit("duration");
    reveal_strlit("dateTime");
    reveal_strlit("time");
    reveal_strlit("date");
    reveal_strlit("gYearMonth");
    reveal_strlit("gYear");
    reveal_strlit("gMonthDay");
    reveal_strlit("gMonth");
    reveal_strlit("gDay");
    reveal_strlit("hexBinary");
    reveal_strlit("base64Binary");
    reveal_strlit("anyURI");
    reveal_strlit("QName");
    reveal_strlit("NOTATION");
    reveal_strlit("long");
    reveal_strlit("int");
    reveal_strlit("integer");
    reveal_strlit("short");
    reveal_strlit("byte");
    reveal_strlit("negativeInteger");
    reveal_strlit("nonPositiveInteger");
    reveal_strlit("unsignedLong");
    reveal_strlit("unsignedInt");
    reveal_strlit("unsignedShort");
    reveal_strlit("unsignedByte");
    reveal_strlit("positiveInteger");
    reveal_strlit("nonNegativeInteger");
    reveal_strlit("normalizedString");
    reveal_strlit("token");
    reveal_strlit("language");
    reveal_strlit("NMTOKEN");
    reveal_strlit("Name");
    reveal_strlit("NCName");
    reveal_strlit("ID");
    reveal_strlit("IDREF");
    reveal_strlit("ENTITY");
    reveal_strlit("anySimpleType");
    reveal_strlit("NMTOKENS");
    reveal_strlit("IDREFS");
    reveal_strlit("ENTITIES");
    let t = default_typedef_table();
    assert(t[0].0@ == "string"@ && t[0].1@ == "String"@ && t[0].2 == false);
    assert(t[1].0@ == "boolean"@ && t[1].1@ == "bool"@ && t[1].2 == false);
    assert(t[2].0@ == "decimal"@ && t[2].1@ == "f64"@ && t[2].2 == false);
    assert(t[3].0@ == "float"@ && t[3].1@ == "f32"@ && t[3].2 == false);
    assert(t[4].0@ == "double"@ && t[4].1@ == "f64"@ && t[4].2 == false);
    assert(t[5].0@ == "duration"@ && t[5].1@ == "String"@ && t[5].2 == false);
    assert(t[6].0@ == "dateTime"@ && t[6].1@ == "String"@ && t[6].2 == false);
    assert(t[7].0@ == "time"@ && t[7].1@ == "String"@ && t[7].2 == false);
    assert(t[8].0@ == "date"@ && t[8].1@ == "String"@ && t[8].2 == false);
    assert(t[9].0@ == "gYearMonth"@ && t[9].1@ == "String"@ && t[9].2 == false);
    assert(t[10].0@ == "gYear"@ && t[10].1@ == "String"@ && t[10].2 == false);
    assert(t[11].0@ == "gMonthDay"@ && t[11].1@ == "String"@ && t[11].2 == false);
    assert(t[12].0@ == "gMonth"@ && t[12].1@ == "String"@ && t[12].2 == false);
    assert(t[13].0@ == "gDay"@ && t[13].1@ == "String"@ && t[13].2 == false);
    assert(t[14].0@ == "hexBinary"@ && t[14].1@ == "String"@ && t[14].2 == false);
    assert(t[15].0@ == "base64Binary"@ && t[15].1@ == "String"@ && t[15].2 == false);
    assert(t[16].0@ == "anyURI"@ && t[16].1@ == "String"@ && t[16].2 == false);
    assert(t[17].0@ == "QName"@ && t[17].1@ == "String"@ && t[17].2 == false);
    assert(t[18].0@ == "NOTATION"@ && t[18].1@ == "String"@ && t[18].2 == false);
    assert(t[19].0@ == "long"@ && t[19].1@ == "i64"@ && t[19].2 == false);
    assert(t[20].0@ == "int"@ && t[20].1@ == "i32"@ && t[20].2 == false);
    assert(t[21].0@ == "integer"@ && t[21].1@ == "i32"@ && t[21].2 == false);
    assert(t[22].0@ == "short"@ && t[22].1@ == "i16"@ && t[22].2 == false);
    assert(t[23].0@ == "byte"@ && t[23].1@ == "i8"@ && t[23].2 == false);
    assert(t[24].0@ == "negativeInteger"@ && t[24].1@ == "isize"@ && t[24].2 == false);
    assert(t[25].0@ == "nonPositiveInteger"@ && t[25].1@ == "isize"@ && t[25].2 == false);
    assert(t[26].0@ == "unsignedLong"@ && t[26].1@ == "u64"@ && t[26].2 == false);
    assert(t[27].0@ == "unsignedInt"@ && t[27].1@ == "u32"@ && t[27].2 == false);
    assert(t[28].0@ == "unsignedShort"@ && t[28].1@ == "u16"@ && t[28].2 == false);
    assert(t[29].0@ == "unsignedByte"@ && t[29].1@ == "u8"@ && t[29].2 == false);
    assert(t[30].0@ == "positiveInteger"@ && t[30].1@ == "usize"@ && t[30].2 == false);
    assert(t[31].0@ == "nonNegativeInteger"@ && t[31].1@ == "usize"@ && t[31].2 == false);
    assert(t[32].0@ == "normalizedString"@ && t[32].1@ == "String"@ && t[32].2 == false);
    assert(t[33].0@ == "token"@ && t[33].1@ == "String"@ && t[33].2 == false);
    assert(t[34].0@ == "language"@ && t[34].1@ == "String"@ && t[34].2 == false);
    assert(t[35].0@ == "NMTOKEN"@ && t[35].1@ == "String"@ && t[35].2 == false);
    assert(t[36].0@ == "Name"@ && t[36].1@ == "String"@ && t[36].2 == false);
    assert(t[37].0@ == "NCName"@ && t[37].1@ == "String"@ && t[37].2 == false);
    assert(t[38].0@ == "ID"@ && t[38].1@ == "String"@ && t[38].2 == false);
    assert(t[39].0@ == "IDREF"@ && t[39].1@ == "String"@ && t[39].2 == false);
    assert(t[40].0@ == "ENTITY"@ && t[40].1@ == "String"@ && t[40].2 == false);
    assert(t[41].0@ == "anySimpleType"@ && t[41].1@ == "String"@ && t[41].2 == false);
    assert(t[42].0@ == "NMTOKENS"@ && t[42].1@ == "String"@ && t[42].2 == true);
    assert(t[43].0@ == "IDREFS"@ && t[43].1@ == "String"@ && t[43].2 == true);
    assert(t[44].0@ == "ENTITIES"@ && t[44].1@ == "String"@ && t[44].2 == true);
    assert("double"@[0] != "string"@[0]);
    assert("gMonth"@[0] != "string"@[0]);
    assert("anyURI"@[0] != "string"@[0]);
    assert("NCName"@[0] != "string"@[0]);
    assert("ENTITY"@[0] != "string"@[0]);
    assert("IDREFS"@[0] != "string"@[0]);
    assert("decimal"@[0] != "boolean"@[0]);
    assert("integer"@[0] != "boolean"@[0]);
    assert("NMTOKEN"@[0] != "boolean"@[0]);
    assert("integer"@[0] != "decimal"@[0]);
    assert("NMTOKEN"@[0] != "decimal"@[0]);
    assert("gYear"@[0] != "float"@[0]);
    assert("QName"@[0] != "float"@[0]);
    assert("short"@[0] != "float"@[0]);
    assert("token"@[0] != "float"@[0]);
    assert("IDREF"@[0] != "float"@[0]);
    assert("gMonth"@[0] != "double"@[0]);
    assert("anyURI"@[0] != "double"@[0]);
    assert("NCName"@[0] != "double"@[0]);
    assert("ENTITY"@[0] != "double"@[0]);
    assert("IDREFS"@[0] != "double"@[0]);
    assert("dateTime"@[1] != "duration"@[1]);
    assert("NOTATION"@[0] != "duration"@[0]);
    assert("language"@[0] != "duration"@[0]);
    assert("NMTOKENS"@[0] != "duration"@[0]);
    assert("ENTITIES"@[0] != "duration"@[0]);
    assert("NOTATION"@[0] != "dateTime"@[0]);
    assert("language"@[0] != "dateTime"@[0]);
    assert("NMTOKENS"@[0] != "dateTime"@[0]);
    assert("ENTITIES"@[0] != "dateTime"@[0]);
    assert("date"@[0] != "time"@[0]);
    assert("gDay"@[0] != "time"@[0]);
    assert("long"@[0] != "time"@[0]);
    assert("byte"@[0] != "time"@[0]);
    assert("Name"@[0] != "time"@[0]);
    assert("gDay"@[0] != "date"@[0]);
    assert("long"@[0] != "date"@[0]);
    assert("byte"@[0] != "date"@[0]);
    assert("Name"@[0] != "date"@[0]);
    assert("QName"@[0] != "gYear"@[0]);
    assert("short"@[0] != "gYear"@[0]);
    assert("token"@[0] != "gYear"@[0]);
    assert("IDREF"@[0] != "gYear"@[0]);
    assert("hexBinary"@[0] != "gMonthDay"@[0]);
    assert("anyURI"@[0] != "gMonth"@[0]);
    assert("NCName"@[0] != "gMonth"@[0]);
    assert("ENTITY"@[0] != "gMonth"@[0]);
    assert("IDREFS"@[0] != "gMonth"@[0]);
    assert("long"@[0] != "gDay"@[0]);
    assert("byte"@[0] != "gDay"@[0]);
    assert("Name"@[0] != "gDay"@[0]);
    assert("unsignedLong"@[0] != "base64Binary"@[0]);
    assert("unsignedByte"@[0] != "base64Binary"@[0]);
    assert("NCName"@[0] != "anyURI"@[0]);
    assert("ENTITY"@[0] != "anyURI"@[0]);
    assert("IDREFS"@[0] != "anyURI"@[0]);
    assert("short"@[0] != "QName"@[0]);
    assert("token"@[0] != "QName"@[0]);
    assert("IDREF"@[0] != "QName"@[0]);
    assert("language"@[0] != "NOTATION"@[0]);
    assert("NMTOKENS"@[1] != "NOTATION"@[1]);
    assert("ENTITIES"@[0] != "NOTATION"@[0]);
    assert("byte"@[0] != "long"@[0]);
    assert("Name"@[0] != "long"@[0]);
    assert("NMTOKEN"@[0] != "integer"@[0]);
    assert("token"@[0] != "short"@[0]);
    assert("IDREF"@[0] != "short"@[0]);
    assert("Name"@[0] != "byte"@[0]);
    assert("positiveInteger"@[0] != "negativeInteger"@[0]);
    assert("nonNegativeInteger"@[3] != "nonPositiveInteger"@[3]);
    assert("unsignedByte"@[8] != "unsignedLong"@[8]);
    assert("anySimpleType"@[0] != "unsignedShort"@[0]);
    assert("IDREF"@[0] != "token"@[0]);
    assert("NMTOKENS"@[0] != "language"@[0]);
    assert("ENTITIES"@[0] != "language"@[0]);
    assert("ENTITY"@[0] != "NCName"@[0]);
    assert("IDREFS"@[0] != "NCName"@[0]);
    assert("IDREFS"@[0] != "ENTITY"@[0]);
    assert("ENTITIES"@[0] != "NMTOKENS"@[0]);
    lemma_default_typedef_row(old, new, xs, anon, 0);
    lemma_default_typedef_row(old, new, xs, anon, 1);
    lemma_default_typedef_row(old, new, xs, anon, 2);
    lemma_default_typedef_row(old, new, xs, anon, 3);
    lemma_default_typedef_row(old, new, xs, anon, 4);
    lemma_default_typedef_row(old, new, xs, anon, 5);
    lemma_default_typedef_row(old, new, xs, anon, 6);
    lemma_default_typedef_row(old, new, xs, anon, 7);
    lemma_default_typedef_row(old, new, xs, anon, 8);
    lemma_default_typedef_row(old, new, xs, anon, 9);
    lemma_default_typedef_row(old, new, xs, anon, 10);
    lemma_default_typedef_row(old, new, xs, anon, 11);
    lemma_default_typedef_row(old, new, xs, anon, 12);
    lemma_default_typedef_row(old, new, xs, anon, 13);
    lemma_default_typedef_row(old, new, xs, anon, 14);
    lemma_default_typedef_row(old, new, xs, anon, 15);
    lemma_default_typedef_row(old, new, xs, anon, 16);
    lemma_default_typedef_row(old, new, xs, anon, 17);
    lemma_default_typedef_row(old, new, xs, anon, 18);
    lemma_default_typedef_row(old, new, xs, anon, 19);
    lemma_default_typedef_row(old, new, xs, anon, 20);
    lemma_default_typedef_row(old, new, xs, anon, 21);
    lemma_default_typedef_row(old, new, xs, anon, 22);
    lemma_default_typedef_row(old, new, xs, anon, 23);
    lemma_default_typedef_row(old, new, xs, anon, 24);
    lemma_default_typedef_row(old, new, xs, anon, 25);
    lemma_default_typedef_row(old, new, xs, anon, 26);
    lemma_default_typedef_row(old, new, xs, anon, 27);
    lemma_default_typedef_row(old, new, xs, anon, 28);
    lemma_default_typedef_row(old, new, xs, anon, 29);
    lemma_default_typedef_row(old, new, xs, anon, 30);
    lemma_default_typedef_row(old, new, xs, anon, 31);
    lemma_default_typedef_row(old, new, xs, anon, 32);
    lemma_default_typedef_row(old, new, xs, anon, 33);
    lemma_default_typedef_row(old, new, xs, anon, 34);
    lemma_default_typedef_row(old, new, xs, anon, 35);
    lemma_default_typedef_row(old, new, xs, anon, 36);
    lemma_default_typedef_row(old, new, xs, anon, 37);
    lemma_default_typedef_row(old, new, xs, anon, 38);
    lemma_default_typedef_row(old, new, xs, anon, 39);
    lemma_default_typedef_row(old, new, xs, anon, 40);
    lemma_default_typedef_row(old, new, xs, anon, 41);
    lemma_default_typedef_row(old, new, xs, anon, 42);
    lemma_default_typedef_row(old, new, xs, anon, 43);
    lemma_default_typedef_row(old, new, xs, anon, 44);
}

/// Identifier of a type named `name` in the anonymous namespace.
pub open spec fn anonymous_type(name: Seq<char>) -> TypeIdentView {
    type_ident_view(NamespaceId(NamespaceId::ANONYMOUS), name)
}

/// The types [`Interpreter::with_num_big_int`] adds.
pub open spec fn big_int_entries(xs: NamespaceId) -> Seq<(TypeIdentView, TypeShape)> {
    let big_int = anonymous_type("BigInt"@);
    let big_uint = anonymous_type("BigUint"@);
    let r = |t: TypeIdentView|
        TypeShape::Reference { target: t, min_occurs: 1, max_occurs: MaxOccurs::Bounded(1) };
    seq![
        (big_int, TypeShape::FromStrCustom { name: "BigInt"@, path: "::num::BigInt"@ }),
        (big_uint, TypeShape::FromStrCustom { name: "BigUint"@, path: "::num::BigUint"@ }),
        (type_ident_view(xs, "integer"@), r(big_int)),
        (type_ident_view(xs, "negativeInteger"@), r(big_int)),
        (type_ident_view(xs, "nonPositiveInteger"@), r(big_int)),
        (type_ident_view(xs, "positiveInteger"@), r(big_uint)),
        (type_ident_view(xs, "nonNegativeInteger"@), r(big_uint)),
    ]
}

/// The types [`Interpreter::with_nonzero_typedefs`] adds.
pub open spec fn nonzero_entries(xs: NamespaceId) -> Seq<(TypeIdentView, TypeShape)> {
    let nz_usize = anonymous_type("NonZeroUsize"@);
    let nz_isize = anonymous_type("NonZeroIsize"@);
    let r = |t: TypeIdentView|
        TypeShape::Reference { target: t, min_occurs: 1, max_occurs: MaxOccurs::Bounded(1) };
    seq![
        (nz_usize, TypeShape::FromStrCustom {
            name: "NonZeroUsize"@,
            path: "::core::num::NonZeroUsize"@,
        }),
        (nz_isize, TypeShape::FromStrCustom {
            name: "NonZeroIsize"@,
            path: "::core::num::NonZeroIsize"@,
        }),
        (type_ident_view(xs, "positiveInteger"@), r(nz_usize)),
        (type_ident_view(xs, "negativeInteger"@), r(nz_isize)),
    ]
}

/// `t` is a custom type for a XML type in the namespace `xs`, named after the last part of
/// `path` and included from `path`, that needs the namespace `xs`; `qname` tells whether
/// its default value is built as a qualified name.
pub open spec fn is_xs_custom_type(t: MetaType, xs: NamespaceId, path: Seq<char>, qname: bool) -> bool {
    &&& t.form is None
    &&& t.schema is None
    &&& t.display_name is None
    &&& t.documentation@.len() == 0
    &&& t.variant matches MetaTypeVariant::Custom(c) && {
        &&& c.name@ == type_name_of_path(path)
        &&& c.include_path matches Some(p) && p@ == path
        &&& c.namespaces@.len() == 1
        &&& c.namespaces@[0] == CustomMetaNamespace::Id(xs)
        &&& if qname {
            c.default == Some(CustomDefault::QName)
        } else {
            c.default is None
        }
    }
}

/// The error [`Interpreter`] methods give if the `xs` namespace is unknown.
pub open spec fn is_unknown_xs(e: InterpreterError) -> bool {
    e matches InterpreterError::UnknownNamespace(n) && n@ == xs_uri()
}

/// The error [`Interpreter`] methods give if the `xsi` namespace is unknown.
pub open spec fn is_unknown_xsi(e: InterpreterError) -> bool {
    e matches InterpreterError::UnknownNamespace(n) && n@ == xsi_uri()
}

/// The `Interpreter` transforms raw parsed XML schema data into type information.
///
/// It operates on a [`Schemas`] structure and collects a [`MetaTypes`] structure, which is
/// the central format used for code generation.
#[derive(Debug)]
pub struct Interpreter<'a> {
    /// The schemas that are interpreted.
    pub schemas: &'a Schemas,
    /// The collected types.
    pub types: MetaTypes,
}

impl<'a> Interpreter<'a> {
    /// Each identifier holds at most one type.
    pub open spec fn wf(self) -> bool {
        self.types.wf()
    }

    /// Create a new [`Interpreter`] instance using the passed `schemas` reference.
    pub fn new(schemas: &'a Schemas) -> (r: Interpreter<'a>)
        ensures
            r.wf(),
            r.schemas == schemas,
            r.types@ == Map::<TypeIdentView, MetaType>::empty(),
    {
        Interpreter { schemas, types: MetaTypes::new() }
    }

    /// Resolves the `xs` namespace.
    fn resolve_xs(&self) -> (r: Result<NamespaceId, InterpreterError>)
        ensures
            match self.schemas.spec_resolve_namespace(Some(xs_uri())) {
                Some(id) => r == Ok::<NamespaceId, InterpreterError>(id),
                None => r matches Err(e) && is_unknown_xs(e),
            },
    {
        match self.schemas.resolve_namespace(&Some(Namespace::xs())) {
            Some(id) => Ok(id),
            None => Err(InterpreterError::UnknownNamespace(Namespace::xs())),
        }
    }

    /// Resolves the anonymous namespace.
    fn resolve_anonymous(&self) -> (r: Result<NamespaceId, InterpreterError>)
        ensures
            match self.schemas.spec_resolve_namespace(None) {
                Some(id) => r == Ok::<NamespaceId, InterpreterError>(id),
                None => r matches Err(InterpreterError::AnonymousNamespaceIsUndefined),
            },
    {
        match self.schemas.resolve_namespace(&None) {
            Some(id) => Ok(id),
            None => Err(InterpreterError::AnonymousNamespaceIsUndefined),
        }
    }

    /// Add a custom [`MetaType`] for the passed identifier to the resulting [`MetaTypes`]
    /// structure; a type stored there before is replaced.
    pub fn with_type(self, ident: TypeIdent, type_: MetaType) -> (r: Result<Interpreter<'a>, InterpreterError>)
        requires
            self.wf(),
        ensures
            r matches Ok(i) && i.wf() && i.schemas == self.schemas && i.types@ == self.types@.insert(
                ident@,
                type_,
            ),
    {
        let mut this = self;
        this.types.insert(ident, type_);
        Ok(this)
    }

    /// Add a simple type definition to the resulting [`MetaTypes`] structure using `ident`
    /// as identifier for the new type and `type_` as target type for the type definition.
    pub fn with_typedef(self, ident: TypeIdent, type_: TypeIdent) -> (r: Result<Interpreter<'a>, InterpreterError>)
        requires
            self.wf(),
        ensures
            r matches Ok(i) && i.wf() && i.schemas == self.schemas && (forall|k: TypeIdentView|
                #[trigger] i.types@.contains_key(k) <==> self.types@.contains_key(k) || k == ident@)
                && has_shape(
                i.types@[ident@],
                TypeShape::Reference {
                    target: type_@,
                    min_occurs: 1,
                    max_occurs: MaxOccurs::Bounded(1),
                },
            ) && (forall|k: TypeIdentView|
                #[trigger] i.types@.contains_key(k) && k != ident@ ==> i.types@[k] == self.types@[k]),
    {
        let mut this = self;
        let meta = MetaType::new(MetaTypeVariant::Reference(ReferenceMeta::new(type_)));
        this.types.insert(ident, meta);
        Ok(this)
    }

    /// Adds the default build-in types to the resulting [`MetaTypes`] structure.
    ///
    /// # Errors
    ///
    /// Returns [`InterpreterError::AnonymousNamespaceIsUndefined`] if the schemas do not
    /// know the anonymous namespace.
    pub fn with_buildin_types(self) -> (r: Result<Interpreter<'a>, InterpreterError>)
        requires
            self.wf(),
        ensures
            match self.schemas.spec_resolve_namespace(None) {
                None => r matches Err(InterpreterError::AnonymousNamespaceIsUndefined),
                Some(anon) => r matches Ok(i) && i.wf() && i.schemas == self.schemas
                    && entries_applied(self.types@, i.types@, build_in_entries(anon)),
            },
    {
        let anon = match self.resolve_anonymous() {
            Ok(id) => id,
            Err(e) => return Err(e),
        };
        let table = vec![
            ("u8", BuildInMeta::U8),
            ("u16", BuildInMeta::U16),
            ("u32", BuildInMeta::U32),
            ("u64", BuildInMeta::U64),
            ("u128", BuildInMeta::U128),
            ("usize", BuildInMeta::Usize),
            ("i8", BuildInMeta::I8),
            ("i16", BuildInMeta::I16),
            ("i32", BuildInMeta::I32),
            ("i64", BuildInMeta::I64),
            ("i128", BuildInMeta::I128),
            ("isize", BuildInMeta::Isize),
            ("f32", BuildInMeta::F32),
            ("f64", BuildInMeta::F64),
            ("bool", BuildInMeta::Bool),
            ("str", BuildInMeta::Str),
            ("String", BuildInMeta::String),
        ];
        assert(table@ =~= build_in_table());
        let ghost entries = build_in_entries(anon);
        let mut idents: Vec<TypeIdent> = Vec::new();
        let mut metas: Vec<MetaType> = Vec::new();
        let mut i: usize = 0;
        while i < table.len()
            invariant
                i <= table@.len(),
                table@ == build_in_table(),
                entries == build_in_entries(anon),
                idents@.len() == i,
                metas@.len() == i,
                forall|j: int| 0 <= j < i ==> (#[trigger] idents@[j])@ == entries[j].0,
                forall|j: int| 0 <= j < i ==> has_shape(#[trigger] metas@[j], entries[j].1),
            decreases table@.len() - i,
        {
            let (name, b) = table[i];
            idents.push(TypeIdent::build_in(name).with_ns(anon));
            metas.push(MetaType::new(MetaTypeVariant::BuildIn(b)));
            i = i + 1;
        }
        let mut this = self;
        add_entries(&mut this.types, idents, metas, Ghost(entries));
        Ok(this)
    }

    /// Adds the type definitions for common XML types (like `xs:string` or `xs:int`)
    /// to the resulting [`MetaTypes`] structure.
    ///
    /// # Errors
    ///
    /// Returns [`InterpreterError::AnonymousNamespaceIsUndefined`] if the anonymous namespace
    /// is unknown, else [`InterpreterError::UnknownNamespace`] if the `xs` namespace is.
    pub fn with_default_typedefs(self) -> (r: Result<Interpreter<'a>, InterpreterError>)
        requires
            self.wf(),
        ensures
            match (
                self.schemas.spec_resolve_namespace(None),
                self.schemas.spec_resolve_namespace(Some(xs_uri())),
            ) {
                (None, _) => r matches Err(InterpreterError::AnonymousNamespaceIsUndefined),
                (Some(_), None) => r matches Err(e) && is_unknown_xs(e),
                (Some(anon), Some(xs)) => r matches Ok(i) && i.wf() && i.schemas == self.schemas
                    && entries_applied(self.types@, i.types@, default_typedef_entries(xs, anon)),
            },
    {
        let anon = match self.resolve_anonymous() {
            Ok(id) => id,
            Err(e) => return Err(e),
        };
        let xs = match self.resolve_xs() {
            Ok(id) => id,
            Err(e) => return Err(e),
        };
        let table = vec![
            ("string", "String", false),
            ("boolean", "bool", false),
            ("decimal", "f64", false),
            ("float", "f32", false),
            ("double", "f64", false),
            ("duration", "String", false),
            ("dateTime", "String", false),
            ("time", "String", false),
            ("date", "String", false),
            ("gYearMonth", "String", false),
            ("gYear", "String", false),
            ("gMonthDay", "String", false),
            ("gMonth", "String", false),
            ("gDay", "String", false),
            ("hexBinary", "String", false),
            ("base64Binary", "String", false),
            ("anyURI", "String", false),
            ("QName", "String", false),
            ("NOTATION", "String", false),
            ("long", "i64", false),
            ("int", "i32", false),
            ("integer", "i32", false),
            ("short", "i16", false),
            ("byte", "i8", false),
            ("negativeInteger", "isize", false),
            ("nonPositiveInteger", "isize", false),
            ("unsignedLong", "u64", false),
            ("unsignedInt", "u32", false),
            ("unsignedShort", "u16", false),
            ("unsignedByte", "u8", false),
            ("positiveInteger", "usize", false),
            ("nonNegativeInteger", "usize", false),
            ("normalizedString", "String", false),
            ("token", "String", false),
            ("language", "String", false),
            ("NMTOKEN", "String", false),
            ("Name", "String", false),
            ("NCName", "String", false),
            ("ID", "String", false),
            ("IDREF", "String", false),
            ("ENTITY", "String", false),
            ("anySimpleType", "String", false),
            ("NMTOKENS", "String", true),
            ("IDREFS", "String", true),
            ("ENTITIES", "String", true),
        ];
        assert(table@ =~= default_typedef_table());
        let ghost entries = default_typedef_entries(xs, anon);
        let mut idents: Vec<TypeIdent> = Vec::new();
        let mut metas: Vec<MetaType> = Vec::new();
        let mut i: usize = 0;
        while i < table.len()
            invariant
                i <= table@.len(),
                table@ == default_typedef_table(),
                entries == default_typedef_entries(xs, anon),
                idents@.len() == i,
                metas@.len() == i,
                forall|j: int| 0 <= j < i ==> (#[trigger] idents@[j])@ == entries[j].0,
                forall|j: int| 0 <= j < i ==> has_shape(#[trigger] metas@[j], entries[j].1),
            decreases table@.len() - i,
        {
            let (src, dst, is_list) = table[i];
            idents.push(TypeIdent::type_(src).with_ns(xs));
            let target = TypeIdent::build_in(dst).with_ns(anon);
            let reference = if is_list {
                ReferenceMeta::new(target).min_occurs(0).max_occurs(MaxOccurs::Unbounded)
            } else {
                ReferenceMeta::new(target)
            };
            metas.push(MetaType::new(MetaTypeVariant::Reference(reference)));
            i = i + 1;
        }
        let mut this = self;
        add_entries(&mut this.types, idents, metas, Ghost(entries));
        Ok(this)
    }

    /// Adds a default type definition for `xs:anyType`: a mixed complex type with any
    /// attributes whose content is a mixed sequence of any elements.
    ///
    /// # Errors
    ///
    /// Returns [`InterpreterError::UnknownNamespace`] if the `xs` namespace is unknown.
    pub fn with_xs_any_type(self) -> (r: Result<Interpreter<'a>, InterpreterError>)
        requires
            self.wf(),
        ensures
            match self.schemas.spec_resolve_namespace(Some(xs_uri())) {
                None => r matches Err(e) && is_unknown_xs(e),
                Some(xs) => r matches Ok(i) && i.wf() && i.schemas == self.schemas && {
                    let content = type_ident_view(xs, "Content"@);
                    let any_type = type_ident_view(xs, "anyType"@);
                    &&& forall|k: TypeIdentView| #[trigger]
                        i.types@.contains_key(k) <==> self.types@.contains_key(k) || k == content
                            || k == any_type
                    &&& forall|k: TypeIdentView|
                        #[trigger] i.types@.contains_key(k) && k != content && k != any_type
                            ==> i.types@[k] == self.types@[k]
                    &&& is_any_content(i.types@[content])
                    &&& is_any_type(i.types@[any_type], content)
                },
            },
    {
        let xs = match self.resolve_xs() {
            Ok(id) => id,
            Err(e) => return Err(e),
        };
        let any_ident = TypeIdent::type_("any").with_type(IdentType::Element);
        let mut any = ElementMeta::any(
            any_ident,
            AnyMeta {
                id: None,
                namespace: None,
                not_q_name: None,
                not_namespace: None,
                process_contents: ProcessContentsType::Lax,
            },
        );
        any.min_occurs = 0;
        any.max_occurs = MaxOccurs::Unbounded;
        let mut content_sequence = GroupMeta::default();
        content_sequence.is_mixed = true;
        content_sequence.elements.0.push(any);
        let content_ident = TypeIdent::type_("Content").with_ns(xs);
        let content_ident2 = content_ident.duplicate();
        let content_type = MetaType::new(MetaTypeVariant::Sequence(content_sequence));
        let mut this = self;
        this.types.insert(content_ident, content_type);

        let ident = TypeIdent::type_("anyType").with_ns(xs);
        let any_attribute = AttributeMeta::any(
            TypeIdent::type_("any_attribute").with_type(IdentType::Attribute),
            AnyAttributeMeta {
                id: None,
                namespace: None,
                not_q_name: None,
                not_namespace: None,
                process_contents: ProcessContentsType::Lax,
            },
        );
        let mut complex = ComplexMeta::default();
        complex.content = Some(content_ident2);
        complex.is_mixed = true;
        complex.attributes.0.push(any_attribute);
        let type_ = MetaType::new(MetaTypeVariant::ComplexType(complex));
        this.types.insert(ident, type_);
        proof {
            reveal_strlit("Content");
            reveal_strlit("anyType");
            assert("Content"@[0] != "anyType"@[0]);
            assert(type_ident_view(xs, "Content"@) != type_ident_view(xs, "anyType"@));
        }
        Ok(this)
    }

    /// Adds a default type definition for `xs:anySimpleType`: a mixed complex type with a
    /// qualified `xsi:type` attribute whose content is a string.
    ///
    /// # Errors
    ///
    /// Returns [`InterpreterError::UnknownNamespace`] if the `xs` or the `xsi` namespace is
    /// unknown (`xs` is resolved first).
    pub fn with_xs_any_simple_type(self) -> (r: Result<Interpreter<'a>, InterpreterError>)
        requires
            self.wf(),
        ensures
            match (
                self.schemas.spec_resolve_namespace(Some(xs_uri())),
                self.schemas.spec_resolve_namespace(Some(xsi_uri())),
            ) {
                (None, _) => r matches Err(e) && is_unknown_xs(e),
                (Some(_), None) => r matches Err(e) && is_unknown_xsi(e),
                (Some(xs), Some(xsi)) => r matches Ok(i) && i.wf() && i.schemas == self.schemas
                    && {
                    let content = type_ident_view(xs, "Content"@);
                    let any_simple = type_ident_view(xs, "anySimpleType"@);
                    &&& forall|k: TypeIdentView| #[trigger]
                        i.types@.contains_key(k) <==> self.types@.contains_key(k) || k == content
                            || k == any_simple
                    &&& forall|k: TypeIdentView|
                        #[trigger] i.types@.contains_key(k) && k != content && k != any_simple
                            ==> i.types@[k] == self.types@[k]
                    &&& is_string_content(i.types@[content])
                    &&& is_any_simple_type(i.types@[any_simple], content, xsi)
                },
            },
    {
        let xs = match self.resolve_xs() {
            Ok(id) => id,
            Err(e) => return Err(e),
        };
        let xsi = match self.schemas.resolve_namespace(&Some(Namespace::xsi())) {
            Some(id) => id,
            None => return Err(InterpreterError::UnknownNamespace(Namespace::xsi())),
        };
        let content_ident = TypeIdent::type_("Content").with_ns(xs);
        let content_ident2 = content_ident.duplicate();
        let content_type = MetaType::new(
            MetaTypeVariant::SimpleType(SimpleMeta::new(TypeIdent::build_in("String"))),
        );
        let mut this = self;
        this.types.insert(content_ident, content_type);

        let type_attribute = AttributeMeta::new(
            TypeIdent::type_("type").with_type(IdentType::Attribute).with_ns(xsi),
            TypeIdent::build_in("String"),
            FormChoiceType::Qualified,
        );
        let mut complex = ComplexMeta::default();
        complex.content = Some(content_ident2);
        complex.is_mixed = true;
        complex.attributes.0.push(type_attribute);
        let ident = TypeIdent::type_("anySimpleType").with_ns(xs);
        let type_ = MetaType::new(MetaTypeVariant::ComplexType(complex));
        this.types.insert(ident, type_);
        proof {
            reveal_strlit("Content");
            reveal_strlit("anySimpleType");
            assert("Content"@.len() != "anySimpleType"@.len());
            assert(type_ident_view(xs, "Content"@) != type_ident_view(xs, "anySimpleType"@));
        }
        Ok(this)
    }

    /// Adds a custom type for the XML type `xs:<xs_name>` that is included from `path`.
    fn with_xs_custom_type(self, xs_name: &str, path: &str, qname: bool) -> (r: Result<
        Interpreter<'a>,
        InterpreterError,
    >)
        requires
            self.wf(),
        ensures
            match self.schemas.spec_resolve_namespace(Some(xs_uri())) {
                None => r matches Err(e) && is_unknown_xs(e),
                Some(xs) => r matches Ok(i) && i.wf() && i.schemas == self.schemas
                    && i.types@.dom() == self.types@.dom().insert(type_ident_view(xs, xs_name@))
                    && is_xs_custom_type(i.types@[type_ident_view(xs, xs_name@)], xs, path@, qname)
                    && (forall|k: TypeIdentView|
                    #[trigger] i.types@.contains_key(k) && k != type_ident_view(xs, xs_name@)
                        ==> i.types@[k] == self.types@[k]),
            },
    {
        let xs = match self.resolve_xs() {
            Ok(id) => id,
            Err(e) => return Err(e),
        };
        let name = type_name_from_path(path);
        let meta = CustomMeta::new(name).include_from(path).with_namespace(
            CustomMetaNamespace::Id(xs),
        );
        let meta = if qname {
            meta.with_default(CustomDefault::QName)
        } else {
            meta
        };
        let mut this = self;
        this.types.insert(
            TypeIdent::type_(xs_name).with_ns(xs),
            MetaType::new(MetaTypeVariant::Custom(meta)),
        );
        Ok(this)
    }

    /// Add a type definition for `xs:QName` that uses the `xsd_parser_types::xml::QName` type.
    pub fn with_qname_type(self) -> (r: Result<Interpreter<'a>, InterpreterError>)
        requires
            self.wf(),
        ensures
            match self.schemas.spec_resolve_namespace(Some(xs_uri())) {
                None => r matches Err(e) && is_unknown_xs(e),
                Some(xs) => r matches Ok(i) && i.wf() && i.schemas == self.schemas
                    && i.types@.dom() == self.types@.dom().insert(type_ident_view(xs, "QName"@))
                    && is_xs_custom_type(
                    i.types@[type_ident_view(xs, "QName"@)],
                    xs,
                    "::xsd_parser_types::xml::QName"@,
                    true,
                ) && (forall|k: TypeIdentView|
                    #[trigger] i.types@.contains_key(k) && k != type_ident_view(xs, "QName"@)
                        ==> i.types@[k] == self.types@[k]),
            },
    {
        self.with_qname_type_from("::xsd_parser_types::xml::QName")
    }

    /// Add a type definition for `xs:QName` that uses the type defined at the passed `path`.
    pub fn with_qname_type_from(self, path: &str) -> (r: Result<Interpreter<'a>, InterpreterError>)
        requires
            self.wf(),
        ensures
            match self.schemas.spec_resolve_namespace(Some(xs_uri())) {
                None => r matches Err(e) && is_unknown_xs(e),
                Some(xs) => r matches Ok(i) && i.wf() && i.schemas == self.schemas
                    && i.types@.dom() == self.types@.dom().insert(type_ident_view(xs, "QName"@))
                    && is_xs_custom_type(i.types@[type_ident_view(xs, "QName"@)], xs, path@, true)
                    && (forall|k: TypeIdentView|
                    #[trigger] i.types@.contains_key(k) && k != type_ident_view(xs, "QName"@)
                        ==> i.types@[k] == self.types@[k]),
            },
    {
        self.with_xs_custom_type("QName", path, true)
    }

    /// Add a type definition for `xs:hexBinary` that uses the
    /// `xsd_parser_types::xml::HexString` type.
    pub fn with_hex_binary_type(self) -> (r: Result<Interpreter<'a>, InterpreterError>)
        requires
            self.wf(),
        ensures
            match self.schemas.spec_resolve_namespace(Some(xs_uri())) {
                None => r matches Err(e) && is_unknown_xs(e),
                Some(xs) => r matches Ok(i) && i.wf() && i.schemas == self.schemas
                    && i.types@.dom() == self.types@.dom().insert(type_ident_view(xs, "hexBinary"@))
                    && is_xs_custom_type(
                    i.types@[type_ident_view(xs, "hexBinary"@)],
                    xs,
                    "::xsd_parser_types::xml::HexString"@,
                    false,
                ) && (forall|k: TypeIdentView|
                    #[trigger] i.types@.contains_key(k) && k != type_ident_view(xs, "hexBinary"@)
                        ==> i.types@[k] == self.types@[k]),
            },
    {
        self.with_hex_binary_type_from("::xsd_parser_types::xml::HexString")
    }

    /// Add a type definition for `xs:hexBinary` that uses the type defined at the passed `path`.
    pub fn with_hex_binary_type_from(self, path: &str) -> (r: Result<Interpreter<'a>, InterpreterError>)
        requires
            self.wf(),
        ensures
            match self.schemas.spec_resolve_namespace(Some(xs_uri())) {
                None => r matches Err(e) && is_unknown_xs(e),
                Some(xs) => r matches Ok(i) && i.wf() && i.schemas == self.schemas
                    && i.types@.dom() == self.types@.dom().insert(type_ident_view(xs, "hexBinary"@))
                    && is_xs_custom_type(
                    i.types@[type_ident_view(xs, "hexBinary"@)],
                    xs,
                    path@,
                    false,
                ) && (forall|k: TypeIdentView|
                    #[trigger] i.types@.contains_key(k) && k != type_ident_view(xs, "hexBinary"@)
                        ==> i.types@[k] == self.types@[k]),
            },
    {
        self.with_xs_custom_type("hexBinary", path, false)
    }

    /// Add a type definition for `xs:base64Binary` that uses the
    /// `xsd_parser_types::xml::Base64String` type.
    pub fn with_base64_binary_type(self) -> (r: Result<Interpreter<'a>, InterpreterError>)
        requires
            self.wf(),
        ensures
            match self.schemas.spec_resolve_namespace(Some(xs_uri())) {
                None => r matches Err(e) && is_unknown_xs(e),
                Some(xs) => r matches Ok(i) && i.wf() && i.schemas == self.schemas
                    && i.types@.dom() == self.types@.dom().insert(
                    type_ident_view(xs, "base64Binary"@),
                ) && is_xs_custom_type(
                    i.types@[type_ident_view(xs, "base64Binary"@)],
                    xs,
                    "::xsd_parser_types::xml::Base64String"@,
                    false,
                ) && (forall|k: TypeIdentView|
                    #[trigger] i.types@.contains_key(k) && k != type_ident_view(xs, "base64Binary"@)
                        ==> i.types@[k] == self.types@[k]),
            },
    {
        self.with_base64_binary_type_from("::xsd_parser_types::xml::Base64String")
    }

    /// Add a type definition for `xs:base64Binary` that uses the type defined at the
    /// passed `path`.
    pub fn with_base64_binary_type_from(self, path: &str) -> (r: Result<Interpreter<'a>, InterpreterError>)
        requires
            self.wf(),
        ensures
            match self.schemas.spec_resolve_namespace(Some(xs_uri())) {
                None => r matches Err(e) && is_unknown_xs(e),
                Some(xs) => r matches Ok(i) && i.wf() && i.schemas == self.schemas
                    && i.types@.dom() == self.types@.dom().insert(
                    type_ident_view(xs, "base64Binary"@),
                ) && is_xs_custom_type(
                    i.types@[type_ident_view(xs, "base64Binary"@)],
                    xs,
                    path@,
                    false,
                ) && (forall|k: TypeIdentView|
                    #[trigger] i.types@.contains_key(k) && k != type_ident_view(xs, "base64Binary"@)
                        ==> i.types@[k] == self.types@[k]),
            },
    {
        self.with_xs_custom_type("base64Binary", path, false)
    }

    /// Add type definitions for numeric XML types (like `xs:integer`) that use
    /// `num::BigInt` and `num::BigUint` instead of build-in integer types.
    ///
    /// # Errors
    ///
    /// Returns [`InterpreterError::UnknownNamespace`] if the `xs` namespace is unknown.
    pub fn with_num_big_int(self) -> (r: Result<Interpreter<'a>, InterpreterError>)
        requires
            self.wf(),
        ensures
            match self.schemas.spec_resolve_namespace(Some(xs_uri())) {
                None => r matches Err(e) && is_unknown_xs(e),
                Some(xs) => r matches Ok(i) && i.wf() && i.schemas == self.schemas
                    && entries_applied(self.types@, i.types@, big_int_entries(xs)),
            },
    {
        let xs = match self.resolve_xs() {
            Ok(id) => id,
            Err(e) => return Err(e),
        };
        let ghost entries = big_int_entries(xs);
        let big_int = CustomMeta::new("BigInt").include_from("::num::BigInt").with_default(
            CustomDefault::FromStr("::num::BigInt".to_string()),
        );
        let big_uint = CustomMeta::new("BigUint").include_from("::num::BigUint").with_default(
            CustomDefault::FromStr("::num::BigUint".to_string()),
        );
        let idents = vec![
            TypeIdent::type_("BigInt"),
            TypeIdent::type_("BigUint"),
            TypeIdent::type_("integer").with_ns(xs),
            TypeIdent::type_("negativeInteger").with_ns(xs),
            TypeIdent::type_("nonPositiveInteger").with_ns(xs),
            TypeIdent::type_("positiveInteger").with_ns(xs),
            TypeIdent::type_("nonNegativeInteger").with_ns(xs),
        ];
        let metas = vec![
            MetaType::new(MetaTypeVariant::Custom(big_int)),
            MetaType::new(MetaTypeVariant::Custom(big_uint)),
            MetaType::new(MetaTypeVariant::Reference(ReferenceMeta::new(TypeIdent::type_("BigInt")))),
            MetaType::new(MetaTypeVariant::Reference(ReferenceMeta::new(TypeIdent::type_("BigInt")))),
            MetaType::new(MetaTypeVariant::Reference(ReferenceMeta::new(TypeIdent::type_("BigInt")))),
            MetaType::new(
                MetaTypeVariant::Reference(ReferenceMeta::new(TypeIdent::type_("BigUint"))),
            ),
            MetaType::new(
                MetaTypeVariant::Reference(ReferenceMeta::new(TypeIdent::type_("BigUint"))),
            ),
        ];
        let mut this = self;
        add_entries(&mut this.types, idents, metas, Ghost(entries));
        Ok(this)
    }

    /// Add type definitions for numeric XML types (like `xs:positiveInteger`) that use
    /// `::core::num::NonZeroIsize` and `::core::num::NonZeroUsize` instead of the simple
    /// integer types.
    ///
    /// # Errors
    ///
    /// Returns [`InterpreterError::UnknownNamespace`] if the `xs` namespace is unknown.
    pub fn with_nonzero_typedefs(self) -> (r: Result<Interpreter<'a>, InterpreterError>)
        requires
            self.wf(),
        ensures
            match self.schemas.spec_resolve_namespace(Some(xs_uri())) {
                None => r matches Err(e) && is_unknown_xs(e),
                Some(xs) => r matches Ok(i) && i.wf() && i.schemas == self.schemas
                    && entries_applied(self.types@, i.types@, nonzero_entries(xs)),
            },
    {
        let xs = match self.resolve_xs() {
            Ok(id) => id,
            Err(e) => return Err(e),
        };
        let ghost entries = nonzero_entries(xs);
        let nz_usize = CustomMeta::new("NonZeroUsize").include_from(
            "::core::num::NonZeroUsize",
        ).with_default(CustomDefault::FromStr("::core::num::NonZeroUsize".to_string()));
        let nz_isize = CustomMeta::new("NonZeroIsize").include_from(
            "::core::num::NonZeroIsize",
        ).with_default(CustomDefault::FromStr("::core::num::NonZeroIsize".to_string()));
        let idents = vec![
            TypeIdent::type_("NonZeroUsize"),
            TypeIdent::type_("NonZeroIsize"),
            TypeIdent::type_("positiveInteger").with_ns(xs),
            TypeIdent::type_("negativeInteger").with_ns(xs),
        ];
        let metas = vec![
            MetaType::new(MetaTypeVariant::Custom(nz_usize)),
            MetaType::new(MetaTypeVariant::Custom(nz_isize)),
            MetaType::new(
                MetaTypeVariant::Reference(ReferenceMeta::new(TypeIdent::type_("NonZeroUsize"))),
            ),
            MetaType::new(
                MetaTypeVariant::Reference(ReferenceMeta::new(TypeIdent::type_("NonZeroIsize"))),
            ),
        ];
        let mut this = self;
        add_entries(&mut this.types, idents, metas, Ghost(entries));
        Ok(this)
    }

    /// Finishes the interpretation and returns the [`MetaTypes`] structure with the
    /// collected type information.
    pub fn finish(self) -> (r: Result<MetaTypes, InterpreterError>)
        requires
            self.wf(),
        ensures
            r matches Ok(t) && t.wf() && t@ == self.types@,
    {
        Ok(self.types)
    }
}

/// `t` is the content of `xs:anyType`: a mixed sequence of any number of `xs:any` elements
/// (named `any`, unqualified, not nillable, without documentation) that accept any name and
/// namespace and whose content is processed laxly.
pub open spec fn is_any_content(t: MetaType) -> bool {
    &&& t.form is None
    &&& t.schema is None
    &&& t.display_name is None
    &&& t.documentation@.len() == 0
    &&& t.variant matches MetaTypeVariant::Sequence(g) && {
        let e = g.elements.0@[0];
        &&& g.is_mixed
        &&& g.elements.0@.len() == 1
        &&& e.ident@ == TypeIdentView {
            type_: IdentType::Element,
            ..type_ident_view(NamespaceId(NamespaceId::ANONYMOUS), "any"@)
        }
        &&& e.form == FormChoiceType::Unqualified
        &&& !e.nillable
        &&& e.min_occurs == 0
        &&& e.max_occurs == MaxOccurs::Unbounded
        &&& e.display_name is None
        &&& e.documentation@.len() == 0
        &&& e.variant matches crate::models::meta::ElementMetaVariant::Any(a) && {
            &&& a.id is None
            &&& a.namespace is None
            &&& a.not_q_name is None
            &&& a.not_namespace is None
            &&& a.process_contents == ProcessContentsType::Lax
        }
    }
}

/// `t` is `xs:anyType`: a mixed complex type without base that occurs once, with the
/// content `content` and one optional, unqualified `xs:anyAttribute` (named `any_attribute`)
/// that accepts any name and namespace and whose content is processed laxly.
pub open spec fn is_any_type(t: MetaType, content: TypeIdentView) -> bool {
    &&& t.form is None
    &&& t.schema is None
    &&& t.display_name is None
    &&& t.documentation@.len() == 0
    &&& t.variant matches MetaTypeVariant::ComplexType(c) && {
        let at = c.attributes.0@[0];
        &&& c.base is NoBase
        &&& c.content matches Some(ci) && ci@ == content
        &&& c.is_mixed
        &&& !c.is_dynamic
        &&& c.min_occurs == 1
        &&& c.max_occurs == MaxOccurs::Bounded(1)
        &&& c.attributes.0@.len() == 1
        &&& at.ident@ == TypeIdentView {
            type_: IdentType::Attribute,
            ..type_ident_view(NamespaceId(NamespaceId::ANONYMOUS), "any_attribute"@)
        }
        &&& at.form == FormChoiceType::Unqualified
        &&& at.use_ == Use::Optional
        &&& at.default is None
        &&& at.display_name is None
        &&& at.documentation@.len() == 0
        &&& at.variant matches crate::models::meta::AttributeMetaVariant::Any(a) && {
            &&& a.id is None
            &&& a.namespace is None
            &&& a.not_q_name is None
            &&& a.not_namespace is None
            &&& a.process_contents == ProcessContentsType::Lax
        }
    }
}

/// `t` is a new simple type whose base is the build-in `String`: no list, no facets.
pub open spec fn is_string_content(t: MetaType) -> bool {
    &&& t.form is None
    &&& t.schema is None
    &&& t.display_name is None
    &&& t.documentation@.len() == 0
    &&& t.variant matches MetaTypeVariant::SimpleType(s) && {
        &&& s.base@ == build_in_view(NamespaceId(NamespaceId::ANONYMOUS), "String"@)
        &&& !s.is_list
        &&& s.constrains@ == default_constrains_view()
    }
}

/// `t` is `xs:anySimpleType`: a mixed complex type without base that occurs once, with the
/// content `content` and one optional, qualified string attribute `type` in the namespace
/// `xsi`.
pub open spec fn is_any_simple_type(t: MetaType, content: TypeIdentView, xsi: NamespaceId) -> bool {
    &&& t.form is None
    &&& t.schema is None
    &&& t.display_name is None
    &&& t.documentation@.len() == 0
    &&& t.variant matches MetaTypeVariant::ComplexType(c) && {
        let at = c.attributes.0@[0];
        &&& c.base is NoBase
        &&& c.content matches Some(ci) && ci@ == content
        &&& c.is_mixed
        &&& !c.is_dynamic
        &&& c.min_occurs == 1
        &&& c.max_occurs == MaxOccurs::Bounded(1)
        &&& c.attributes.0@.len() == 1
        &&& at.ident@ == TypeIdentView {
            type_: IdentType::Attribute,
            ..type_ident_view(xsi, "type"@)
        }
        &&& at.form == FormChoiceType::Qualified
        &&& at.use_ == Use::Optional
        &&& at.default is None
        &&& at.display_name is None
        &&& at.documentation@.len() == 0
        &&& at.variant matches crate::models::meta::AttributeMetaVariant::Type(ty) && ty@
            == build_in_view(NamespaceId(NamespaceId::ANONYMOUS), "String"@)
    }
}

} // verus!
