use xsd_parser::interpreter::attribute::AttributeDecl;
use xsd_parser::interpreter::base_type::UpdateMode;
use xsd_parser::interpreter::complex_content::{ComplexContentType, ContentOutput, ContentSource, UpdateContentMode};
use xsd_parser::interpreter::element::{add_substitution, apply_substitution_groups, ElementContent};
use xsd_parser::interpreter::element_decl::ElementDecl;
use xsd_parser::interpreter::error::InterpreterError;
use xsd_parser::interpreter::group_cache::GroupCache;
use xsd_parser::interpreter::members::is_binary_base;
use xsd_parser::interpreter::variant_builder::{BuilderContext, ContentMode, TypeMode, VariantBuilder};
use xsd_parser::models::ident::{IdentType, Name, NamespaceId, SchemaId, TypeIdent};
use xsd_parser::models::meta::{
    AnyAttributeMeta, AttributeMetaVariant, Base, BuildInMeta, ComplexMeta, ElementMeta, ElementMetaVariant,
    ElementMode, ElementsMeta, FormChoiceType, GroupMeta, MaxOccurs, MetaType, MetaTypeVariant, MetaTypes,
    ProcessContentsType, ReferenceMeta, SimpleMeta, Use,
};
use xsd_parser::models::schema::{Facet, Namespace, NamespaceInfo, Schemas};

fn context() -> BuilderContext {
    BuilderContext {
        types: MetaTypes::new(),
        current_ns: NamespaceId(2),
        element_form_default: FormChoiceType::Qualified,
        schema_id: SchemaId(1),
        next_content_id: 1,
    }
}

fn ident(name: &str) -> TypeIdent {
    TypeIdent::new(Name::from_str(name)).with_ns(NamespaceId(2))
}

fn simple_builder(v: MetaTypeVariant) -> VariantBuilder {
    let mut b = VariantBuilder::new();
    b.type_mode = TypeMode::Simple;
    b.content_mode = ContentMode::Simple;
    b.variant = Some(v);
    b
}

fn enumeration(value: &str, docs: &[&str]) -> Facet {
    Facet::Enumeration { value: value.to_string(), documentation: docs.iter().map(|s| s.to_string()).collect() }
}

#[test]
fn enumeration_values_are_added_once() {
    let mut ctx = context();
    let mut b = simple_builder(MetaTypeVariant::SimpleType(SimpleMeta::new(ident("string"))));
    b.apply_facet(&mut ctx, &Facet::MaxLength("3".to_string()), false).unwrap();
    b.apply_facet(&mut ctx, &enumeration(" Red ", &["warm"]), false).unwrap();
    b.apply_facet(&mut ctx, &enumeration("Blue", &[]), false).unwrap();
    b.apply_facet(&mut ctx, &enumeration("Red", &["again"]), false).unwrap();
    assert!(b.fixed);
    match &b.variant {
        Some(MetaTypeVariant::Enumeration(e)) => {
            assert_eq!(e.constrains.max_length, Some(3));
            assert_eq!(e.variants.len(), 2);
            assert_eq!(e.variants[0].ident.name.0, "Red");
            assert_eq!(e.variants[0].ident.type_, IdentType::Enumeration);
            assert_eq!(e.variants[0].use_, Use::Required);
            assert_eq!(e.variants[0].documentation, vec!["warm".to_string(), "again".to_string()]);
            assert_eq!(e.variants[1].ident.name.0, "Blue");
        }
        _ => panic!("expected an enumeration"),
    }
}

#[test]
fn reference_facet_makes_restricted_list() {
    let mut ctx = context();
    let mut r = ReferenceMeta::new(ident("int"));
    r.min_occurs = 2;
    r.max_occurs = MaxOccurs::Bounded(5);
    let mut b = simple_builder(MetaTypeVariant::Reference(r));
    b.apply_facet(&mut ctx, &Facet::Pattern("[0-9]+".to_string()), false).unwrap();
    assert!(b.fixed);
    match &b.variant {
        Some(MetaTypeVariant::SimpleType(s)) => {
            assert!(s.is_list);
            assert_eq!(s.base.name.0, "int");
            assert_eq!(s.constrains.min_length, Some(2));
            assert_eq!(s.constrains.max_length, Some(5));
            assert_eq!(s.constrains.patterns, vec!["[0-9]+".to_string()]);
        }
        _ => panic!("expected a simple type"),
    }
}

fn complex_with_simple_content(ctx: &mut BuilderContext) -> VariantBuilder {
    ctx.types.insert(ident("Base"), MetaType::new(MetaTypeVariant::SimpleType(SimpleMeta::new(ident("string")))));
    let mut ci = ComplexMeta::default();
    ci.content = Some(ident("Base"));
    let mut b = VariantBuilder::new();
    b.type_mode = TypeMode::Complex;
    b.content_mode = ContentMode::Simple;
    b.variant = Some(MetaTypeVariant::ComplexType(ci));
    b
}

#[test]
fn facets_of_simple_content_restrict_a_copy() {
    let mut ctx = context();
    let mut b = complex_with_simple_content(&mut ctx);
    b.apply_facet(&mut ctx, &Facet::MinLength("1".to_string()), false).unwrap();
    b.apply_facet(&mut ctx, &Facet::MaxLength("9".to_string()), false).unwrap();
    assert!(b.is_simple_content_unique);
    assert_eq!(ctx.next_content_id, 2);
    let content = match &b.variant {
        Some(MetaTypeVariant::ComplexType(ci)) => ci.content.as_ref().unwrap().name.0.clone(),
        _ => panic!("expected a complex type"),
    };
    assert_eq!(content, "Content1");
    // The base is untouched; the copy carries both facets.
    match &ctx.types.get(&ident("Base")).unwrap().variant {
        MetaTypeVariant::SimpleType(s) => assert_eq!(s.constrains.min_length, None),
        _ => panic!("expected a simple type"),
    }
    match &ctx.types.get(&ident("Content1")).unwrap().variant {
        MetaTypeVariant::SimpleType(s) => {
            assert_eq!(s.constrains.min_length, Some(1));
            assert_eq!(s.constrains.max_length, Some(9));
        }
        _ => panic!("expected a simple type"),
    }
}

#[test]
fn unknown_simple_content_is_an_error() {
    let mut ctx = context();
    let mut ci = ComplexMeta::default();
    ci.content = Some(ident("Missing"));
    let mut b = VariantBuilder::new();
    b.type_mode = TypeMode::Complex;
    b.content_mode = ContentMode::Simple;
    b.variant = Some(MetaTypeVariant::ComplexType(ci));
    let r = b.apply_facet(&mut ctx, &Facet::MinLength("1".to_string()), false);
    assert!(matches!(r, Err(InterpreterError::UnknownType(t)) if t.name.0 == "Missing"));
    assert!(!b.is_simple_content_unique);
    assert_eq!(ctx.next_content_id, 1);
}

#[test]
fn content_names_count_up() {
    let mut ctx = context();
    ctx.next_content_id = 9;
    assert_eq!(ctx.make_content_name().0, "Content9");
    assert_eq!(ctx.make_content_name().0, "Content10");
    ctx.next_content_id = u64::MAX;
    assert_eq!(ctx.make_content_name().0, format!("Content{}", u64::MAX));
    assert_eq!(ctx.next_content_id, u64::MAX);
}

#[test]
fn lists_and_unions() {
    let mut ctx = context();
    let mut b = simple_builder(MetaTypeVariant::BuildIn(BuildInMeta::String));
    b.fixed = false;
    b.apply_list(&mut ctx, Some(ident("int")), &vec!["a list".to_string()]).unwrap();
    assert!(b.fixed);
    assert_eq!(b.documentation, vec!["a list".to_string()]);
    match &b.variant {
        Some(MetaTypeVariant::Reference(r)) => {
            assert_eq!(r.type_.name.0, "int");
            assert_eq!(r.min_occurs, 0);
            assert_eq!(r.max_occurs, MaxOccurs::Unbounded);
        }
        _ => panic!("expected a reference"),
    }
    let mut b = VariantBuilder::new();
    b.type_mode = TypeMode::Simple;
    b.apply_union(&mut ctx, &vec![ident("int"), ident("string")], &vec![]).unwrap();
    b.apply_union(&mut ctx, &vec![ident("bool")], &vec![]).unwrap();
    match &b.variant {
        Some(MetaTypeVariant::Union(u)) => {
            let names: Vec<&str> = u.types.iter().map(|t| t.type_.name.0.as_str()).collect();
            assert_eq!(names, vec!["int", "string", "bool"]);
        }
        _ => panic!("expected a union"),
    }
}

#[test]
fn insert_checked_renames_duplicates() {
    let mk = |name: &str| ElementMeta::new(ident(name), ident("T"), ElementMode::Element, FormChoiceType::Qualified);
    let mut elements = ElementsMeta(vec![]);
    assert_eq!(elements.insert_checked(mk("a")), 0);
    assert_eq!(elements.insert_checked(mk("a")), 1);
    assert_eq!(elements.insert_checked(mk("a")), 2);
    let names: Vec<&str> = elements.0.iter().map(|e| e.ident.name.0.as_str()).collect();
    assert_eq!(names, vec!["a", "a_2", "a_4"]);
    assert_eq!(elements.0[0].display_name.as_deref(), Some("a_1"));
    assert_eq!(elements.insert_checked(mk("b")), 3);
    assert!(elements.0[3].display_name.is_none());
}

#[test]
fn complex_content_new_group_becomes_content() {
    let mut ctx = context();
    let mut b = VariantBuilder::new();
    b.type_mode = TypeMode::Complex;
    b.content_mode = ContentMode::Complex;
    let start = b.begin_complex_content(&ctx, ComplexContentType::Sequence, None, None).unwrap();
    assert_eq!(start.mode, UpdateContentMode::Unknown);
    let mut group = match start.source {
        ContentSource::Build(MetaTypeVariant::Sequence(g)) => g,
        _ => panic!("expected an empty sequence"),
    };
    assert!(group.elements.0.is_empty());
    group.elements.insert_checked(ElementMeta::new(ident("x"), ident("T"), ElementMode::Element, FormChoiceType::Qualified));
    let out = ContentOutput::Type(MetaType::new(MetaTypeVariant::Sequence(group)));
    b.end_complex_content(&mut ctx, start.mode, out, Name::from_str("Seq"), 0, MaxOccurs::Bounded(1), ident("RootSeq"), start.is_cached, None, &mut None).unwrap();
    match &b.variant {
        Some(MetaTypeVariant::ComplexType(ci)) => {
            assert_eq!(ci.content.as_ref().unwrap().name.0, "RootSeq");
            assert_eq!(ci.min_occurs, 0);
            assert_eq!(ci.max_occurs, MaxOccurs::Bounded(1));
        }
        _ => panic!("expected a complex type"),
    }
    assert!(b.fixed);
    assert!(ctx.types.get(&ident("RootSeq")).is_some());
    // A second choice is appended to the sequence as a group element.
    let start = b.begin_complex_content(&ctx, ComplexContentType::Choice, None, None).unwrap();
    assert_eq!(start.mode, UpdateContentMode::Append);
    let mut choice = GroupMeta::default();
    choice.elements.insert_checked(ElementMeta::new(ident("y"), ident("T"), ElementMode::Element, FormChoiceType::Qualified));
    let out = ContentOutput::Type(MetaType::new(MetaTypeVariant::Choice(choice)));
    b.end_complex_content(&mut ctx, start.mode, out, Name::from_str("Choice"), 1, MaxOccurs::Unbounded, ident("RootChoice"), start.is_cached, None, &mut None).unwrap();
    match &ctx.types.get(&ident("RootSeq")).unwrap().variant {
        MetaTypeVariant::Sequence(g) => {
            assert_eq!(g.elements.0.len(), 2);
            let e = &g.elements.0[1];
            assert_eq!(e.ident.name.0, "Choice");
            assert_eq!(e.ident.type_, IdentType::Group);
            assert_eq!(e.max_occurs, MaxOccurs::Unbounded);
            assert!(matches!(&e.variant, ElementMetaVariant::Type { type_, mode: ElementMode::Group } if type_.name.0 == "RootChoice"));
        }
        _ => panic!("expected a sequence"),
    }
}

#[test]
fn complex_content_checks_output() {
    let mut ctx = context();
    let mut b = VariantBuilder::new();
    b.type_mode = TypeMode::Complex;
    let out = ContentOutput::Type(MetaType::new(MetaTypeVariant::BuildIn(BuildInMeta::U8)));
    let r = b.end_complex_content(&mut ctx, UpdateContentMode::Unknown, out, Name::from_str("x"), 1, MaxOccurs::Bounded(1), ident("X"), false, None, &mut None);
    assert!(matches!(r, Err(InterpreterError::ExpectedGroupType)));
    let out = ContentOutput::Type(MetaType::new(MetaTypeVariant::All(GroupMeta::default())));
    b.end_complex_content(&mut ctx, UpdateContentMode::Unknown, out, Name::from_str("x"), 1, MaxOccurs::Bounded(1), ident("X"), false, None, &mut None).unwrap();
    assert!(b.variant.is_none());
    let mut cache = GroupCache::new();
    cache.insert(ident("G"), ident("Cached"));
    let start = b.begin_complex_content(&ctx, ComplexContentType::All, Some(ident("G")), Some(&cache)).unwrap();
    assert!(start.is_cached);
    assert!(matches!(start.source, ContentSource::Cached(c) if c.name.0 == "Cached"));
    let start = b.begin_complex_content(&ctx, ComplexContentType::All, Some(ident("H")), Some(&cache)).unwrap();
    assert!(!start.is_cached);
    assert!(matches!(start.source, ContentSource::Build(MetaTypeVariant::All(_))));
}

#[test]
fn referenced_groups_are_built_once() {
    let mut ctx = context();
    let mut cache = Some(GroupCache::new());
    let mut b = VariantBuilder::new();
    b.type_mode = TypeMode::Complex;
    let start = b.begin_complex_content(&ctx, ComplexContentType::Sequence, Some(ident("G")), cache.as_ref()).unwrap();
    assert!(!start.is_cached);
    let mut group = match start.source {
        ContentSource::Build(MetaTypeVariant::Sequence(g)) => g,
        _ => panic!("expected an empty sequence"),
    };
    group.elements.insert_checked(ElementMeta::new(ident("x"), ident("T"), ElementMode::Element, FormChoiceType::Qualified));
    let out = ContentOutput::Type(MetaType::new(MetaTypeVariant::Sequence(group)));
    b.end_complex_content(&mut ctx, start.mode, out, Name::from_str("G"), 1, MaxOccurs::Bounded(1), ident("GType"), start.is_cached, Some(ident("G")), &mut cache).unwrap();
    assert_eq!(cache.as_ref().unwrap().get(&ident("G")).unwrap().name.0, "GType");

    // A second type referring to the same group uses the cached type.
    let mut b2 = VariantBuilder::new();
    b2.type_mode = TypeMode::Complex;
    let start = b2.begin_complex_content(&ctx, ComplexContentType::Sequence, Some(ident("G")), cache.as_ref()).unwrap();
    assert!(start.is_cached);
    let cached = match start.source {
        ContentSource::Cached(c) => c,
        _ => panic!("expected the cached type"),
    };
    b2.end_complex_content(&mut ctx, start.mode, ContentOutput::Cached(cached), Name::from_str("G"), 1, MaxOccurs::Bounded(1), ident("Other"), start.is_cached, Some(ident("G")), &mut cache).unwrap();
    match &b2.variant {
        Some(MetaTypeVariant::ComplexType(ci)) => assert_eq!(ci.content.as_ref().unwrap().name.0, "GType"),
        _ => panic!("expected a complex type"),
    }
    assert!(ctx.types.get(&ident("Other")).is_none());
    assert_eq!(cache.as_ref().unwrap().items.len(), 1);

    // An empty group is not cached.
    let mut b3 = VariantBuilder::new();
    b3.type_mode = TypeMode::Complex;
    let out = ContentOutput::Type(MetaType::new(MetaTypeVariant::Choice(GroupMeta::default())));
    b3.end_complex_content(&mut ctx, UpdateContentMode::Unknown, out, Name::from_str("E"), 1, MaxOccurs::Bounded(1), ident("EType"), false, Some(ident("E")), &mut cache).unwrap();
    assert!(cache.as_ref().unwrap().get(&ident("E")).is_none());
}

#[test]
fn base_types_are_copied() {
    let mut ctx = context();
    ctx.types.insert(ident("Color"), {
        let mut b = simple_builder(MetaTypeVariant::SimpleType(SimpleMeta::new(ident("string"))));
        let mut c = context();
        b.apply_facet(&mut c, &enumeration("Red", &[]), false).unwrap();
        MetaType::new(b.variant.unwrap())
    });
    // A restriction of an enumeration starts without values.
    let mut b = VariantBuilder::new();
    b.type_mode = TypeMode::Simple;
    b.content_mode = ContentMode::Simple;
    b.copy_base_type(&mut ctx, &ident("Color"), UpdateMode::Restriction, false).unwrap();
    assert!(matches!(&b.variant, Some(MetaTypeVariant::Enumeration(e)) if e.variants.is_empty()));
    assert!(!b.fixed);
    // A complex type with simple content refers to a simple base.
    let mut b = VariantBuilder::new();
    b.type_mode = TypeMode::Complex;
    b.content_mode = ContentMode::Simple;
    b.copy_base_type(&mut ctx, &ident("Color"), UpdateMode::Extension, false).unwrap();
    assert!(matches!(&b.variant, Some(MetaTypeVariant::ComplexType(ci)) if ci.content.as_ref().unwrap().name.0 == "Color"));
    // An unknown base is an error.
    let mut b = VariantBuilder::new();
    b.type_mode = TypeMode::Simple;
    b.content_mode = ContentMode::Simple;
    assert!(matches!(b.copy_base_type(&mut ctx, &ident("Nope"), UpdateMode::Restriction, false), Err(InterpreterError::UnknownType(_))));
}

#[test]
fn complex_base_content_is_copied_and_restricted() {
    let mut ctx = context();
    let mut seq = GroupMeta::default();
    let mut optional = ElementMeta::new(ident("opt"), ident("T"), ElementMode::Element, FormChoiceType::Qualified);
    optional.min_occurs = 0;
    seq.elements.0.push(optional);
    seq.elements.0.push(ElementMeta::new(ident("req"), ident("T"), ElementMode::Element, FormChoiceType::Qualified));
    ctx.types.insert(ident("BaseSeq"), MetaType::new(MetaTypeVariant::Sequence(seq)));
    let mut base = ComplexMeta::default();
    base.content = Some(ident("BaseSeq"));
    ctx.types.insert(ident("Base"), MetaType::new(MetaTypeVariant::ComplexType(base)));
    let mut b = VariantBuilder::new();
    b.type_mode = TypeMode::Complex;
    b.content_mode = ContentMode::Complex;
    b.copy_base_type(&mut ctx, &ident("Base"), UpdateMode::Restriction, true).unwrap();
    match &b.variant {
        Some(MetaTypeVariant::ComplexType(ci)) => {
            assert!(ci.is_mixed);
            assert_eq!(ci.content.as_ref().unwrap().name.0, "Content1");
        }
        _ => panic!("expected a complex type"),
    }
    match &ctx.types.get(&ident("Content1")).unwrap().variant {
        MetaTypeVariant::Sequence(g) => {
            assert_eq!(g.elements.0.len(), 1);
            assert_eq!(g.elements.0[0].ident.name.0, "req");
        }
        _ => panic!("expected a sequence"),
    }
    // The base keeps both elements.
    assert!(matches!(&ctx.types.get(&ident("BaseSeq")).unwrap().variant, MetaTypeVariant::Sequence(g) if g.elements.0.len() == 2));
}

#[test]
fn element_and_attribute_references() {
    let mut b = VariantBuilder::new();
    b.apply_element_ref(ident("e"), ident("T"), FormChoiceType::Qualified, 0, MaxOccurs::Unbounded, Some(true), &vec!["doc".to_string()]);
    b.apply_element_ref(ident("e"), ident("T"), FormChoiceType::Qualified, 1, MaxOccurs::Bounded(2), None, &vec![]);
    assert!(b.fixed);
    match &b.variant {
        Some(MetaTypeVariant::Sequence(g)) => {
            assert_eq!(g.elements.0.len(), 1);
            let e = &g.elements.0[0];
            assert_eq!(e.min_occurs, 1);
            assert_eq!(e.max_occurs, MaxOccurs::Bounded(2));
            assert!(e.nillable);
            assert_eq!(e.documentation, vec!["doc".to_string()]);
        }
        _ => panic!("expected a sequence"),
    }
    let mut b = VariantBuilder::new();
    b.apply_attribute_ref(ident("a"), ident("T"), FormChoiceType::Unqualified, Use::Required, Some("x".to_string()), &vec![]);
    b.apply_attribute_ref(ident("a"), ident("T"), FormChoiceType::Unqualified, Use::Optional, None, &vec![]);
    let any = AnyAttributeMeta { id: None, namespace: None, not_q_name: None, not_namespace: None, process_contents: ProcessContentsType::Lax };
    b.apply_any_attribute(ident("any_attribute"), any);
    match &b.variant {
        Some(MetaTypeVariant::ComplexType(ci)) => {
            assert_eq!(ci.attributes.0.len(), 2);
            assert_eq!(ci.attributes.0[0].use_, Use::Optional);
            assert_eq!(ci.attributes.0[0].default.as_deref(), Some("x"));
            assert!(matches!(ci.attributes.0[1].variant, AttributeMetaVariant::Any(_)));
        }
        _ => panic!("expected a complex type"),
    }
    b.apply_restriction_base(ident("Base"));
    assert!(matches!(&b.variant, Some(MetaTypeVariant::ComplexType(ci)) if matches!(&ci.base, Base::Extension(x) if x.name.0 == "Base")));
    assert!(is_binary_base("hexBinary") && is_binary_base("base64Binary") && !is_binary_base("string"));
}

#[test]
fn modes_and_bases() {
    let mut b = VariantBuilder::new();
    b.begin_simple_type();
    assert_eq!(b.type_mode, TypeMode::Simple);
    assert_eq!(b.content_mode, ContentMode::Simple);
    b.apply_attribute(Some(ident("T")));
    assert!(!b.fixed);
    let mut b = VariantBuilder::new();
    b.begin_complex_type(Some(true), Some(true));
    assert!(matches!(&b.variant, Some(MetaTypeVariant::ComplexType(ci)) if ci.is_mixed && ci.is_dynamic));
    b.apply_complex_content_base(ident("B"), UpdateMode::Restriction);
    assert!(matches!(&b.variant, Some(MetaTypeVariant::ComplexType(ci)) if matches!(ci.base, Base::Restriction(_))));
    b.begin_simple_content();
    assert_eq!(b.content_mode, ContentMode::Simple);
    b.apply_simple_content_base(ident("B"), UpdateMode::Extension);
    assert!(matches!(&b.variant, Some(MetaTypeVariant::ComplexType(ci)) if matches!(ci.base, Base::Extension(_))));
    let mut b = VariantBuilder::new();
    b.variant = Some(MetaTypeVariant::Choice(GroupMeta::default()));
    b.begin_group(true);
    assert!(matches!(&b.variant, Some(MetaTypeVariant::Choice(g)) if g.is_mixed));
}

#[test]
fn elements_are_wrapped() {
    let schemas = Schemas {
        namespaces: vec![NamespaceInfo { id: NamespaceId(1), prefix: None, namespace: Some(Namespace::xs()), schemas: vec![] }],
        schemas: vec![],
    };
    let mut ctx = context();
    let current = ident("Item").with_type(IdentType::Element);
    let mut b = VariantBuilder::new();
    b.apply_element(&mut ctx, &schemas, &current, ElementContent::Empty, &vec!["an item".to_string()], true, false, false).unwrap();
    match &b.variant {
        Some(MetaTypeVariant::Reference(r)) => {
            assert!(r.nillable);
            assert_eq!(r.type_.type_, IdentType::NillableContent);
        }
        _ => panic!("expected a reference"),
    }
    let wrapped = ctx.types.get(&ident("Item").with_type(IdentType::NillableContent)).unwrap();
    assert!(matches!(&wrapped.variant, MetaTypeVariant::Reference(r) if r.type_.name.0 == "anyType" && r.type_.ns == NamespaceId(1)));
    assert_eq!(wrapped.documentation, vec!["an item".to_string()]);
    assert_eq!(wrapped.form, Some(FormChoiceType::Qualified));
    let mut b = VariantBuilder::new();
    b.apply_element(&mut ctx, &schemas, &current, ElementContent::Named(ident("T")), &vec![], false, false, true).unwrap();
    assert!(matches!(&b.variant, Some(MetaTypeVariant::Dynamic(d)) if d.type_.as_ref().unwrap().name.0 == "T"));
    let none = Schemas { namespaces: vec![], schemas: vec![] };
    let mut b = VariantBuilder::new();
    assert!(matches!(b.apply_element(&mut ctx, &none, &current, ElementContent::Empty, &vec![], false, false, false), Err(InterpreterError::UnknownNamespace(_))));

    // An inline type is stored as the element type of the element and referenced.
    let mut b = VariantBuilder::new();
    let inline = MetaType::new(MetaTypeVariant::BuildIn(BuildInMeta::U8));
    b.apply_element(&mut ctx, &none, &current, ElementContent::Inline(inline), &vec![], false, false, false).unwrap();
    assert!(matches!(&b.variant, Some(MetaTypeVariant::Reference(r)) if r.type_.name.0 == "Item" && r.type_.type_ == IdentType::ElementType));
    let stored = ctx.types.get(&ident("Item").with_type(IdentType::ElementType)).unwrap();
    assert!(matches!(stored.variant, MetaTypeVariant::BuildIn(BuildInMeta::U8)));
}

#[test]
fn substitution_groups_become_dynamic() {
    let mut head = MetaType::new(MetaTypeVariant::Reference(ReferenceMeta::new(ident("HeadType"))));
    add_substitution(&mut head, &ident("head"), ident("a")).unwrap();
    add_substitution(&mut head, &ident("head"), ident("b")).unwrap();
    match &head.variant {
        MetaTypeVariant::Dynamic(d) => {
            let names: Vec<&str> = d.derived_types.iter().map(|t| t.name.0.as_str()).collect();
            assert_eq!(names, vec!["HeadType", "a", "b"]);
        }
        _ => panic!("expected a dynamic element"),
    }
    let mut other = MetaType::new(MetaTypeVariant::BuildIn(BuildInMeta::U8));
    assert!(matches!(add_substitution(&mut other, &ident("head"), ident("a")), Err(InterpreterError::ExpectedDynamicElement(h)) if h.name.0 == "head"));
}

#[test]
fn finish_and_reset() {
    let ctx = context();
    let b = VariantBuilder::new();
    assert!(matches!(b.finish(&ctx), Err(InterpreterError::NoType)));
    let mut b = simple_builder(MetaTypeVariant::BuildIn(BuildInMeta::Bool));
    b.documentation.push("d".to_string());
    let t = b.finish_mut(&ctx).unwrap();
    assert_eq!(t.schema, Some(SchemaId(1)));
    assert_eq!(t.documentation, vec!["d".to_string()]);
    assert!(b.variant.is_none() && b.documentation.is_empty());
    assert_eq!(b.type_mode, TypeMode::Unknown);
}

fn attribute_decl(name: Option<&str>, type_: Option<TypeIdent>, ref_: Option<TypeIdent>) -> AttributeDecl {
    AttributeDecl {
        name: name.map(|n| n.to_string()),
        type_,
        ref_,
        simple_type: None,
        form: None,
        use_: Use::Required,
        default: None,
        documentation: vec![],
    }
}

#[test]
fn attribute_declarations_are_resolved() {
    let mut b = VariantBuilder::new();
    let r = b.apply_attribute_decl(attribute_decl(None, Some(ident("T")), None), NamespaceId(2), FormChoiceType::Unqualified);
    assert!(matches!(&r, Err(InterpreterError::InvalidAttributeReference(d)) if d.name.is_none() && d.ref_.is_none()));
    assert!(b.variant.is_none());

    b.apply_attribute_decl(attribute_decl(Some("plain"), None, None), NamespaceId(2), FormChoiceType::Unqualified).unwrap();
    b.apply_attribute_decl(attribute_decl(Some("typed"), Some(ident("T")), None), NamespaceId(2), FormChoiceType::Qualified)
        .unwrap();
    let global = TypeIdent::new(Name::from_str("global")).with_ns(NamespaceId(3));
    b.apply_attribute_decl(attribute_decl(None, None, Some(global)), NamespaceId(2), FormChoiceType::Unqualified).unwrap();
    match &b.variant {
        Some(MetaTypeVariant::ComplexType(ci)) => {
            let a = &ci.attributes.0;
            assert_eq!(a.len(), 3);
            assert_eq!(a[0].ident.name.0, "plain");
            assert_eq!(a[0].ident.ns, NamespaceId(2));
            assert_eq!(a[0].ident.type_, IdentType::Attribute);
            assert_eq!(a[0].use_, Use::Required);
            assert_eq!(a[0].form, FormChoiceType::Unqualified);
            match &a[0].variant {
                AttributeMetaVariant::Type(t) => {
                    assert_eq!(t.name.0, "String");
                    assert_eq!(t.type_, IdentType::BuildIn);
                }
                _ => panic!("expected a typed attribute"),
            }
            assert_eq!(a[1].form, FormChoiceType::Qualified);
            assert!(matches!(&a[1].variant, AttributeMetaVariant::Type(t) if t.name.0 == "T"));
            assert_eq!(a[2].ident.name.0, "global");
            assert_eq!(a[2].ident.ns, NamespaceId(3));
            assert!(matches!(&a[2].variant, AttributeMetaVariant::Type(t) if t.type_ == IdentType::Attribute));
        }
        _ => panic!("expected a complex type"),
    }
}

fn derived_names(t: &MetaType) -> Vec<String> {
    match &t.variant {
        MetaTypeVariant::Dynamic(d) => d.derived_types.iter().map(|t| t.name.0.clone()).collect(),
        _ => panic!("expected a dynamic element"),
    }
}

#[test]
fn substitution_groups_are_walked_in_order() {
    let mut ctx = context();
    ctx.types.insert(ident("head"), MetaType::new(MetaTypeVariant::Reference(ReferenceMeta::new(ident("HeadType")))));
    ctx.types.insert(ident("top"), MetaType::new(MetaTypeVariant::Reference(ReferenceMeta::new(ident("TopType")))));
    apply_substitution_groups(&mut ctx, &vec![ident("head"), ident("top")], &ident("a")).unwrap();
    assert_eq!(derived_names(ctx.types.get(&ident("head")).unwrap()), vec!["HeadType", "a"]);
    assert_eq!(derived_names(ctx.types.get(&ident("top")).unwrap()), vec!["TopType", "a"]);
    apply_substitution_groups(&mut ctx, &vec![ident("head")], &ident("b")).unwrap();
    assert_eq!(derived_names(ctx.types.get(&ident("head")).unwrap()), vec!["HeadType", "a", "b"]);

    // The walk stops at the first unknown head; the heads before it keep their changes.
    let r = apply_substitution_groups(&mut ctx, &vec![ident("top"), ident("missing"), ident("head")], &ident("c"));
    assert!(matches!(r, Err(InterpreterError::UnknownType(h)) if h.name.0 == "missing"));
    assert_eq!(derived_names(ctx.types.get(&ident("top")).unwrap()), vec!["TopType", "a", "c"]);
    assert_eq!(derived_names(ctx.types.get(&ident("head")).unwrap()), vec!["HeadType", "a", "b"]);

    ctx.types.insert(ident("plain"), MetaType::new(MetaTypeVariant::BuildIn(BuildInMeta::U8)));
    let r = apply_substitution_groups(&mut ctx, &vec![ident("plain")], &ident("d"));
    assert!(matches!(r, Err(InterpreterError::ExpectedDynamicElement(h)) if h.name.0 == "plain"));
    assert!(matches!(ctx.types.get(&ident("plain")).unwrap().variant, MetaTypeVariant::BuildIn(BuildInMeta::U8)));
}

fn element_decl(name: Option<&str>, ref_: Option<TypeIdent>, type_: Option<TypeIdent>, content_type: Option<TypeIdent>) -> ElementDecl {
    ElementDecl {
        name: name.map(|n| n.to_string()),
        ref_,
        type_,
        content_type,
        form: None,
        min_occurs: 1,
        max_occurs: MaxOccurs::Bounded(1),
        nillable: None,
        documentation: vec![],
    }
}

#[test]
fn element_declarations_are_resolved() {
    let mut b = VariantBuilder::new();
    let global = TypeIdent::new(Name::from_str("global")).with_ns(NamespaceId(3));
    b.apply_element_decl(element_decl(None, Some(global), None, None), NamespaceId(2), FormChoiceType::Qualified);
    let global = TypeIdent::new(Name::from_str("global")).with_ns(NamespaceId(3));
    b.apply_element_decl(element_decl(Some("renamed"), Some(global), None, None), NamespaceId(2), FormChoiceType::Qualified);
    b.apply_element_decl(element_decl(Some("typed"), None, Some(ident("T")), Some(ident("Unused"))), NamespaceId(2), FormChoiceType::Unqualified);
    b.apply_element_decl(element_decl(Some("inline"), None, None, Some(ident("InlineType"))), NamespaceId(2), FormChoiceType::Unqualified);
    match &b.variant {
        Some(MetaTypeVariant::Sequence(g)) => {
            let e = &g.elements.0;
            assert_eq!(e.len(), 4);
            assert_eq!(e[0].ident.name.0, "global");
            assert_eq!(e[0].ident.ns, NamespaceId(3));
            assert_eq!(e[0].ident.type_, IdentType::Element);
            assert_eq!(e[0].form, FormChoiceType::Qualified);
            assert!(matches!(&e[0].variant, ElementMetaVariant::Type { type_, mode: ElementMode::Element } if type_.name.0 == "global" && type_.type_ == IdentType::Element));
            assert_eq!(e[1].ident.name.0, "renamed");
            assert_eq!(e[1].ident.ns, NamespaceId(3));
            assert_eq!(e[2].ident.ns, NamespaceId(2));
            assert!(matches!(&e[2].variant, ElementMetaVariant::Type { type_, .. } if type_.name.0 == "T"));
            assert_eq!(e[2].form, FormChoiceType::Unqualified);
            assert!(matches!(&e[3].variant, ElementMetaVariant::Type { type_, .. } if type_.name.0 == "InlineType"));
        }
        _ => panic!("expected a sequence"),
    }
}
