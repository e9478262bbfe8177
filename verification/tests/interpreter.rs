use xsd_parser::config::ident::{IdentQuadruple, NamespaceIdent, SchemaIdent};
use xsd_parser::interpreter::error::InterpreterError;
use xsd_parser::interpreter::Interpreter;
use xsd_parser::models::ident::{IdentType, Name, NamespaceId, SchemaId, TypeIdent};
use xsd_parser::models::meta::{BuildInMeta, CustomDefault, MaxOccurs, MetaType, MetaTypeVariant, MetaTypes};
use xsd_parser::models::schema::{Namespace, NamespaceInfo, NamespacePrefix, SchemaContent, SchemaInfo, Schemas};

fn schemas() -> Schemas {
    Schemas {
        namespaces: vec![
            NamespaceInfo { id: NamespaceId(0), prefix: None, namespace: None, schemas: vec![] },
            NamespaceInfo {
                id: NamespaceId(1),
                prefix: Some(NamespacePrefix::new("xs")),
                namespace: Some(Namespace::xs()),
                schemas: vec![SchemaId(10)],
            },
            NamespaceInfo {
                id: NamespaceId(2),
                prefix: Some(NamespacePrefix::new("tns")),
                namespace: Some(Namespace::new("http://example.com")),
                schemas: vec![SchemaId(20), SchemaId(21)],
            },
            NamespaceInfo {
                id: NamespaceId(3),
                prefix: Some(NamespacePrefix::new("xsi")),
                namespace: Some(Namespace::xsi()),
                schemas: vec![],
            },
        ],
        schemas: vec![
            SchemaInfo { id: SchemaId(10), name: Some("xs".to_string()), location: None, content: vec![] },
            SchemaInfo {
                id: SchemaId(20),
                name: Some("main".to_string()),
                location: Some("http://example.com/main.xsd".to_string()),
                content: vec![SchemaContent::ComplexType(Some("Root".to_string()))],
            },
            SchemaInfo {
                id: SchemaId(21),
                name: Some("other".to_string()),
                location: None,
                content: vec![SchemaContent::Element(Some("Root".to_string()))],
            },
        ],
    }
}

fn ident(ns: u64, name: &str) -> TypeIdent {
    TypeIdent::new(Name::from_str(name)).with_ns(NamespaceId(ns))
}

fn get<'a>(types: &'a MetaTypes, ns: u64, name: &str) -> Option<&'a MetaType> {
    types.get(&ident(ns, name))
}

#[test]
fn schemas_resolve_namespaces_and_schemas() {
    let s = schemas();
    assert_eq!(s.resolve_namespace(&None), Some(NamespaceId(0)));
    assert_eq!(s.resolve_namespace(&Some(Namespace::xs())), Some(NamespaceId(1)));
    assert_eq!(s.resolve_namespace(&Some(Namespace::xsi())), Some(NamespaceId(3)));
    assert_eq!(s.resolve_namespace(&Some(Namespace::new("urn:none"))), None);
    assert_eq!(s.resolve_prefix(&NamespacePrefix::new("tns")), Some(NamespaceId(2)));
    assert_eq!(s.resolve_prefix(&NamespacePrefix::new("nope")), None);
    assert_eq!(s.get_namespace_info(NamespaceId(2)).unwrap().schemas.len(), 2);
    assert!(s.get_schema(SchemaId(21)).is_some());
    assert!(s.get_schema(SchemaId(99)).is_none());
    // A type is found in the schema of its namespace that defines it with its kind.
    assert_eq!(s.resolve_schema(NamespaceId(2), "Root", IdentType::Type), Some(SchemaId(20)));
    assert_eq!(s.resolve_schema(NamespaceId(2), "Root", IdentType::Element), Some(SchemaId(21)));
    assert_eq!(s.resolve_schema(NamespaceId(2), "Missing", IdentType::Type), None);
}

#[test]
fn quadruple_resolves_against_schemas() {
    let s = schemas();
    let q = IdentQuadruple::from_prefixed(IdentType::Element, "tns:Root");
    let t = q.resolve(&s).unwrap();
    assert_eq!(t.ns, NamespaceId(2));
    assert_eq!(t.name.0, "Root");
    assert_eq!(t.type_, IdentType::Element);
    let q = IdentQuadruple::new("Root".to_string(), IdentType::Type)
        .with_ns(NamespaceIdent::namespace(Namespace::new("http://example.com")))
        .with_schema(SchemaIdent::name("main".to_string()));
    let t = q.resolve(&s).unwrap();
    assert_eq!(t.schema, SchemaId(20));
    let q = IdentQuadruple::from_prefixed(IdentType::Type, "nope:Root");
    assert!(matches!(q.resolve(&s), Err(InterpreterError::UnknownNamespacePrefix(p)) if p.0 == "nope"));
    let q = IdentQuadruple::new("Root".to_string(), IdentType::Type)
        .with_ns(NamespaceIdent::namespace(Namespace::new("urn:unknown")));
    assert!(matches!(q.resolve(&s), Err(InterpreterError::UnknownNamespace(n)) if n.0 == "urn:unknown"));
}

#[test]
fn interpreter_adds_build_in_types() {
    let s = schemas();
    let types = Interpreter::new(&s).with_buildin_types().unwrap().finish().unwrap();
    let u8_ty = types.get(&TypeIdent::build_in("u8").with_ns(NamespaceId(0))).unwrap();
    assert!(matches!(u8_ty.variant, MetaTypeVariant::BuildIn(BuildInMeta::U8)));
    assert!(types.get(&TypeIdent::build_in("String").with_ns(NamespaceId(0))).is_some());
}

#[test]
fn interpreter_adds_default_typedefs() {
    let s = schemas();
    let types = Interpreter::new(&s).with_default_typedefs().unwrap().finish().unwrap();
    match &get(&types, 1, "NMTOKENS").unwrap().variant {
        MetaTypeVariant::Reference(r) => {
            assert_eq!(r.type_.name.0, "String");
            assert_eq!(r.min_occurs, 0);
            assert_eq!(r.max_occurs, MaxOccurs::Unbounded);
        }
        _ => panic!("expected a reference"),
    }
    match &get(&types, 1, "unsignedByte").unwrap().variant {
        MetaTypeVariant::Reference(r) => {
            assert_eq!(r.type_.name.0, "u8");
            assert_eq!(r.max_occurs, MaxOccurs::Bounded(1));
        }
        _ => panic!("expected a reference"),
    }
}

#[test]
fn interpreter_needs_known_namespaces() {
    let s = Schemas { namespaces: vec![], schemas: vec![] };
    assert!(matches!(
        Interpreter::new(&s).with_buildin_types(),
        Err(InterpreterError::AnonymousNamespaceIsUndefined)
    ));
    assert!(matches!(
        Interpreter::new(&s).with_xs_any_type(),
        Err(InterpreterError::UnknownNamespace(n)) if n.0 == "http://www.w3.org/2001/XMLSchema"
    ));
}

#[test]
fn interpreter_adds_any_type_and_custom_types() {
    let s = schemas();
    let types = Interpreter::new(&s)
        .with_xs_any_type()
        .unwrap()
        .with_qname_type()
        .unwrap()
        .with_num_big_int()
        .unwrap()
        .finish()
        .unwrap();
    match &get(&types, 1, "anyType").unwrap().variant {
        MetaTypeVariant::ComplexType(c) => {
            assert!(c.is_mixed);
            assert_eq!(c.content.as_ref().unwrap().name.0, "Content");
            assert_eq!(c.attributes.0.len(), 1);
        }
        _ => panic!("expected a complex type"),
    }
    match &get(&types, 1, "QName").unwrap().variant {
        MetaTypeVariant::Custom(c) => {
            assert_eq!(c.name, "QName");
            assert!(matches!(c.default, Some(CustomDefault::QName)));
        }
        _ => panic!("expected a custom type"),
    }
    match &get(&types, 0, "BigInt").unwrap().variant {
        MetaTypeVariant::Custom(c) => {
            assert!(matches!(&c.default, Some(CustomDefault::FromStr(p)) if p == "::num::BigInt"));
        }
        _ => panic!("expected a custom type"),
    }
    match &get(&types, 1, "positiveInteger").unwrap().variant {
        MetaTypeVariant::Reference(r) => assert_eq!(r.type_.name.0, "BigUint"),
        _ => panic!("expected a reference"),
    }
}

#[test]
fn with_type_overwrites() {
    let s = schemas();
    let i = Interpreter::new(&s)
        .with_type(ident(2, "T"), MetaType::new(MetaTypeVariant::BuildIn(BuildInMeta::U8)))
        .unwrap()
        .with_type(ident(2, "T"), MetaType::new(MetaTypeVariant::BuildIn(BuildInMeta::Bool)))
        .unwrap()
        .with_typedef(ident(2, "U"), ident(2, "T"))
        .unwrap();
    let types = i.finish().unwrap();
    assert_eq!(types.items.len(), 2);
    assert!(matches!(get(&types, 2, "T").unwrap().variant, MetaTypeVariant::BuildIn(BuildInMeta::Bool)));
    assert!(matches!(&get(&types, 2, "U").unwrap().variant, MetaTypeVariant::Reference(r) if r.type_.name.0 == "T"));
}

#[test]
fn nonzero_and_binary_types() {
    let s = schemas();
    let types = Interpreter::new(&s)
        .with_nonzero_typedefs()
        .unwrap()
        .with_hex_binary_type()
        .unwrap()
        .with_base64_binary_type_from("::my::B64")
        .unwrap()
        .with_xs_any_simple_type()
        .unwrap()
        .finish()
        .unwrap();
    match &get(&types, 1, "negativeInteger").unwrap().variant {
        MetaTypeVariant::Reference(r) => assert_eq!(r.type_.name.0, "NonZeroIsize"),
        _ => panic!("expected a reference"),
    }
    match &get(&types, 1, "hexBinary").unwrap().variant {
        MetaTypeVariant::Custom(c) => assert_eq!(c.name, "HexString"),
        _ => panic!("expected a custom type"),
    }
    match &get(&types, 1, "base64Binary").unwrap().variant {
        MetaTypeVariant::Custom(c) => {
            assert_eq!(c.name, "B64");
            assert_eq!(c.include_path.as_deref(), Some("::my::B64"));
        }
        _ => panic!("expected a custom type"),
    }
    assert!(get(&types, 1, "anySimpleType").is_some());
}

#[test]
fn any_types_are_exactly_the_defaults() {
    let s = Schemas {
        namespaces: vec![
            NamespaceInfo { id: NamespaceId(1), prefix: None, namespace: Some(Namespace::xs()), schemas: vec![] },
            NamespaceInfo { id: NamespaceId(4), prefix: None, namespace: Some(Namespace::xsi()), schemas: vec![] },
        ],
        schemas: vec![],
    };
    let types = Interpreter::new(&s).with_xs_any_simple_type().unwrap().finish().unwrap();
    let any_simple = get(&types, 1, "anySimpleType").unwrap();
    assert!(any_simple.display_name.is_none());
    match &any_simple.variant {
        MetaTypeVariant::ComplexType(c) => {
            assert!(c.is_mixed && !c.is_dynamic);
            assert_eq!(c.attributes.0.len(), 1);
            assert_eq!(c.attributes.0[0].ident.name.0, "type");
            assert_eq!(c.attributes.0[0].ident.ns, NamespaceId(4));
        }
        _ => panic!("expected a complex type"),
    }
    let content = get(&types, 1, "Content").unwrap();
    assert!(content.display_name.is_none());
    match &content.variant {
        MetaTypeVariant::SimpleType(si) => {
            assert_eq!(si.base.name.0, "String");
            assert!(!si.is_list);
            assert!(si.constrains.patterns.is_empty());
            assert!(si.constrains.min_length.is_none() && si.constrains.max_length.is_none());
        }
        _ => panic!("expected a simple type"),
    }

    let types = Interpreter::new(&s).with_xs_any_type().unwrap().finish().unwrap();
    match &get(&types, 1, "anyType").unwrap().variant {
        MetaTypeVariant::ComplexType(c) => {
            assert_eq!(c.attributes.0[0].ident.name.0, "any_attribute");
            assert_eq!(c.attributes.0[0].ident.type_, IdentType::Attribute);
        }
        _ => panic!("expected a complex type"),
    }
    match &get(&types, 1, "Content").unwrap().variant {
        MetaTypeVariant::Sequence(g) => {
            assert!(g.is_mixed);
            assert_eq!(g.elements.0[0].ident.name.0, "any");
            assert!(!g.elements.0[0].nillable);
            assert_eq!(g.elements.0[0].max_occurs, MaxOccurs::Unbounded);
        }
        _ => panic!("expected a sequence"),
    }
}
