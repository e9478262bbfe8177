use xsd_parser::config::flags::{
    BoxFlags, GeneratorFlags, InterpreterFlags, OptimizerFlags, ParserFlags, RendererFlags,
};
use xsd_parser::config::ident::{IdentQuadruple, NamespaceIdent, SchemaIdent};
use xsd_parser::config::renderer::{NamespaceSerialization, RenderStep, RenderStepKind, SerdeXmlRsVersion};
use xsd_parser::config::{Config, Generate, Schema, TypedefMode};
use xsd_parser::models::ident::{IdentType, NamespaceId, SchemaId};
use xsd_parser::models::meta::{CustomDefault, MetaTypeVariant};
use xsd_parser::models::schema::{Namespace, NamespacePrefix};

fn kinds(c: &Config) -> Vec<RenderStepKind> {
    c.renderer.steps.iter().map(|s| s.kind()).collect()
}

#[test]
fn default_config_is_empty() {
    let c = Config::default();
    assert!(c.parser.schemas.is_empty());
    assert_eq!(c.parser.flags.0, 0);
    assert_eq!(c.interpreter.flags.0, 0);
    assert!(matches!(c.generator.generate, Generate::Named));
    assert_eq!(c.generator.typedef_mode, TypedefMode::Auto);
    assert!(c.renderer.steps.is_empty());
    assert!(c.renderer.derive.is_none());
    assert_eq!(c.generator.type_postfix.type_, "Type");
}

#[test]
fn schemas_are_appended() {
    let c = Config::default()
        .with_schema(Schema::File("a.xsd".to_string()))
        .with_schemas(vec![Schema::Url("http://x/b.xsd".to_string()), Schema::Schema("<xs:schema/>".to_string())]);
    assert_eq!(c.parser.schemas.len(), 3);
    assert!(matches!(&c.parser.schemas[0], Schema::File(f) if f == "a.xsd"));
    assert!(matches!(&c.parser.schemas[2], Schema::Schema(_)));
}

#[test]
fn flags_are_set_added_and_removed() {
    let c = Config::default()
        .set_parser_flags(ParserFlags::from_bits(ParserFlags::RESOLVE_INCLUDES))
        .with_parser_flags(ParserFlags::from_bits(ParserFlags::DEFAULT_NAMESPACES))
        .without_parser_flags(ParserFlags::from_bits(ParserFlags::RESOLVE_INCLUDES));
    assert_eq!(c.parser.flags.0, ParserFlags::DEFAULT_NAMESPACES);

    let c = Config::default()
        .with_optimizer_flags(OptimizerFlags::from_bits(
            OptimizerFlags::USE_UNRESTRICTED_BASE_TYPE_SIMPLE | OptimizerFlags::SERDE,
        ))
        .without_optimizer_flags(OptimizerFlags::from_bits(OptimizerFlags::USE_UNRESTRICTED_BASE_TYPE_SIMPLE));
    assert_eq!(c.optimizer.flags.0, OptimizerFlags::SERDE);

    let c = Config::default()
        .set_interpreter_flags(InterpreterFlags::from_bits(3))
        .without_interpreter_flags(InterpreterFlags::from_bits(1));
    assert_eq!(c.interpreter.flags.0, 2);
    let c = Config::default().with_generator_flags(GeneratorFlags::from_bits(GeneratorFlags::USE_MODULES));
    assert!(c.generator.flags.contains(GeneratorFlags::from_bits(GeneratorFlags::USE_MODULES)));
    let c = Config::default().with_renderer_flags(RendererFlags::from_bits(RendererFlags::RENDER_DOCS));
    assert_eq!(c.renderer.flags.0, RendererFlags::RENDER_DOCS);
    let c = Config::default()
        .with_box_flags(BoxFlags::from_bits(BoxFlags::AUTO | BoxFlags::ENUM_ELEMENTS))
        .without_box_flags(BoxFlags::from_bits(BoxFlags::AUTO));
    assert_eq!(c.generator.box_flags.0, BoxFlags::ENUM_ELEMENTS);
    let c = Config::default().set_box_flags(BoxFlags::from_bits(BoxFlags::STRUCT_ELEMENTS));
    assert_eq!(c.generator.box_flags.0, BoxFlags::STRUCT_ELEMENTS);
}

#[test]
fn flag_laws_hold_on_values() {
    let a = ParserFlags::from_bits(5);
    let b = ParserFlags::from_bits(6);
    let u = a.union(b);
    assert!(u.contains(a) && u.contains(b));
    let d = u.difference(b);
    assert_eq!(d.0 & b.0, 0);
    assert_eq!(a.union(b).difference(b).union(b).0, a.union(b).0);
    assert!(ParserFlags::empty().union(a).contains(a));
}

#[test]
fn render_step_replaces_its_kind() {
    let c = Config::default()
        .with_render_step(RenderStep::Types)
        .with_render_step(RenderStep::Defaults)
        .with_render_step(RenderStep::TypesSerdeXmlRs { version: SerdeXmlRsVersion::Version08AndAbove });
    assert_eq!(kinds(&c), vec![RenderStepKind::Types, RenderStepKind::Defaults]);
    assert!(matches!(c.renderer.steps[0], RenderStep::TypesSerdeXmlRs { .. }));
    // Adding the same step again changes nothing.
    let c = c.with_render_step(RenderStep::Defaults);
    assert_eq!(kinds(&c), vec![RenderStepKind::Types, RenderStepKind::Defaults]);
    assert!(RenderStep::Types.is_mutual_exclusive_to(&RenderStep::TypesSerdeQuickXml));
    assert!(!RenderStep::Types.is_mutual_exclusive_to(&RenderStep::Defaults));
}

#[test]
fn quick_xml_steps() {
    let c = Config::default().with_quick_xml();
    assert_eq!(
        kinds(&c),
        vec![
            RenderStepKind::Types,
            RenderStepKind::Defaults,
            RenderStepKind::PrefixConstants,
            RenderStepKind::NamespaceConstants,
            RenderStepKind::QuickXmlSerialize,
            RenderStepKind::QuickXmlDeserialize,
        ]
    );
    assert!(matches!(
        c.renderer.steps[4],
        RenderStep::QuickXmlSerialize { namespaces: NamespaceSerialization::Global, default_namespace: None }
    ));
    assert!(matches!(c.renderer.steps[5], RenderStep::QuickXmlDeserialize { boxed_deserializer: false }));
    let c = Config::default().with_quick_xml_deserialize_config(true);
    assert!(matches!(c.renderer.steps.last(), Some(RenderStep::QuickXmlDeserialize { boxed_deserializer: true })));
    let c = Config::default().with_serde_quick_xml();
    assert!(matches!(c.renderer.steps[0], RenderStep::TypesSerdeQuickXml));
    let c = Config::default().with_serde_xml_rs(SerdeXmlRsVersion::Version07AndBelow);
    assert!(matches!(
        c.renderer.steps[0],
        RenderStep::TypesSerdeXmlRs { version: SerdeXmlRsVersion::Version07AndBelow }
    ));
}

#[test]
fn namespaces_and_generator_settings() {
    let c = Config::default()
        .with_namespace(NamespacePrefix::new("tns"), Namespace::new("http://example.com"))
        .with_namespaces(vec![(NamespacePrefix::new("a"), Namespace::new("urn:a"))]);
    assert_eq!(c.parser.namespaces.len(), 2);
    assert_eq!(c.parser.namespaces[0].0 .0, "tns");
    let c = Config::default()
        .with_typedef_mode(TypedefMode::NewType)
        .with_derive(vec!["Debug".to_string(), "Clone".to_string()])
        .with_type_postfix("T".to_string())
        .with_element_postfix("E".to_string())
        .with_element_type_postfix("ET".to_string())
        .with_nillable_content_postfix("NC".to_string())
        .with_dynamic_element_postfix("D".to_string());
    assert_eq!(c.generator.typedef_mode, TypedefMode::NewType);
    assert_eq!(c.renderer.derive.as_ref().unwrap().len(), 2);
    assert_eq!(c.generator.type_postfix.type_, "T");
    assert_eq!(c.generator.type_postfix.element, "E");
    assert_eq!(c.generator.type_postfix.element_type, "ET");
    assert_eq!(c.generator.type_postfix.nillable_content, "NC");
    assert_eq!(c.generator.type_postfix.dynamic_element, "D");
    let c = Config::default().with_generate(vec![IdentQuadruple::from_prefixed(IdentType::Element, "tns:Root")]);
    assert!(matches!(&c.generator.generate, Generate::Types(t) if t.len() == 1 && t[0].name == "Root"));
    let c = Config::default().with_advanced_enums();
    assert!(c.generator.flags.contains(GeneratorFlags::from_bits(GeneratorFlags::ADVANCED_ENUMS)));
}

#[test]
fn support_types() {
    let c = Config::default().with_any_type_support();
    assert!(c.generator.flags.contains(GeneratorFlags::from_bits(GeneratorFlags::ANY_TYPE_SUPPORT)));
    let c = Config::default().with_any_types("A".to_string(), "B".to_string());
    assert_eq!(c.generator.any_type, "A");
    assert_eq!(c.generator.any_attributes_type, "B");
    let c = Config::default().with_mixed_types("T".to_string(), "M".to_string());
    assert!(c.generator.flags.contains(GeneratorFlags::from_bits(GeneratorFlags::MIXED_TYPE_SUPPORT)));
    assert_eq!(c.generator.mixed_type, "M");
    let c = Config::default().with_nillable_type("N".to_string());
    assert!(c.generator.flags.contains(GeneratorFlags::from_bits(GeneratorFlags::NILLABLE_TYPE_SUPPORT)));
    assert_eq!(c.generator.nillable_type, "N");
}

#[test]
fn custom_xs_types() {
    let c = Config::default().with_xs_any_simple_type("::my::AnySimple");
    let (ident, meta) = &c.interpreter.types[0];
    assert_eq!(ident.name, "anySimpleType");
    match &meta.variant {
        MetaTypeVariant::Custom(x) => {
            assert_eq!(x.name, "AnySimple");
            assert_eq!(x.include_path.as_deref(), Some("::my::AnySimple"));
        }
        _ => panic!("expected a custom type"),
    }
    let c = Config::default().with_qname_type();
    match &c.interpreter.types[0].1.variant {
        MetaTypeVariant::Custom(x) => {
            assert_eq!(x.name, "QName");
            assert!(matches!(x.default, Some(CustomDefault::QName)));
        }
        _ => panic!("expected a custom type"),
    }
    let c = Config::default().with_hex_binary_type().with_base64_binary_type();
    assert_eq!(c.interpreter.types.len(), 2);
    assert_eq!(c.interpreter.types[0].0.name, "hexBinary");
    assert_eq!(c.interpreter.types[1].0.name, "base64Binary");
}

#[test]
fn ident_quadruple_builders() {
    let q = IdentQuadruple::new("Foo".to_string(), IdentType::Type)
        .with_ns(NamespaceIdent::id(NamespaceId(3)))
        .with_schema(SchemaIdent::id(SchemaId(4)))
        .with_name("Bar".to_string())
        .with_type(IdentType::Element);
    assert_eq!(q.name, "Bar");
    assert!(matches!(q.ns, Some(NamespaceIdent::Id(NamespaceId(3)))));
    assert!(matches!(q.schema, Some(SchemaIdent::Id(SchemaId(4)))));
    let p = IdentQuadruple::from_prefixed(IdentType::Type, "xs:string");
    assert!(matches!(&p.ns, Some(NamespaceIdent::Prefix(x)) if x.0 == "xs"));
    assert_eq!(p.name, "string");
    let p = IdentQuadruple::from_prefixed(IdentType::Type, "plain");
    assert!(p.ns.is_none());
    assert_eq!(p.name, "plain");
}

#[test]
fn schema_location_is_normalized_by_url() {
    // The URL crate normalizes the location: a trailing slash is added to a bare host.
    match SchemaIdent::location("http://example.com") {
        Some(SchemaIdent::Location(l)) => assert_eq!(l, "http://example.com/"),
        _ => panic!("expected a location"),
    }
    assert!(SchemaIdent::location("not a url").is_none());
    assert!(matches!(SchemaIdent::name("main".to_string()), SchemaIdent::Name(n) if n == "main"));
    assert!(matches!(NamespaceIdent::namespace(Namespace::xs()), NamespaceIdent::Namespace(_)));
}

#[test]
fn quick_xml_deserialize_config_twice_is_once() {
    let once = Config::default().with_render_step(RenderStep::EnumConstants).with_quick_xml_deserialize_config(true);
    let twice = Config::default()
        .with_render_step(RenderStep::EnumConstants)
        .with_quick_xml_deserialize_config(true)
        .with_quick_xml_deserialize_config(true);
    assert_eq!(kinds(&once), kinds(&twice));
    assert_eq!(format!("{:?}", once.renderer.steps), format!("{:?}", twice.renderer.steps));
    let deserializers: Vec<&RenderStep> =
        twice.renderer.steps.iter().filter(|s| matches!(s, RenderStep::QuickXmlDeserialize { .. })).collect();
    assert_eq!(deserializers.len(), 1);
    assert!(matches!(deserializers[0], RenderStep::QuickXmlDeserialize { boxed_deserializer: true }));
}
