//! The [`Config`] structure that configures the parser, interpreter, optimizer, generator
//! and renderer.

pub mod flags;
pub mod ident;
pub mod renderer;

use vstd::prelude::*;

use crate::models::ident::IdentType;
use crate::models::meta::{
    CustomDefault, CustomMeta, CustomMetaNamespace, MetaType, MetaTypeVariant,
};
use crate::models::schema::{xs_uri, xsi_uri, Namespace, NamespacePrefix};
use crate::text::{filter_non_empty, non_empty_strings, type_name_from_path, type_name_of_path};

use self::flags::{
    BoxFlags, GeneratorFlags, InterpreterFlags, OptimizerFlags, ParserFlags, RendererFlags,
};
use self::ident::{IdentQuadruple, NamespaceIdent};
use self::renderer::{
    add_render_step, distinct_kinds, law_with_steps_idempotent, lemma_of_kind_other_steps, of_kind, step_kind, with_step,
    with_steps, NamespaceSerialization, RenderStep, RenderStepKind, RendererConfig,
    SerdeXmlRsVersion,
};

verus! {

/// A schema the parser should parse.
#[derive(Debug)]
pub enum Schema {
    /// The schema is loaded from the given URL.
    Url(String),
    /// The schema is loaded from the given file.
    File(String),
    /// The schema is given as text.
    Schema(String),
    /// The schema is given as text with a name.
    NamedSchema { name: String, schema: String },
}

/// Configuration of the schema parser.
#[derive(Debug)]
pub struct ParserConfig {
    /// The schemas to parse.
    pub schemas: Vec<Schema>,
    /// Flags that control the parser.
    pub flags: ParserFlags,
    /// Additional namespaces with their prefixes.
    pub namespaces: Vec<(NamespacePrefix, Namespace)>,
}

/// Configuration of the schema interpreter.
#[derive(Debug)]
pub struct InterpreterConfig {
    /// Types that are added to (or replace types of) the interpreted schemas.
    pub types: Vec<(IdentQuadruple, MetaType)>,
    /// Flags that control the interpreter.
    pub flags: InterpreterFlags,
}

/// Configuration of the type optimizer.
#[derive(Debug)]
pub struct OptimizerConfig {
    /// Flags that control the optimizer.
    pub flags: OptimizerFlags,
}

/// The types the code is generated for.
#[derive(Debug)]
pub enum Generate {
    /// Code is generated for all types.
    All,
    /// Code is generated for all named types.
    Named,
    /// Code is generated for the listed types (and the types they need).
    Types(Vec<IdentQuadruple>),
}

/// How type definitions are rendered.
#[derive(Clone, Copy, Debug, PartialEq, Eq, Structural)]
pub enum TypedefMode {
    /// Chosen by the generator.
    Auto,
    /// Type definitions are rendered as type aliases.
    Typedef,
    /// Type definitions are rendered as new types.
    NewType,
}

/// Postfixes that are added to the names of the generated types.
#[derive(Debug)]
pub struct TypePostfix {
    pub type_: String,
    pub element: String,
    pub element_type: String,
    pub nillable_content: String,
    pub dynamic_element: String,
}

/// Configuration of the code generator.
#[derive(Debug)]
pub struct GeneratorConfig {
    pub flags: GeneratorFlags,
    pub box_flags: BoxFlags,
    pub generate: Generate,
    pub typedef_mode: TypedefMode,
    pub any_type: String,
    pub any_attributes_type: String,
    pub text_type: String,
    pub mixed_type: String,
    pub nillable_type: String,
    pub type_postfix: TypePostfix,
}

/// Configuration structure for the code generation.
#[derive(Debug)]
pub struct Config {
    /// Configuration for the schema parser.
    pub parser: ParserConfig,
    /// Configuration for the schema interpreter.
    pub interpreter: InterpreterConfig,
    /// Configuration for the type information optimizer.
    pub optimizer: OptimizerConfig,
    /// Configuration for the code generator.
    pub generator: GeneratorConfig,
    /// Configuration for the code renderer.
    pub renderer: RendererConfig,
}

/// `r` equals `s` except for the parser configuration.
pub open spec fn same_but_parser(r: Config, s: Config) -> bool {
    &&& r.interpreter == s.interpreter
    &&& r.optimizer == s.optimizer
    &&& r.generator == s.generator
    &&& r.renderer == s.renderer
}

/// `r` equals `s` except for the interpreter configuration.
pub open spec fn same_but_interpreter(r: Config, s: Config) -> bool {
    &&& r.parser == s.parser
    &&& r.optimizer == s.optimizer
    &&& r.generator == s.generator
    &&& r.renderer == s.renderer
}

/// `r` equals `s` except for the generator configuration.
pub open spec fn same_but_generator(r: Config, s: Config) -> bool {
    &&& r.parser == s.parser
    &&& r.interpreter == s.interpreter
    &&& r.optimizer == s.optimizer
    &&& r.renderer == s.renderer
}

/// `r` equals `s` except for the render steps.
pub open spec fn same_but_steps(r: Config, s: Config) -> bool {
    &&& r.parser == s.parser
    &&& r.interpreter == s.interpreter
    &&& r.optimizer == s.optimizer
    &&& r.generator == s.generator
    &&& r.renderer.flags == s.renderer.flags
    &&& r.renderer.derive == s.renderer.derive
}

/// `r` equals `s` except for the generator flags and the render steps.
pub open spec fn same_but_generator_flags_and_steps(r: Config, s: Config) -> bool {
    &&& r.parser == s.parser
    &&& r.interpreter == s.interpreter
    &&& r.optimizer == s.optimizer
    &&& r.generator == (GeneratorConfig { flags: r.generator.flags, ..s.generator })
    &&& r.renderer.flags == s.renderer.flags
    &&& r.renderer.derive == s.renderer.derive
}

/// `r` equals `s` except for the optimizer flags and the render steps.
pub open spec fn same_but_optimizer_and_steps(r: Config, s: Config) -> bool {
    &&& r.parser == s.parser
    &&& r.interpreter == s.interpreter
    &&& r.generator == s.generator
    &&& r.renderer.flags == s.renderer.flags
    &&& r.renderer.derive == s.renderer.derive
}

/// `entry` is a custom type for `xs:<xs_name>` named after the last part of `path`, included
/// from `path`, that needs the `xs` namespace (and the `xsi` namespace if `with_xsi`).
pub open spec fn is_custom_xs_type(
    entry: (IdentQuadruple, MetaType),
    xs_name: Seq<char>,
    path: Seq<char>,
    with_xsi: bool,
) -> bool {
    let (q, m) = entry;
    &&& q.ns matches Some(NamespaceIdent::Namespace(n)) && n@ == xs_uri()
    &&& q.schema is None
    &&& q.name@ == xs_name
    &&& q.type_ == IdentType::Type
    &&& m.form is None
    &&& m.schema is None
    &&& m.display_name is None
    &&& m.documentation@.len() == 0
    &&& m.variant matches MetaTypeVariant::Custom(c) && {
        &&& c.name@ == type_name_of_path(path)
        &&& c.include_path matches Some(p) && p@ == path
        &&& c.namespaces@.len() == if with_xsi { 2int } else { 1int }
        &&& c.namespaces@[0] matches CustomMetaNamespace::Namespace(n) && n@ == xs_uri()
        &&& with_xsi ==> (c.namespaces@[1] matches CustomMetaNamespace::Namespace(n) && n@
            == xsi_uri())
    }
}

/// The custom meta type of the entry `entry`, if it is one.
pub open spec fn custom_default_of(entry: (IdentQuadruple, MetaType)) -> Option<CustomDefault> {
    match entry.1.variant {
        MetaTypeVariant::Custom(c) => c.default,
        _ => None,
    }
}

/// The steps [`Config::with_quick_xml_serialize_config`] adds.
pub open spec fn quick_xml_serialize_steps(
    namespaces: NamespaceSerialization,
    default_namespace: Option<Namespace>,
) -> Seq<RenderStep> {
    seq![RenderStep::Types, RenderStep::Defaults] + (if namespaces != NamespaceSerialization::Off {
        seq![RenderStep::PrefixConstants]
    } else {
        seq![]
    }) + (if namespaces == NamespaceSerialization::Dynamic {
        seq![RenderStep::QuickXmlCollectNamespaces]
    } else {
        seq![]
    }) + seq![
        RenderStep::NamespaceConstants,
        RenderStep::QuickXmlSerialize { namespaces: namespaces, default_namespace: default_namespace },
    ]
}

/// The steps [`Config::with_quick_xml_deserialize_config`] adds.
pub open spec fn quick_xml_deserialize_steps(boxed_deserializer: bool) -> Seq<RenderStep> {
    seq![
        RenderStep::Types,
        RenderStep::Defaults,
        RenderStep::NamespaceConstants,
        RenderStep::QuickXmlDeserialize { boxed_deserializer: boxed_deserializer },
    ]
}

/// Adding the steps `a` and then the steps `b` is adding the steps `a + b`.
pub proof fn lemma_with_steps_append(steps: Seq<RenderStep>, a: Seq<RenderStep>, b: Seq<RenderStep>)
    ensures
        with_steps(with_steps(steps, a), b) == with_steps(steps, a + b),
    decreases a.len(),
{
    if a.len() == 0 {
        assert(a + b =~= b);
    } else {
        assert((a + b)[0] == a[0]);
        assert((a + b).drop_first() =~= a.drop_first() + b);
        lemma_with_steps_append(with_step(steps, a[0]), a.drop_first(), b);
    }
}

/// Enabling `quick_xml` serialization on the steps `steps` gives the steps `r` in which the
/// types, defaults, namespace constants and serialization steps are each the only step of
/// their kind (the serialization step with the passed settings); namespace prefixes are
/// rendered unless namespaces are off; the namespaces are collected exactly for dynamic
/// namespace serialization; steps of kinds that are not needed stay as they were.
pub proof fn law_quick_xml_serialize_config_steps(
    steps: Seq<RenderStep>,
    namespaces: NamespaceSerialization,
    default_namespace: Option<Namespace>,
    r: Seq<RenderStep>,
)
    requires
        r == with_steps(steps, quick_xml_serialize_steps(namespaces, default_namespace)),
    ensures
        of_kind(r, RenderStepKind::Types) == seq![RenderStep::Types],
        of_kind(r, RenderStepKind::Defaults) == seq![RenderStep::Defaults],
        of_kind(r, RenderStepKind::NamespaceConstants) == seq![RenderStep::NamespaceConstants],
        of_kind(r, RenderStepKind::QuickXmlSerialize) == seq![
            RenderStep::QuickXmlSerialize { namespaces: namespaces, default_namespace: default_namespace },
        ],
        namespaces != NamespaceSerialization::Off ==> of_kind(r, RenderStepKind::PrefixConstants)
            == seq![RenderStep::PrefixConstants],
        namespaces == NamespaceSerialization::Off ==> of_kind(r, RenderStepKind::PrefixConstants)
            == of_kind(steps, RenderStepKind::PrefixConstants),
        namespaces == NamespaceSerialization::Dynamic ==> of_kind(
            r,
            RenderStepKind::QuickXmlCollectNamespaces,
        ) == seq![RenderStep::QuickXmlCollectNamespaces],
        namespaces != NamespaceSerialization::Dynamic ==> of_kind(
            r,
            RenderStepKind::QuickXmlCollectNamespaces,
        ) == of_kind(steps, RenderStepKind::QuickXmlCollectNamespaces),
        of_kind(r, RenderStepKind::QuickXmlDeserialize) == of_kind(
            steps,
            RenderStepKind::QuickXmlDeserialize,
        ),
{
    let q = quick_xml_serialize_steps(namespaces, default_namespace);
    let ser = RenderStep::QuickXmlSerialize { namespaces: namespaces, default_namespace: default_namespace };
    if namespaces == NamespaceSerialization::Dynamic {
        assert(q =~= seq![
            RenderStep::Types,
            RenderStep::Defaults,
            RenderStep::PrefixConstants,
            RenderStep::QuickXmlCollectNamespaces,
            RenderStep::NamespaceConstants,
            ser,
        ]);
        assert(step_kind(q[3]) == RenderStepKind::QuickXmlCollectNamespaces);
        assert(step_kind(q[4]) == RenderStepKind::NamespaceConstants);
        assert(step_kind(q[5]) == RenderStepKind::QuickXmlSerialize);
    } else if namespaces == NamespaceSerialization::Global {
        assert(q =~= seq![
            RenderStep::Types,
            RenderStep::Defaults,
            RenderStep::PrefixConstants,
            RenderStep::NamespaceConstants,
            ser,
        ]);
        assert(step_kind(q[3]) == RenderStepKind::NamespaceConstants);
        assert(step_kind(q[4]) == RenderStepKind::QuickXmlSerialize);
    } else {
        assert(q =~= seq![RenderStep::Types, RenderStep::Defaults, RenderStep::NamespaceConstants, ser]);
        assert(step_kind(q[2]) == RenderStepKind::NamespaceConstants);
        assert(step_kind(q[3]) == RenderStepKind::QuickXmlSerialize);
    }
    assert(step_kind(q[0]) == RenderStepKind::Types);
    assert(step_kind(q[1]) == RenderStepKind::Defaults);
    assert(distinct_kinds(q));
    law_with_steps_idempotent(steps, q);
    if namespaces != NamespaceSerialization::Off {
        assert(step_kind(q[2]) == RenderStepKind::PrefixConstants);
    } else {
        lemma_of_kind_other_steps(steps, q, RenderStepKind::PrefixConstants);
    }
    if namespaces != NamespaceSerialization::Dynamic {
        lemma_of_kind_other_steps(steps, q, RenderStepKind::QuickXmlCollectNamespaces);
    }
    lemma_of_kind_other_steps(steps, q, RenderStepKind::QuickXmlDeserialize);
}

/// Enabling `quick_xml` deserialization twice with one setting gives the steps that enabling
/// it once gives, and these hold exactly one deserialization step, with that setting.
pub proof fn law_quick_xml_deserialize_config_idempotent(steps: Seq<RenderStep>, boxed_deserializer: bool)
    ensures
        with_steps(
            with_steps(steps, quick_xml_deserialize_steps(boxed_deserializer)),
            quick_xml_deserialize_steps(boxed_deserializer),
        ) == with_steps(steps, quick_xml_deserialize_steps(boxed_deserializer)),
        of_kind(
            with_steps(steps, quick_xml_deserialize_steps(boxed_deserializer)),
            RenderStepKind::QuickXmlDeserialize,
        ) == seq![RenderStep::QuickXmlDeserialize { boxed_deserializer: boxed_deserializer }],
{
    let q = quick_xml_deserialize_steps(boxed_deserializer);
    assert(q[3] == RenderStep::QuickXmlDeserialize { boxed_deserializer: boxed_deserializer });
    assert(step_kind(q[0]) == RenderStepKind::Types);
    assert(step_kind(q[1]) == RenderStepKind::Defaults);
    assert(step_kind(q[2]) == RenderStepKind::NamespaceConstants);
    assert(step_kind(q[3]) == RenderStepKind::QuickXmlDeserialize);
    assert(distinct_kinds(q));
    law_with_steps_idempotent(steps, q);
    assert(step_kind(q[3]) == RenderStepKind::QuickXmlDeserialize);
}

/// Adding the single step `s` as a list is adding `s`.
pub proof fn lemma_with_steps_single(steps: Seq<RenderStep>, s: RenderStep)
    ensures
        with_steps(steps, seq![s]) == with_step(steps, s),
{
    let one = seq![s];
    assert(one[0] == s);
    assert(one.drop_first() =~= Seq::<RenderStep>::empty());
    assert(with_steps(with_step(steps, s), Seq::<RenderStep>::empty()) == with_step(steps, s));
}

impl Config {
    /// Creates the default configuration: no schemas, no flags and no render steps.
    pub fn default() -> (r: Config)
        ensures
            r.parser.schemas@.len() == 0,
            r.parser.flags.0 == 0,
            r.parser.namespaces@.len() == 0,
            r.interpreter.types@.len() == 0,
            r.interpreter.flags.0 == 0,
            r.optimizer.flags.0 == 0,
            r.generator.flags.0 == 0,
            r.generator.box_flags.0 == 0,
            r.generator.generate is Named,
            r.generator.typedef_mode == TypedefMode::Auto,
            r.renderer.flags.0 == 0,
            r.renderer.steps@.len() == 0,
            r.renderer.derive is None,
    {
        Config {
            parser: ParserConfig {
                schemas: Vec::new(),
                flags: ParserFlags::empty(),
                namespaces: Vec::new(),
            },
            interpreter: InterpreterConfig { types: Vec::new(), flags: InterpreterFlags::empty() },
            optimizer: OptimizerConfig { flags: OptimizerFlags::empty() },
            generator: GeneratorConfig {
                flags: GeneratorFlags::empty(),
                box_flags: BoxFlags::empty(),
                generate: Generate::Named,
                typedef_mode: TypedefMode::Auto,
                any_type: "::xsd_parser_types::xml::AnyElement".to_string(),
                any_attributes_type: "::xsd_parser_types::xml::AnyAttributes".to_string(),
                text_type: "::xsd_parser_types::xml::Text".to_string(),
                mixed_type: "::xsd_parser_types::xml::Mixed".to_string(),
                nillable_type: "::xsd_parser_types::xml::Nillable".to_string(),
                type_postfix: TypePostfix {
                    type_: "Type".to_string(),
                    element: "".to_string(),
                    element_type: "ElementType".to_string(),
                    nillable_content: "NillableContent".to_string(),
                    dynamic_element: "Dyn".to_string(),
                },
            },
            renderer: RendererConfig {
                flags: RendererFlags::empty(),
                steps: Vec::new(),
                derive: None,
            },
        }
    }

    /// Adds the passed `schema` to the list of schemas to parse.
    pub fn with_schema(self, schema: Schema) -> (r: Config)
        ensures
            r.parser.schemas@ == self.parser.schemas@.push(schema),
            r.parser.flags == self.parser.flags,
            r.parser.namespaces == self.parser.namespaces,
            same_but_parser(r, self),
    {
        let mut this = self;
        this.parser.schemas.push(schema);
        this
    }

    /// Adds the passed `schemas` to the list of schemas to parse.
    pub fn with_schemas(self, schemas: Vec<Schema>) -> (r: Config)
        ensures
            r.parser.schemas@ == self.parser.schemas@ + schemas@,
            r.parser.flags == self.parser.flags,
            r.parser.namespaces == self.parser.namespaces,
            same_but_parser(r, self),
    {
        let ghost orig = schemas@;
        let mut this = self;
        let mut rest = schemas;
        assert(orig.skip(0) =~= orig);
        while rest.len() > 0
            invariant
                rest@.len() <= orig.len(),
                rest@ == orig.skip(orig.len() - rest@.len()),
                this.parser.schemas@ + rest@ == self.parser.schemas@ + orig,
                this.parser.flags == self.parser.flags,
                this.parser.namespaces == self.parser.namespaces,
                same_but_parser(this, self),
            decreases rest@.len(),
        {
            let ghost before = rest@;
            let ghost prev = this.parser.schemas@;
            let s = rest.remove(0);
            this = this.with_schema(s);
            assert(rest@ =~= before.drop_first());
            assert(rest@ =~= orig.skip(orig.len() - rest@.len()));
            assert(prev + before =~= this.parser.schemas@ + rest@);
        }
        assert(this.parser.schemas@ + rest@ =~= this.parser.schemas@);
        this
    }

    /// Set parser flags to the config.
    pub fn set_parser_flags(self, flags: ParserFlags) -> (r: Config)
        ensures
            r == (Config { parser: ParserConfig { flags: flags, ..self.parser }, ..self }),
    {
        let mut this = self;
        this.parser.flags = flags;
        this
    }

    /// Add parser flags to the config.
    pub fn with_parser_flags(self, flags: ParserFlags) -> (r: Config)
        ensures
            r == (Config {
                parser: ParserConfig {
                    flags: ParserFlags(self.parser.flags.0 | flags.0),
                    ..self.parser
                },
                ..self
            }),
    {
        let mut this = self;
        this.parser.flags = ParserFlags(this.parser.flags.0 | flags.0);
        this
    }

    /// Remove parser flags from the config.
    pub fn without_parser_flags(self, flags: ParserFlags) -> (r: Config)
        ensures
            r == (Config {
                parser: ParserConfig {
                    flags: ParserFlags(self.parser.flags.0 & !flags.0),
                    ..self.parser
                },
                ..self
            }),
    {
        let mut this = self;
        this.parser.flags = ParserFlags(this.parser.flags.0 & !flags.0);
        this
    }

    /// Set interpreter flags to the config.
    pub fn set_interpreter_flags(self, flags: InterpreterFlags) -> (r: Config)
        ensures
            r == (Config {
                interpreter: InterpreterConfig { flags: flags, ..self.interpreter },
                ..self
            }),
    {
        let mut this = self;
        this.interpreter.flags = flags;
        this
    }

    /// Add interpreter flags to the config.
    pub fn with_interpreter_flags(self, flags: InterpreterFlags) -> (r: Config)
        ensures
            r == (Config {
                interpreter: InterpreterConfig {
                    flags: InterpreterFlags(self.interpreter.flags.0 | flags.0),
                    ..self.interpreter
                },
                ..self
            }),
    {
        let mut this = self;
        this.interpreter.flags = InterpreterFlags(this.interpreter.flags.0 | flags.0);
        this
    }

    /// Remove interpreter flags from the config.
    pub fn without_interpreter_flags(self, flags: InterpreterFlags) -> (r: Config)
        ensures
            r == (Config {
                interpreter: InterpreterConfig {
                    flags: InterpreterFlags(self.interpreter.flags.0 & !flags.0),
                    ..self.interpreter
                },
                ..self
            }),
    {
        let mut this = self;
        this.interpreter.flags = InterpreterFlags(this.interpreter.flags.0 & !flags.0);
        this
    }

    /// Set optimizer flags to the config.
    pub fn set_optimizer_flags(self, flags: OptimizerFlags) -> (r: Config)
        ensures
            r == (Config { optimizer: OptimizerConfig { flags: flags }, ..self }),
    {
        let mut this = self;
        this.optimizer.flags = flags;
        this
    }

    /// Add optimizer flags to the config.
    pub fn with_optimizer_flags(self, flags: OptimizerFlags) -> (r: Config)
        ensures
            r == (Config {
                optimizer: OptimizerConfig { flags: OptimizerFlags(self.optimizer.flags.0 | flags.0) },
                ..self
            }),
    {
        let mut this = self;
        this.optimizer.flags = OptimizerFlags(this.optimizer.flags.0 | flags.0);
        this
    }

    /// Remove optimizer flags from the config.
    pub fn without_optimizer_flags(self, flags: OptimizerFlags) -> (r: Config)
        ensures
            r == (Config {
                optimizer: OptimizerConfig {
                    flags: OptimizerFlags(self.optimizer.flags.0 & !flags.0),
                },
                ..self
            }),
    {
        let mut this = self;
        this.optimizer.flags = OptimizerFlags(this.optimizer.flags.0 & !flags.0);
        this
    }

    /// Set generator flags to the config.
    pub fn set_generator_flags(self, flags: GeneratorFlags) -> (r: Config)
        ensures
            r == (Config { generator: GeneratorConfig { flags: flags, ..self.generator }, ..self }),
    {
        let mut this = self;
        this.generator.flags = flags;
        this
    }

    /// Add generator flags to the config.
    pub fn with_generator_flags(self, flags: GeneratorFlags) -> (r: Config)
        ensures
            r == (Config {
                generator: GeneratorConfig {
                    flags: GeneratorFlags(self.generator.flags.0 | flags.0),
                    ..self.generator
                },
                ..self
            }),
    {
        let mut this = self;
        this.generator.flags = GeneratorFlags(this.generator.flags.0 | flags.0);
        this
    }

    /// Remove generator flags from the config.
    pub fn without_generator_flags(self, flags: GeneratorFlags) -> (r: Config)
        ensures
            r == (Config {
                generator: GeneratorConfig {
                    flags: GeneratorFlags(self.generator.flags.0 & !flags.0),
                    ..self.generator
                },
                ..self
            }),
    {
        let mut this = self;
        this.generator.flags = GeneratorFlags(this.generator.flags.0 & !flags.0);
        this
    }

    /// Set renderer flags to the config.
    pub fn set_renderer_flags(self, flags: RendererFlags) -> (r: Config)
        ensures
            r == (Config { renderer: RendererConfig { flags: flags, ..self.renderer }, ..self }),
    {
        let mut this = self;
        this.renderer.flags = flags;
        this
    }

    /// Add renderer flags to the config.
    pub fn with_renderer_flags(self, flags: RendererFlags) -> (r: Config)
        ensures
            r == (Config {
                renderer: RendererConfig {
                    flags: RendererFlags(self.renderer.flags.0 | flags.0),
                    ..self.renderer
                },
                ..self
            }),
    {
        let mut this = self;
        this.renderer.flags = RendererFlags(this.renderer.flags.0 | flags.0);
        this
    }

    /// Remove renderer flags from the config.
    pub fn without_renderer_flags(self, flags: RendererFlags) -> (r: Config)
        ensures
            r == (Config {
                renderer: RendererConfig {
                    flags: RendererFlags(self.renderer.flags.0 & !flags.0),
                    ..self.renderer
                },
                ..self
            }),
    {
        let mut this = self;
        this.renderer.flags = RendererFlags(this.renderer.flags.0 & !flags.0);
        this
    }

    /// Set boxing flags to the code generator config.
    pub fn set_box_flags(self, flags: BoxFlags) -> (r: Config)
        ensures
            r == (Config {
                generator: GeneratorConfig { box_flags: flags, ..self.generator },
                ..self
            }),
    {
        let mut this = self;
        this.generator.box_flags = flags;
        this
    }

    /// Add boxing flags to the code generator config.
    pub fn with_box_flags(self, flags: BoxFlags) -> (r: Config)
        ensures
            r == (Config {
                generator: GeneratorConfig {
                    box_flags: BoxFlags(self.generator.box_flags.0 | flags.0),
                    ..self.generator
                },
                ..self
            }),
    {
        let mut this = self;
        this.generator.box_flags = BoxFlags(this.generator.box_flags.0 | flags.0);
        this
    }

    /// Remove boxing flags from the code generator config.
    pub fn without_box_flags(self, flags: BoxFlags) -> (r: Config)
        ensures
            r == (Config {
                generator: GeneratorConfig {
                    box_flags: BoxFlags(self.generator.box_flags.0 & !flags.0),
                    ..self.generator
                },
                ..self
            }),
    {
        let mut this = self;
        this.generator.box_flags = BoxFlags(this.generator.box_flags.0 & !flags.0);
        this
    }

    /// Adds the passed `step` to the config.
    ///
    /// If the same type of renderer was already added, it is replaced by the new one:
    /// `step` takes the place of the first step of its kind, and the other steps of its
    /// kind are removed.
    pub fn with_render_step(self, step: RenderStep) -> (r: Config)
        ensures
            r.renderer.steps@ == with_step(self.renderer.steps@, step),
            same_but_steps(r, self),
    {
        let mut this = self;
        let steps = this.renderer.steps;
        this.renderer.steps = add_render_step(steps, step);
        this
    }

    /// Add multiple render steps to the config, one after the other.
    ///
    /// See [`with_render_step`](Self::with_render_step) for details.
    pub fn with_render_steps(self, steps: Vec<RenderStep>) -> (r: Config)
        ensures
            r.renderer.steps@ == with_steps(self.renderer.steps@, steps@),
            same_but_steps(r, self),
    {
        let ghost orig = steps@;
        let mut this = self;
        let mut rest = steps;
        assert(orig.skip(0) =~= orig);
        while rest.len() > 0
            invariant
                rest@.len() <= orig.len(),
                rest@ == orig.skip(orig.len() - rest@.len()),
                with_steps(self.renderer.steps@, orig) == with_steps(this.renderer.steps@, rest@),
                same_but_steps(this, self),
            decreases rest@.len(),
        {
            let ghost before = rest@;
            let s = rest.remove(0);
            this = this.with_render_step(s);
            assert(rest@ =~= before.drop_first());
            assert(rest@ =~= orig.skip(orig.len() - rest@.len()));
        }
        this
    }

    /// Enable code generation for `quick_xml` serialization.
    pub fn with_quick_xml_serialize(self) -> (r: Config)
        ensures
            r.renderer.steps@ == with_steps(
                self.renderer.steps@,
                quick_xml_serialize_steps(NamespaceSerialization::Global, None),
            ),
            same_but_steps(r, self),
    {
        let r = self.with_render_steps(
            vec![
                RenderStep::Types,
                RenderStep::Defaults,
                RenderStep::PrefixConstants,
                RenderStep::NamespaceConstants,
                RenderStep::QuickXmlSerialize {
                    namespaces: NamespaceSerialization::Global,
                    default_namespace: None,
                },
            ],
        );
        assert(quick_xml_serialize_steps(NamespaceSerialization::Global, None) =~= seq![
            RenderStep::Types,
            RenderStep::Defaults,
            RenderStep::PrefixConstants,
            RenderStep::NamespaceConstants,
            RenderStep::QuickXmlSerialize {
                namespaces: NamespaceSerialization::Global,
                default_namespace: None,
            },
        ]);
        r
    }

    /// Enable code generation for `quick_xml` serialization with the passed configuration.
    pub fn with_quick_xml_serialize_config(
        self,
        namespaces: NamespaceSerialization,
        default_namespace: Option<Namespace>,
    ) -> (r: Config)
        ensures
            r.renderer.steps@ == with_steps(
                self.renderer.steps@,
                quick_xml_serialize_steps(namespaces, default_namespace),
            ),
            same_but_steps(r, self),
    {
        let ghost base = self.renderer.steps@;
        let mut this = self.with_render_steps(vec![RenderStep::Types, RenderStep::Defaults]);
        let ghost mut added: Seq<RenderStep> = seq![RenderStep::Types, RenderStep::Defaults];
        assert(this.renderer.steps@ == with_steps(base, added));
        if namespaces != NamespaceSerialization::Off {
            let ghost prev = this.renderer.steps@;
            this = this.with_render_step(RenderStep::PrefixConstants);
            proof {
                let one = seq![RenderStep::PrefixConstants];
                lemma_with_steps_single(prev, RenderStep::PrefixConstants);
                lemma_with_steps_append(base, added, one);
                added = added + one;
            }
        }
        if namespaces == NamespaceSerialization::Dynamic {
            let ghost prev = this.renderer.steps@;
            this = this.with_render_step(RenderStep::QuickXmlCollectNamespaces);
            proof {
                let one = seq![RenderStep::QuickXmlCollectNamespaces];
                lemma_with_steps_single(prev, RenderStep::QuickXmlCollectNamespaces);
                lemma_with_steps_append(base, added, one);
                added = added + one;
            }
        }
        let ghost prev = this.renderer.steps@;
        let ghost last = seq![
            RenderStep::NamespaceConstants,
            RenderStep::QuickXmlSerialize { namespaces: namespaces, default_namespace: default_namespace },
        ];
        let r = this.with_render_steps(
            vec![
                RenderStep::NamespaceConstants,
                RenderStep::QuickXmlSerialize { namespaces, default_namespace },
            ],
        );
        proof {
            lemma_with_steps_append(base, added, last);
            assert(added + last =~= quick_xml_serialize_steps(namespaces, default_namespace));
        }
        r
    }

    /// Enable code generation for `quick_xml` deserialization with the default settings.
    pub fn with_quick_xml_deserialize(self) -> (r: Config)
        ensures
            r.renderer.steps@ == with_steps(self.renderer.steps@, quick_xml_deserialize_steps(false)),
            same_but_steps(r, self),
    {
        self.with_quick_xml_deserialize_config(false)
    }

    /// Enable render steps for `quick_xml` deserialization with the passed configuration.
    pub fn with_quick_xml_deserialize_config(self, boxed_deserializer: bool) -> (r: Config)
        ensures
            r.renderer.steps@ == with_steps(
                self.renderer.steps@,
                quick_xml_deserialize_steps(boxed_deserializer),
            ),
            same_but_steps(r, self),
    {
        let r = self.with_render_steps(
            vec![
                RenderStep::Types,
                RenderStep::Defaults,
                RenderStep::NamespaceConstants,
                RenderStep::QuickXmlDeserialize { boxed_deserializer },
            ],
        );
        assert(quick_xml_deserialize_steps(boxed_deserializer) =~= seq![
            RenderStep::Types,
            RenderStep::Defaults,
            RenderStep::NamespaceConstants,
            RenderStep::QuickXmlDeserialize { boxed_deserializer: boxed_deserializer },
        ]);
        r
    }

    /// Enable render steps for `quick_xml` serialization and deserialization with the
    /// default settings.
    pub fn with_quick_xml(self) -> (r: Config)
        ensures
            r.renderer.steps@ == with_steps(
                with_steps(
                    self.renderer.steps@,
                    quick_xml_serialize_steps(NamespaceSerialization::Global, None),
                ),
                quick_xml_deserialize_steps(false),
            ),
            same_but_steps(r, self),
    {
        self.with_quick_xml_serialize().with_quick_xml_deserialize()
    }

    /// Enable render steps for `quick_xml` serialization and deserialization with the
    /// passed configuration.
    pub fn with_quick_xml_config(
        self,
        namespace_serialization: NamespaceSerialization,
        default_serialize_namespace: Option<Namespace>,
        boxed_deserializer: bool,
    ) -> (r: Config)
        ensures
            r.renderer.steps@ == with_steps(
                with_steps(
                    self.renderer.steps@,
                    quick_xml_serialize_steps(namespace_serialization, default_serialize_namespace),
                ),
                quick_xml_deserialize_steps(boxed_deserializer),
            ),
            same_but_steps(r, self),
    {
        self.with_quick_xml_serialize_config(namespace_serialization, default_serialize_namespace)
            .with_quick_xml_deserialize_config(boxed_deserializer)
    }

    /// Enable render steps for types with `quick_xml` serde support.
    pub fn with_serde_quick_xml(self) -> (r: Config)
        ensures
            r.optimizer.flags.0 == self.optimizer.flags.0 | OptimizerFlags::SERDE,
            r.renderer.steps@ == with_steps(
                self.renderer.steps@,
                seq![RenderStep::TypesSerdeQuickXml, RenderStep::Defaults],
            ),
            same_but_optimizer_and_steps(r, self),
    {
        let mut this = self;
        this.optimizer.flags = OptimizerFlags(this.optimizer.flags.0 | OptimizerFlags::SERDE);
        let r = this.with_render_steps(vec![RenderStep::TypesSerdeQuickXml, RenderStep::Defaults]);
        assert(seq![RenderStep::TypesSerdeQuickXml, RenderStep::Defaults] =~= seq![
            RenderStep::TypesSerdeQuickXml,
            RenderStep::Defaults,
        ]);
        r
    }

    /// Enable render steps for types with `serde-xml-rs` support.
    pub fn with_serde_xml_rs(self, version: SerdeXmlRsVersion) -> (r: Config)
        ensures
            r.optimizer.flags.0 == self.optimizer.flags.0 | OptimizerFlags::SERDE,
            r.renderer.steps@ == with_steps(
                self.renderer.steps@,
                seq![RenderStep::TypesSerdeXmlRs { version: version }, RenderStep::Defaults],
            ),
            same_but_optimizer_and_steps(r, self),
    {
        let mut this = self;
        this.optimizer.flags = OptimizerFlags(this.optimizer.flags.0 | OptimizerFlags::SERDE);
        this.with_render_steps(vec![RenderStep::TypesSerdeXmlRs { version }, RenderStep::Defaults])
    }

    /// Enable support for advanced enums: constants are added for each enum variant using
    /// its simple base type.
    pub fn with_advanced_enums(self) -> (r: Config)
        ensures
            r.generator.flags.0 == self.generator.flags.0 | GeneratorFlags::ADVANCED_ENUMS,
            r.renderer.steps@ == with_step(self.renderer.steps@, RenderStep::EnumConstants),
            same_but_generator_flags_and_steps(r, self),
    {
        self.with_generator_flags(GeneratorFlags(GeneratorFlags::ADVANCED_ENUMS)).with_render_step(
            RenderStep::EnumConstants,
        )
    }

    /// Add a namespace to the parser config.
    pub fn with_namespace(self, prefix: NamespacePrefix, namespace: Namespace) -> (r: Config)
        ensures
            r.parser.namespaces@ == self.parser.namespaces@.push((prefix, namespace)),
            r.parser.schemas == self.parser.schemas,
            r.parser.flags == self.parser.flags,
            same_but_parser(r, self),
    {
        let mut this = self;
        this.parser.namespaces.push((prefix, namespace));
        this
    }

    /// Add multiple namespaces to the parser config.
    pub fn with_namespaces(self, namespaces: Vec<(NamespacePrefix, Namespace)>) -> (r: Config)
        ensures
            r.parser.namespaces@ == self.parser.namespaces@ + namespaces@,
            r.parser.schemas == self.parser.schemas,
            r.parser.flags == self.parser.flags,
            same_but_parser(r, self),
    {
        let ghost orig = namespaces@;
        let mut this = self;
        let mut rest = namespaces;
        assert(orig.skip(0) =~= orig);
        while rest.len() > 0
            invariant
                rest@.len() <= orig.len(),
                rest@ == orig.skip(orig.len() - rest@.len()),
                this.parser.namespaces@ + rest@ == self.parser.namespaces@ + orig,
                this.parser.schemas == self.parser.schemas,
                this.parser.flags == self.parser.flags,
                same_but_parser(this, self),
            decreases rest@.len(),
        {
            let ghost before = rest@;
            let ghost prev = this.parser.namespaces@;
            let (p, n) = rest.remove(0);
            this.parser.namespaces.push((p, n));
            assert(rest@ =~= before.drop_first());
            assert(rest@ =~= orig.skip(orig.len() - rest@.len()));
            assert(prev + before =~= this.parser.namespaces@ + rest@);
        }
        assert(this.parser.namespaces@ + rest@ =~= this.parser.namespaces@);
        this
    }

    /// Set the types the code should be generated for.
    pub fn with_generate(self, types: Vec<IdentQuadruple>) -> (r: Config)
        ensures
            r == (Config {
                generator: GeneratorConfig { generate: Generate::Types(types), ..self.generator },
                ..self
            }),
    {
        let mut this = self;
        this.generator.generate = Generate::Types(types);
        this
    }

    /// Set the typedef mode for the generator.
    pub fn with_typedef_mode(self, mode: TypedefMode) -> (r: Config)
        ensures
            r == (Config {
                generator: GeneratorConfig { typedef_mode: mode, ..self.generator },
                ..self
            }),
    {
        let mut this = self;
        this.generator.typedef_mode = mode;
        this
    }

    /// Set the traits the generated types should derive from; empty names are dropped.
    pub fn with_derive(self, derive: Vec<String>) -> (r: Config)
        ensures
            r.renderer.derive matches Some(d) && d@ == non_empty_strings(derive@),
            r.renderer.flags == self.renderer.flags,
            r.renderer.steps == self.renderer.steps,
            r.parser == self.parser,
            r.interpreter == self.interpreter,
            r.optimizer == self.optimizer,
            r.generator == self.generator,
    {
        let mut this = self;
        this.renderer.derive = Some(filter_non_empty(derive));
        this
    }

    /// Enable support for `xs:any` types.
    pub fn with_any_type_support(self) -> (r: Config)
        ensures
            r == (Config {
                generator: GeneratorConfig {
                    flags: GeneratorFlags(self.generator.flags.0 | GeneratorFlags::ANY_TYPE_SUPPORT),
                    ..self.generator
                },
                ..self
            }),
    {
        self.with_generator_flags(GeneratorFlags(GeneratorFlags::ANY_TYPE_SUPPORT))
    }

    /// Set the types to use to handle `xs:any` and `xs:anyAttribute` elements, and enable
    /// the support for them.
    pub fn with_any_types(self, any_type: String, any_attributes_type: String) -> (r: Config)
        ensures
            r == (Config {
                generator: GeneratorConfig {
                    flags: GeneratorFlags(self.generator.flags.0 | GeneratorFlags::ANY_TYPE_SUPPORT),
                    any_type: any_type,
                    any_attributes_type: any_attributes_type,
                    ..self.generator
                },
                ..self
            }),
    {
        let mut this = self;
        this.generator.any_type = any_type;
        this.generator.any_attributes_type = any_attributes_type;
        this.with_any_type_support()
    }

    /// Enable support for mixed types.
    pub fn with_mixed_type_support(self) -> (r: Config)
        ensures
            r == (Config {
                generator: GeneratorConfig {
                    flags: GeneratorFlags(
                        self.generator.flags.0 | GeneratorFlags::MIXED_TYPE_SUPPORT,
                    ),
                    ..self.generator
                },
                ..self
            }),
    {
        self.with_generator_flags(GeneratorFlags(GeneratorFlags::MIXED_TYPE_SUPPORT))
    }

    /// Set the types to use to handle mixed types and text data, and enable the support
    /// for them.
    pub fn with_mixed_types(self, text_type: String, mixed_type: String) -> (r: Config)
        ensures
            r == (Config {
                generator: GeneratorConfig {
                    flags: GeneratorFlags(
                        self.generator.flags.0 | GeneratorFlags::MIXED_TYPE_SUPPORT,
                    ),
                    text_type: text_type,
                    mixed_type: mixed_type,
                    ..self.generator
                },
                ..self
            }),
    {
        let mut this = self;
        this.generator.text_type = text_type;
        this.generator.mixed_type = mixed_type;
        this.with_mixed_type_support()
    }

    /// Enable support for nillable types.
    pub fn with_nillable_type_support(self) -> (r: Config)
        ensures
            r == (Config {
                generator: GeneratorConfig {
                    flags: GeneratorFlags(
                        self.generator.flags.0 | GeneratorFlags::NILLABLE_TYPE_SUPPORT,
                    ),
                    ..self.generator
                },
                ..self
            }),
    {
        self.with_generator_flags(GeneratorFlags(GeneratorFlags::NILLABLE_TYPE_SUPPORT))
    }

    /// Set the type to use to handle nillable elements, and enable the support for them.
    pub fn with_nillable_type(self, nillable_type: String) -> (r: Config)
        ensures
            r == (Config {
                generator: GeneratorConfig {
                    flags: GeneratorFlags(
                        self.generator.flags.0 | GeneratorFlags::NILLABLE_TYPE_SUPPORT,
                    ),
                    nillable_type: nillable_type,
                    ..self.generator
                },
                ..self
            }),
    {
        let mut this = self;
        this.generator.nillable_type = nillable_type;
        this.with_nillable_type_support()
    }

    /// Add a type to the interpreter.
    ///
    /// This can be used to add or overwrite type definitions to the interpreter,
    /// for example to support `xs:anySimpleType` with a custom type.
    pub fn with_type(self, ident: IdentQuadruple, meta: MetaType) -> (r: Config)
        ensures
            r.interpreter.types@ == self.interpreter.types@.push((ident, meta)),
            r.interpreter.flags == self.interpreter.flags,
            same_but_interpreter(r, self),
    {
        let mut this = self;
        this.interpreter.types.push((ident, meta));
        this
    }

    /// Add a type to the interpreter that should be used to handle `xs:anySimpleType`:
    /// a custom type named after the last part of `path`.
    pub fn with_xs_any_simple_type(self, path: &str) -> (r: Config)
        ensures
            r.interpreter.types@.len() == self.interpreter.types@.len() + 1,
            r.interpreter.types@.drop_last() == self.interpreter.types@,
            is_custom_xs_type(r.interpreter.types@.last(), "anySimpleType"@, path@, true),
            custom_default_of(r.interpreter.types@.last()) is None,
            r.interpreter.flags == self.interpreter.flags,
            same_but_interpreter(r, self),
    {
        let name = type_name_from_path(path);
        let ident = IdentQuadruple::from_parts(
            IdentType::Type,
            Some(NamespaceIdent::Namespace(Namespace::xs())),
            None,
            "anySimpleType".to_string(),
        );
        let meta = CustomMeta::new(name).include_from(path).with_namespace(
            CustomMetaNamespace::Namespace(Namespace::xs()),
        ).with_namespace(CustomMetaNamespace::Namespace(Namespace::xsi()));
        let r = self.with_type(ident, MetaType::new(MetaTypeVariant::Custom(meta)));
        assert(r.interpreter.types@.drop_last() =~= self.interpreter.types@);
        r
    }

    /// Add a type definition for `xs:QName` that uses the `xsd_parser_types::xml::QName` type.
    pub fn with_qname_type(self) -> (r: Config)
        ensures
            r.interpreter.types@.len() == self.interpreter.types@.len() + 1,
            r.interpreter.types@.drop_last() == self.interpreter.types@,
            is_custom_xs_type(
                r.interpreter.types@.last(),
                "QName"@,
                "::xsd_parser_types::xml::QName"@,
                false,
            ),
            custom_default_of(r.interpreter.types@.last()) == Some(CustomDefault::QName),
            r.interpreter.flags == self.interpreter.flags,
            same_but_interpreter(r, self),
    {
        self.with_qname_type_from("::xsd_parser_types::xml::QName")
    }

    /// Add a type definition for `xs:QName` that uses the type defined at the passed `path`.
    pub fn with_qname_type_from(self, path: &str) -> (r: Config)
        ensures
            r.interpreter.types@.len() == self.interpreter.types@.len() + 1,
            r.interpreter.types@.drop_last() == self.interpreter.types@,
            is_custom_xs_type(r.interpreter.types@.last(), "QName"@, path@, false),
            custom_default_of(r.interpreter.types@.last()) == Some(CustomDefault::QName),
            r.interpreter.flags == self.interpreter.flags,
            same_but_interpreter(r, self),
    {
        let name = type_name_from_path(path);
        let ident = IdentQuadruple::from_parts(
            IdentType::Type,
            Some(NamespaceIdent::Namespace(Namespace::xs())),
            None,
            "QName".to_string(),
        );
        let meta = CustomMeta::new(name).include_from(path).with_namespace(
            CustomMetaNamespace::Namespace(Namespace::xs()),
        ).with_default(CustomDefault::QName);
        let r = self.with_type(ident, MetaType::new(MetaTypeVariant::Custom(meta)));
        assert(r.interpreter.types@.drop_last() =~= self.interpreter.types@);
        r
    }

    /// Add a type definition for `xs:hexBinary` that uses the
    /// `xsd_parser_types::xml::HexString` type.
    pub fn with_hex_binary_type(self) -> (r: Config)
        ensures
            r.interpreter.types@.len() == self.interpreter.types@.len() + 1,
            r.interpreter.types@.drop_last() == self.interpreter.types@,
            is_custom_xs_type(
                r.interpreter.types@.last(),
                "hexBinary"@,
                "::xsd_parser_types::xml::HexString"@,
                false,
            ),
            custom_default_of(r.interpreter.types@.last()) is None,
            r.interpreter.flags == self.interpreter.flags,
            same_but_interpreter(r, self),
    {
        self.with_hex_binary_type_from("::xsd_parser_types::xml::HexString")
    }

    /// Add a type definition for `xs:hexBinary` that uses the type defined at the passed
    /// `path`.
    pub fn with_hex_binary_type_from(self, path: &str) -> (r: Config)
        ensures
            r.interpreter.types@.len() == self.interpreter.types@.len() + 1,
            r.interpreter.types@.drop_last() == self.interpreter.types@,
            is_custom_xs_type(r.interpreter.types@.last(), "hexBinary"@, path@, false),
            custom_default_of(r.interpreter.types@.last()) is None,
            r.interpreter.flags == self.interpreter.flags,
            same_but_interpreter(r, self),
    {
        self.with_custom_xs_type("hexBinary", path)
    }

    /// Add a type definition for `xs:base64Binary` that uses the
    /// `xsd_parser_types::xml::Base64String` type.
    pub fn with_base64_binary_type(self) -> (r: Config)
        ensures
            r.interpreter.types@.len() == self.interpreter.types@.len() + 1,
            r.interpreter.types@.drop_last() == self.interpreter.types@,
            is_custom_xs_type(
                r.interpreter.types@.last(),
                "base64Binary"@,
                "::xsd_parser_types::xml::Base64String"@,
                false,
            ),
            custom_default_of(r.interpreter.types@.last()) is None,
            r.interpreter.flags == self.interpreter.flags,
            same_but_interpreter(r, self),
    {
        self.with_base64_binary_type_from("::xsd_parser_types::xml::Base64String")
    }

    /// Add a type definition for `xs:base64Binary` that uses the type defined at the passed
    /// `path`.
    pub fn with_base64_binary_type_from(self, path: &str) -> (r: Config)
        ensures
            r.interpreter.types@.len() == self.interpreter.types@.len() + 1,
            r.interpreter.types@.drop_last() == self.interpreter.types@,
            is_custom_xs_type(r.interpreter.types@.last(), "base64Binary"@, path@, false),
            custom_default_of(r.interpreter.types@.last()) is None,
            r.interpreter.flags == self.interpreter.flags,
            same_but_interpreter(r, self),
    {
        self.with_custom_xs_type("base64Binary", path)
    }

    /// Adds a custom type for `xs:<xs_name>` that is included from `path` and needs the
    /// `xs` namespace.
    fn with_custom_xs_type(self, xs_name: &str, path: &str) -> (r: Config)
        ensures
            r.interpreter.types@.len() == self.interpreter.types@.len() + 1,
            r.interpreter.types@.drop_last() == self.interpreter.types@,
            is_custom_xs_type(r.interpreter.types@.last(), xs_name@, path@, false),
            custom_default_of(r.interpreter.types@.last()) is None,
            r.interpreter.flags == self.interpreter.flags,
            same_but_interpreter(r, self),
    {
        let name = type_name_from_path(path);
        let ident = IdentQuadruple::from_parts(
            IdentType::Type,
            Some(NamespaceIdent::Namespace(Namespace::xs())),
            None,
            xs_name.to_string(),
        );
        let meta = CustomMeta::new(name).include_from(path).with_namespace(
            CustomMetaNamespace::Namespace(Namespace::xs()),
        );
        let r = self.with_type(ident, MetaType::new(MetaTypeVariant::Custom(meta)));
        assert(r.interpreter.types@.drop_last() =~= self.interpreter.types@);
        r
    }

    /// Set the postfix that should be applied to the name of types.
    pub fn with_type_postfix(self, value: String) -> (r: Config)
        ensures
            r == (Config {
                generator: GeneratorConfig {
                    type_postfix: TypePostfix { type_: value, ..self.generator.type_postfix },
                    ..self.generator
                },
                ..self
            }),
    {
        let mut this = self;
        this.generator.type_postfix.type_ = value;
        this
    }

    /// Set the postfix that should be applied to the name of elements.
    pub fn with_element_postfix(self, value: String) -> (r: Config)
        ensures
            r == (Config {
                generator: GeneratorConfig {
                    type_postfix: TypePostfix { element: value, ..self.generator.type_postfix },
                    ..self.generator
                },
                ..self
            }),
    {
        let mut this = self;
        this.generator.type_postfix.element = value;
        this
    }

    /// Set the postfix that should be applied to the name of element types.
    pub fn with_element_type_postfix(self, value: String) -> (r: Config)
        ensures
            r == (Config {
                generator: GeneratorConfig {
                    type_postfix: TypePostfix { element_type: value, ..self.generator.type_postfix },
                    ..self.generator
                },
                ..self
            }),
    {
        let mut this = self;
        this.generator.type_postfix.element_type = value;
        this
    }

    /// Set the postfix that should be applied to the name of nillable content types.
    pub fn with_nillable_content_postfix(self, value: String) -> (r: Config)
        ensures
            r == (Config {
                generator: GeneratorConfig {
                    type_postfix: TypePostfix {
                        nillable_content: value,
                        ..self.generator.type_postfix
                    },
                    ..self.generator
                },
                ..self
            }),
    {
        let mut this = self;
        this.generator.type_postfix.nillable_content = value;
        this
    }

    /// Set the postfix that should be applied to the name of dynamic elements.
    pub fn with_dynamic_element_postfix(self, value: String) -> (r: Config)
        ensures
            r == (Config {
                generator: GeneratorConfig {
                    type_postfix: TypePostfix {
                        dynamic_element: value,
                        ..self.generator.type_postfix
                    },
                    ..self.generator
                },
                ..self
            }),
    {
        let mut this = self;
        this.generator.type_postfix.dynamic_element = value;
        this
    }
}

} // verus!
