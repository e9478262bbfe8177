use vstd::prelude::*;

use crate::interpreter::error::InterpreterError;
use crate::models::ident::{IdentType, Name, NamespaceId, SchemaId, TypeIdent, TypeIdentView};
use crate::models::schema::{
    find_schema_by_location, find_schema_by_name, opt_str_view, Namespace, NamespacePrefix,
    Schemas,
};
use crate::text::{find_char, lemma_find_char, split_once_char, str_eq};

verus! {

/// Identifies a namespace by either it's id, it's known prefix or it's namespace.
///
/// Used in [`IdentQuadruple`].
#[derive(Debug)]
pub enum NamespaceIdent {
    /// Identifies the anonymous namespace.
    Anonymous,
    /// Use the actual id the namespace is identified with.
    Id(NamespaceId),
    /// Uses a namespace prefix to refer to a specific namespace in the schema.
    Prefix(NamespacePrefix),
    /// Uses the full namespace to refer to a specific namespace in the schema.
    Namespace(Namespace),
}

impl NamespaceIdent {
    /// Creates a new [`NamespaceIdent::Id`] instance from the passed `value`.
    pub fn id(value: NamespaceId) -> (r: NamespaceIdent)
        ensures
            r == NamespaceIdent::Id(value),
    {
        NamespaceIdent::Id(value)
    }

    /// Creates a new [`NamespaceIdent::Prefix`] instance from the passed `value`.
    pub fn prefix(value: NamespacePrefix) -> (r: NamespaceIdent)
        ensures
            r == NamespaceIdent::Prefix(value),
    {
        NamespaceIdent::Prefix(value)
    }

    /// Creates a new [`NamespaceIdent::Namespace`] instance from the passed `value`.
    pub fn namespace(value: Namespace) -> (r: NamespaceIdent)
        ensures
            r == NamespaceIdent::Namespace(value),
    {
        NamespaceIdent::Namespace(value)
    }
}

/// Serialization of the URL `input` as the `url` crate parses it (`None` if it is no valid
/// absolute URL).
pub uninterp spec fn url_serialization(input: Seq<char>) -> Option<Seq<char>>;

/// Calls `url::Url::parse` and returns the serialization (`Url::as_str`) of the parsed URL.
/// What it returns is named by `url_serialization`.
#[verifier::external_body]
fn parse_url(input: &str) -> (r: Option<String>)
    ensures
        opt_str_view(r) == url_serialization(input@),
{
    match url::Url::parse(input) {
        Ok(url) => Some(url.as_str().to_string()),
        Err(_) => None,
    }
}

/// Identifies a schema by either it's id, it's name or it's location.
///
/// Used in [`IdentQuadruple`].
#[derive(Debug)]
pub enum SchemaIdent {
    /// Identify the schema by it's [`SchemaId`].
    Id(SchemaId),
    /// Identify the schema by it's name.
    Name(String),
    /// Identify the schema by it's location (the serialization of its URL).
    Location(String),
}

impl SchemaIdent {
    /// Creates a new [`SchemaIdent::Id`] instance from the passed `value`.
    pub fn id(value: SchemaId) -> (r: SchemaIdent)
        ensures
            r == SchemaIdent::Id(value),
    {
        SchemaIdent::Id(value)
    }

    /// Creates a new [`SchemaIdent::Name`] instance from the passed `value`.
    pub fn name(value: String) -> (r: SchemaIdent)
        ensures
            r == SchemaIdent::Name(value),
    {
        SchemaIdent::Name(value)
    }

    /// Creates a new [`SchemaIdent::Location`] instance from the passed URL. Returns `None`
    /// if `value` is no valid absolute URL.
    pub fn location(value: &str) -> (r: Option<SchemaIdent>)
        ensures
            r matches Some(s) ==> s matches SchemaIdent::Location(l) && url_serialization(value@)
                == Some(l@),
            r is None ==> url_serialization(value@) is None,
    {
        match parse_url(value) {
            Some(s) => Some(SchemaIdent::Location(s)),
            None => None,
        }
    }
}

/// Identifier that is used inside the config.
///
/// Each element in a XML schema is uniquely identified by the following four
/// values: the namespace of the element (or no namespace at all), the schema the
/// element was defined in, the name of the element and the type of element.
#[derive(Debug)]
pub struct IdentQuadruple {
    /// Namespace where the type is defined in.
    pub ns: Option<NamespaceIdent>,
    /// Id of the schema the type is defined in.
    pub schema: Option<SchemaIdent>,
    /// Name of the type.
    pub name: String,
    /// Type of the identifier (because pure names are not unique in XSD).
    pub type_: IdentType,
}

/// The namespace `ns` refers to, or the error resolving it gives.
pub open spec fn spec_resolve_ns(ns: Option<NamespaceIdent>, schemas: Schemas) -> Result<
    NamespaceId,
    InterpreterError,
> {
    match ns {
        None => match schemas.spec_resolve_namespace(None) {
            Some(id) => Ok(id),
            None => Err(InterpreterError::AnonymousNamespaceIsUndefined),
        },
        Some(NamespaceIdent::Anonymous) => match schemas.spec_resolve_namespace(None) {
            Some(id) => Ok(id),
            None => Err(InterpreterError::AnonymousNamespaceIsUndefined),
        },
        Some(NamespaceIdent::Id(id)) => Ok(id),
        Some(NamespaceIdent::Prefix(p)) => match schemas.spec_resolve_prefix(p@) {
            Some(id) => Ok(id),
            None => Err(InterpreterError::UnknownNamespacePrefix(p)),
        },
        Some(NamespaceIdent::Namespace(n)) => match schemas.spec_resolve_namespace(Some(n@)) {
            Some(id) => Ok(id),
            None => Err(InterpreterError::UnknownNamespace(n)),
        },
    }
}

/// The schema `schema` refers to in the namespace `ns` for an object named `name` of type
/// `t` (`SchemaId::UNKNOWN` if it can not be found).
pub open spec fn spec_resolve_schema_ident(
    schema: Option<SchemaIdent>,
    schemas: Schemas,
    ns: NamespaceId,
    name: Seq<char>,
    t: IdentType,
) -> SchemaId {
    match schema {
        None => match schemas.spec_namespace_info(ns) {
            Some(info) if info.schemas@.len() == 1 => info.schemas@[0],
            _ => match schemas.spec_resolve_schema(ns, name, t) {
                Some(id) => id,
                None => SchemaId(SchemaId::UNKNOWN),
            },
        },
        Some(SchemaIdent::Id(id)) => id,
        Some(SchemaIdent::Name(s)) => {
            let i = find_schema_by_name(schemas.schemas@, s@);
            if 0 <= i < schemas.schemas@.len() {
                schemas.schemas@[i].id
            } else {
                SchemaId(SchemaId::UNKNOWN)
            }
        },
        Some(SchemaIdent::Location(l)) => {
            let i = find_schema_by_location(schemas.schemas@, l@);
            if 0 <= i < schemas.schemas@.len() {
                schemas.schemas@[i].id
            } else {
                SchemaId(SchemaId::UNKNOWN)
            }
        },
    }
}

/// The quadruple `q` split at the first `:` of `text`: the part before it is the prefix of
/// the namespace.
pub open spec fn prefixed_name_parts(text: Seq<char>) -> (Option<Seq<char>>, Seq<char>) {
    let k = find_char(text, ':', 0);
    if k < text.len() {
        (Some(text.take(k)), text.skip(k + 1))
    } else {
        (None, text)
    }
}

impl IdentQuadruple {
    /// Create a new [`IdentQuadruple`] instance from the passed `name` and `type_`.
    pub fn new(name: String, type_: IdentType) -> (r: IdentQuadruple)
        ensures
            r == (IdentQuadruple { ns: None, schema: None, name: name, type_: type_ }),
    {
        IdentQuadruple { ns: None, schema: None, name, type_ }
    }

    /// Creates an identifier quadruple from its parts.
    pub fn from_parts(
        type_: IdentType,
        ns: Option<NamespaceIdent>,
        schema: Option<SchemaIdent>,
        name: String,
    ) -> (r: IdentQuadruple)
        ensures
            r == (IdentQuadruple { ns: ns, schema: schema, name: name, type_: type_ }),
    {
        IdentQuadruple { ns, schema, name, type_ }
    }

    /// Creates an identifier quadruple from a name that may carry a namespace prefix
    /// (`prefix:name`): the text before the first `:` is used as prefix.
    pub fn from_prefixed(type_: IdentType, ident: &str) -> (r: IdentQuadruple)
        ensures
            r.type_ == type_,
            r.schema is None,
            r.name@ == prefixed_name_parts(ident@).1,
            prefixed_name_parts(ident@).0 matches Some(p) ==> r.ns matches Some(
                NamespaceIdent::Prefix(x),
            ) && x@ == p,
            prefixed_name_parts(ident@).0 is None ==> r.ns is None,
    {
        proof {
            lemma_find_char(ident@, ':', 0);
        }
        match split_once_char(ident, ':') {
            Some((prefix, name)) => IdentQuadruple {
                ns: Some(NamespaceIdent::Prefix(NamespacePrefix::new(prefix))),
                schema: None,
                name: name.to_string(),
                type_,
            },
            None => IdentQuadruple { ns: None, schema: None, name: ident.to_string(), type_ },
        }
    }

    /// Adds a [`NamespaceIdent`] to this identifier quadruple.
    pub fn with_ns(self, ns: NamespaceIdent) -> (r: IdentQuadruple)
        ensures
            r == (IdentQuadruple { ns: Some(ns), ..self }),
    {
        IdentQuadruple { ns: Some(ns), ..self }
    }

    /// Adds a [`SchemaIdent`] to this identifier quadruple.
    pub fn with_schema(self, schema: SchemaIdent) -> (r: IdentQuadruple)
        ensures
            r == (IdentQuadruple { schema: Some(schema), ..self }),
    {
        IdentQuadruple { schema: Some(schema), ..self }
    }

    /// Sets the name of the type that is identified by this identifier quadruple.
    pub fn with_name(self, name: String) -> (r: IdentQuadruple)
        ensures
            r == (IdentQuadruple { name: name, ..self }),
    {
        IdentQuadruple { name, ..self }
    }

    /// Sets the identifier type of this identifier quadruple.
    pub fn with_type(self, type_: IdentType) -> (r: IdentQuadruple)
        ensures
            r == (IdentQuadruple { type_: type_, ..self }),
    {
        IdentQuadruple { type_, ..self }
    }

    /// Resolve the quadruple to an actual type identifier that is available in
    /// the schema.
    ///
    /// Without a [`SchemaIdent`] the schema is the only schema of the namespace, or else
    /// the first schema of the namespace that defines the name; a schema that can not be
    /// found is [`SchemaId::UNKNOWN`].
    ///
    /// # Errors
    ///
    /// Returns an error if the namespace or the namespace prefix could not be
    /// resolved.
    pub fn resolve(self, schemas: &Schemas) -> (r: Result<TypeIdent, InterpreterError>)
        ensures
            spec_resolve_ns(self.ns, *schemas) matches Err(e) ==> r == Err::<
                TypeIdent,
                InterpreterError,
            >(e),
            spec_resolve_ns(self.ns, *schemas) matches Ok(ns) ==> r matches Ok(t) && t@ == (
            TypeIdentView {
                ns: ns,
                schema: spec_resolve_schema_ident(self.schema, *schemas, ns, self.name@, self.type_),
                name: self.name@,
                type_: self.type_,
            }),
    {
        let IdentQuadruple { ns, schema, name, type_ } = self;
        let ns_id = match ns {
            None => match schemas.resolve_namespace(&None) {
                Some(id) => id,
                None => return Err(InterpreterError::AnonymousNamespaceIsUndefined),
            },
            Some(NamespaceIdent::Anonymous) => match schemas.resolve_namespace(&None) {
                Some(id) => id,
                None => return Err(InterpreterError::AnonymousNamespaceIsUndefined),
            },
            Some(NamespaceIdent::Id(id)) => id,
            Some(NamespaceIdent::Prefix(prefix)) => match schemas.resolve_prefix(&prefix) {
                Some(id) => id,
                None => return Err(InterpreterError::UnknownNamespacePrefix(prefix)),
            },
            Some(NamespaceIdent::Namespace(n)) => {
                let n = Some(n);
                match schemas.resolve_namespace(&n) {
                    Some(id) => id,
                    None => {
                        match n {
                            Some(n) => return Err(InterpreterError::UnknownNamespace(n)),
                            None => return Err(InterpreterError::AnonymousNamespaceIsUndefined),
                        }
                    },
                }
            },
        };
        let schema_id = match schema {
            None => {
                let single = match schemas.get_namespace_info(ns_id) {
                    Some(info) => if info.schemas.len() == 1 {
                        Some(info.schemas[0])
                    } else {
                        None
                    },
                    None => None,
                };
                match single {
                    Some(id) => id,
                    None => match schemas.resolve_schema(ns_id, name.as_str(), type_) {
                        Some(id) => id,
                        None => SchemaId::unknown(),
                    },
                }
            },
            Some(SchemaIdent::Id(id)) => id,
            Some(SchemaIdent::Name(s)) => find_schema_named(schemas, &s),
            Some(SchemaIdent::Location(l)) => find_schema_located(schemas, &l),
        };
        Ok(TypeIdent { ns: ns_id, schema: schema_id, name: Name::new_named(name), type_ })
    }
}

/// Id of the first schema with the name `name` (`SchemaId::UNKNOWN` if there is none).
fn find_schema_named(schemas: &Schemas, name: &String) -> (r: SchemaId)
    ensures
        ({
            let i = find_schema_by_name(schemas.schemas@, name@);
            r == if 0 <= i < schemas.schemas@.len() {
                schemas.schemas@[i].id
            } else {
                SchemaId(SchemaId::UNKNOWN)
            }
        }),
{
    let mut i: usize = 0;
    assert(schemas.schemas@.skip(0) =~= schemas.schemas@);
    while i < schemas.schemas.len()
        invariant
            i <= schemas.schemas@.len(),
            find_schema_by_name(schemas.schemas@, name@) == i + find_schema_by_name(
                schemas.schemas@.skip(i as int),
                name@,
            ),
        decreases schemas.schemas@.len() - i,
    {
        assert(schemas.schemas@.skip(i as int).drop_first() =~= schemas.schemas@.skip(i + 1));
        let found = match &schemas.schemas[i].name {
            Some(n) => str_eq(n.as_str(), name.as_str()),
            None => false,
        };
        if found {
            return schemas.schemas[i].id;
        }
        i = i + 1;
    }
    SchemaId::unknown()
}

/// Id of the first schema with the location `location` (`SchemaId::UNKNOWN` if there is
/// none).
fn find_schema_located(schemas: &Schemas, location: &String) -> (r: SchemaId)
    ensures
        ({
            let i = find_schema_by_location(schemas.schemas@, location@);
            r == if 0 <= i < schemas.schemas@.len() {
                schemas.schemas@[i].id
            } else {
                SchemaId(SchemaId::UNKNOWN)
            }
        }),
{
    let mut i: usize = 0;
    assert(schemas.schemas@.skip(0) =~= schemas.schemas@);
    while i < schemas.schemas.len()
        invariant
            i <= schemas.schemas@.len(),
            find_schema_by_location(schemas.schemas@, location@) == i + find_schema_by_location(
                schemas.schemas@.skip(i as int),
                location@,
            ),
        decreases schemas.schemas@.len() - i,
    {
        assert(schemas.schemas@.skip(i as int).drop_first() =~= schemas.schemas@.skip(i + 1));
        let found = match &schemas.schemas[i].location {
            Some(n) => str_eq(n.as_str(), location.as_str()),
            None => false,
        };
        if found {
            return schemas.schemas[i].id;
        }
        i = i + 1;
    }
    SchemaId::unknown()
}

} // verus!
