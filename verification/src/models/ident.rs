use vstd::prelude::*;

verus! {

/// Identifies a namespace that is known to a [`Schemas`](super::schema::Schemas) structure.
#[derive(Clone, Copy, Debug, PartialEq, Eq, Structural)]
pub struct NamespaceId(pub u64);

impl NamespaceId {
    /// Id of the anonymous namespace (the namespace of types without any namespace).
    pub const ANONYMOUS: u64 = 0;

    /// Id that is used for namespaces that could not be resolved.
    pub const UNKNOWN: u64 = 18446744073709551615;

    /// Returns the id of the anonymous namespace.
    pub fn anonymous() -> (r: NamespaceId)
        ensures
            r.0 == Self::ANONYMOUS,
    {
        NamespaceId(Self::ANONYMOUS)
    }
}

/// Identifies a schema that is known to a [`Schemas`](super::schema::Schemas) structure.
#[derive(Clone, Copy, Debug, PartialEq, Eq, Structural)]
pub struct SchemaId(pub u64);

impl SchemaId {
    /// Id that is used for schemas that could not be resolved.
    pub const UNKNOWN: u64 = 18446744073709551615;

    /// Returns the id that marks an unresolved schema.
    pub fn unknown() -> (r: SchemaId)
        ensures
            r.0 == Self::UNKNOWN,
    {
        SchemaId(Self::UNKNOWN)
    }
}

/// Type of an identifier (because pure names are not unique in XSD).
#[derive(Clone, Copy, Debug, PartialEq, Eq, Structural)]
pub enum IdentType {
    /// A type (`xs:simpleType` or `xs:complexType`).
    Type,
    /// A group (`xs:group`, `xs:all`, `xs:choice` or `xs:sequence`).
    Group,
    /// An element (`xs:element`).
    Element,
    /// The inline type of an element.
    ElementType,
    /// An attribute (`xs:attribute`).
    Attribute,
    /// An attribute group (`xs:attributeGroup`).
    AttributeGroup,
    /// A build-in type (like `u32` or `String`).
    BuildIn,
    /// A variant of an enumeration.
    Enumeration,
    /// The content of a nillable element.
    NillableContent,
    /// An element that may be substituted by the members of its substitution group.
    DynamicElement,
}

/// Name of a type, element or attribute.
#[derive(Debug)]
pub struct Name(pub String);

impl View for Name {
    type V = Seq<char>;

    open spec fn view(&self) -> Seq<char> {
        self.0@
    }
}

impl Name {
    /// Creates a new name from the passed string.
    pub fn new_named(value: String) -> (r: Name)
        ensures
            r@ == value@,
    {
        Name(value)
    }

    /// Creates a new name from a string slice.
    pub fn from_str(value: &str) -> (r: Name)
        ensures
            r@ == value@,
    {
        Name(value.to_string())
    }

    /// Returns the name as string slice.
    pub fn as_str(&self) -> (r: &str)
        ensures
            r@ == self@,
    {
        self.0.as_str()
    }

    /// Returns a copy of this name.
    pub fn duplicate(&self) -> (r: Name)
        ensures
            r@ == self@,
            r == *self,
    {
        Name(self.0.clone())
    }
}

/// Abstract value of a [`TypeIdent`].
pub struct TypeIdentView {
    pub ns: NamespaceId,
    pub schema: SchemaId,
    pub name: Seq<char>,
    pub type_: IdentType,
}

/// Fully resolved identifier of a type, element, attribute or group.
#[derive(Debug)]
pub struct TypeIdent {
    /// Namespace the object is defined in.
    pub ns: NamespaceId,
    /// Schema the object is defined in.
    pub schema: SchemaId,
    /// Name of the object.
    pub name: Name,
    /// Type of the identifier.
    pub type_: IdentType,
}

impl View for TypeIdent {
    type V = TypeIdentView;

    open spec fn view(&self) -> TypeIdentView {
        TypeIdentView { ns: self.ns, schema: self.schema, name: self.name@, type_: self.type_ }
    }
}

/// The identifier view of a type with the given namespace and name.
pub open spec fn type_ident_view(ns: NamespaceId, name: Seq<char>) -> TypeIdentView {
    TypeIdentView {
        ns: ns,
        schema: SchemaId(SchemaId::UNKNOWN),
        name: name,
        type_: IdentType::Type,
    }
}

impl TypeIdent {
    /// Creates a new identifier of type [`IdentType::Type`] with the passed `name`
    /// in the anonymous namespace and an unknown schema.
    pub fn new(name: Name) -> (r: TypeIdent)
        ensures
            r@ == type_ident_view(NamespaceId(NamespaceId::ANONYMOUS), name@),
    {
        TypeIdent {
            ns: NamespaceId::anonymous(),
            schema: SchemaId::unknown(),
            name,
            type_: IdentType::Type,
        }
    }

    /// Creates a new identifier of type [`IdentType::Type`] from a string slice.
    pub fn type_(name: &str) -> (r: TypeIdent)
        ensures
            r@ == type_ident_view(NamespaceId(NamespaceId::ANONYMOUS), name@),
    {
        Self::new(Name::from_str(name))
    }

    /// Creates the identifier of a build-in type (like `u32` or `String`).
    pub fn build_in(name: &str) -> (r: TypeIdent)
        ensures
            r@ == (TypeIdentView {
                ns: NamespaceId(NamespaceId::ANONYMOUS),
                schema: SchemaId(SchemaId::UNKNOWN),
                name: name@,
                type_: IdentType::BuildIn,
            }),
    {
        TypeIdent {
            ns: NamespaceId::anonymous(),
            schema: SchemaId::unknown(),
            name: Name::from_str(name),
            type_: IdentType::BuildIn,
        }
    }

    /// Sets the namespace of this identifier.
    pub fn with_ns(self, ns: NamespaceId) -> (r: TypeIdent)
        ensures
            r@ == (TypeIdentView { ns: ns, ..self@ }),
    {
        TypeIdent { ns, ..self }
    }

    /// Sets the identifier type of this identifier.
    pub fn with_type(self, type_: IdentType) -> (r: TypeIdent)
        ensures
            r@ == (TypeIdentView { type_: type_, ..self@ }),
    {
        TypeIdent { type_, ..self }
    }

    /// Returns a copy of this identifier.
    pub fn duplicate(&self) -> (r: TypeIdent)
        ensures
            r@ == self@,
            r == *self,
    {
        TypeIdent {
            ns: self.ns,
            schema: self.schema,
            name: self.name.duplicate(),
            type_: self.type_,
        }
    }

    /// Returns `true` if both identifiers are equal.
    pub fn is_same(&self, other: &TypeIdent) -> (r: bool)
        ensures
            r == (self@ == other@),
    {
        self.ns.0 == other.ns.0 && self.schema.0 == other.schema.0 && self.type_ == other.type_
            && self.name.0 == other.name.0
    }
}

} // verus!
