use vstd::prelude::*;

use super::ident::{IdentType, NamespaceId, SchemaId};

verus! {

/// URI of a XML namespace.
#[derive(Debug)]
pub struct Namespace(pub String);

impl View for Namespace {
    type V = Seq<char>;

    open spec fn view(&self) -> Seq<char> {
        self.0@
    }
}

/// URI of the XML schema namespace (`xs`).
pub open spec fn xs_uri() -> Seq<char> {
    "http://www.w3.org/2001/XMLSchema"@
}

/// URI of the XML schema instance namespace (`xsi`).
pub open spec fn xsi_uri() -> Seq<char> {
    "http://www.w3.org/2001/XMLSchema-instance"@
}

impl Namespace {
    /// Creates a namespace from its URI.
    pub fn new(uri: &str) -> (r: Namespace)
        ensures
            r@ == uri@,
    {
        Namespace(uri.to_string())
    }

    /// The XML schema namespace (`http://www.w3.org/2001/XMLSchema`).
    pub fn xs() -> (r: Namespace)
        ensures
            r@ == xs_uri(),
    {
        Namespace::new("http://www.w3.org/2001/XMLSchema")
    }

    /// The XML schema instance namespace (`http://www.w3.org/2001/XMLSchema-instance`).
    pub fn xsi() -> (r: Namespace)
        ensures
            r@ == xsi_uri(),
    {
        Namespace::new("http://www.w3.org/2001/XMLSchema-instance")
    }

    /// Returns a copy of this namespace.
    pub fn duplicate(&self) -> (r: Namespace)
        ensures
            r == *self,
    {
        Namespace(self.0.clone())
    }
}

/// Prefix of a XML namespace.
#[derive(Debug)]
pub struct NamespacePrefix(pub String);

impl View for NamespacePrefix {
    type V = Seq<char>;

    open spec fn view(&self) -> Seq<char> {
        self.0@
    }
}

impl NamespacePrefix {
    /// Creates a namespace prefix from a string slice.
    pub fn new(prefix: &str) -> (r: NamespacePrefix)
        ensures
            r@ == prefix@,
    {
        NamespacePrefix(prefix.to_string())
    }
}

/// View of an optional namespace.
pub open spec fn opt_ns_view(ns: Option<Namespace>) -> Option<Seq<char>> {
    match ns {
        Some(n) => Some(n@),
        None => None,
    }
}

/// View of an optional string.
pub open spec fn opt_str_view(s: Option<String>) -> Option<Seq<char>> {
    match s {
        Some(n) => Some(n@),
        None => None,
    }
}

/// Information about a namespace known to the schemas.
#[derive(Debug)]
pub struct NamespaceInfo {
    /// Id of the namespace.
    pub id: NamespaceId,
    /// Prefix the namespace is known under.
    pub prefix: Option<NamespacePrefix>,
    /// URI of the namespace (`None` for the anonymous namespace).
    pub namespace: Option<Namespace>,
    /// Schemas that define objects in this namespace.
    pub schemas: Vec<SchemaId>,
}

/// A top level definition of a schema.
#[derive(Debug)]
pub enum SchemaContent {
    /// An `xs:element` with an optional name.
    Element(Option<String>),
    /// An `xs:simpleType` with an optional name.
    SimpleType(Option<String>),
    /// An `xs:complexType` with an optional name.
    ComplexType(Option<String>),
    /// Any other top level definition.
    Other,
}

/// Information about a parsed schema.
#[derive(Debug)]
pub struct SchemaInfo {
    /// Id of the schema.
    pub id: SchemaId,
    /// Name of the schema.
    pub name: Option<String>,
    /// Location (URL) of the schema.
    pub location: Option<String>,
    /// Top level definitions of the schema.
    pub content: Vec<SchemaContent>,
}

/// The parsed schemas and the namespaces they use.
#[derive(Debug)]
pub struct Schemas {
    pub namespaces: Vec<NamespaceInfo>,
    pub schemas: Vec<SchemaInfo>,
}

/// First namespace in `infos` with the URI `ns`.
pub open spec fn find_namespace(infos: Seq<NamespaceInfo>, ns: Option<Seq<char>>) -> Option<
    NamespaceId,
>
    decreases infos.len(),
{
    if infos.len() == 0 {
        None
    } else if opt_ns_view(infos[0].namespace) == ns {
        Some(infos[0].id)
    } else {
        find_namespace(infos.drop_first(), ns)
    }
}

/// First namespace in `infos` known under `prefix`.
pub open spec fn find_prefix(infos: Seq<NamespaceInfo>, prefix: Seq<char>) -> Option<NamespaceId>
    decreases infos.len(),
{
    if infos.len() == 0 {
        None
    } else if infos[0].prefix matches Some(p) && p@ == prefix {
        Some(infos[0].id)
    } else {
        find_prefix(infos.drop_first(), prefix)
    }
}

/// Position of the first namespace in `infos` with the id `id` (or the length if there is none).
pub open spec fn find_namespace_info(infos: Seq<NamespaceInfo>, id: NamespaceId) -> int
    decreases infos.len(),
{
    if infos.len() == 0 {
        0
    } else if infos[0].id == id {
        0
    } else {
        1 + find_namespace_info(infos.drop_first(), id)
    }
}

/// Position of the first schema in `infos` with the id `id` (or the length if there is none).
pub open spec fn find_schema_info(infos: Seq<SchemaInfo>, id: SchemaId) -> int
    decreases infos.len(),
{
    if infos.len() == 0 {
        0
    } else if infos[0].id == id {
        0
    } else {
        1 + find_schema_info(infos.drop_first(), id)
    }
}

/// Position of the first schema in `infos` with the name `name` (or the length if there is none).
pub open spec fn find_schema_by_name(infos: Seq<SchemaInfo>, name: Seq<char>) -> int
    decreases infos.len(),
{
    if infos.len() == 0 {
        0
    } else if opt_str_view(infos[0].name) == Some(name) {
        0
    } else {
        1 + find_schema_by_name(infos.drop_first(), name)
    }
}

/// Position of the first schema in `infos` with the location `location` (or the length if
/// there is none).
pub open spec fn find_schema_by_location(infos: Seq<SchemaInfo>, location: Seq<char>) -> int
    decreases infos.len(),
{
    if infos.len() == 0 {
        0
    } else if opt_str_view(infos[0].location) == Some(location) {
        0
    } else {
        1 + find_schema_by_location(infos.drop_first(), location)
    }
}

/// `true` if the top level definition `c` defines an object named `name` of type `t`.
pub open spec fn content_defines(c: SchemaContent, name: Seq<char>, t: IdentType) -> bool {
    match c {
        SchemaContent::Element(Some(n)) => t == IdentType::Element && n@ == name,
        SchemaContent::SimpleType(Some(n)) => t == IdentType::Type && n@ == name,
        SchemaContent::ComplexType(Some(n)) => t == IdentType::Type && n@ == name,
        _ => false,
    }
}

/// `true` if one of the top level definitions `content` defines `name` of type `t`.
pub open spec fn contents_define(content: Seq<SchemaContent>, name: Seq<char>, t: IdentType) -> bool {
    exists|i: int| 0 <= i < content.len() && content_defines(#[trigger] content[i], name, t)
}

impl Schemas {
    /// The namespace with the URI `ns`, if any.
    pub open spec fn spec_resolve_namespace(self, ns: Option<Seq<char>>) -> Option<NamespaceId> {
        find_namespace(self.namespaces@, ns)
    }

    /// The namespace known under the prefix `prefix`, if any.
    pub open spec fn spec_resolve_prefix(self, prefix: Seq<char>) -> Option<NamespaceId> {
        find_prefix(self.namespaces@, prefix)
    }

    /// The namespace information with the id `id`, if any.
    pub open spec fn spec_namespace_info(self, id: NamespaceId) -> Option<NamespaceInfo> {
        let i = find_namespace_info(self.namespaces@, id);
        if i < self.namespaces@.len() {
            Some(self.namespaces@[i])
        } else {
            None
        }
    }

    /// The schema information with the id `id`, if any.
    pub open spec fn spec_schema(self, id: SchemaId) -> Option<SchemaInfo> {
        let i = find_schema_info(self.schemas@, id);
        if i < self.schemas@.len() {
            Some(self.schemas@[i])
        } else {
            None
        }
    }

    /// `true` if the schema `id` defines `name` of type `t` at its top level.
    pub open spec fn schema_defines(self, id: SchemaId, name: Seq<char>, t: IdentType) -> bool {
        match self.spec_schema(id) {
            Some(info) => contents_define(info.content@, name, t),
            None => false,
        }
    }

    /// First schema of `ids` that defines `name` of type `t` at its top level.
    pub open spec fn first_defining(self, ids: Seq<SchemaId>, name: Seq<char>, t: IdentType) -> Option<
        SchemaId,
    >
        decreases ids.len(),
    {
        if ids.len() == 0 {
            None
        } else if self.schema_defines(ids[0], name, t) {
            Some(ids[0])
        } else {
            self.first_defining(ids.drop_first(), name, t)
        }
    }

    /// The first schema of the namespace `ns` that defines `name` of type `t`.
    pub open spec fn spec_resolve_schema(self, ns: NamespaceId, name: Seq<char>, t: IdentType) -> Option<
        SchemaId,
    > {
        match self.spec_namespace_info(ns) {
            Some(info) => self.first_defining(info.schemas@, name, t),
            None => None,
        }
    }

    /// Resolves the namespace with the URI `ns` (`None` is the anonymous namespace).
    pub fn resolve_namespace(&self, ns: &Option<Namespace>) -> (r: Option<NamespaceId>)
        ensures
            r == self.spec_resolve_namespace(opt_ns_view(*ns)),
    {
        let mut i: usize = 0;
        assert(self.namespaces@.skip(0) =~= self.namespaces@);
        while i < self.namespaces.len()
            invariant
                i <= self.namespaces@.len(),
                find_namespace(self.namespaces@, opt_ns_view(*ns)) == find_namespace(
                    self.namespaces@.skip(i as int),
                    opt_ns_view(*ns),
                ),
            decreases self.namespaces@.len() - i,
        {
            let info = &self.namespaces[i];
            let matches = match (&info.namespace, ns) {
                (Some(a), Some(b)) => a.0 == b.0,
                (None, None) => true,
                _ => false,
            };
            assert(self.namespaces@.skip(i as int).drop_first() =~= self.namespaces@.skip(i + 1));
            if matches {
                return Some(info.id);
            }
            i = i + 1;
        }
        None
    }

    /// Resolves the namespace that is known under `prefix`.
    pub fn resolve_prefix(&self, prefix: &NamespacePrefix) -> (r: Option<NamespaceId>)
        ensures
            r == self.spec_resolve_prefix(prefix@),
    {
        let mut i: usize = 0;
        assert(self.namespaces@.skip(0) =~= self.namespaces@);
        while i < self.namespaces.len()
            invariant
                i <= self.namespaces@.len(),
                find_prefix(self.namespaces@, prefix@) == find_prefix(
                    self.namespaces@.skip(i as int),
                    prefix@,
                ),
            decreases self.namespaces@.len() - i,
        {
            let info = &self.namespaces[i];
            let matches = match &info.prefix {
                Some(p) => p.0 == prefix.0,
                None => false,
            };
            assert(self.namespaces@.skip(i as int).drop_first() =~= self.namespaces@.skip(i + 1));
            if matches {
                return Some(info.id);
            }
            i = i + 1;
        }
        None
    }

    /// Returns the information of the namespace with the id `id`.
    pub fn get_namespace_info(&self, id: NamespaceId) -> (r: Option<&NamespaceInfo>)
        ensures
            match r {
                Some(info) => self.spec_namespace_info(id) == Some(*info),
                None => self.spec_namespace_info(id) is None,
            },
    {
        let mut i: usize = 0;
        assert(self.namespaces@.skip(0) =~= self.namespaces@);
        while i < self.namespaces.len()
            invariant
                i <= self.namespaces@.len(),
                find_namespace_info(self.namespaces@, id) == i + find_namespace_info(
                    self.namespaces@.skip(i as int),
                    id,
                ),
            decreases self.namespaces@.len() - i,
        {
            assert(self.namespaces@.skip(i as int).drop_first() =~= self.namespaces@.skip(i + 1));
            if self.namespaces[i].id.0 == id.0 {
                return Some(&self.namespaces[i]);
            }
            i = i + 1;
        }
        None
    }

    /// Returns the information of the schema with the id `id`.
    pub fn get_schema(&self, id: SchemaId) -> (r: Option<&SchemaInfo>)
        ensures
            match r {
                Some(info) => self.spec_schema(id) == Some(*info),
                None => self.spec_schema(id) is None,
            },
    {
        let mut i: usize = 0;
        assert(self.schemas@.skip(0) =~= self.schemas@);
        while i < self.schemas.len()
            invariant
                i <= self.schemas@.len(),
                find_schema_info(self.schemas@, id) == i + find_schema_info(
                    self.schemas@.skip(i as int),
                    id,
                ),
            decreases self.schemas@.len() - i,
        {
            assert(self.schemas@.skip(i as int).drop_first() =~= self.schemas@.skip(i + 1));
            if self.schemas[i].id.0 == id.0 {
                return Some(&self.schemas[i]);
            }
            i = i + 1;
        }
        None
    }
}

impl Schemas {
    /// Finds the first schema of the namespace `ns` that defines an object named `name` of
    /// type `type_` at its top level.
    pub fn resolve_schema(&self, ns: NamespaceId, name: &str, type_: IdentType) -> (r: Option<SchemaId>)
        ensures
            r == self.spec_resolve_schema(ns, name@, type_),
    {
        let ns_info = match self.get_namespace_info(ns) {
            Some(info) => info,
            None => return None,
        };
        let ids = &ns_info.schemas;
        let mut i: usize = 0;
        assert(ids@.skip(0) =~= ids@);
        while i < ids.len()
            invariant
                i <= ids@.len(),
                self.spec_namespace_info(ns) == Some(*ns_info),
                ids == ns_info.schemas,
                self.first_defining(ids@, name@, type_) == self.first_defining(
                    ids@.skip(i as int),
                    name@,
                    type_,
                ),
            decreases ids@.len() - i,
        {
            let id = ids[i];
            assert(ids@.skip(i as int).drop_first() =~= ids@.skip(i + 1));
            if let Some(info) = self.get_schema(id) {
                let mut j: usize = 0;
                while j < info.content.len()
                    invariant
                        j <= info.content@.len(),
                        i < ids@.len(),
                        id == ids@[i as int],
                        self.spec_schema(id) == Some(*info),
                        self.spec_namespace_info(ns) == Some(*ns_info),
                        ids == ns_info.schemas,
                        self.first_defining(ids@, name@, type_) == self.first_defining(
                            ids@.skip(i as int),
                            name@,
                            type_,
                        ),
                        forall|k: int| 0 <= k < j ==> !content_defines(#[trigger] info.content@[k], name@, type_),
                    decreases info.content@.len() - j,
                {
                    let found = match (&type_, &info.content[j]) {
                        (IdentType::Element, SchemaContent::Element(Some(n))) => crate::text::str_eq(n.as_str(), name),
                        (IdentType::Type, SchemaContent::SimpleType(Some(n))) => crate::text::str_eq(n.as_str(), name),
                        (IdentType::Type, SchemaContent::ComplexType(Some(n))) => crate::text::str_eq(n.as_str(), name),
                        _ => false,
                    };
                    if found {
                        assert(content_defines(info.content@[j as int], name@, type_));
                        assert(contents_define(info.content@, name@, type_));
                        assert(self.schema_defines(id, name@, type_));
                        assert(ids@.skip(i as int)[0] == id);
                        return Some(id);
                    }
                    j = j + 1;
                }
                assert(!self.schema_defines(id, name@, type_));
            }
            i = i + 1;
        }
        None
    }
}

/// `true` if the top level definition `c` declares `name` as an object of the type `t`: an
/// `xs:simpleType` or `xs:complexType` named `name` declares a type, an `xs:element` named
/// `name` an element, and nothing declares an object of another type.
pub open spec fn declares(c: SchemaContent, name: Seq<char>, t: IdentType) -> bool {
    if t == IdentType::Type {
        ||| c matches SchemaContent::SimpleType(Some(n)) && n@ == name
        ||| c matches SchemaContent::ComplexType(Some(n)) && n@ == name
    } else if t == IdentType::Element {
        c matches SchemaContent::Element(Some(n)) && n@ == name
    } else {
        false
    }
}

/// `true` if the schema `id` declares `name` as an object of the type `t` at its top level.
pub open spec fn schema_declares(s: Schemas, id: SchemaId, name: Seq<char>, t: IdentType) -> bool {
    match s.spec_schema(id) {
        Some(info) => exists|k: int|
            0 <= k < info.content@.len() && declares(#[trigger] info.content@[k], name, t),
        None => false,
    }
}

/// A schema defines an object exactly when it declares it at its top level.
proof fn lemma_defines_declared(s: Schemas, id: SchemaId, name: Seq<char>, t: IdentType)
    ensures
        s.schema_defines(id, name, t) == schema_declares(s, id, name, t),
{
    if let Some(info) = s.spec_schema(id) {
        if s.schema_defines(id, name, t) {
            let k = choose|k: int|
                0 <= k < info.content@.len() && content_defines(#[trigger] info.content@[k], name, t);
            assert(declares(info.content@[k], name, t));
        }
        if schema_declares(s, id, name, t) {
            let k = choose|k: int|
                0 <= k < info.content@.len() && declares(#[trigger] info.content@[k], name, t);
            assert(content_defines(info.content@[k], name, t));
        }
    }
}

/// The first schema of `ids` that declares `name` of the type `t` is the first one that
/// defines it.
proof fn lemma_first_declaring(s: Schemas, ids: Seq<SchemaId>, name: Seq<char>, t: IdentType, i: int)
    ensures
        (forall|j: int| 0 <= j < ids.len() ==> !schema_declares(s, #[trigger] ids[j], name, t))
            ==> s.first_defining(ids, name, t) is None,
        0 <= i < ids.len() && schema_declares(s, ids[i], name, t) && (forall|j: int|
            0 <= j < i ==> !schema_declares(s, #[trigger] ids[j], name, t)) ==> s.first_defining(
            ids,
            name,
            t,
        ) == Some(ids[i]),
    decreases ids.len(),
{
    if ids.len() > 0 {
        let rest = ids.drop_first();
        lemma_defines_declared(s, ids[0], name, t);
        lemma_first_declaring(s, rest, name, t, i - 1);
        if forall|j: int| 0 <= j < ids.len() ==> !schema_declares(s, #[trigger] ids[j], name, t) {
            assert(!schema_declares(s, ids[0], name, t));
            assert forall|j: int| 0 <= j < rest.len() implies !schema_declares(
                s,
                #[trigger] rest[j],
                name,
                t,
            ) by {
                assert(rest[j] == ids[j + 1]);
            }
        }
        if 0 <= i < ids.len() && schema_declares(s, ids[i], name, t) && (forall|j: int|
            0 <= j < i ==> !schema_declares(s, #[trigger] ids[j], name, t)) {
            if i > 0 {
                assert(!schema_declares(s, ids[0], name, t));
                assert(rest[i - 1] == ids[i]);
                assert forall|j: int| 0 <= j < i - 1 implies !schema_declares(
                    s,
                    #[trigger] rest[j],
                    name,
                    t,
                ) by {
                    assert(rest[j] == ids[j + 1]);
                }
            }
        }
    }
}

/// An identifier is resolved to the first schema of its namespace that declares it at its
/// top level (a type by an `xs:simpleType` or `xs:complexType` of its name, an element by an
/// `xs:element` of its name); if no schema of the namespace declares it, or the namespace is
/// unknown, it is resolved to none.
pub proof fn law_resolve_schema(s: Schemas, ns: NamespaceId, name: Seq<char>, t: IdentType, i: int)
    ensures
        match s.spec_namespace_info(ns) {
            None => s.spec_resolve_schema(ns, name, t) is None,
            Some(info) => {
                &&& (forall|j: int|
                    0 <= j < info.schemas@.len() ==> !schema_declares(
                        s,
                        #[trigger] info.schemas@[j],
                        name,
                        t,
                    )) ==> s.spec_resolve_schema(ns, name, t) is None
                &&& (0 <= i < info.schemas@.len() && schema_declares(s, info.schemas@[i], name, t)
                    && (forall|j: int|
                    0 <= j < i ==> !schema_declares(s, #[trigger] info.schemas@[j], name, t)))
                    ==> s.spec_resolve_schema(ns, name, t) == Some(info.schemas@[i])
            },
        },
{
    if let Some(info) = s.spec_namespace_info(ns) {
        lemma_first_declaring(s, info.schemas@, name, t, i);
    }
}

/// A facet of a simple type restriction, with its value.
#[derive(Debug)]
pub enum Facet {
    MinExclusive(String),
    MinInclusive(String),
    MaxExclusive(String),
    MaxInclusive(String),
    TotalDigits(String),
    FractionDigits(String),
    Length(String),
    MinLength(String),
    MaxLength(String),
    WhiteSpace(String),
    Pattern(String),
    /// An enumeration value with the documentation of its annotation.
    Enumeration { value: String, documentation: Vec<String> },
    Assertion(String),
    ExplicitTimezone(String),
}

} // verus!
