use vstd::prelude::*;

verus! {

/// Flags that control the schema parser.
#[derive(Clone, Copy, Debug, PartialEq, Eq, Structural)]
pub struct ParserFlags(pub u32);

impl ParserFlags {
    /// Resolve `xs:include` and `xs:import` of the parsed schemas.
    pub const RESOLVE_INCLUDES: u32 = 1;

    /// Add the default namespaces (`xs`, `xml`) to the schemas.
    pub const DEFAULT_NAMESPACES: u32 = 2;

    /// Use alternative prefixes if a prefix is used for different namespaces.
    pub const ALTERNATIVE_PREFIXES: u32 = 4;

    /// Creates a set of flags from its bits.
    pub fn from_bits(bits: u32) -> (r: ParserFlags)
        ensures
            r.0 == bits,
    {
        ParserFlags(bits)
    }

    /// The empty set of flags.
    pub fn empty() -> (r: ParserFlags)
        ensures
            r.0 == 0,
    {
        ParserFlags(0)
    }

    /// Returns `true` if all flags of `other` are set in `self`.
    pub fn contains(&self, other: ParserFlags) -> (r: bool)
        ensures
            r == (self.0 & other.0 == other.0),
    {
        self.0 & other.0 == other.0
    }

    /// Returns the union of both sets of flags.
    pub fn union(self, other: ParserFlags) -> (r: ParserFlags)
        ensures
            r.0 == self.0 | other.0,
    {
        ParserFlags(self.0 | other.0)
    }

    /// Returns the flags of `self` without the flags of `other`.
    pub fn difference(self, other: ParserFlags) -> (r: ParserFlags)
        ensures
            r.0 == self.0 & !other.0,
    {
        ParserFlags(self.0 & !other.0)
    }
}

/// Flags that control the schema interpreter.
#[derive(Clone, Copy, Debug, PartialEq, Eq, Structural)]
pub struct InterpreterFlags(pub u32);

impl InterpreterFlags {
    /// Add the build-in types.
    pub const BUILDIN_TYPES: u32 = 1;

    /// Add type definitions for the common XML types.
    pub const DEFAULT_TYPEDEFS: u32 = 2;

    /// Add a default definition for `xs:anyType`.
    pub const WITH_XS_ANY_TYPE: u32 = 4;

    /// Use `num::BigInt` for unbounded integer types.
    pub const WITH_NUM_BIG_INT: u32 = 8;

    /// Use non-zero integers for positive and negative integer types.
    pub const NONZERO_TYPEDEFS: u32 = 16;

    /// Creates a set of flags from its bits.
    pub fn from_bits(bits: u32) -> (r: InterpreterFlags)
        ensures
            r.0 == bits,
    {
        InterpreterFlags(bits)
    }

    /// The empty set of flags.
    pub fn empty() -> (r: InterpreterFlags)
        ensures
            r.0 == 0,
    {
        InterpreterFlags(0)
    }

    /// Returns `true` if all flags of `other` are set in `self`.
    pub fn contains(&self, other: InterpreterFlags) -> (r: bool)
        ensures
            r == (self.0 & other.0 == other.0),
    {
        self.0 & other.0 == other.0
    }

    /// Returns the union of both sets of flags.
    pub fn union(self, other: InterpreterFlags) -> (r: InterpreterFlags)
        ensures
            r.0 == self.0 | other.0,
    {
        InterpreterFlags(self.0 | other.0)
    }

    /// Returns the flags of `self` without the flags of `other`.
    pub fn difference(self, other: InterpreterFlags) -> (r: InterpreterFlags)
        ensures
            r.0 == self.0 & !other.0,
    {
        InterpreterFlags(self.0 & !other.0)
    }
}

/// Flags that control the type optimizer.
#[derive(Clone, Copy, Debug, PartialEq, Eq, Structural)]
pub struct OptimizerFlags(pub u32);

impl OptimizerFlags {
    /// Remove enumeration variants that are empty.
    pub const REMOVE_EMPTY_ENUM_VARIANTS: u32 = 1;

    /// Remove enumerations without variants.
    pub const REMOVE_EMPTY_ENUMS: u32 = 2;

    /// Remove duplicate variants of unions.
    pub const REMOVE_DUPLICATE_UNION_VARIANTS: u32 = 4;

    /// Remove unions without variants.
    pub const REMOVE_EMPTY_UNIONS: u32 = 8;

    /// Use the unrestricted base type of complex types.
    pub const USE_UNRESTRICTED_BASE_TYPE_COMPLEX: u32 = 16;

    /// Use the unrestricted base type of simple types.
    pub const USE_UNRESTRICTED_BASE_TYPE_SIMPLE: u32 = 32;

    /// Use the unrestricted base type of enumerations.
    pub const USE_UNRESTRICTED_BASE_TYPE_ENUM: u32 = 64;

    /// Use the unrestricted base type of unions.
    pub const USE_UNRESTRICTED_BASE_TYPE_UNION: u32 = 128;

    /// Convert dynamic types to choices.
    pub const CONVERT_DYNAMIC_TO_CHOICE: u32 = 256;

    /// Flatten the content of complex types.
    pub const FLATTEN_COMPLEX_TYPES: u32 = 512;

    /// Flatten nested unions.
    pub const FLATTEN_UNIONS: u32 = 1024;

    /// Merge enumerations inside unions.
    pub const MERGE_ENUM_UNIONS: u32 = 2048;

    /// Resolve type definitions to their target.
    pub const RESOLVE_TYPEDEFS: u32 = 4096;

    /// Remove duplicate types.
    pub const REMOVE_DUPLICATES: u32 = 8192;

    /// Prepare the types for `serde` based serialization.
    pub const SERDE: u32 = 16384;

    /// Creates a set of flags from its bits.
    pub fn from_bits(bits: u32) -> (r: OptimizerFlags)
        ensures
            r.0 == bits,
    {
        OptimizerFlags(bits)
    }

    /// The empty set of flags.
    pub fn empty() -> (r: OptimizerFlags)
        ensures
            r.0 == 0,
    {
        OptimizerFlags(0)
    }

    /// Returns `true` if all flags of `other` are set in `self`.
    pub fn contains(&self, other: OptimizerFlags) -> (r: bool)
        ensures
            r == (self.0 & other.0 == other.0),
    {
        self.0 & other.0 == other.0
    }

    /// Returns the union of both sets of flags.
    pub fn union(self, other: OptimizerFlags) -> (r: OptimizerFlags)
        ensures
            r.0 == self.0 | other.0,
    {
        OptimizerFlags(self.0 | other.0)
    }

    /// Returns the flags of `self` without the flags of `other`.
    pub fn difference(self, other: OptimizerFlags) -> (r: OptimizerFlags)
        ensures
            r.0 == self.0 & !other.0,
    {
        OptimizerFlags(self.0 & !other.0)
    }
}

/// Flags that control the code generator.
#[derive(Clone, Copy, Debug, PartialEq, Eq, Structural)]
pub struct GeneratorFlags(pub u32);

impl GeneratorFlags {
    /// Generate one module for each namespace.
    pub const USE_MODULES: u32 = 1;

    /// Flatten the content of complex types into the type itself.
    pub const FLATTEN_CONTENT: u32 = 2;

    /// Support mixed types.
    pub const MIXED_TYPE_SUPPORT: u32 = 4;

    /// Support `xs:any` and `xs:anyAttribute`.
    pub const ANY_TYPE_SUPPORT: u32 = 8;

    /// Support nillable elements.
    pub const NILLABLE_TYPE_SUPPORT: u32 = 16;

    /// Add constants for the variants of enumerations.
    pub const ADVANCED_ENUMS: u32 = 32;

    /// Use absolute paths for build-in types.
    pub const BUILD_IN_ABSOLUTE_PATHS: u32 = 64;

    /// Creates a set of flags from its bits.
    pub fn from_bits(bits: u32) -> (r: GeneratorFlags)
        ensures
            r.0 == bits,
    {
        GeneratorFlags(bits)
    }

    /// The empty set of flags.
    pub fn empty() -> (r: GeneratorFlags)
        ensures
            r.0 == 0,
    {
        GeneratorFlags(0)
    }

    /// Returns `true` if all flags of `other` are set in `self`.
    pub fn contains(&self, other: GeneratorFlags) -> (r: bool)
        ensures
            r == (self.0 & other.0 == other.0),
    {
        self.0 & other.0 == other.0
    }

    /// Returns the union of both sets of flags.
    pub fn union(self, other: GeneratorFlags) -> (r: GeneratorFlags)
        ensures
            r.0 == self.0 | other.0,
    {
        GeneratorFlags(self.0 | other.0)
    }

    /// Returns the flags of `self` without the flags of `other`.
    pub fn difference(self, other: GeneratorFlags) -> (r: GeneratorFlags)
        ensures
            r.0 == self.0 & !other.0,
    {
        GeneratorFlags(self.0 & !other.0)
    }
}

/// Flags that control the code renderer.
#[derive(Clone, Copy, Debug, PartialEq, Eq, Structural)]
pub struct RendererFlags(pub u32);

impl RendererFlags {
    /// Render documentation of all objects.
    pub const RENDER_DOCS: u32 = 1;

    /// Render documentation of types.
    pub const RENDER_TYPE_DOCS: u32 = 2;

    /// Render documentation of elements.
    pub const RENDER_ELEMENT_DOCS: u32 = 4;

    /// Render documentation of attributes.
    pub const RENDER_ATTRIBUTE_DOCS: u32 = 8;

    /// Render documentation of enumeration variants.
    pub const RENDER_VARIANT_DOCS: u32 = 16;

    /// Creates a set of flags from its bits.
    pub fn from_bits(bits: u32) -> (r: RendererFlags)
        ensures
            r.0 == bits,
    {
        RendererFlags(bits)
    }

    /// The empty set of flags.
    pub fn empty() -> (r: RendererFlags)
        ensures
            r.0 == 0,
    {
        RendererFlags(0)
    }

    /// Returns `true` if all flags of `other` are set in `self`.
    pub fn contains(&self, other: RendererFlags) -> (r: bool)
        ensures
            r == (self.0 & other.0 == other.0),
    {
        self.0 & other.0 == other.0
    }

    /// Returns the union of both sets of flags.
    pub fn union(self, other: RendererFlags) -> (r: RendererFlags)
        ensures
            r.0 == self.0 | other.0,
    {
        RendererFlags(self.0 | other.0)
    }

    /// Returns the flags of `self` without the flags of `other`.
    pub fn difference(self, other: RendererFlags) -> (r: RendererFlags)
        ensures
            r.0 == self.0 & !other.0,
    {
        RendererFlags(self.0 & !other.0)
    }
}

/// Flags that control which elements are boxed.
#[derive(Clone, Copy, Debug, PartialEq, Eq, Structural)]
pub struct BoxFlags(pub u32);

impl BoxFlags {
    /// Box elements where it is needed to break recursion.
    pub const AUTO: u32 = 1;

    /// Box the elements of enumerations.
    pub const ENUM_ELEMENTS: u32 = 2;

    /// Box the elements of structs.
    pub const STRUCT_ELEMENTS: u32 = 4;

    /// Creates a set of flags from its bits.
    pub fn from_bits(bits: u32) -> (r: BoxFlags)
        ensures
            r.0 == bits,
    {
        BoxFlags(bits)
    }

    /// The empty set of flags.
    pub fn empty() -> (r: BoxFlags)
        ensures
            r.0 == 0,
    {
        BoxFlags(0)
    }

    /// Returns `true` if all flags of `other` are set in `self`.
    pub fn contains(&self, other: BoxFlags) -> (r: bool)
        ensures
            r == (self.0 & other.0 == other.0),
    {
        self.0 & other.0 == other.0
    }

    /// Returns the union of both sets of flags.
    pub fn union(self, other: BoxFlags) -> (r: BoxFlags)
        ensures
            r.0 == self.0 | other.0,
    {
        BoxFlags(self.0 | other.0)
    }

    /// Returns the flags of `self` without the flags of `other`.
    pub fn difference(self, other: BoxFlags) -> (r: BoxFlags)
        ensures
            r.0 == self.0 & !other.0,
    {
        BoxFlags(self.0 & !other.0)
    }
}

/// Adding flags to a set makes the set contain them.
pub proof fn law_union_contains(a: u32, b: u32)
    ensures
        (a | b) & b == b,
        (a | b) & a == a,
{
    assert((a | b) & b == b) by (bit_vector);
    assert((a | b) & a == a) by (bit_vector);
}

/// Removing flags from a set leaves none of them in the set, and keeps all other flags.
pub proof fn law_difference_excludes(a: u32, b: u32)
    ensures
        (a & !b) & b == 0,
        forall|c: u32| c & b == 0 && a & c == c ==> (#[trigger] ((a & !b) & c)) == c,
{
    assert((a & !b) & b == 0) by (bit_vector);
    assert forall|c: u32| c & b == 0 && a & c == c implies #[trigger] ((a & !b) & c) == c by {
        assert(c & b == 0 && a & c == c ==> (a & !b) & c == c) by (bit_vector);
    }
}

/// Adding and removing flags are idempotent: doing it twice is the same as doing it once.
pub proof fn law_union_difference_idempotent(a: u32, b: u32)
    ensures
        (a | b) | b == a | b,
        (a & !b) & !b == a & !b,
{
    assert((a | b) | b == a | b) by (bit_vector);
    assert((a & !b) & !b == a & !b) by (bit_vector);
}

} // verus!
