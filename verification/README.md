# xsd_parser

The verified core of a generator that turns XML schemas (XSD) into Rust types.

- `src/config` — the generator configuration: flags, render steps, type identifiers
  (`IdentQuadruple`) and their resolution against the parsed schemas.
- `src/models` — identifiers, namespaces, schemas and the type information (`MetaTypes`)
  the interpreter produces.
- `src/interpreter` — the interpreter that fills `MetaTypes` with build-in types and type
  definitions, and the `VariantBuilder` that builds the variant of a type from facets,
  enumerations, lists, unions, base types, groups, elements and attributes; element and
  attribute declarations are resolved in `element_decl` and `attribute`, the types built for
  referenced groups are kept in a `GroupCache`, and elements join substitution groups.
- `src/renderer` — what the renderer emits: the validation checks of restricted types,
  documentation lines and trait bounds.
- `src/xml` — the binary XML value types (`xs:hexBinary`, `xs:base64Binary`), with the
  `hex` and `base64` crates behind small trusted wrappers in `src/codec.rs`.
- `app` — the code that writes the generated Rust tokens with `quote`.

Every function in `src` carries a contract that Verus proves; the laws of the library
(flag algebra, render step replacement, encoding round trips and lengths, unique element
names, generated content names, idempotent render configuration, cached groups) are public proof functions or clauses of the contracts.
