//! Data model: the normalized description of an annotated type, and the
//! structured form of the generated conversion implementations.

use vstd::prelude::*;

verus! {

/// The kind tag of a user-defined type.
#[derive(Clone, Copy, Debug, PartialEq, Eq, Structural)]
pub enum TypeKind {
    Enumeration,
    Structure,
    Union,
}

/// The shape of the data carried by one enumeration variant.
#[derive(Clone, Copy, Debug, PartialEq, Eq, Structural)]
pub enum FieldKind {
    /// No associated data.
    Unit,
    /// Parenthesized, positional fields.
    PositionalData,
    /// Braced, named fields.
    NamedData,
}

/// One declared variant of an enumeration: its identifier, the shape of
/// its fields, and its explicit discriminant value, if one was written.
#[derive(Clone, Debug, PartialEq, Eq)]
pub struct Variant {
    pub ident: String,
    pub field_kind: FieldKind,
    pub discriminant: Option<i64>,
}

/// The normalized description of an annotated type: its name, its kind
/// tag, and its variants in declaration order.  Declaration order is
/// semantically significant: it determines implicit discriminant
/// numbering.
#[derive(Clone, Debug, PartialEq, Eq)]
pub struct TypeDefinition {
    pub name: String,
    pub kind: TypeKind,
    pub variants: Vec<Variant>,
}

/// One generated case: a variant's identifier paired with its resolved
/// discriminant value.  In the integer-to-value conversion it is one
/// equality test of the chain; in the value-to-integer conversion it is
/// one arm of the case analysis.
#[derive(Clone, Debug, PartialEq, Eq)]
pub struct Clause {
    pub variant_ident: String,
    pub value: i64,
}

/// The generated integer-to-value conversion: a sequential chain of
/// equality tests, one per variant in declaration order, with
/// first-match-wins semantics, falling through to "no value".
#[derive(Clone, Debug, PartialEq, Eq)]
pub struct FromIntegerImpl {
    pub name: String,
    pub clauses: Vec<Clause>,
}

/// The generated value-to-integer conversion: an exhaustive case
/// analysis over all variants, each case producing its resolved
/// discriminant.
#[derive(Clone, Debug, PartialEq, Eq)]
pub struct ToIntegerImpl {
    pub name: String,
    pub arms: Vec<Clause>,
}

/// The implementation generated by one derivation invocation.
#[derive(Clone, Debug, PartialEq, Eq)]
pub enum GeneratedImpl {
    FromInteger(FromIntegerImpl),
    ToInteger(ToIntegerImpl),
}

/// The output of one derivation invocation: the generated
/// implementation, wrapped in a private scope whose name is unique per
/// (capability, type) pair.
#[derive(Clone, Debug, PartialEq, Eq)]
pub struct GeneratedModule {
    pub scope_name: String,
    pub body: GeneratedImpl,
}

/// True when every variant of the sequence is a unit variant.
pub open spec fn all_unit(vs: Seq<Variant>) -> bool {
    forall|i: int| 0 <= i < vs.len() ==> vs[i].field_kind is Unit
}

/// True when the definition is an enumeration made only of unit
/// variants: the only shape the generator accepts.
pub open spec fn is_unit_enumeration(def: TypeDefinition) -> bool {
    def.kind is Enumeration && all_unit(def.variants@)
}

} // verus!
