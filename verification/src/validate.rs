//! Validator: a definition is accepted only when it is an enumeration
//! whose variants are all unit variants.  On any other shape the whole
//! generation fails with a descriptive error naming the type and, for a
//! variant-kind violation, the offending variant.

use vstd::prelude::*;
use vstd::string::StringExecFns;
use crate::model::{FieldKind, TypeDefinition, TypeKind, Variant, all_unit, is_unit_enumeration};

verus! {

/// The two conversion capabilities that can be derived for a type.
#[derive(Clone, Copy, Debug, PartialEq, Eq, Structural)]
pub enum Capability {
    FromPrimitive,
    ToPrimitive,
}

impl Capability {
    /// The capability's trait name, as it appears in diagnostics.
    pub open spec fn spec_label(self) -> Seq<char> {
        match self {
            Capability::FromPrimitive => "FromPrimitive"@,
            Capability::ToPrimitive => "ToPrimitive"@,
        }
    }

    /// The capability's trait name, as it appears in diagnostics.
    pub fn label(&self) -> (r: &'static str)
        ensures
            r@ == self.spec_label(),
    {
        match self {
            Capability::FromPrimitive => "FromPrimitive",
            Capability::ToPrimitive => "ToPrimitive",
        }
    }
}

/// A validation failure.  Every failure is fatal to the one invocation
/// that raised it: no declarations are emitted.
#[derive(Clone, Debug, PartialEq, Eq)]
pub enum GenerationError {
    /// The annotated type is not an enumeration.
    NotAnEnumeration { capability: Capability, name: String },
    /// A variant of the enumeration carries associated data.
    NonUnitVariant { capability: Capability, name: String, variant_name: String },
}

impl GenerationError {
    /// The diagnostic text of the failure, naming the capability, the
    /// type and, for a variant-kind violation, the offending variant.
    pub open spec fn spec_message(self) -> Seq<char> {
        match self {
            GenerationError::NotAnEnumeration { capability, name } => {
                "`"@ + capability.spec_label() + "` can be applied only to the enums, "@ + name@
                    + " is not an enum"@
            },
            GenerationError::NonUnitVariant { capability, name, variant_name } => {
                "`"@ + capability.spec_label() + "` can be applied only to unitary enums, "@
                    + name@ + "::"@ + variant_name@ + " is either struct or tuple"@
            },
        }
    }

    /// Renders the diagnostic text of the failure.
    pub fn message(&self) -> (r: String)
        ensures
            r@ == self.spec_message(),
    {
        match self {
            GenerationError::NotAnEnumeration { capability, name } => {
                let mut r = String::from_str("`");
                r.append(capability.label());
                r.append("` can be applied only to the enums, ");
                r.append(name.as_str());
                r.append(" is not an enum");
                proof {
                    assert(r@ =~= self.spec_message());
                }
                r
            },
            GenerationError::NonUnitVariant { capability, name, variant_name } => {
                let mut r = String::from_str("`");
                r.append(capability.label());
                r.append("` can be applied only to unitary enums, ");
                r.append(name.as_str());
                r.append("::");
                r.append(variant_name.as_str());
                r.append(" is either struct or tuple");
                proof {
                    assert(r@ =~= self.spec_message());
                }
                r
            },
        }
    }
}

/// The index of the first variant, in declaration order, that is not a
/// unit variant, if any.
pub open spec fn first_non_unit(vs: Seq<Variant>) -> Option<int>
    decreases vs.len(),
{
    if vs.len() == 0 {
        None
    } else if !(vs[0].field_kind is Unit) {
        Some(0int)
    } else {
        match first_non_unit(vs.drop_first()) {
            Some(i) => Some(i + 1),
            None => None,
        }
    }
}

/// `first_non_unit` names the first offending variant: the variant at
/// that index carries data, every earlier variant is a unit variant,
/// and when there is no such index the whole sequence is unit-only.
pub proof fn lemma_first_non_unit(vs: Seq<Variant>)
    ensures
        match first_non_unit(vs) {
            Some(i) => {
                &&& 0 <= i < vs.len()
                &&& !(vs[i].field_kind is Unit)
                &&& forall|j: int| 0 <= j < i ==> vs[j].field_kind is Unit
            },
            None => all_unit(vs),
        },
    decreases vs.len(),
{
    if vs.len() == 0 {
    } else if !(vs[0].field_kind is Unit) {
    } else {
        lemma_first_non_unit(vs.drop_first());
        match first_non_unit(vs.drop_first()) {
            Some(i) => {
                assert(vs.drop_first()[i] == vs[i + 1]);
                assert(forall|j: int| 0 <= j < i + 1 ==> vs[j].field_kind is Unit) by {
                    assert(forall|j: int| 0 < j < i + 1 ==> vs[j] == vs.drop_first()[j - 1]);
                }
            },
            None => {
                assert(forall|i: int| 0 < i < vs.len() ==> vs[i] == vs.drop_first()[i - 1]);
            },
        }
    }
}

/// True when the error is the one that validation owes for this
/// definition and capability: a `NotAnEnumeration` error names the
/// type and comes only when the kind tag is not an enumeration; a
/// `NonUnitVariant` error names the type and the first variant, in
/// declaration order, that carries data.
pub open spec fn error_describes(def: TypeDefinition, cap: Capability, e: GenerationError) -> bool {
    match e {
        GenerationError::NotAnEnumeration { capability, name } => {
            &&& capability == cap
            &&& name@ == def.name@
            &&& !(def.kind is Enumeration)
        },
        GenerationError::NonUnitVariant { capability, name, variant_name } => {
            &&& capability == cap
            &&& name@ == def.name@
            &&& def.kind is Enumeration
            &&& first_non_unit(def.variants@) matches Some(i)
                && variant_name@ == def.variants@[i].ident@
        },
    }
}

/// Checks that the definition is an enumeration made only of unit
/// variants.  Succeeds exactly on that shape; otherwise returns the
/// descriptive error, and generation must not proceed.
pub fn validate(def: &TypeDefinition, cap: Capability) -> (r: Result<(), GenerationError>)
    ensures
        r is Ok <==> is_unit_enumeration(*def),
        r matches Err(e) ==> error_describes(*def, cap, e),
{
    if !(def.kind == TypeKind::Enumeration) {
        return Err(GenerationError::NotAnEnumeration {
            capability: cap,
            name: def.name.clone(),
        });
    }
    let n = def.variants.len();
    for idx in 0..n
        invariant
            n == def.variants@.len(),
            def.kind is Enumeration,
            forall|j: int| 0 <= j < idx ==> def.variants@[j].field_kind is Unit,
    {
        if !(def.variants[idx].field_kind == FieldKind::Unit) {
            proof {
                lemma_first_non_unit(def.variants@);
            }
            return Err(GenerationError::NonUnitVariant {
                capability: cap,
                name: def.name.clone(),
                variant_name: def.variants[idx].ident.clone(),
            });
        }
    }
    Ok(())
}

} // verus!
