//! To-integer generator: builds the value-to-integer conversion.  The
//! generated algorithm is an exhaustive case analysis over all variants,
//! each case producing its resolved discriminant wrapped in "value
//! present"; for a zero-variant enumeration the case analysis has no
//! cases at all and can never be invoked, the input type being
//! uninhabited.  A derived unsigned accessor reinterprets the signed
//! result as unsigned, so negative discriminants surface as large
//! unsigned values — a documented boundary behavior rather than an
//! error.

use vstd::prelude::*;
use crate::discriminant::{clauses_resolve, discriminant_seq, resolved_discriminant, resolve_discriminants};
use crate::model::{Clause, ToIntegerImpl, TypeDefinition, is_unit_enumeration};

verus! {

/// The reinterpretation of a signed 64-bit integer as an unsigned one:
/// non-negative values keep their magnitude, negative values wrap
/// around to the top of the unsigned range.
pub open spec fn spec_reinterpret_signed(x: i64) -> int {
    if x >= 0 {
        x as int
    } else {
        x as int + 0x1_0000_0000_0000_0000
    }
}

/// Reinterprets the bit pattern of a signed 64-bit integer as an
/// unsigned 64-bit integer, without range checking.
pub fn reinterpret_signed(x: i64) -> (r: u64)
    ensures
        r as int == spec_reinterpret_signed(x),
{
    if x >= 0 {
        x as u64
    } else {
        let m: u64 = (x - i64::MIN) as u64;
        m + 0x8000_0000_0000_0000u64
    }
}

impl ToIntegerImpl {
    /// The discriminants produced by the case analysis, in declaration
    /// order.
    pub open spec fn values(self) -> Seq<i64> {
        self.arms@.map_values(|c: Clause| c.value)
    }

    /// The generated signed conversion: the case analysis maps the
    /// variant at index `v` to its resolved discriminant, wrapped in
    /// "value present".  A value of the enumeration is one of its
    /// variants, so `v` must index an arm: for a zero-variant
    /// enumeration no such `v` exists and the conversion can never be
    /// invoked.
    pub fn to_i64(&self, v: usize) -> (r: Option<i64>)
        requires
            v < self.arms@.len(),
        ensures
            r == Some(self.values()[v as int]),
    {
        Some(self.arms[v].value)
    }

    /// The derived unsigned conversion: maps the signed result through
    /// the widening/reinterpreting cast.
    pub fn to_u64(&self, v: usize) -> (r: Option<u64>)
        requires
            v < self.arms@.len(),
        ensures
            r matches Some(u) && u as int == spec_reinterpret_signed(self.values()[v as int]),
    {
        let signed = self.to_i64(v);
        match signed {
            Some(x) => Some(reinterpret_signed(x)),
            None => None,
        }
    }
}

/// Builds the value-to-integer conversion for a validated definition:
/// one arm per variant, in declaration order, pairing the variant's
/// identifier with its resolved discriminant.
pub fn build_to_integer(def: &TypeDefinition) -> (r: ToIntegerImpl)
    requires
        is_unit_enumeration(*def),
    ensures
        r.name@ == def.name@,
        clauses_resolve(def.variants@, r.arms@),
{
    let values = resolve_discriminants(&def.variants);
    let n = def.variants.len();
    let mut arms: Vec<Clause> = Vec::new();
    for idx in 0..n
        invariant
            n == def.variants@.len(),
            values@ == discriminant_seq(def.variants@),
            arms@.len() == idx,
            forall|i: int| 0 <= i < idx ==> {
                &&& (#[trigger] arms@[i]).variant_ident@ == def.variants@[i].ident@
                &&& arms@[i].value == resolved_discriminant(def.variants@, i)
            },
    {
        arms.push(Clause {
            variant_ident: def.variants[idx].ident.clone(),
            value: values[idx],
        });
    }
    ToIntegerImpl { name: def.name.clone(), arms }
}

} // verus!
