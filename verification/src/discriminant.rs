//! Discriminant resolution: each variant's 64-bit signed discriminant is
//! its explicit value when one was declared, and otherwise one greater
//! than the previous variant's resolved value, starting at 0 for the
//! first variant — the standard enumeration-numbering semantics.  The
//! successor wraps around the signed 64-bit range, so resolution is
//! total over every declared sequence of variants.

use vstd::prelude::*;
use crate::model::{Clause, Variant};

verus! {

/// The value one greater than `prev` in the signed 64-bit range,
/// wrapping at the top.
pub open spec fn spec_successor(prev: i64) -> i64 {
    if prev == i64::MAX {
        i64::MIN
    } else {
        (prev + 1) as i64
    }
}

/// The resolved discriminant of the variant at index `i`: its explicit
/// value if present, and otherwise the successor of the previous
/// variant's resolved value (0 for the first variant).
pub open spec fn resolved_discriminant(vs: Seq<Variant>, i: int) -> i64
    decreases i,
{
    if i <= 0 {
        match vs[0].discriminant {
            Some(d) => d,
            None => 0,
        }
    } else {
        match vs[i].discriminant {
            Some(d) => d,
            None => spec_successor(resolved_discriminant(vs, i - 1)),
        }
    }
}

/// The resolved discriminants of all variants, in declaration order.
pub open spec fn discriminant_seq(vs: Seq<Variant>) -> Seq<i64> {
    Seq::new(vs.len(), |i: int| resolved_discriminant(vs, i))
}

/// True when the generated clauses describe the variants exactly: one
/// clause per variant, in declaration order, pairing the variant's
/// identifier with its resolved discriminant.
pub open spec fn clauses_resolve(vs: Seq<Variant>, cs: Seq<Clause>) -> bool {
    &&& cs.len() == vs.len()
    &&& forall|i: int| 0 <= i < vs.len() ==> {
        &&& (#[trigger] cs[i]).variant_ident@ == vs[i].ident@
        &&& cs[i].value == resolved_discriminant(vs, i)
    }
}

/// With no explicit discriminant anywhere, the resolved discriminants
/// are the declaration ordinals themselves: the variant at index `i`
/// resolves to `i`, as long as `i` stays within the signed 64-bit
/// range.
pub proof fn lemma_implicit_resolved(vs: Seq<Variant>, i: int)
    requires
        0 <= i < vs.len(),
        i < 0x8000_0000_0000_0000,
        forall|j: int| 0 <= j < vs.len() ==> vs[j].discriminant is None,
    ensures
        resolved_discriminant(vs, i) as int == i,
    decreases i,
{
    if i > 0 {
        lemma_implicit_resolved(vs, i - 1);
    }
}

/// Resolves every variant's discriminant, in declaration order.
pub fn resolve_discriminants(variants: &Vec<Variant>) -> (r: Vec<i64>)
    ensures
        r@ == discriminant_seq(variants@),
{
    let n = variants.len();
    let mut r: Vec<i64> = Vec::new();
    let mut prev: i64 = 0;
    for idx in 0..n
        invariant
            n == variants@.len(),
            r@.len() == idx,
            forall|j: int| 0 <= j < idx ==> r@[j] == resolved_discriminant(variants@, j),
            idx > 0 ==> prev == resolved_discriminant(variants@, idx - 1),
    {
        let d: i64 = match variants[idx].discriminant {
            Some(d) => d,
            None => {
                if idx == 0 {
                    0
                } else if prev == i64::MAX {
                    i64::MIN
                } else {
                    prev + 1
                }
            },
        };
        r.push(d);
        prev = d;
    }
    proof {
        assert(r@ =~= discriminant_seq(variants@));
    }
    r
}

} // verus!
