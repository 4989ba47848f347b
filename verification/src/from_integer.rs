//! From-integer generator: builds the fallible integer-to-value
//! conversion.  The generated algorithm is a sequential chain of
//! equality tests, one per variant in declaration order, with
//! first-match-wins semantics; when no test matches, the result is "no
//! value".  A second entry point accepts an unsigned 64-bit integer and
//! delegates by reinterpreting it as signed: values beyond the signed
//! positive range wrap around silently, a documented boundary behavior
//! rather than an error.

use vstd::prelude::*;
use crate::discriminant::{
    clauses_resolve, discriminant_seq, lemma_implicit_resolved, resolve_discriminants,
    resolved_discriminant,
};
use crate::model::{Clause, FromIntegerImpl, TypeDefinition, Variant, is_unit_enumeration};

verus! {

/// The index of the first value in the chain equal to `n`, if any:
/// the meaning of the generated chain of equality tests.
pub open spec fn first_match(values: Seq<i64>, n: int) -> Option<int>
    decreases values.len(),
{
    if values.len() == 0 {
        None
    } else if values[0] as int == n {
        Some(0int)
    } else {
        match first_match(values.drop_first(), n) {
            Some(i) => Some(i + 1),
            None => None,
        }
    }
}

/// First-match-wins: when the chain matches, it yields the earliest
/// value equal to `n` — every earlier value differs — and when it
/// yields nothing, no value in the chain equals `n`.  In particular,
/// of two variants sharing a discriminant, the conversion produces the
/// first-declared one, and the later one is unreachable by it.
pub proof fn lemma_first_match(values: Seq<i64>, n: int)
    ensures
        match first_match(values, n) {
            Some(i) => {
                &&& 0 <= i < values.len()
                &&& values[i] as int == n
                &&& forall|j: int| 0 <= j < i ==> values[j] as int != n
            },
            None => forall|j: int| 0 <= j < values.len() ==> values[j] as int != n,
        },
    decreases values.len(),
{
    if values.len() == 0 {
    } else if values[0] as int == n {
    } else {
        lemma_first_match(values.drop_first(), n);
        assert(forall|j: int| 0 < j < values.len() ==> values[j] == values.drop_first()[j - 1]);
    }
}

/// In a chain whose values are the consecutive integers starting at
/// `off`, the search for the value at index `i` finds exactly index
/// `i`: consecutive values are pairwise distinct, so the first match is
/// the only match.
proof fn lemma_first_match_consecutive(values: Seq<i64>, off: int, i: int)
    requires
        forall|j: int| 0 <= j < values.len() ==> values[j] as int == off + j,
        0 <= i < values.len(),
    ensures
        first_match(values, off + i) == Some(i),
    decreases values.len(),
{
    if i > 0 {
        assert(forall|j: int|
            0 <= j < values.drop_first().len() ==> values.drop_first()[j] == values[j + 1]);
        lemma_first_match_consecutive(values.drop_first(), off + 1, i - 1);
    }
}

/// Round trip: in an enumeration of unit variants with no explicit
/// discriminant anywhere, converting the variant at ordinal `i` to its
/// integer and back yields that same variant.  The value-to-integer
/// conversion produces `resolved_discriminant(vs, i)`, and the
/// integer-to-value chain over the same variants maps it back to index
/// `i`.  (An enumeration of more than `2^63` variants would wrap and
/// repeat discriminants; no realizable variant list comes near that.)
pub proof fn lemma_implicit_round_trip(vs: Seq<Variant>, i: int)
    requires
        0 <= i < vs.len(),
        vs.len() <= 0x8000_0000_0000_0000,
        forall|j: int| 0 <= j < vs.len() ==> vs[j].discriminant is None,
    ensures
        first_match(discriminant_seq(vs), resolved_discriminant(vs, i) as int) == Some(i),
{
    assert forall|j: int| 0 <= j < discriminant_seq(vs).len() implies discriminant_seq(
        vs,
    )[j] as int == 0 + j by {
        lemma_implicit_resolved(vs, j);
    }
    lemma_first_match_consecutive(discriminant_seq(vs), 0, i);
    lemma_implicit_resolved(vs, i);
}

/// A zero-variant enumeration converts no integer at all: the generated
/// chain has no test, so the integer-to-value conversion yields "no
/// value" for every input.  (No value of such a type exists, so the
/// value-to-integer conversion can never be invoked in the first
/// place.)
pub proof fn lemma_empty_from_integer(n: int)
    ensures
        first_match(Seq::<i64>::empty(), n) is None,
{
}

/// The reinterpretation of an unsigned 64-bit integer as a signed one:
/// values up to the signed maximum keep their magnitude, larger values
/// wrap around to the negatives.
pub open spec fn spec_widen_unsigned(n: u64) -> int {
    if n <= i64::MAX as u64 {
        n as int
    } else {
        n as int - 0x1_0000_0000_0000_0000
    }
}

/// Reinterprets the bit pattern of an unsigned 64-bit integer as a
/// signed 64-bit integer, without range checking.
pub fn widen_unsigned(n: u64) -> (r: i64)
    ensures
        r as int == spec_widen_unsigned(n),
{
    if n <= i64::MAX as u64 {
        n as i64
    } else {
        let m: i64 = (n - 0x8000_0000_0000_0000u64) as i64;
        m + i64::MIN
    }
}

impl FromIntegerImpl {
    /// The chain's test values: each clause's resolved discriminant, in
    /// declaration order.
    pub open spec fn values(self) -> Seq<i64> {
        self.clauses@.map_values(|c: Clause| c.value)
    }

    /// The generated signed conversion: the first clause, in
    /// declaration order, whose discriminant equals `n`, or no value.
    /// The result indexes the matching clause.
    pub fn from_i64(&self, n: i64) -> (r: Option<usize>)
        ensures
            r is Some <==> first_match(self.values(), n as int) is Some,
            r matches Some(i) ==> first_match(self.values(), n as int) == Some(i as int),
    {
        let len = self.clauses.len();
        for idx in 0..len
            invariant
                len == self.clauses@.len(),
                forall|j: int| 0 <= j < idx ==> self.values()[j] as int != n as int,
        {
            assert(self.values()[idx as int] == self.clauses@[idx as int].value);
            if self.clauses[idx].value == n {
                proof {
                    lemma_first_match(self.values(), n as int);
                }
                return Some(idx);
            }
        }
        proof {
            lemma_first_match(self.values(), n as int);
        }
        None
    }

    /// The generated unsigned conversion: reinterprets the input as a
    /// signed 64-bit integer and delegates to the signed conversion, so
    /// it equals the signed conversion at the reinterpreted input.
    pub fn from_u64(&self, n: u64) -> (r: Option<usize>)
        ensures
            r is Some <==> first_match(self.values(), spec_widen_unsigned(n)) is Some,
            r matches Some(i) ==> first_match(self.values(), spec_widen_unsigned(n)) == Some(
                i as int,
            ),
    {
        let signed = widen_unsigned(n);
        self.from_i64(signed)
    }
}

/// Builds the integer-to-value conversion for a validated definition:
/// one clause per variant, in declaration order, pairing the variant's
/// identifier with its resolved discriminant.
pub fn build_from_integer(def: &TypeDefinition) -> (r: FromIntegerImpl)
    requires
        is_unit_enumeration(*def),
    ensures
        r.name@ == def.name@,
        clauses_resolve(def.variants@, r.clauses@),
{
    let values = resolve_discriminants(&def.variants);
    let n = def.variants.len();
    let mut clauses: Vec<Clause> = Vec::new();
    for idx in 0..n
        invariant
            n == def.variants@.len(),
            values@ == discriminant_seq(def.variants@),
            clauses@.len() == idx,
            forall|i: int| 0 <= i < idx ==> {
                &&& (#[trigger] clauses@[i]).variant_ident@ == def.variants@[i].ident@
                &&& clauses@[i].value == resolved_discriminant(def.variants@, i)
            },
    {
        clauses.push(Clause {
            variant_ident: def.variants[idx].ident.clone(),
            value: values[idx],
        });
    }
    FromIntegerImpl { name: def.name.clone(), clauses }
}

} // verus!
